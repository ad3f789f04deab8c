//! The opcode table: every byte value names one operation, one addressing
//! mode, a base cycle count and whether the operation is read-modify-write.
//!
//! The table is specified by structure rather than by enumeration. An opcode
//! byte splits into a row (bits 7-5), a column (bits 4-2) and a group
//! (bits 1-0); the operation and the addressing mode follow from those three
//! numbers, and the cycle count follows from the operation and the mode.
use vstd::prelude::*;

verus! {

/// How an instruction finds its operand.
///
/// The flag carried by the three page-sensitive modes says whether the
/// instruction takes one more cycle only when indexing crosses a page
/// (`true`, the reading instructions) or always pays for it in its base count
/// (`false`, the storing and read-modify-write instructions).
#[derive(Clone, Copy, Debug, PartialEq, Eq, Structural)]
pub enum AddrMode {
    Implied,
    Accumulator,
    Immediate,
    Absolute,
    AbsoluteIndexedX(bool),
    AbsoluteIndexedY(bool),
    Zeropage,
    ZeropageIndexedX,
    ZeropageIndexedY,
    Relative,
    Indirect,
    IndexedIndirectX,
    IndirectIndexedY(bool),
}

/// The operations of the processor, documented and undocumented.
#[allow(clippy::upper_case_acronyms)]
#[derive(Clone, Copy, Debug, PartialEq, Eq, Structural)]
pub enum Op {
    // Load and store
    LDA,
    LDX,
    LDY,
    STA,
    STX,
    STY,
    // Register transfers
    TAX,
    TAY,
    TXA,
    TYA,
    // Stack operations
    TSX,
    TXS,
    PHA,
    PHP,
    PLA,
    PLP,
    // Logical
    AND,
    EOR,
    ORA,
    BIT,
    // Arithmetic
    ADC,
    SBC,
    CMP,
    CPX,
    CPY,
    // Increment and decrement
    INC,
    INX,
    INY,
    DEC,
    DEX,
    DEY,
    // Shifts
    ASL,
    LSR,
    ROL,
    ROR,
    // Jumps and calls
    JMP,
    JSR,
    RTS,
    // Branches
    BCC,
    BCS,
    BEQ,
    BMI,
    BNE,
    BPL,
    BVC,
    BVS,
    // Status flag changes
    CLC,
    CLD,
    CLI,
    CLV,
    SEC,
    SED,
    SEI,
    // System
    BRK,
    NOP,
    RTI,
    // Undocumented
    HLT,
    SLO,
    ANC,
    RLA,
    SRE,
    RRA,
    ALR,
    SAX,
    XAA,
    AHX,
    TAS,
    SHY,
    SHX,
    ARR,
    LAX,
    LAS,
    DCP,
    AXS,
    ISC,
}

impl AddrMode {
    /// Whether the instruction pays for a page crossing only when one happens.
    pub open spec fn extra_cycle_on_cross(self) -> bool {
        match self {
            AddrMode::AbsoluteIndexedX(extra) => extra,
            AddrMode::AbsoluteIndexedY(extra) => extra,
            AddrMode::IndirectIndexedY(extra) => extra,
            _ => false,
        }
    }

    /// The number of operand bytes that follow the opcode byte.
    pub open spec fn operand_len(self) -> u8 {
        match self {
            AddrMode::Implied | AddrMode::Accumulator => 0,
            AddrMode::Absolute
            | AddrMode::AbsoluteIndexedX(_)
            | AddrMode::AbsoluteIndexedY(_)
            | AddrMode::Indirect => 2,
            _ => 1,
        }
    }
}

impl Op {
    /// The operations that write a register to memory without reading it.
    pub open spec fn is_store(self) -> bool {
        self is STA || self is STX || self is STY || self is SAX || self is AHX || self is TAS
            || self is SHY || self is SHX
    }

    /// The operations that read a byte, change it and write it back.
    pub open spec fn is_modify(self) -> bool {
        self is ASL || self is LSR || self is ROL || self is ROR || self is INC || self is DEC
            || self is SLO || self is RLA || self is SRE || self is RRA || self is DCP
            || self is ISC
    }

    /// The eight conditional branches.
    pub open spec fn is_branch(self) -> bool {
        self is BCC || self is BCS || self is BEQ || self is BMI || self is BNE || self is BPL
            || self is BVC || self is BVS
    }

    /// The operations that work on the address of their operand: the jumps,
    /// the branches, and the stores that mix in the high byte of the address.
    pub open spec fn needs_address(self) -> bool {
        self is JMP || self is JSR || self.is_branch() || self is AHX || self is TAS
            || self is SHY || self is SHX
    }

    /// The operations that read the value of their operand and store nothing
    /// to it.
    pub open spec fn reads_value(self) -> bool {
        self is LDA || self is LDX || self is LDY || self is AND || self is EOR || self is ORA
            || self is BIT || self is ADC || self is SBC || self is CMP || self is CPX
            || self is CPY || self is ANC || self is ALR || self is ARR || self is XAA
            || self is AXS || self is LAX || self is LAS
    }

    /// The operations that add or subtract, and whose result therefore
    /// depends on the Decimal flag.
    pub open spec fn uses_adder(self) -> bool {
        self is ADC || self is SBC || self is RRA || self is ISC || self is ARR
    }

    /// The three-letter name of the operation.
    pub open spec fn name(self) -> Seq<char> {
        match self {
            Op::LDA => "LDA"@,
            Op::LDX => "LDX"@,
            Op::LDY => "LDY"@,
            Op::STA => "STA"@,
            Op::STX => "STX"@,
            Op::STY => "STY"@,
            Op::TAX => "TAX"@,
            Op::TAY => "TAY"@,
            Op::TXA => "TXA"@,
            Op::TYA => "TYA"@,
            Op::TSX => "TSX"@,
            Op::TXS => "TXS"@,
            Op::PHA => "PHA"@,
            Op::PHP => "PHP"@,
            Op::PLA => "PLA"@,
            Op::PLP => "PLP"@,
            Op::AND => "AND"@,
            Op::EOR => "EOR"@,
            Op::ORA => "ORA"@,
            Op::BIT => "BIT"@,
            Op::ADC => "ADC"@,
            Op::SBC => "SBC"@,
            Op::CMP => "CMP"@,
            Op::CPX => "CPX"@,
            Op::CPY => "CPY"@,
            Op::INC => "INC"@,
            Op::INX => "INX"@,
            Op::INY => "INY"@,
            Op::DEC => "DEC"@,
            Op::DEX => "DEX"@,
            Op::DEY => "DEY"@,
            Op::ASL => "ASL"@,
            Op::LSR => "LSR"@,
            Op::ROL => "ROL"@,
            Op::ROR => "ROR"@,
            Op::JMP => "JMP"@,
            Op::JSR => "JSR"@,
            Op::RTS => "RTS"@,
            Op::BCC => "BCC"@,
            Op::BCS => "BCS"@,
            Op::BEQ => "BEQ"@,
            Op::BMI => "BMI"@,
            Op::BNE => "BNE"@,
            Op::BPL => "BPL"@,
            Op::BVC => "BVC"@,
            Op::BVS => "BVS"@,
            Op::CLC => "CLC"@,
            Op::CLD => "CLD"@,
            Op::CLI => "CLI"@,
            Op::CLV => "CLV"@,
            Op::SEC => "SEC"@,
            Op::SED => "SED"@,
            Op::SEI => "SEI"@,
            Op::BRK => "BRK"@,
            Op::NOP => "NOP"@,
            Op::RTI => "RTI"@,
            Op::HLT => "HLT"@,
            Op::SLO => "SLO"@,
            Op::ANC => "ANC"@,
            Op::RLA => "RLA"@,
            Op::SRE => "SRE"@,
            Op::RRA => "RRA"@,
            Op::ALR => "ALR"@,
            Op::SAX => "SAX"@,
            Op::XAA => "XAA"@,
            Op::AHX => "AHX"@,
            Op::TAS => "TAS"@,
            Op::SHY => "SHY"@,
            Op::SHX => "SHX"@,
            Op::ARR => "ARR"@,
            Op::LAX => "LAX"@,
            Op::LAS => "LAS"@,
            Op::DCP => "DCP"@,
            Op::AXS => "AXS"@,
            Op::ISC => "ISC"@,
        }
    }

    /// The three-letter mnemonic of the operation, for traces and listings.
    pub fn mnemonic(&self) -> (text: &'static str)
        ensures
            text@ == self.name(),
            text@.len() == 3,
    {
        proof {
            lemma_name_len(*self);
        }
        match self {
            Op::LDA => "LDA",
            Op::LDX => "LDX",
            Op::LDY => "LDY",
            Op::STA => "STA",
            Op::STX => "STX",
            Op::STY => "STY",
            Op::TAX => "TAX",
            Op::TAY => "TAY",
            Op::TXA => "TXA",
            Op::TYA => "TYA",
            Op::TSX => "TSX",
            Op::TXS => "TXS",
            Op::PHA => "PHA",
            Op::PHP => "PHP",
            Op::PLA => "PLA",
            Op::PLP => "PLP",
            Op::AND => "AND",
            Op::EOR => "EOR",
            Op::ORA => "ORA",
            Op::BIT => "BIT",
            Op::ADC => "ADC",
            Op::SBC => "SBC",
            Op::CMP => "CMP",
            Op::CPX => "CPX",
            Op::CPY => "CPY",
            Op::INC => "INC",
            Op::INX => "INX",
            Op::INY => "INY",
            Op::DEC => "DEC",
            Op::DEX => "DEX",
            Op::DEY => "DEY",
            Op::ASL => "ASL",
            Op::LSR => "LSR",
            Op::ROL => "ROL",
            Op::ROR => "ROR",
            Op::JMP => "JMP",
            Op::JSR => "JSR",
            Op::RTS => "RTS",
            Op::BCC => "BCC",
            Op::BCS => "BCS",
            Op::BEQ => "BEQ",
            Op::BMI => "BMI",
            Op::BNE => "BNE",
            Op::BPL => "BPL",
            Op::BVC => "BVC",
            Op::BVS => "BVS",
            Op::CLC => "CLC",
            Op::CLD => "CLD",
            Op::CLI => "CLI",
            Op::CLV => "CLV",
            Op::SEC => "SEC",
            Op::SED => "SED",
            Op::SEI => "SEI",
            Op::BRK => "BRK",
            Op::NOP => "NOP",
            Op::RTI => "RTI",
            Op::HLT => "HLT",
            Op::SLO => "SLO",
            Op::ANC => "ANC",
            Op::RLA => "RLA",
            Op::SRE => "SRE",
            Op::RRA => "RRA",
            Op::ALR => "ALR",
            Op::SAX => "SAX",
            Op::XAA => "XAA",
            Op::AHX => "AHX",
            Op::TAS => "TAS",
            Op::SHY => "SHY",
            Op::SHX => "SHX",
            Op::ARR => "ARR",
            Op::LAX => "LAX",
            Op::LAS => "LAS",
            Op::DCP => "DCP",
            Op::AXS => "AXS",
            Op::ISC => "ISC",
        }
    }
}

/// Every mnemonic has exactly three characters.
pub proof fn lemma_name_len(op: Op)
    ensures
        op.name().len() == 3,
{
    reveal_strlit("LDA");
    reveal_strlit("LDX");
    reveal_strlit("LDY");
    reveal_strlit("STA");
    reveal_strlit("STX");
    reveal_strlit("STY");
    reveal_strlit("TAX");
    reveal_strlit("TAY");
    reveal_strlit("TXA");
    reveal_strlit("TYA");
    reveal_strlit("TSX");
    reveal_strlit("TXS");
    reveal_strlit("PHA");
    reveal_strlit("PHP");
    reveal_strlit("PLA");
    reveal_strlit("PLP");
    reveal_strlit("AND");
    reveal_strlit("EOR");
    reveal_strlit("ORA");
    reveal_strlit("BIT");
    reveal_strlit("ADC");
    reveal_strlit("SBC");
    reveal_strlit("CMP");
    reveal_strlit("CPX");
    reveal_strlit("CPY");
    reveal_strlit("INC");
    reveal_strlit("INX");
    reveal_strlit("INY");
    reveal_strlit("DEC");
    reveal_strlit("DEX");
    reveal_strlit("DEY");
    reveal_strlit("ASL");
    reveal_strlit("LSR");
    reveal_strlit("ROL");
    reveal_strlit("ROR");
    reveal_strlit("JMP");
    reveal_strlit("JSR");
    reveal_strlit("RTS");
    reveal_strlit("BCC");
    reveal_strlit("BCS");
    reveal_strlit("BEQ");
    reveal_strlit("BMI");
    reveal_strlit("BNE");
    reveal_strlit("BPL");
    reveal_strlit("BVC");
    reveal_strlit("BVS");
    reveal_strlit("CLC");
    reveal_strlit("CLD");
    reveal_strlit("CLI");
    reveal_strlit("CLV");
    reveal_strlit("SEC");
    reveal_strlit("SED");
    reveal_strlit("SEI");
    reveal_strlit("BRK");
    reveal_strlit("NOP");
    reveal_strlit("RTI");
    reveal_strlit("HLT");
    reveal_strlit("SLO");
    reveal_strlit("ANC");
    reveal_strlit("RLA");
    reveal_strlit("SRE");
    reveal_strlit("RRA");
    reveal_strlit("ALR");
    reveal_strlit("SAX");
    reveal_strlit("XAA");
    reveal_strlit("AHX");
    reveal_strlit("TAS");
    reveal_strlit("SHY");
    reveal_strlit("SHX");
    reveal_strlit("ARR");
    reveal_strlit("LAX");
    reveal_strlit("LAS");
    reveal_strlit("DCP");
    reveal_strlit("AXS");
    reveal_strlit("ISC");
}

/// Bits 7-5 of an opcode byte.
pub open spec fn row(opcode: u8) -> int {
    opcode as int / 32
}

/// Bits 4-2 of an opcode byte.
pub open spec fn column(opcode: u8) -> int {
    (opcode as int / 4) % 8
}

/// Bits 1-0 of an opcode byte.
pub open spec fn group(opcode: u8) -> int {
    opcode as int % 4
}

/// The entry of an eight-entry row table.
pub open spec fn pick(
    index: int,
    e0: Op,
    e1: Op,
    e2: Op,
    e3: Op,
    e4: Op,
    e5: Op,
    e6: Op,
    e7: Op,
) -> Op {
    if index == 0 {
        e0
    } else if index == 1 {
        e1
    } else if index == 2 {
        e2
    } else if index == 3 {
        e3
    } else if index == 4 {
        e4
    } else if index == 5 {
        e5
    } else if index == 6 {
        e6
    } else {
        e7
    }
}

/// The operation an opcode byte selects.
pub open spec fn operation_of(opcode: u8) -> Op {
    let a = row(opcode);
    let b = column(opcode);
    let c = group(opcode);
    if c == 1 {
        // The accumulator group; storing an immediate does nothing.
        if a == 4 && b == 2 {
            Op::NOP
        } else {
            pick(a, Op::ORA, Op::AND, Op::EOR, Op::ADC, Op::STA, Op::LDA, Op::CMP, Op::SBC)
        }
    } else if c == 2 {
        // The shift and X-register group.
        if b == 4 {
            Op::HLT
        } else if b == 0 {
            if a < 4 {
                Op::HLT
            } else if a == 5 {
                Op::LDX
            } else {
                Op::NOP
            }
        } else if b == 2 {
            pick(a, Op::ASL, Op::ROL, Op::LSR, Op::ROR, Op::TXA, Op::TAX, Op::DEX, Op::NOP)
        } else if b == 6 {
            pick(a, Op::NOP, Op::NOP, Op::NOP, Op::NOP, Op::TXS, Op::TSX, Op::NOP, Op::NOP)
        } else if b == 7 && a == 4 {
            Op::SHX
        } else {
            pick(a, Op::ASL, Op::ROL, Op::LSR, Op::ROR, Op::STX, Op::LDX, Op::DEC, Op::INC)
        }
    } else if c == 3 {
        // The undocumented group, which runs the two groups above at once.
        if b == 2 {
            pick(a, Op::ANC, Op::ANC, Op::ALR, Op::ARR, Op::XAA, Op::LAX, Op::AXS, Op::SBC)
        } else if a == 4 && (b == 4 || b == 7) {
            Op::AHX
        } else if a == 4 && b == 6 {
            Op::TAS
        } else if a == 5 && b == 6 {
            Op::LAS
        } else {
            pick(a, Op::SLO, Op::RLA, Op::SRE, Op::RRA, Op::SAX, Op::LAX, Op::DCP, Op::ISC)
        }
    } else {
        // The control group.
        if b == 0 {
            pick(a, Op::BRK, Op::JSR, Op::RTI, Op::RTS, Op::NOP, Op::LDY, Op::CPY, Op::CPX)
        } else if b == 1 {
            pick(a, Op::NOP, Op::BIT, Op::NOP, Op::NOP, Op::STY, Op::LDY, Op::CPY, Op::CPX)
        } else if b == 2 {
            pick(a, Op::PHP, Op::PLP, Op::PHA, Op::PLA, Op::DEY, Op::TAY, Op::INY, Op::INX)
        } else if b == 3 {
            pick(a, Op::NOP, Op::BIT, Op::JMP, Op::JMP, Op::STY, Op::LDY, Op::CPY, Op::CPX)
        } else if b == 4 {
            pick(a, Op::BPL, Op::BMI, Op::BVC, Op::BVS, Op::BCC, Op::BCS, Op::BNE, Op::BEQ)
        } else if b == 5 {
            pick(a, Op::NOP, Op::NOP, Op::NOP, Op::NOP, Op::STY, Op::LDY, Op::NOP, Op::NOP)
        } else if b == 6 {
            pick(a, Op::CLC, Op::SEC, Op::CLI, Op::SEI, Op::TYA, Op::CLV, Op::CLD, Op::SED)
        } else {
            pick(a, Op::NOP, Op::NOP, Op::NOP, Op::NOP, Op::SHY, Op::LDY, Op::NOP, Op::NOP)
        }
    }
}

/// The addressing mode an opcode byte selects.
pub open spec fn mode_of(opcode: u8) -> AddrMode {
    let a = row(opcode);
    let b = column(opcode);
    let c = group(opcode);
    let op = operation_of(opcode);
    // Reading instructions pay for a page crossing only when it happens.
    let extra = !op.is_store() && !op.is_modify();
    // Rows 4 and 5 of the X-register groups index by Y, X being the operand.
    let by_y = (a == 4 || a == 5) && (c == 2 || c == 3);
    if b == 1 {
        AddrMode::Zeropage
    } else if b == 3 {
        if opcode == 0x6C {
            AddrMode::Indirect
        } else {
            AddrMode::Absolute
        }
    } else if b == 5 {
        if by_y {
            AddrMode::ZeropageIndexedY
        } else {
            AddrMode::ZeropageIndexedX
        }
    } else if b == 7 {
        if by_y {
            AddrMode::AbsoluteIndexedY(extra)
        } else {
            AddrMode::AbsoluteIndexedX(extra)
        }
    } else if c == 1 || c == 3 {
        if b == 0 {
            AddrMode::IndexedIndirectX
        } else if b == 2 {
            AddrMode::Immediate
        } else if b == 4 {
            AddrMode::IndirectIndexedY(extra)
        } else {
            AddrMode::AbsoluteIndexedY(extra)
        }
    } else if c == 2 {
        if b == 0 && a >= 4 {
            AddrMode::Immediate
        } else if b == 2 && a < 4 {
            AddrMode::Accumulator
        } else {
            AddrMode::Implied
        }
    } else {
        if b == 0 && a == 1 {
            AddrMode::Absolute
        } else if b == 0 && a >= 4 {
            AddrMode::Immediate
        } else if b == 4 {
            AddrMode::Relative
        } else {
            AddrMode::Implied
        }
    }
}

/// Whether an instruction performs the read, dummy write and final write of a
/// read-modify-write: a modifying operation on a memory operand.
pub open spec fn is_read_modify_write(op: Op, mode: AddrMode) -> bool {
    op.is_modify() && !(mode is Accumulator)
}

/// The base cycle count of an instruction, by the published timing rules:
/// the cost of reaching the operand, two more cycles for a read-modify-write,
/// and the fixed costs of the stack, jump and interrupt instructions.
pub open spec fn reference_cycles(op: Op, mode: AddrMode) -> u8 {
    let modify: u8 = if is_read_modify_write(op, mode) {
        2
    } else {
        0
    };
    match mode {
        AddrMode::Implied => {
            if op is BRK {
                7
            } else if op is RTI || op is RTS {
                6
            } else if op is PLA || op is PLP {
                4
            } else if op is PHA || op is PHP {
                3
            } else if op is HLT {
                1
            } else {
                2
            }
        },
        AddrMode::Accumulator | AddrMode::Immediate | AddrMode::Relative => 2,
        AddrMode::Zeropage => (3 + modify) as u8,
        AddrMode::ZeropageIndexedX | AddrMode::ZeropageIndexedY => (4 + modify) as u8,
        AddrMode::Absolute => {
            if op is JMP {
                3
            } else if op is JSR {
                6
            } else {
                (4 + modify) as u8
            }
        },
        AddrMode::Indirect => 5,
        AddrMode::AbsoluteIndexedX(extra) | AddrMode::AbsoluteIndexedY(extra) => {
            if extra {
                4
            } else {
                (5 + modify) as u8
            }
        },
        AddrMode::IndexedIndirectX => (6 + modify) as u8,
        AddrMode::IndirectIndexedY(extra) => {
            if extra {
                5
            } else {
                (6 + modify) as u8
            }
        },
    }
}

/// The table entry of an opcode byte: operation, base cycle count,
/// read-modify-write flag and addressing mode.
pub open spec fn descriptor(opcode: u8) -> (Op, u8, bool, AddrMode) {
    let op = operation_of(opcode);
    let mode = mode_of(opcode);
    (op, reference_cycles(op, mode), is_read_modify_write(op, mode), mode)
}

/// Looks an opcode byte up in the table.
///
/// The table is total: every byte value, the undocumented and the halting
/// ones included, has an entry, so the result is never `None`.
pub fn get_instruction(opcode: u8) -> (entry: Option<(Op, u8, bool, AddrMode)>)
    ensures
        entry == Some(descriptor(opcode)),
{
    Some(
        match opcode {
            0x00 => (Op::BRK, 7, false, AddrMode::Implied),
            0x01 => (Op::ORA, 6, false, AddrMode::IndexedIndirectX),
            0x02 => (Op::HLT, 1, false, AddrMode::Implied),
            0x03 => (Op::SLO, 8, true, AddrMode::IndexedIndirectX),
            0x04 => (Op::NOP, 3, false, AddrMode::Zeropage),
            0x05 => (Op::ORA, 3, false, AddrMode::Zeropage),
            0x06 => (Op::ASL, 5, true, AddrMode::Zeropage),
            0x07 => (Op::SLO, 5, true, AddrMode::Zeropage),
            0x08 => (Op::PHP, 3, false, AddrMode::Implied),
            0x09 => (Op::ORA, 2, false, AddrMode::Immediate),
            0x0A => (Op::ASL, 2, false, AddrMode::Accumulator),
            0x0B => (Op::ANC, 2, false, AddrMode::Immediate),
            0x0C => (Op::NOP, 4, false, AddrMode::Absolute),
            0x0D => (Op::ORA, 4, false, AddrMode::Absolute),
            0x0E => (Op::ASL, 6, true, AddrMode::Absolute),
            0x0F => (Op::SLO, 6, true, AddrMode::Absolute),
            0x10 => (Op::BPL, 2, false, AddrMode::Relative),
            0x11 => (Op::ORA, 5, false, AddrMode::IndirectIndexedY(true)),
            0x12 => (Op::HLT, 1, false, AddrMode::Implied),
            0x13 => (Op::SLO, 8, true, AddrMode::IndirectIndexedY(false)),
            0x14 => (Op::NOP, 4, false, AddrMode::ZeropageIndexedX),
            0x15 => (Op::ORA, 4, false, AddrMode::ZeropageIndexedX),
            0x16 => (Op::ASL, 6, true, AddrMode::ZeropageIndexedX),
            0x17 => (Op::SLO, 6, true, AddrMode::ZeropageIndexedX),
            0x18 => (Op::CLC, 2, false, AddrMode::Implied),
            0x19 => (Op::ORA, 4, false, AddrMode::AbsoluteIndexedY(true)),
            0x1A => (Op::NOP, 2, false, AddrMode::Implied),
            0x1B => (Op::SLO, 7, true, AddrMode::AbsoluteIndexedY(false)),
            0x1C => (Op::NOP, 4, false, AddrMode::AbsoluteIndexedX(true)),
            0x1D => (Op::ORA, 4, false, AddrMode::AbsoluteIndexedX(true)),
            0x1E => (Op::ASL, 7, true, AddrMode::AbsoluteIndexedX(false)),
            0x1F => (Op::SLO, 7, true, AddrMode::AbsoluteIndexedX(false)),
            0x20 => (Op::JSR, 6, false, AddrMode::Absolute),
            0x21 => (Op::AND, 6, false, AddrMode::IndexedIndirectX),
            0x22 => (Op::HLT, 1, false, AddrMode::Implied),
            0x23 => (Op::RLA, 8, true, AddrMode::IndexedIndirectX),
            0x24 => (Op::BIT, 3, false, AddrMode::Zeropage),
            0x25 => (Op::AND, 3, false, AddrMode::Zeropage),
            0x26 => (Op::ROL, 5, true, AddrMode::Zeropage),
            0x27 => (Op::RLA, 5, true, AddrMode::Zeropage),
            0x28 => (Op::PLP, 4, false, AddrMode::Implied),
            0x29 => (Op::AND, 2, false, AddrMode::Immediate),
            0x2A => (Op::ROL, 2, false, AddrMode::Accumulator),
            0x2B => (Op::ANC, 2, false, AddrMode::Immediate),
            0x2C => (Op::BIT, 4, false, AddrMode::Absolute),
            0x2D => (Op::AND, 4, false, AddrMode::Absolute),
            0x2E => (Op::ROL, 6, true, AddrMode::Absolute),
            0x2F => (Op::RLA, 6, true, AddrMode::Absolute),
            0x30 => (Op::BMI, 2, false, AddrMode::Relative),
            0x31 => (Op::AND, 5, false, AddrMode::IndirectIndexedY(true)),
            0x32 => (Op::HLT, 1, false, AddrMode::Implied),
            0x33 => (Op::RLA, 8, true, AddrMode::IndirectIndexedY(false)),
            0x34 => (Op::NOP, 4, false, AddrMode::ZeropageIndexedX),
            0x35 => (Op::AND, 4, false, AddrMode::ZeropageIndexedX),
            0x36 => (Op::ROL, 6, true, AddrMode::ZeropageIndexedX),
            0x37 => (Op::RLA, 6, true, AddrMode::ZeropageIndexedX),
            0x38 => (Op::SEC, 2, false, AddrMode::Implied),
            0x39 => (Op::AND, 4, false, AddrMode::AbsoluteIndexedY(true)),
            0x3A => (Op::NOP, 2, false, AddrMode::Implied),
            0x3B => (Op::RLA, 7, true, AddrMode::AbsoluteIndexedY(false)),
            0x3C => (Op::NOP, 4, false, AddrMode::AbsoluteIndexedX(true)),
            0x3D => (Op::AND, 4, false, AddrMode::AbsoluteIndexedX(true)),
            0x3E => (Op::ROL, 7, true, AddrMode::AbsoluteIndexedX(false)),
            0x3F => (Op::RLA, 7, true, AddrMode::AbsoluteIndexedX(false)),
            0x40 => (Op::RTI, 6, false, AddrMode::Implied),
            0x41 => (Op::EOR, 6, false, AddrMode::IndexedIndirectX),
            0x42 => (Op::HLT, 1, false, AddrMode::Implied),
            0x43 => (Op::SRE, 8, true, AddrMode::IndexedIndirectX),
            0x44 => (Op::NOP, 3, false, AddrMode::Zeropage),
            0x45 => (Op::EOR, 3, false, AddrMode::Zeropage),
            0x46 => (Op::LSR, 5, true, AddrMode::Zeropage),
            0x47 => (Op::SRE, 5, true, AddrMode::Zeropage),
            0x48 => (Op::PHA, 3, false, AddrMode::Implied),
            0x49 => (Op::EOR, 2, false, AddrMode::Immediate),
            0x4A => (Op::LSR, 2, false, AddrMode::Accumulator),
            0x4B => (Op::ALR, 2, false, AddrMode::Immediate),
            0x4C => (Op::JMP, 3, false, AddrMode::Absolute),
            0x4D => (Op::EOR, 4, false, AddrMode::Absolute),
            0x4E => (Op::LSR, 6, true, AddrMode::Absolute),
            0x4F => (Op::SRE, 6, true, AddrMode::Absolute),
            0x50 => (Op::BVC, 2, false, AddrMode::Relative),
            0x51 => (Op::EOR, 5, false, AddrMode::IndirectIndexedY(true)),
            0x52 => (Op::HLT, 1, false, AddrMode::Implied),
            0x53 => (Op::SRE, 8, true, AddrMode::IndirectIndexedY(false)),
            0x54 => (Op::NOP, 4, false, AddrMode::ZeropageIndexedX),
            0x55 => (Op::EOR, 4, false, AddrMode::ZeropageIndexedX),
            0x56 => (Op::LSR, 6, true, AddrMode::ZeropageIndexedX),
            0x57 => (Op::SRE, 6, true, AddrMode::ZeropageIndexedX),
            0x58 => (Op::CLI, 2, false, AddrMode::Implied),
            0x59 => (Op::EOR, 4, false, AddrMode::AbsoluteIndexedY(true)),
            0x5A => (Op::NOP, 2, false, AddrMode::Implied),
            0x5B => (Op::SRE, 7, true, AddrMode::AbsoluteIndexedY(false)),
            0x5C => (Op::NOP, 4, false, AddrMode::AbsoluteIndexedX(true)),
            0x5D => (Op::EOR, 4, false, AddrMode::AbsoluteIndexedX(true)),
            0x5E => (Op::LSR, 7, true, AddrMode::AbsoluteIndexedX(false)),
            0x5F => (Op::SRE, 7, true, AddrMode::AbsoluteIndexedX(false)),
            0x60 => (Op::RTS, 6, false, AddrMode::Implied),
            0x61 => (Op::ADC, 6, false, AddrMode::IndexedIndirectX),
            0x62 => (Op::HLT, 1, false, AddrMode::Implied),
            0x63 => (Op::RRA, 8, true, AddrMode::IndexedIndirectX),
            0x64 => (Op::NOP, 3, false, AddrMode::Zeropage),
            0x65 => (Op::ADC, 3, false, AddrMode::Zeropage),
            0x66 => (Op::ROR, 5, true, AddrMode::Zeropage),
            0x67 => (Op::RRA, 5, true, AddrMode::Zeropage),
            0x68 => (Op::PLA, 4, false, AddrMode::Implied),
            0x69 => (Op::ADC, 2, false, AddrMode::Immediate),
            0x6A => (Op::ROR, 2, false, AddrMode::Accumulator),
            0x6B => (Op::ARR, 2, false, AddrMode::Immediate),
            0x6C => (Op::JMP, 5, false, AddrMode::Indirect),
            0x6D => (Op::ADC, 4, false, AddrMode::Absolute),
            0x6E => (Op::ROR, 6, true, AddrMode::Absolute),
            0x6F => (Op::RRA, 6, true, AddrMode::Absolute),
            0x70 => (Op::BVS, 2, false, AddrMode::Relative),
            0x71 => (Op::ADC, 5, false, AddrMode::IndirectIndexedY(true)),
            0x72 => (Op::HLT, 1, false, AddrMode::Implied),
            0x73 => (Op::RRA, 8, true, AddrMode::IndirectIndexedY(false)),
            0x74 => (Op::NOP, 4, false, AddrMode::ZeropageIndexedX),
            0x75 => (Op::ADC, 4, false, AddrMode::ZeropageIndexedX),
            0x76 => (Op::ROR, 6, true, AddrMode::ZeropageIndexedX),
            0x77 => (Op::RRA, 6, true, AddrMode::ZeropageIndexedX),
            0x78 => (Op::SEI, 2, false, AddrMode::Implied),
            0x79 => (Op::ADC, 4, false, AddrMode::AbsoluteIndexedY(true)),
            0x7A => (Op::NOP, 2, false, AddrMode::Implied),
            0x7B => (Op::RRA, 7, true, AddrMode::AbsoluteIndexedY(false)),
            0x7C => (Op::NOP, 4, false, AddrMode::AbsoluteIndexedX(true)),
            0x7D => (Op::ADC, 4, false, AddrMode::AbsoluteIndexedX(true)),
            0x7E => (Op::ROR, 7, true, AddrMode::AbsoluteIndexedX(false)),
            0x7F => (Op::RRA, 7, true, AddrMode::AbsoluteIndexedX(false)),
            0x80 => (Op::NOP, 2, false, AddrMode::Immediate),
            0x81 => (Op::STA, 6, false, AddrMode::IndexedIndirectX),
            0x82 => (Op::NOP, 2, false, AddrMode::Immediate),
            0x83 => (Op::SAX, 6, false, AddrMode::IndexedIndirectX),
            0x84 => (Op::STY, 3, false, AddrMode::Zeropage),
            0x85 => (Op::STA, 3, false, AddrMode::Zeropage),
            0x86 => (Op::STX, 3, false, AddrMode::Zeropage),
            0x87 => (Op::SAX, 3, false, AddrMode::Zeropage),
            0x88 => (Op::DEY, 2, false, AddrMode::Implied),
            0x89 => (Op::NOP, 2, false, AddrMode::Immediate),
            0x8A => (Op::TXA, 2, false, AddrMode::Implied),
            0x8B => (Op::XAA, 2, false, AddrMode::Immediate),
            0x8C => (Op::STY, 4, false, AddrMode::Absolute),
            0x8D => (Op::STA, 4, false, AddrMode::Absolute),
            0x8E => (Op::STX, 4, false, AddrMode::Absolute),
            0x8F => (Op::SAX, 4, false, AddrMode::Absolute),
            0x90 => (Op::BCC, 2, false, AddrMode::Relative),
            0x91 => (Op::STA, 6, false, AddrMode::IndirectIndexedY(false)),
            0x92 => (Op::HLT, 1, false, AddrMode::Implied),
            0x93 => (Op::AHX, 6, false, AddrMode::IndirectIndexedY(false)),
            0x94 => (Op::STY, 4, false, AddrMode::ZeropageIndexedX),
            0x95 => (Op::STA, 4, false, AddrMode::ZeropageIndexedX),
            0x96 => (Op::STX, 4, false, AddrMode::ZeropageIndexedY),
            0x97 => (Op::SAX, 4, false, AddrMode::ZeropageIndexedY),
            0x98 => (Op::TYA, 2, false, AddrMode::Implied),
            0x99 => (Op::STA, 5, false, AddrMode::AbsoluteIndexedY(false)),
            0x9A => (Op::TXS, 2, false, AddrMode::Implied),
            0x9B => (Op::TAS, 5, false, AddrMode::AbsoluteIndexedY(false)),
            0x9C => (Op::SHY, 5, false, AddrMode::AbsoluteIndexedX(false)),
            0x9D => (Op::STA, 5, false, AddrMode::AbsoluteIndexedX(false)),
            0x9E => (Op::SHX, 5, false, AddrMode::AbsoluteIndexedY(false)),
            0x9F => (Op::AHX, 5, false, AddrMode::AbsoluteIndexedY(false)),
            0xA0 => (Op::LDY, 2, false, AddrMode::Immediate),
            0xA1 => (Op::LDA, 6, false, AddrMode::IndexedIndirectX),
            0xA2 => (Op::LDX, 2, false, AddrMode::Immediate),
            0xA3 => (Op::LAX, 6, false, AddrMode::IndexedIndirectX),
            0xA4 => (Op::LDY, 3, false, AddrMode::Zeropage),
            0xA5 => (Op::LDA, 3, false, AddrMode::Zeropage),
            0xA6 => (Op::LDX, 3, false, AddrMode::Zeropage),
            0xA7 => (Op::LAX, 3, false, AddrMode::Zeropage),
            0xA8 => (Op::TAY, 2, false, AddrMode::Implied),
            0xA9 => (Op::LDA, 2, false, AddrMode::Immediate),
            0xAA => (Op::TAX, 2, false, AddrMode::Implied),
            0xAB => (Op::LAX, 2, false, AddrMode::Immediate),
            0xAC => (Op::LDY, 4, false, AddrMode::Absolute),
            0xAD => (Op::LDA, 4, false, AddrMode::Absolute),
            0xAE => (Op::LDX, 4, false, AddrMode::Absolute),
            0xAF => (Op::LAX, 4, false, AddrMode::Absolute),
            0xB0 => (Op::BCS, 2, false, AddrMode::Relative),
            0xB1 => (Op::LDA, 5, false, AddrMode::IndirectIndexedY(true)),
            0xB2 => (Op::HLT, 1, false, AddrMode::Implied),
            0xB3 => (Op::LAX, 5, false, AddrMode::IndirectIndexedY(true)),
            0xB4 => (Op::LDY, 4, false, AddrMode::ZeropageIndexedX),
            0xB5 => (Op::LDA, 4, false, AddrMode::ZeropageIndexedX),
            0xB6 => (Op::LDX, 4, false, AddrMode::ZeropageIndexedY),
            0xB7 => (Op::LAX, 4, false, AddrMode::ZeropageIndexedY),
            0xB8 => (Op::CLV, 2, false, AddrMode::Implied),
            0xB9 => (Op::LDA, 4, false, AddrMode::AbsoluteIndexedY(true)),
            0xBA => (Op::TSX, 2, false, AddrMode::Implied),
            0xBB => (Op::LAS, 4, false, AddrMode::AbsoluteIndexedY(true)),
            0xBC => (Op::LDY, 4, false, AddrMode::AbsoluteIndexedX(true)),
            0xBD => (Op::LDA, 4, false, AddrMode::AbsoluteIndexedX(true)),
            0xBE => (Op::LDX, 4, false, AddrMode::AbsoluteIndexedY(true)),
            0xBF => (Op::LAX, 4, false, AddrMode::AbsoluteIndexedY(true)),
            0xC0 => (Op::CPY, 2, false, AddrMode::Immediate),
            0xC1 => (Op::CMP, 6, false, AddrMode::IndexedIndirectX),
            0xC2 => (Op::NOP, 2, false, AddrMode::Immediate),
            0xC3 => (Op::DCP, 8, true, AddrMode::IndexedIndirectX),
            0xC4 => (Op::CPY, 3, false, AddrMode::Zeropage),
            0xC5 => (Op::CMP, 3, false, AddrMode::Zeropage),
            0xC6 => (Op::DEC, 5, true, AddrMode::Zeropage),
            0xC7 => (Op::DCP, 5, true, AddrMode::Zeropage),
            0xC8 => (Op::INY, 2, false, AddrMode::Implied),
            0xC9 => (Op::CMP, 2, false, AddrMode::Immediate),
            0xCA => (Op::DEX, 2, false, AddrMode::Implied),
            0xCB => (Op::AXS, 2, false, AddrMode::Immediate),
            0xCC => (Op::CPY, 4, false, AddrMode::Absolute),
            0xCD => (Op::CMP, 4, false, AddrMode::Absolute),
            0xCE => (Op::DEC, 6, true, AddrMode::Absolute),
            0xCF => (Op::DCP, 6, true, AddrMode::Absolute),
            0xD0 => (Op::BNE, 2, false, AddrMode::Relative),
            0xD1 => (Op::CMP, 5, false, AddrMode::IndirectIndexedY(true)),
            0xD2 => (Op::HLT, 1, false, AddrMode::Implied),
            0xD3 => (Op::DCP, 8, true, AddrMode::IndirectIndexedY(false)),
            0xD4 => (Op::NOP, 4, false, AddrMode::ZeropageIndexedX),
            0xD5 => (Op::CMP, 4, false, AddrMode::ZeropageIndexedX),
            0xD6 => (Op::DEC, 6, true, AddrMode::ZeropageIndexedX),
            0xD7 => (Op::DCP, 6, true, AddrMode::ZeropageIndexedX),
            0xD8 => (Op::CLD, 2, false, AddrMode::Implied),
            0xD9 => (Op::CMP, 4, false, AddrMode::AbsoluteIndexedY(true)),
            0xDA => (Op::NOP, 2, false, AddrMode::Implied),
            0xDB => (Op::DCP, 7, true, AddrMode::AbsoluteIndexedY(false)),
            0xDC => (Op::NOP, 4, false, AddrMode::AbsoluteIndexedX(true)),
            0xDD => (Op::CMP, 4, false, AddrMode::AbsoluteIndexedX(true)),
            0xDE => (Op::DEC, 7, true, AddrMode::AbsoluteIndexedX(false)),
            0xDF => (Op::DCP, 7, true, AddrMode::AbsoluteIndexedX(false)),
            0xE0 => (Op::CPX, 2, false, AddrMode::Immediate),
            0xE1 => (Op::SBC, 6, false, AddrMode::IndexedIndirectX),
            0xE2 => (Op::NOP, 2, false, AddrMode::Immediate),
            0xE3 => (Op::ISC, 8, true, AddrMode::IndexedIndirectX),
            0xE4 => (Op::CPX, 3, false, AddrMode::Zeropage),
            0xE5 => (Op::SBC, 3, false, AddrMode::Zeropage),
            0xE6 => (Op::INC, 5, true, AddrMode::Zeropage),
            0xE7 => (Op::ISC, 5, true, AddrMode::Zeropage),
            0xE8 => (Op::INX, 2, false, AddrMode::Implied),
            0xE9 => (Op::SBC, 2, false, AddrMode::Immediate),
            0xEA => (Op::NOP, 2, false, AddrMode::Implied),
            0xEB => (Op::SBC, 2, false, AddrMode::Immediate),
            0xEC => (Op::CPX, 4, false, AddrMode::Absolute),
            0xED => (Op::SBC, 4, false, AddrMode::Absolute),
            0xEE => (Op::INC, 6, true, AddrMode::Absolute),
            0xEF => (Op::ISC, 6, true, AddrMode::Absolute),
            0xF0 => (Op::BEQ, 2, false, AddrMode::Relative),
            0xF1 => (Op::SBC, 5, false, AddrMode::IndirectIndexedY(true)),
            0xF2 => (Op::HLT, 1, false, AddrMode::Implied),
            0xF3 => (Op::ISC, 8, true, AddrMode::IndirectIndexedY(false)),
            0xF4 => (Op::NOP, 4, false, AddrMode::ZeropageIndexedX),
            0xF5 => (Op::SBC, 4, false, AddrMode::ZeropageIndexedX),
            0xF6 => (Op::INC, 6, true, AddrMode::ZeropageIndexedX),
            0xF7 => (Op::ISC, 6, true, AddrMode::ZeropageIndexedX),
            0xF8 => (Op::SED, 2, false, AddrMode::Implied),
            0xF9 => (Op::SBC, 4, false, AddrMode::AbsoluteIndexedY(true)),
            0xFA => (Op::NOP, 2, false, AddrMode::Implied),
            0xFB => (Op::ISC, 7, true, AddrMode::AbsoluteIndexedY(false)),
            0xFC => (Op::NOP, 4, false, AddrMode::AbsoluteIndexedX(true)),
            0xFD => (Op::SBC, 4, false, AddrMode::AbsoluteIndexedX(true)),
            0xFE => (Op::INC, 7, true, AddrMode::AbsoluteIndexedX(false)),
            0xFF => (Op::ISC, 7, true, AddrMode::AbsoluteIndexedX(false)),
        },
    )
}

} // verus!
