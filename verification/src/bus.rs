//! The memory bus as the processor sees it.
//!
//! The core does not own memory. It reads and writes bytes through the
//! [`Bus`] trait, and its contracts speak of a bus through [`MemState`]: the
//! byte found at each of the 65536 addresses, the addresses that reject
//! writes, and the write requests issued so far. A rejected write is still a
//! request: it is recorded and changes no byte.
use vstd::prelude::*;

verus! {

/// Address of the little-endian word holding the non-maskable interrupt target.
pub const NMI_VECTOR: u16 = 0xFFFA;

/// Address of the little-endian word holding the reset target.
pub const RESET_VECTOR: u16 = 0xFFFC;

/// Address of the little-endian word holding the IRQ and BRK target.
pub const IRQ_VECTOR: u16 = 0xFFFE;

/// The number of addresses on the bus.
pub const ADDRESS_SPACE: usize = 0x10000;

/// The 16-bit word with low byte `lo` and high byte `hi`.
pub open spec fn word(lo: u8, hi: u8) -> u16 {
    (lo as int + 256 * (hi as int)) as u16
}

/// The low byte of a word.
pub open spec fn low_byte(value: u16) -> u8 {
    (value as int % 256) as u8
}

/// The high byte of a word.
pub open spec fn high_byte(value: u16) -> u8 {
    (value as int / 256) as u8
}

/// The observable state of a bus.
pub struct MemState {
    /// The byte a read of each address returns.
    pub bytes: Seq<u8>,
    /// The addresses whose writes are rejected.
    pub read_only: Set<u16>,
    /// Every write request so far, oldest first, rejected ones included.
    pub writes: Seq<(u16, u8)>,
}

impl MemState {
    /// A bus state covers the whole address space.
    pub open spec fn wf(self) -> bool {
        self.bytes.len() == ADDRESS_SPACE
    }

    /// The byte at `addr`.
    pub open spec fn read(self, addr: u16) -> u8 {
        self.bytes[addr as int]
    }

    /// The little-endian word at `addr`: the low byte at `addr`, the high
    /// byte at the next address, which follows 0xFFFF with 0x0000 and never
    /// stays inside a page.
    pub open spec fn read_word(self, addr: u16) -> u16 {
        word(self.read(addr), self.read(addr.wrapping_add(1)))
    }

    /// The state after a write request: the request is recorded, and the
    /// byte changes unless the address is read-only.
    pub open spec fn write(self, addr: u16, value: u8) -> MemState {
        MemState {
            bytes: if self.read_only.contains(addr) {
                self.bytes
            } else {
                self.bytes.update(addr as int, value)
            },
            read_only: self.read_only,
            writes: self.writes.push((addr, value)),
        }
    }
}

/// Why a bus did not carry out a write.
#[derive(Clone, Copy, Debug, PartialEq, Eq, Structural)]
pub enum BusError {
    /// The address is read-only.
    ReadOnly,
}

/// A byte-addressable bus of 65536 addresses.
///
/// An implementation states what it holds through `view` and proves that its
/// reads and writes agree with it.
pub trait Bus {
    /// The observable state of the bus. This is ghost code: it is never run.
    spec fn view(&self) -> MemState;

    /// Reads the byte at `addr`.
    fn read_byte(&self, addr: u16) -> (value: u8)
        requires
            self@.wf(),
        ensures
            value == self@.read(addr),
    ;

    /// Requests a write of `value` to `addr`. The request fails exactly on a
    /// read-only address, and then no byte changes.
    fn write_byte(&mut self, addr: u16, value: u8) -> (result: Result<(), BusError>)
        requires
            old(self)@.wf(),
        ensures
            final(self)@ == old(self)@.write(addr, value),
            result is Err <==> old(self)@.read_only.contains(addr),
    ;
}

/// Reads the little-endian word at `addr` with two byte reads.
pub fn read_word_le<B: Bus>(bus: &B, addr: u16) -> (value: u16)
    requires
        bus@.wf(),
    ensures
        value == bus@.read_word(addr),
{
    let lo = bus.read_byte(addr);
    let hi = bus.read_byte(addr.wrapping_add(1));
    make_word(lo, hi)
}

/// Joins two bytes into a word.
pub fn make_word(lo: u8, hi: u8) -> (value: u16)
    ensures
        value == word(lo, hi),
        low_byte(value) == lo,
        high_byte(value) == hi,
{
    lo as u16 + 256 * (hi as u16)
}

/// Splits a word into its low and high byte.
pub fn split_word(value: u16) -> (bytes: (u8, u8))
    ensures
        bytes.0 == low_byte(value),
        bytes.1 == high_byte(value),
        word(bytes.0, bytes.1) == value,
{
    ((value % 256) as u8, (value / 256) as u8)
}

/// One address of a [`FlatMemory`].
#[derive(Clone, Copy)]
struct Cell {
    value: u8,
    locked: bool,
}

/// 64 KiB of memory in which any address can be made read-only.
pub struct FlatMemory {
    cells: Vec<Cell>,
    log: Ghost<Seq<(u16, u8)>>,
}

impl FlatMemory {
    /// Memory that is zero everywhere, writable everywhere, and has seen no
    /// write request.
    pub fn new() -> (memory: FlatMemory)
        ensures
            memory@.wf(),
            memory@.bytes == Seq::new(ADDRESS_SPACE as nat, |i: int| 0u8),
            memory@.read_only == Set::<u16>::empty(),
            memory@.writes == Seq::<(u16, u8)>::empty(),
    {
        let memory = FlatMemory {
            cells: vec![Cell { value: 0, locked: false }; ADDRESS_SPACE],
            log: Ghost(Seq::empty()),
        };
        assert(memory@.bytes =~= Seq::new(ADDRESS_SPACE as nat, |i: int| 0u8));
        assert(memory@.read_only =~= Set::<u16>::empty());
        memory
    }

    /// Places `value` at `addr` whether or not the address is read-only, as a
    /// loader or a ROM image does. This is no bus write and is not recorded.
    pub fn poke(&mut self, addr: u16, value: u8)
        requires
            old(self)@.wf(),
        ensures
            final(self)@.wf(),
            final(self)@.bytes == old(self)@.bytes.update(addr as int, value),
            final(self)@.read_only == old(self)@.read_only,
            final(self)@.writes == old(self)@.writes,
    {
        let locked = self.cells[addr as usize].locked;
        self.cells.set(addr as usize, Cell { value, locked });
        assert(self@.bytes =~= old(self)@.bytes.update(addr as int, value));
        assert(self@.read_only =~= old(self)@.read_only);
    }

    /// Makes `addr` read-only (`true`) or writable (`false`).
    pub fn set_read_only(&mut self, addr: u16, read_only: bool)
        requires
            old(self)@.wf(),
        ensures
            final(self)@.wf(),
            final(self)@.bytes == old(self)@.bytes,
            final(self)@.read_only == if read_only {
                old(self)@.read_only.insert(addr)
            } else {
                old(self)@.read_only.remove(addr)
            },
            final(self)@.writes == old(self)@.writes,
    {
        let value = self.cells[addr as usize].value;
        self.cells.set(addr as usize, Cell { value, locked: read_only });
        assert(self@.bytes =~= old(self)@.bytes);
        assert(self@.read_only =~= if read_only {
            old(self)@.read_only.insert(addr)
        } else {
            old(self)@.read_only.remove(addr)
        });
    }
}

impl Bus for FlatMemory {
    closed spec fn view(&self) -> MemState {
        MemState {
            bytes: Seq::new(self.cells@.len(), |i: int| self.cells@[i].value),
            read_only: Set::new(|addr: u16| self.cells@[addr as int].locked),
            writes: self.log@,
        }
    }

    fn read_byte(&self, addr: u16) -> (value: u8) {
        self.cells[addr as usize].value
    }

    fn write_byte(&mut self, addr: u16, value: u8) -> (result: Result<(), BusError>) {
        self.log = Ghost(self.log@.push((addr, value)));
        let locked = self.cells[addr as usize].locked;
        if locked {
            assert(self@.bytes =~= old(self)@.bytes);
            assert(self@.read_only =~= old(self)@.read_only);
            Err(BusError::ReadOnly)
        } else {
            self.cells.set(addr as usize, Cell { value, locked });
            assert(self@.bytes =~= old(self)@.bytes.update(addr as int, value));
            assert(self@.read_only =~= old(self)@.read_only);
            Ok(())
        }
    }
}

} // verus!
