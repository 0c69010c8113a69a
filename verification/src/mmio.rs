//! The memory-mapped register space as the drivers see it.
//!
//! A [`RegisterBank`] holds the current value of every register that was
//! loaded or written, and the journal of writes in the order the drivers
//! issued them, so that the same writes can be carried out on the device.
use std::collections::HashMap;
use vstd::prelude::*;

verus! {

broadcast use vstd::std_specs::hash::group_hash_axioms;

/// Abstract state of the register space: the register contents, and the
/// sequence of (address, value) writes issued so far.
pub type BusState = (Map<u32, u32>, Seq<(u32, u32)>);

/// The value that a read of `addr` yields in this model: what was last
/// loaded or written there, or 0 for a register that holds nothing yet.
/// The model treats registers as memory: a device register whose flags
/// clear when 0 is written to them, or one that reads back other than what
/// was written (such as an event generation register), reads on the
/// device otherwise than `reg` says; the journal records what was written.
pub open spec fn reg(s: BusState, addr: u32) -> u32 {
    if s.0.contains_key(addr) {
        s.0[addr]
    } else {
        0
    }
}

/// The state after the write of `val` to `addr`.
pub open spec fn put(s: BusState, addr: u32, val: u32) -> BusState {
    (s.0.insert(addr, val), s.1.push((addr, val)))
}

/// The state after a read-modify-write that ORs `bits` into `addr`.
pub open spec fn set_bits(s: BusState, addr: u32, bits: u32) -> BusState {
    put(s, addr, reg(s, addr) | bits)
}

/// The state after a read-modify-write that ANDs `mask` into `addr`.
pub open spec fn keep_bits(s: BusState, addr: u32, mask: u32) -> BusState {
    put(s, addr, reg(s, addr) & mask)
}

pub struct RegisterBank {
    regs: HashMap<u32, u32>,
    journal: Vec<(u32, u32)>,
}

impl View for RegisterBank {
    type V = BusState;

    closed spec fn view(&self) -> BusState {
        (self.regs@, self.journal@)
    }
}

impl RegisterBank {
    /// An empty register space: every register reads 0 and nothing was written.
    pub fn new() -> (bank: RegisterBank)
        ensures
            bank@.0 == Map::<u32, u32>::empty(),
            bank@.1 == Seq::<(u32, u32)>::empty(),
    {
        RegisterBank { regs: HashMap::new(), journal: Vec::new() }
    }

    /// Records the current content of a register as read from the device,
    /// without journaling a write.
    pub fn load(&mut self, addr: u32, value: u32)
        ensures
            final(self)@.0 == old(self)@.0.insert(addr, value),
            final(self)@.1 == old(self)@.1,
    {
        self.regs.insert(addr, value);
    }

    /// Reads the register at `dest`.
    pub fn read(&self, dest: u32) -> (content: u32)
        ensures
            content == reg(self@, dest),
    {
        match self.regs.get(&dest) {
            Some(v) => *v,
            None => 0,
        }
    }

    /// Writes `content` to the register at `dest`.
    pub fn write(&mut self, dest: u32, content: u32)
        ensures
            final(self)@ == put(old(self)@, dest, content),
    {
        self.regs.insert(dest, content);
        self.journal.push((dest, content));
    }

    /// Hands out the journal of writes, oldest first, and empties it.
    pub fn take_writes(&mut self) -> (writes: Vec<(u32, u32)>)
        ensures
            writes@ == old(self)@.1,
            final(self)@.0 == old(self)@.0,
            final(self)@.1 == Seq::<(u32, u32)>::empty(),
    {
        let mut writes: Vec<(u32, u32)> = Vec::new();
        std::mem::swap(&mut writes, &mut self.journal);
        writes
    }
}

/// A read gives back what the last write to the same register wrote; a
/// write changes no other register, and is appended to the journal.
pub proof fn law_read_after_write(s: BusState, addr: u32, other: u32, val: u32)
    ensures
        reg(put(s, addr, val), addr) == val,
        other != addr ==> reg(put(s, addr, val), other) == reg(s, other),
        put(s, addr, val).1 == s.1.push((addr, val)),
{
}

} // verus!
