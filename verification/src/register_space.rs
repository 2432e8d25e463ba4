//! A register space to run a program against when there is no hardware: a
//! map from address to word, with the three windows through which the bus
//! reaches a register.
//!
//! A store in the direct window replaces the register, a store in the set
//! window ORs into it, a store in the clear window clears the bits stored.
//! Nothing else changes a register: status bits that hardware would drive
//! stay as they are until somebody writes them.
use crate::control_registers::{
    clear_bits_access, read_access, set_bits_access, write_access, ALIAS_CLEAR, ALIAS_SET, Access,
};
use crate::sequencer::{Event, Step};
use std::collections::HashMap;
use vstd::prelude::*;

verus! {

broadcast use vstd::std_specs::hash::group_hash_axioms;

/// Size of the block of addresses that belongs to one set of registers.
pub const BLOCK_SIZE: u32 = 0x4000;

/// `addr` is the address of a register itself: it lies in the first quarter
/// of its block, `ALIAS_SET` below its set window and `ALIAS_CLEAR` below
/// its clear window.
pub open spec fn is_register(addr: u32) -> bool {
    addr % BLOCK_SIZE < 0x1000
}

/// `addr` lies in a window in which a store sets bits.
pub open spec fn in_set_window(addr: u32) -> bool {
    ALIAS_SET <= addr % BLOCK_SIZE < ALIAS_CLEAR
}

/// `addr` lies in a window in which a store clears bits.
pub open spec fn in_clear_window(addr: u32) -> bool {
    ALIAS_CLEAR <= addr % BLOCK_SIZE
}

/// The register that an access at `addr` reaches.
pub open spec fn register_of(addr: u32) -> u32 {
    if in_set_window(addr) {
        (addr - ALIAS_SET) as u32
    } else if in_clear_window(addr) {
        (addr - ALIAS_CLEAR) as u32
    } else {
        addr
    }
}

/// The word in the register at `addr`; a register that was never written
/// holds zero.
pub open spec fn value_at(regs: Map<u32, u32>, addr: u32) -> u32 {
    if regs.contains_key(addr) {
        regs[addr]
    } else {
        0
    }
}

/// The registers after `access` was performed on `regs`.
pub open spec fn effect(regs: Map<u32, u32>, access: Access) -> Map<u32, u32> {
    match access {
        Access::Load { .. } => regs,
        Access::Store { addr, value } => {
            let register = register_of(addr);
            if in_set_window(addr) {
                regs.insert(register, value_at(regs, register) | value)
            } else if in_clear_window(addr) {
                regs.insert(register, value_at(regs, register) & !value)
            } else {
                regs.insert(register, value)
            }
        },
    }
}

/// What the bus reports when `access` is performed on `regs`.
pub open spec fn outcome(regs: Map<u32, u32>, access: Access) -> Event {
    match access {
        Access::Load { addr } => Event::Loaded { value: value_at(regs, register_of(addr)) },
        Access::Store { .. } => Event::Stored,
    }
}

/// The registers once the first `pc` steps of `program` are complete,
/// from `regs` at the start. A store changes them once, a load or a poll
/// not at all.
pub open spec fn registers_at(regs: Map<u32, u32>, program: Seq<Step>, pc: int) -> Map<u32, u32>
    decreases pc,
{
    if pc <= 0 {
        regs
    } else {
        effect(registers_at(regs, program, pc - 1), program[pc - 1].access())
    }
}

/// `step` stores to the register at `register`, through whichever window.
pub open spec fn writes_to(step: Step, register: u32) -> bool {
    step.access() matches Access::Store { addr, .. } && register_of(addr) == register
}

/// A register keeps its word over steps that do not store to it.
pub proof fn lemma_register_kept(
    regs: Map<u32, u32>,
    program: Seq<Step>,
    from: int,
    to: int,
    register: u32,
)
    requires
        0 <= from <= to <= program.len(),
        forall|i: int| from <= i < to ==> !writes_to(#[trigger] program[i], register),
    ensures
        value_at(registers_at(regs, program, to), register) == value_at(
            registers_at(regs, program, from),
            register,
        ),
    decreases to - from,
{
    if from < to {
        lemma_register_kept(regs, program, from, to - 1, register);
        assert(!writes_to(program[to - 1], register));
    }
}

/// Reading a register returns the word it holds and changes nothing.
pub proof fn lemma_read_reg(regs: Map<u32, u32>, addr: u32)
    requires
        is_register(addr),
    ensures
        outcome(regs, read_access(addr)) == (Event::Loaded { value: value_at(regs, addr) }),
        effect(regs, read_access(addr)) == regs,
{
}

/// Writing a register replaces the word it holds and touches no other
/// register.
pub proof fn lemma_write_reg(regs: Map<u32, u32>, addr: u32, value: u32)
    requires
        is_register(addr),
    ensures
        effect(regs, write_access(addr, value)) == regs.insert(addr, value),
        outcome(regs, write_access(addr, value)) == Event::Stored,
{
}

/// Setting bits ORs the mask into the register and touches no other
/// register.
pub proof fn lemma_set_bits(regs: Map<u32, u32>, addr: u32, mask: u32)
    requires
        is_register(addr),
    ensures
        effect(regs, set_bits_access(addr, mask)) == regs.insert(addr, value_at(regs, addr) | mask),
        outcome(regs, set_bits_access(addr, mask)) == Event::Stored,
{
}

/// Clearing bits ANDs the complement of the mask into the register and
/// touches no other register.
pub proof fn lemma_clear_bits(regs: Map<u32, u32>, addr: u32, mask: u32)
    requires
        is_register(addr),
    ensures
        effect(regs, clear_bits_access(addr, mask)) == regs.insert(
            addr,
            value_at(regs, addr) & !mask,
        ),
        outcome(regs, clear_bits_access(addr, mask)) == Event::Stored,
{
}

/// A register space held in memory.
pub struct RegisterSpace {
    words: HashMap<u32, u32>,
}

impl View for RegisterSpace {
    type V = Map<u32, u32>;

    closed spec fn view(&self) -> Map<u32, u32> {
        self.words@
    }
}

impl RegisterSpace {
    /// A space in which every register holds zero.
    pub fn new() -> (space: RegisterSpace)
        ensures
            space@ == Map::<u32, u32>::empty(),
    {
        RegisterSpace { words: HashMap::new() }
    }

    /// The word in the register at `addr`, whatever window `addr` lies in.
    pub fn peek(&self, addr: u32) -> (value: u32)
        ensures
            value == value_at(self@, addr),
    {
        match self.words.get(&addr) {
            Some(word) => *word,
            None => 0,
        }
    }

    /// Puts `value` in the register at `addr`, as hardware does with a
    /// status register.
    pub fn poke(&mut self, addr: u32, value: u32)
        ensures
            final(self)@ == old(self)@.insert(addr, value),
    {
        self.words.insert(addr, value);
    }

    /// Performs `access` as the bus would, and reports what came of it.
    pub fn perform(&mut self, access: Access) -> (event: Event)
        ensures
            final(self)@ == effect(old(self)@, access),
            event == outcome(old(self)@, access),
    {
        match access {
            Access::Load { addr } => {
                let register = register_at(addr);
                Event::Loaded { value: self.peek(register) }
            },
            Access::Store { addr, value } => {
                let register = register_at(addr);
                let within_block = addr % BLOCK_SIZE;
                if ALIAS_SET <= within_block && within_block < ALIAS_CLEAR {
                    let word = self.peek(register);
                    self.words.insert(register, word | value);
                } else if ALIAS_CLEAR <= within_block {
                    let word = self.peek(register);
                    self.words.insert(register, word & !value);
                } else {
                    self.words.insert(register, value);
                }
                Event::Stored
            },
        }
    }
}

/// The register that an access at `addr` reaches.
pub fn register_at(addr: u32) -> (register: u32)
    ensures
        register == register_of(addr),
{
    let within_block = addr % BLOCK_SIZE;
    if ALIAS_SET <= within_block && within_block < ALIAS_CLEAR {
        addr - ALIAS_SET
    } else if ALIAS_CLEAR <= within_block {
        addr - ALIAS_CLEAR
    } else {
        addr
    }
}

} // verus!
