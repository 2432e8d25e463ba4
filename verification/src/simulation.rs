//! Running a program against a register space instead of hardware, for a
//! bounded number of accesses.
//!
//! In each round the sequencer hands out its pending access, the register
//! space performs it, and the sequencer is told what came of it. Nothing
//! plays the hardware's part: a poll for a status bit stays where it is
//! until the caller puts that bit into the register space.
use crate::control_registers::Access;
use crate::register_space::{effect, outcome, registers_at, RegisterSpace};
use crate::sequencer::{Sequencer, State};
use vstd::prelude::*;

verus! {

/// A run at one moment: where the sequencer stands, what the registers
/// hold, and the accesses performed so far.
pub struct Simulation {
    pub state: State,
    pub regs: Map<u32, u32>,
    pub log: Seq<Access>,
}

impl Simulation {
    /// One round: perform the pending access and tell the sequencer. A
    /// finished program performs nothing.
    pub open spec fn round(self) -> Simulation {
        match self.state.pending() {
            Some(access) => Simulation {
                state: self.state.on(outcome(self.regs, access)),
                regs: effect(self.regs, access),
                log: self.log.push(access),
            },
            None => self,
        }
    }

    /// `n` rounds, one after the other.
    pub open spec fn rounds(self, n: nat) -> Simulation
        decreases n,
    {
        if n == 0 {
            self
        } else {
            self.rounds((n - 1) as nat).round()
        }
    }

    /// The registers hold what the complete steps have stored: nothing is
    /// stored twice, and nothing that is still to come.
    pub open spec fn in_step(self, initial: Map<u32, u32>) -> bool {
        &&& self.state.wf()
        &&& self.regs == registers_at(initial, self.state.program, self.state.pc)
    }

    /// A round keeps the registers in step with the sequencer.
    pub proof fn lemma_round_in_step(self, initial: Map<u32, u32>)
        requires
            self.in_step(initial),
        ensures
            self.round().in_step(initial),
            self.round().state.program == self.state.program,
            self.state.pc <= self.round().state.pc <= self.state.pc + 1,
    {
    }

    /// However many rounds a run from the start of a program takes, its
    /// registers are those that the complete steps give.
    pub proof fn lemma_rounds_in_step(self, initial: Map<u32, u32>, n: nat)
        requires
            self.in_step(initial),
        ensures
            self.rounds(n).in_step(initial),
            self.rounds(n).state.program == self.state.program,
            self.state.pc <= self.rounds(n).state.pc <= self.state.pc + n,
        decreases n,
    {
        if n > 0 {
            self.lemma_rounds_in_step(initial, (n - 1) as nat);
            self.rounds((n - 1) as nat).lemma_round_in_step(initial);
        }
    }

    /// A poll whose register does not hold the awaited value holds the run
    /// up: every round loads the register once more, and the sequencer
    /// stays where it is.
    pub proof fn lemma_blocked_at_poll(self, n: nat)
        requires
            self.state.pending() is Some,
            !self.state.program[self.state.pc].completed_by(
                outcome(self.regs, self.state.pending().unwrap()),
            ),
        ensures
            self.rounds(n).state == self.state,
            self.rounds(n).regs == self.regs,
            self.rounds(n).log.len() == self.log.len() + n,
            forall|i: int|
                self.log.len() <= i < self.log.len() + n ==> self.rounds(n).log[i]
                    == self.state.pending().unwrap(),
            forall|i: int| 0 <= i < self.log.len() ==> self.rounds(n).log[i] == self.log[i],
        decreases n,
    {
        if n > 0 {
            self.lemma_blocked_at_poll((n - 1) as nat);
        }
    }
}

/// Runs `sequencer` against `space` for `rounds` rounds, or until the
/// program is finished, and returns the accesses performed, in order.
pub fn simulate(sequencer: &mut Sequencer, space: &mut RegisterSpace, rounds: usize) -> (log: Vec<
    Access,
>)
    ensures
        (Simulation { state: final(sequencer)@, regs: final(space)@, log: log@ }) == (Simulation {
            state: old(sequencer)@,
            regs: old(space)@,
            log: Seq::empty(),
        }).rounds(rounds as nat),
{
    let ghost begin = Simulation { state: sequencer@, regs: space@, log: Seq::empty() };
    let mut log: Vec<Access> = Vec::new();
    let mut done: usize = 0;
    while done < rounds
        invariant
            done <= rounds,
            (Simulation { state: sequencer@, regs: space@, log: log@ }) == begin.rounds(
                done as nat,
            ),
        decreases rounds - done,
    {
        match sequencer.pending() {
            Some(access) => {
                let event = space.perform(access);
                sequencer.step(event);
                log.push(access);
            },
            None => {},
        }
        done = done + 1;
    }
    log
}

} // verus!
