//! A bring-up program and the machine that walks through it.
//!
//! A program is a list of steps. The sequencer hands out the access of the
//! step it stands at, is told what came of it, and moves to the next step
//! only when the step is complete. It never performs an access itself and
//! never waits: whoever drives it owns the bus and the loop.
use crate::control_registers::Access;
use vstd::prelude::*;

verus! {

/// One step of a program.
#[derive(Clone, Copy, Debug, PartialEq, Eq, Structural)]
pub enum Step {
    /// Perform `access` once.
    Once { access: Access },
    /// Load the word at `addr` again and again, until a loaded value `v`
    /// has `v & mask == expect`.
    Poll { addr: u32, mask: u32, expect: u32 },
}

/// What the bus reports of the access it was handed.
#[derive(Clone, Copy, Debug, PartialEq, Eq, Structural)]
pub enum Event {
    /// The store was performed.
    Stored,
    /// The load was performed and returned `value`.
    Loaded { value: u32 },
}

impl Step {
    /// The access that carries the step out; for a poll, one round of it.
    pub open spec fn access(self) -> Access {
        match self {
            Step::Once { access } => access,
            Step::Poll { addr, .. } => Access::Load { addr },
        }
    }

    /// Whether `event` completes the step: a store is complete when it was
    /// performed, a single load when it returned, a poll when the value
    /// loaded is the one waited for.
    pub open spec fn completed_by(self, event: Event) -> bool {
        match self {
            Step::Once { access: Access::Store { .. } } => event is Stored,
            Step::Once { access: Access::Load { .. } } => event is Loaded,
            Step::Poll { mask, expect, .. } => event matches Event::Loaded { value } && value & mask
                == expect,
        }
    }
}

/// A program together with the index of the step that comes next.
pub struct State {
    pub program: Seq<Step>,
    pub pc: int,
}

impl State {
    /// The state in which nothing of `program` has been done yet.
    pub open spec fn start(program: Seq<Step>) -> State {
        State { program, pc: 0 }
    }

    pub open spec fn wf(self) -> bool {
        0 <= self.pc <= self.program.len()
    }

    /// Every step is complete.
    pub open spec fn finished(self) -> bool {
        self.pc >= self.program.len()
    }

    /// The access to perform now, if any is left.
    pub open spec fn pending(self) -> Option<Access> {
        if 0 <= self.pc < self.program.len() {
            Some(self.program[self.pc].access())
        } else {
            None
        }
    }

    /// The state after `event`: one step further if the event completes the
    /// step that was pending, unchanged otherwise.
    pub open spec fn on(self, event: Event) -> State {
        if 0 <= self.pc < self.program.len() && self.program[self.pc].completed_by(event) {
            State { program: self.program, pc: self.pc + 1 }
        } else {
            self
        }
    }

    /// One of `events` arrived while a load at `addr` was pending, and
    /// reported a value `v` with `v & mask == expect`.
    pub open spec fn observed(self, events: Seq<Event>, addr: u32, mask: u32, expect: u32) -> bool {
        exists|j: int|
            0 <= j < events.len() && (#[trigger] self.after(events.take(j))).pending() == Some(
                Access::Load { addr },
            ) && (events[j] matches Event::Loaded { value } && value & mask == expect)
    }

    /// The state after all of `events`, in order.
    pub open spec fn after(self, events: Seq<Event>) -> State
        decreases events.len(),
    {
        if events.len() == 0 {
            self
        } else {
            self.after(events.drop_last()).on(events.last())
        }
    }
}

impl State {
    /// Events move the position forward only, by one step for each event
    /// at most, and leave the program as it is.
    pub proof fn lemma_after_moves_forward(self, events: Seq<Event>)
        requires
            self.wf(),
        ensures
            self.after(events).wf(),
            self.after(events).program == self.program,
            self.pc <= self.after(events).pc <= self.pc + events.len(),
        decreases events.len(),
    {
        if events.len() > 0 {
            self.lemma_after_moves_forward(events.drop_last());
        }
    }

    /// The state after the first `i + 1` events is the state after the
    /// first `i`, moved on by event `i`.
    pub proof fn lemma_after_next(self, events: Seq<Event>, i: int)
        requires
            0 <= i < events.len(),
        ensures
            self.after(events.take(i + 1)) == self.after(events.take(i)).on(events[i]),
    {
        assert(events.take(i + 1).drop_last() == events.take(i));
    }

    /// A step is left behind only through an event that completes it: if
    /// the events took the position past step `k`, then one of them arrived
    /// while step `k` was pending, and completed it.
    pub proof fn lemma_passed_step_was_completed(self, events: Seq<Event>, k: int)
        requires
            self.wf(),
            self.pc <= k < self.after(events).pc,
        ensures
            exists|j: int|
                0 <= j < events.len() && (#[trigger] self.after(events.take(j))).pc == k
                    && self.program[k].completed_by(events[j]),
        decreases events.len(),
    {
        if events.len() > 0 {
            let earlier = events.drop_last();
            self.lemma_after_moves_forward(earlier);
            if k < self.after(earlier).pc {
                self.lemma_passed_step_was_completed(earlier, k);
                let j = choose|j: int|
                    0 <= j < earlier.len() && (#[trigger] self.after(earlier.take(j))).pc == k
                        && self.program[k].completed_by(earlier[j]);
                assert(earlier.take(j) == events.take(j));
                assert(self.after(events.take(j)).pc == k);
            } else {
                let j = events.len() - 1;
                assert(events.take(j) == earlier);
                assert(self.after(events.take(j)).pc == k);
            }
        }
    }

    /// A poll is left behind only after the awaited value was loaded: if
    /// step `k` is a poll and the events took the position past it, then one
    /// of them arrived while the poll's load was pending, and reported the
    /// value that the poll waits for.
    pub proof fn lemma_poll_was_satisfied(self, events: Seq<Event>, k: int)
        requires
            self.wf(),
            self.pc <= k < self.after(events).pc,
            self.program[k] is Poll,
        ensures
            self.observed(
                events,
                self.program[k]->addr,
                self.program[k]->mask,
                self.program[k]->expect,
            ),
    {
        self.lemma_passed_step_was_completed(events, k);
        let j = choose|j: int|
            0 <= j < events.len() && (#[trigger] self.after(events.take(j))).pc == k
                && self.program[k].completed_by(events[j]);
        self.lemma_after_moves_forward(events);
        self.lemma_after_moves_forward(events.take(j));
        assert(self.after(events.take(j)).pending() == Some(
            Access::Load { addr: self.program[k]->addr },
        ));
    }

    /// The position never moves back: after the first `j` events it is at
    /// least where it was after the first `i`, for `i <= j`.
    pub proof fn lemma_never_moves_back(self, events: Seq<Event>, i: int, j: int)
        requires
            0 <= i <= j <= events.len(),
        ensures
            self.after(events.take(i)).pc <= self.after(events.take(j)).pc,
        decreases j - i,
    {
        if i < j {
            self.lemma_never_moves_back(events, i, j - 1);
            self.lemma_after_next(events, j - 1);
        }
    }

    /// A pending step holds the program up for as long as no event
    /// completes it, however many events arrive.
    pub proof fn lemma_blocked_until_completed(self, events: Seq<Event>)
        requires
            0 <= self.pc < self.program.len(),
            forall|j: int|
                0 <= j < events.len() ==> !self.program[self.pc].completed_by(#[trigger] events[j]),
        ensures
            self.after(events) == self,
        decreases events.len(),
    {
        if events.len() > 0 {
            let earlier = events.drop_last();
            assert forall|j: int| 0 <= j < earlier.len() implies !self.program[self.pc]
                .completed_by(#[trigger] earlier[j]) by {
                assert(earlier[j] == events[j]);
            }
            self.lemma_blocked_until_completed(earlier);
        }
    }

    /// A finished program stays finished: no event brings an access back.
    pub proof fn lemma_finished_is_final(self, events: Seq<Event>)
        requires
            self.finished(),
        ensures
            self.after(events) == self,
            self.after(events).pending() is None,
        decreases events.len(),
    {
        if events.len() > 0 {
            self.lemma_finished_is_final(events.drop_last());
        }
    }
}

/// Walks through a program, one access at a time.
pub struct Sequencer {
    program: Vec<Step>,
    pc: usize,
}

impl View for Sequencer {
    type V = State;

    closed spec fn view(&self) -> State {
        State { program: self.program@, pc: self.pc as int }
    }
}

impl Sequencer {
    #[verifier::type_invariant]
    spec fn inv(self) -> bool {
        self.pc <= self.program.len()
    }

    /// A sequencer that stands at the first step of `program`.
    pub fn new(program: Vec<Step>) -> (sequencer: Sequencer)
        ensures
            sequencer@ == State::start(program@),
    {
        Sequencer { program, pc: 0 }
    }

    /// The access to perform now, or `None` when the program is finished.
    pub fn pending(&self) -> (access: Option<Access>)
        ensures
            access == self@.pending(),
    {
        proof {
            use_type_invariant(self);
        }
        if self.pc < self.program.len() {
            match self.program[self.pc] {
                Step::Once { access } => Some(access),
                Step::Poll { addr, .. } => Some(Access::Load { addr }),
            }
        } else {
            None
        }
    }

    /// Takes in what came of the pending access and returns the access to
    /// perform next. An event that does not complete the pending step
    /// changes nothing, and the same access is handed out again.
    pub fn step(&mut self, event: Event) -> (next: Option<Access>)
        ensures
            final(self)@ == old(self)@.on(event),
            next == final(self)@.pending(),
    {
        proof {
            use_type_invariant(&*self);
        }
        if self.pc < self.program.len() {
            let complete = match (self.program[self.pc], event) {
                (Step::Once { access: Access::Store { .. } }, Event::Stored) => true,
                (Step::Once { access: Access::Load { .. } }, Event::Loaded { .. }) => true,
                (Step::Poll { mask, expect, .. }, Event::Loaded { value }) => value & mask
                    == expect,
                _ => false,
            };
            if complete {
                self.pc = self.pc + 1;
            }
        }
        self.pending()
    }

    /// Whether every step is complete.
    pub fn is_finished(&self) -> (finished: bool)
        ensures
            finished == self@.finished(),
    {
        proof {
            use_type_invariant(self);
        }
        self.pc >= self.program.len()
    }

    /// The number of steps that are complete, which is the index of the
    /// pending step.
    pub fn position(&self) -> (pc: usize)
        ensures
            pc == self@.pc,
            self@.wf(),
    {
        proof {
            use_type_invariant(self);
        }
        self.pc
    }
}

} // verus!
