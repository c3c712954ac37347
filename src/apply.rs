//! Running a clock program: the decisions of the register sequence, as a state machine.
//!
//! The caller owns the clock controller. It asks the applier what to do, does it (a
//! register write, or one read of a ready flag) and reports back, until the applier says
//! the program is done or has failed.
use vstd::prelude::*;

use crate::rcc::{ClockError, ClockStep};

verus! {

/// Ready flags of the clock controller.
#[derive(Clone, Copy, Debug, PartialEq, Eq, Structural)]
pub enum ReadyFlag {
    Hsi,
    Hse,
    Pll,
}

/// The ready flag a step must see set before the program may go on, if any.
pub open spec fn awaited_flag(step: ClockStep) -> Option<ReadyFlag> {
    match step {
        ClockStep::EnableHsi { .. } => Some(ReadyFlag::Hsi),
        ClockStep::EnableHse { .. } => Some(ReadyFlag::Hse),
        ClockStep::EnablePll { .. } => Some(ReadyFlag::Pll),
        _ => None,
    }
}

pub fn awaits(step: &ClockStep) -> (r: Option<ReadyFlag>)
    ensures
        r == awaited_flag(*step),
{
    match step {
        ClockStep::EnableHsi { .. } => Some(ReadyFlag::Hsi),
        ClockStep::EnableHse { .. } => Some(ReadyFlag::Hse),
        ClockStep::EnablePll { .. } => Some(ReadyFlag::Pll),
        _ => None,
    }
}

/// What the caller is asked to do next.
#[derive(Clone, Copy, Debug, PartialEq, Eq, Structural)]
pub enum ApplyAction {
    /// Perform this step's register writes.
    Write(ClockStep),
    /// Read this ready flag once and report it.
    Poll(ReadyFlag),
    /// The whole program has been carried out.
    Done,
    /// The program was abandoned.
    Failed(ClockError),
}

/// What the caller reports about the action it was last asked to do.
#[derive(Clone, Copy, Debug, PartialEq, Eq, Structural)]
pub enum ApplyEvent {
    /// Nothing to report: the first call, or a write that was performed.
    Proceed,
    /// The polled flag read as set (`true`) or clear (`false`).
    FlagRead(bool),
}

/// The applier's state as plain values.
pub struct ApplierView {
    pub program: Seq<ClockStep>,
    /// Index of the next step to write.
    pub next: nat,
    /// The flag being waited on, if any.
    pub waiting: Option<ReadyFlag>,
    /// Polls issued in the current wait; with no bound, only whether there was one.
    pub polls: nat,
    /// Largest number of polls allowed per wait; `None` waits for ever.
    pub max_polls: Option<u32>,
    /// Set once the program is done or has failed.
    pub outcome: Option<Result<(), ClockError>>,
}

/// The next action when no flag is awaited: write the next step, or finish.
pub open spec fn issue_next(s: ApplierView) -> (ApplierView, ApplyAction) {
    if s.next < s.program.len() {
        let step = s.program[s.next as int];
        (
            ApplierView { next: s.next + 1, waiting: awaited_flag(step), polls: 0, ..s },
            ApplyAction::Write(step),
        )
    } else {
        (ApplierView { outcome: Some(Ok(())), ..s }, ApplyAction::Done)
    }
}

/// One transition of the applier on the caller's report.
pub open spec fn transition(s: ApplierView, ev: ApplyEvent) -> (ApplierView, ApplyAction) {
    match s.outcome {
        Some(Ok(())) => (s, ApplyAction::Done),
        Some(Err(e)) => (s, ApplyAction::Failed(e)),
        None => match s.waiting {
            None => issue_next(s),
            Some(flag) => if ev == ApplyEvent::FlagRead(true) && s.polls > 0 {
                issue_next(ApplierView { waiting: None, polls: 0, ..s })
            } else if s.max_polls matches Some(m) && s.polls >= m {
                (
                    ApplierView { outcome: Some(Err(ClockError::HardwareTimeout)), ..s },
                    ApplyAction::Failed(ClockError::HardwareTimeout),
                )
            } else {
                let polls = if s.max_polls is Some {
                    s.polls + 1
                } else {
                    1
                };
                (ApplierView { polls, ..s }, ApplyAction::Poll(flag))
            },
        },
    }
}

/// Carries a clock program out one action at a time.
pub struct ClockApplier {
    program: Vec<ClockStep>,
    next: usize,
    waiting: Option<ReadyFlag>,
    polls: u32,
    max_polls: Option<u32>,
    outcome: Option<Result<(), ClockError>>,
}

impl View for ClockApplier {
    type V = ApplierView;

    closed spec fn view(&self) -> ApplierView {
        ApplierView {
            program: self.program@,
            next: self.next as nat,
            waiting: self.waiting,
            polls: self.polls as nat,
            max_polls: self.max_polls,
            outcome: self.outcome,
        }
    }
}

impl ClockApplier {
    /// Whether the counters are in range.
    pub closed spec fn wf(&self) -> bool {
        &&& self.next <= self.program.len()
        &&& match self.max_polls {
            Some(m) => self.polls <= m,
            None => self.polls <= 1,
        }
    }

    /// An applier at the start of `program`. With `max_polls` set, a ready flag that is
    /// still clear after that many polls fails the program with a timeout; with `None`,
    /// it is polled for as long as it takes.
    pub fn new(program: Vec<ClockStep>, max_polls: Option<u32>) -> (r: ClockApplier)
        ensures
            r.wf(),
            r@ == (ApplierView {
                program: program@,
                next: 0,
                waiting: None,
                polls: 0,
                max_polls,
                outcome: None,
            }),
    {
        ClockApplier { program, next: 0, waiting: None, polls: 0, max_polls, outcome: None }
    }

    fn issue_next(&mut self) -> (r: ApplyAction)
        requires
            old(self).wf(),
            old(self).outcome is None,
            old(self).waiting is None,
        ensures
            final(self).wf(),
            (final(self)@, r) == issue_next(old(self)@),
    {
        if self.next < self.program.len() {
            let step = self.program[self.next];
            self.next = self.next + 1;
            self.waiting = awaits(&step);
            self.polls = 0;
            ApplyAction::Write(step)
        } else {
            self.outcome = Some(Ok(()));
            ApplyAction::Done
        }
    }

    /// Takes the caller's report on the last action and returns the next one.
    pub fn advance(&mut self, ev: ApplyEvent) -> (r: ApplyAction)
        requires
            old(self).wf(),
        ensures
            final(self).wf(),
            (final(self)@, r) == transition(old(self)@, ev),
    {
        match self.outcome {
            Some(Ok(())) => return ApplyAction::Done,
            Some(Err(e)) => return ApplyAction::Failed(e),
            None => {},
        }
        match self.waiting {
            None => self.issue_next(),
            Some(flag) => {
                if ev == ApplyEvent::FlagRead(true) && self.polls > 0 {
                    self.waiting = None;
                    self.polls = 0;
                    self.issue_next()
                } else {
                    let timed_out = match self.max_polls {
                        Some(m) => self.polls >= m,
                        None => false,
                    };
                    if timed_out {
                        self.outcome = Some(Err(ClockError::HardwareTimeout));
                        ApplyAction::Failed(ClockError::HardwareTimeout)
                    } else {
                        self.polls = match self.max_polls {
                            Some(_) => self.polls + 1,
                            None => 1,
                        };
                        ApplyAction::Poll(flag)
                    }
                }
            },
        }
    }
}


/// Steps are written one at a time, in program order: a write is always of the step at
/// the current position, and moves the position on by one.
pub proof fn lemma_writes_in_order(s: ApplierView, ev: ApplyEvent, step: ClockStep)
    requires
        transition(s, ev).1 == ApplyAction::Write(step),
    ensures
        s.next < s.program.len(),
        step == s.program[s.next as int],
        transition(s, ev).0.next == s.next + 1,
{
}

/// No step is written while a ready flag is awaited and has not been seen set.
pub proof fn lemma_waits_for_ready(s: ApplierView, ev: ApplyEvent)
    requires
        s.outcome is None,
        s.waiting is Some,
        ev != ApplyEvent::FlagRead(true) || s.polls == 0,
    ensures
        !(transition(s, ev).1 is Write),
        !(transition(s, ev).1 is Done),
{
}

/// Without a poll bound the applier never fails: it waits for each flag as long as it
/// takes.
pub proof fn lemma_unbounded_never_fails(s: ApplierView, ev: ApplyEvent)
    requires
        s.max_polls is None,
        s.outcome is None,
    ensures
        !(transition(s, ev).1 is Failed),
{
}

} // verus!
