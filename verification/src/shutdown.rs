//! The shutdown escalation protocol: interpreting repeated interrupt
//! notifications while the drained tasks are awaited.

use vstd::prelude::*;
use crate::runtime::{BotState, Context, state_le, terminate};

verus! {

/// Escalation behaviour of each interrupt observed while draining, counted
/// as an offset from the notifications already consumed while running: the
/// first is informational, the second warns that one more notification
/// forces an unsafe termination, the third forces it.
#[derive(Clone, Copy, Debug, PartialEq, Eq, Structural)]
pub enum EscalationAction {
    Notice,
    FinalWarning,
    Force,
}

/// The deterministic escalation ladder.
pub open spec fn escalation_of(offset: int) -> EscalationAction {
    if offset == 1 {
        EscalationAction::Notice
    } else if offset == 2 {
        EscalationAction::FinalWarning
    } else {
        EscalationAction::Force
    }
}

/// Escalation determinism: interrupts at drain offsets one, two and three
/// produce the notice, the final warning and the forced termination, in
/// that order and nothing else.
pub proof fn lemma_escalation_deterministic()
    ensures
        escalation_of(1) == EscalationAction::Notice,
        escalation_of(2) == EscalationAction::FinalWarning,
        escalation_of(3) == EscalationAction::Force,
        forall|o: int| 1 <= o <= 3 ==> (escalation_of(o) == EscalationAction::Force <==> o == 3),
{
}

/// Counts the interrupt notifications observed after the dispatch loop has
/// exited. An offset beyond three is unreachable by construction — the
/// drain loop breaks at three — and is ruled out here explicitly rather
/// than silently extending the escalation ladder.
pub struct ShutdownCoordinator {
    pub offset: u8,
}

impl ShutdownCoordinator {
    pub fn new() -> (r: ShutdownCoordinator)
        ensures
            r.offset == 0,
    {
        ShutdownCoordinator { offset: 0 }
    }

    /// Consumes one interrupt notification and answers with the escalation
    /// step it demands.
    pub fn on_interrupt(&mut self) -> (a: EscalationAction)
        requires
            old(self).offset < 3,
        ensures
            final (self).offset == old(self).offset + 1,
            a == escalation_of(old(self).offset + 1),
    {
        self.offset = self.offset + 1;
        if self.offset == 1 {
            EscalationAction::Notice
        } else if self.offset == 2 {
            EscalationAction::FinalWarning
        } else {
            EscalationAction::Force
        }
    }
}

/// What the drain loop does after one of its wake-ups.
#[derive(Clone, Copy, Debug, PartialEq, Eq, Structural)]
pub enum DrainDecision {
    Continue,
    Exit,
}

/// One wake-up of the drain loop: an interrupt notification arrived, or
/// everything the supervisor handed over has finished.
#[derive(Clone, Copy, Debug, PartialEq, Eq, Structural)]
pub enum DrainEvent {
    Interrupt,
    TasksFinished,
}

/// One decision step of the drain loop. All tasks finishing ends the drain;
/// an interrupt escalates, and the third one deterministically forces
/// `soft == false`, fires the cancellation signal again (idempotently) and
/// unblocks the drain loop even with unfinished tasks outstanding.
pub fn drain_step(context: &mut Context, coord: &mut ShutdownCoordinator, event: DrainEvent) -> (r:
    (DrainDecision, Option<EscalationAction>))
    requires
        old(coord).offset < 3,
    ensures
        state_le(old(context).state, final (context).state),
        match event {
            DrainEvent::TasksFinished => {
                &&& r == (DrainDecision::Exit, None::<EscalationAction>)
                &&& *final (context) == *old(context)
                &&& *final (coord) == *old(coord)
            },
            DrainEvent::Interrupt => {
                let a = escalation_of(old(coord).offset + 1);
                &&& final (coord).offset == old(coord).offset + 1
                &&& r == (
                    if a == EscalationAction::Force {
                        DrainDecision::Exit
                    } else {
                        DrainDecision::Continue
                    },
                    Some(a),
                )
                &&& (a == EscalationAction::Force ==> final (context).state == (
                BotState::Terminating { soft: false }) && final (context).c_token.signalled
                    && crate::runtime::same_identity(*old(context), *final (context)))
                &&& (a != EscalationAction::Force ==> *final (context) == *old(context))
            },
        },
{
    match event {
        DrainEvent::TasksFinished => (DrainDecision::Exit, None),
        DrainEvent::Interrupt => {
            let a = coord.on_interrupt();
            match a {
                EscalationAction::Force => {
                    terminate(context, false);
                    (DrainDecision::Exit, Some(a))
                },
                _ => (DrainDecision::Continue, Some(a)),
            }
        },
    }
}

} // verus!
