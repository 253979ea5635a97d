//! The life of one asynchronous operation, from dispatch to the single
//! invocation of its callback.
use crate::error::ErrorCode;
use vstd::prelude::*;

verus! {

/// Where an operation stands.
#[derive(Clone, Copy, Debug, PartialEq, Eq, Structural)]
pub enum Phase {
    /// Handed to the resource; no outcome yet.
    Dispatched,
    /// The resource answered; the callback has not been invoked yet.
    Succeeded,
    /// The resource failed; the callback has not been invoked yet.
    Failed,
    /// The callback has been handed out for its one invocation.
    CallbackFired,
}

/// What can happen to an operation in flight.
pub enum OpEvent {
    /// The outcome arrives, already translated to a boundary code.
    Settled(ErrorCode),
    /// The bridge is asked to hand out the callback.
    Fire,
    /// The resource that the operation was dispatched on leaves its table.
    OwnerClosed,
}

/// The phase after `event`.
pub open spec fn phase_step(phase: Phase, event: OpEvent) -> Phase {
    match (phase, event) {
        (Phase::Dispatched, OpEvent::Settled(code)) => if code == ErrorCode::Success {
            Phase::Succeeded
        } else {
            Phase::Failed
        },
        (Phase::Succeeded, OpEvent::Fire) => Phase::CallbackFired,
        (Phase::Failed, OpEvent::Fire) => Phase::CallbackFired,
        _ => phase,
    }
}

/// Whether `event` hands out the callback.
pub open spec fn invokes(phase: Phase, event: OpEvent) -> bool {
    event is Fire && (phase is Succeeded || phase is Failed)
}

/// The phase after `events`, one after the other.
pub open spec fn phase_run(phase: Phase, events: Seq<OpEvent>) -> Phase
    decreases events.len(),
{
    if events.len() == 0 {
        phase
    } else {
        phase_step(phase_run(phase, events.drop_last()), events.last())
    }
}

/// How often `events` hand out the callback.
pub open spec fn invocations(phase: Phase, events: Seq<OpEvent>) -> nat
    decreases events.len(),
{
    if events.len() == 0 {
        0
    } else {
        invocations(phase, events.drop_last()) + if invokes(
            phase_run(phase, events.drop_last()),
            events.last(),
        ) {
            1nat
        } else {
            0nat
        }
    }
}

proof fn lemma_prefix_unfold(phase: Phase, events: Seq<OpEvent>, i: int)
    requires
        0 <= i < events.len(),
    ensures
        phase_run(phase, events.take(i + 1)) == phase_step(
            phase_run(phase, events.take(i)),
            events[i],
        ),
        invocations(phase, events.take(i + 1)) == invocations(phase, events.take(i)) + if invokes(
            phase_run(phase, events.take(i)),
            events[i],
        ) {
            1nat
        } else {
            0nat
        },
{
    assert(events.take(i + 1).drop_last() =~= events.take(i));
}

/// Whatever happens to an operation, and in whatever order, its callback is
/// handed out at most once; once it has been, the operation is over.
pub proof fn lemma_at_most_one_invocation(phase: Phase, events: Seq<OpEvent>)
    ensures
        invocations(phase, events) <= 1,
        invocations(phase, events) == 1 ==> phase_run(phase, events) is CallbackFired,
        phase is CallbackFired ==> invocations(phase, events) == 0 && phase_run(phase, events)
            is CallbackFired,
        phase is Dispatched && phase_run(phase, events) is CallbackFired ==> invocations(
            phase,
            events,
        ) == 1,
        phase is Dispatched && (forall|i: int| 0 <= i < events.len() ==> !(events[i] is Settled))
            ==> phase_run(phase, events) is Dispatched && invocations(phase, events) == 0,
    decreases events.len(),
{
    if events.len() > 0 {
        lemma_at_most_one_invocation(phase, events.drop_last());
    }
}

/// An operation that was dispatched, whose outcome arrives and whose callback
/// is then asked for, invokes the callback exactly once: no matter what else
/// happens before, between or after, the closing of its resource included.
pub proof fn lemma_exactly_one_invocation(events: Seq<OpEvent>, i: int, j: int)
    requires
        0 <= i < j < events.len(),
        events[i] is Settled,
        events[j] is Fire,
    ensures
        invocations(Phase::Dispatched, events) == 1,
        phase_run(Phase::Dispatched, events) is CallbackFired,
{
    let start = Phase::Dispatched;
    lemma_settled_leaves_dispatched(events, i, j);
    lemma_prefix_unfold(start, events, j);
    lemma_at_most_one_invocation(start, events.take(j));
    lemma_at_most_one_invocation(start, events.take(j + 1));
    lemma_fired_is_final(events, j + 1, events.len() as int);
    assert(events.take(events.len() as int) =~= events);
    lemma_at_most_one_invocation(start, events);
}

proof fn lemma_settled_leaves_dispatched(events: Seq<OpEvent>, i: int, j: int)
    requires
        0 <= i < j <= events.len(),
        events[i] is Settled,
    ensures
        !(phase_run(Phase::Dispatched, events.take(j)) is Dispatched),
    decreases j - i,
{
    lemma_prefix_unfold(Phase::Dispatched, events, j - 1);
    if j - 1 > i {
        lemma_settled_leaves_dispatched(events, i, j - 1);
    }
}

proof fn lemma_fired_is_final(events: Seq<OpEvent>, i: int, j: int)
    requires
        0 <= i <= j <= events.len(),
        phase_run(Phase::Dispatched, events.take(i)) is CallbackFired,
    ensures
        phase_run(Phase::Dispatched, events.take(j)) is CallbackFired,
    decreases j - i,
{
    if i < j {
        lemma_fired_is_final(events, i, j - 1);
        lemma_prefix_unfold(Phase::Dispatched, events, j - 1);
    }
}

/// The closing of its resource does nothing to an operation in flight.
pub proof fn lemma_owner_closed_is_ignored(phase: Phase)
    ensures
        phase_step(phase, OpEvent::OwnerClosed) == phase,
        !invokes(phase, OpEvent::OwnerClosed),
{
}

/// A callback together with the code and the text to invoke it with.
#[derive(Debug)]
pub struct Invocation<C> {
    pub callback: C,
    pub code: ErrorCode,
    pub reply: String,
}

/// An operation in flight. It owns the callback from dispatch on and hands it
/// out once, together with the outcome.
#[derive(Debug)]
pub struct PendingOperation<C> {
    phase: Phase,
    callback: Option<C>,
    outcome: Option<(ErrorCode, String)>,
}

impl<C> PendingOperation<C> {
    #[verifier::type_invariant]
    spec fn inv(self) -> bool {
        match self.phase {
            Phase::Dispatched => self.callback is Some && self.outcome is None,
            Phase::Succeeded => self.callback is Some && (self.outcome matches Some(outcome)
                && outcome.0 == ErrorCode::Success),
            Phase::Failed => self.callback is Some && (self.outcome matches Some(outcome)
                && outcome.0 != ErrorCode::Success),
            Phase::CallbackFired => self.callback is None && self.outcome is None,
        }
    }

    /// The operation as it is right after dispatch.
    pub closed spec fn dispatched(callback: C) -> PendingOperation<C> {
        PendingOperation { phase: Phase::Dispatched, callback: Some(callback), outcome: None }
    }

    /// Where the operation stands.
    pub closed spec fn phase(&self) -> Phase {
        self.phase
    }

    /// The callback, as long as the operation holds it.
    pub closed spec fn callback(&self) -> Option<C> {
        self.callback
    }

    /// The code and the text that wait for the callback.
    pub closed spec fn settled(&self) -> Option<(ErrorCode, Seq<char>)> {
        match self.outcome {
            Some((code, reply)) => Some((code, reply@)),
            None => None,
        }
    }

    /// Takes over `callback` for an operation that is being dispatched.
    pub fn new(callback: C) -> (op: PendingOperation<C>)
        ensures
            op == Self::dispatched(callback),
            op.phase() is Dispatched,
            op.callback() == Some(callback),
            op.settled() is None,
    {
        PendingOperation { phase: Phase::Dispatched, callback: Some(callback), outcome: None }
    }

    /// Where the operation stands.
    pub fn current_phase(&self) -> (phase: Phase)
        ensures
            phase == self.phase(),
    {
        self.phase
    }

    /// Records the outcome. Only the first outcome counts: an operation that
    /// is already settled or over stays as it is.
    pub fn settle(&mut self, code: ErrorCode, reply: String)
        ensures
            final(self).phase() == phase_step(old(self).phase(), OpEvent::Settled(code)),
            final(self).callback() == old(self).callback(),
            final(self).settled() == if old(self).phase() is Dispatched {
                Some((code, reply@))
            } else {
                old(self).settled()
            },
    {
        proof {
            use_type_invariant(&*self);
        }
        match self.phase {
            Phase::Dispatched => {
                let phase = if code == ErrorCode::Success {
                    Phase::Succeeded
                } else {
                    Phase::Failed
                };
                let mut held = PendingOperation {
                    phase: Phase::CallbackFired,
                    callback: None,
                    outcome: None,
                };
                std::mem::swap(&mut held, self);
                *self = PendingOperation {
                    phase,
                    callback: held.callback,
                    outcome: Some((code, reply)),
                };
            },
            _ => {},
        }
    }

    /// Hands out the callback with the recorded outcome, if an outcome is
    /// recorded and the callback was not handed out before.
    pub fn fire(&mut self) -> (invocation: Option<Invocation<C>>)
        ensures
            final(self).phase() == phase_step(old(self).phase(), OpEvent::Fire),
            invocation is Some <==> invokes(old(self).phase(), OpEvent::Fire),
            match invocation {
                Some(inv) => {
                    &&& old(self).callback() == Some(inv.callback)
                    &&& old(self).settled() == Some((inv.code, inv.reply@))
                    &&& final(self).callback() is None
                    &&& final(self).settled() is None
                },
                None => final(self).callback() == old(self).callback() && final(self).settled()
                    == old(self).settled(),
            },
    {
        proof {
            use_type_invariant(&*self);
        }
        match self.phase {
            Phase::Succeeded | Phase::Failed => {
                let mut fired = PendingOperation {
                    phase: Phase::CallbackFired,
                    callback: None,
                    outcome: None,
                };
                std::mem::swap(&mut fired, self);
                match (fired.callback, fired.outcome) {
                    (Some(callback), Some((code, reply))) => Some(
                        Invocation { callback, code, reply },
                    ),
                    _ => None,
                }
            },
            _ => None,
        }
    }

    /// Records the outcome and hands out the callback in one step. On an
    /// operation that was dispatched and nothing else, this yields the
    /// callback with exactly this outcome; on one that is over, nothing.
    pub fn complete(&mut self, code: ErrorCode, reply: String) -> (invocation: Option<
        Invocation<C>,
    >)
        ensures
            final(self).phase() == phase_step(
                phase_step(old(self).phase(), OpEvent::Settled(code)),
                OpEvent::Fire,
            ),
            invocation is Some <==> !(old(self).phase() is CallbackFired),
            final(self).callback() is None,
            final(self).settled() is None,
            match invocation {
                Some(inv) => old(self).callback() == Some(inv.callback) && (inv.code, inv.reply@)
                    == if old(self).phase() is Dispatched {
                    (code, reply@)
                } else {
                    old(self).settled()->0
                },
                None => true,
            },
    {
        proof {
            use_type_invariant(&*self);
        }
        self.settle(code, reply);
        proof {
            use_type_invariant(&*self);
        }
        self.fire()
    }
}

} // verus!
