//! The loop that keeps the owning context alive: it asks once for the
//! subscription to the command topic, then sleeps and reports, for ever.
//! It never touches an output.

use vstd::prelude::*;

verus! {

/// How long one sleep lasts, in seconds.
pub const SLEEP_SECS: u64 = 2;

/// What the loop does next.
#[derive(Clone, Copy, Debug, PartialEq, Eq, Structural)]
pub enum LivenessStep {
    /// Ask for the subscription. This is the first step, and it is taken
    /// once.
    Subscribe,
    /// Sleep for `SLEEP_SECS`.
    Sleep,
    /// Report that the loop is waiting.
    Report,
    /// The subscription was refused: without it no command can ever
    /// arrive, so the whole run is given up.
    Abort,
}

/// The step after `step`, given whether `step` succeeded. Only the
/// subscription can fail; of a sleep or a report the outcome is not looked
/// at.
pub open spec fn liveness_next(step: LivenessStep, succeeded: bool) -> LivenessStep {
    match step {
        LivenessStep::Subscribe => if succeeded {
            LivenessStep::Sleep
        } else {
            LivenessStep::Abort
        },
        LivenessStep::Sleep => LivenessStep::Report,
        LivenessStep::Report => LivenessStep::Sleep,
        LivenessStep::Abort => LivenessStep::Abort,
    }
}

/// The step reached from `step` after one step for each entry of
/// `outcomes`.
pub open spec fn liveness_after(step: LivenessStep, outcomes: Seq<bool>) -> LivenessStep
    decreases outcomes.len(),
{
    if outcomes.len() == 0 {
        step
    } else {
        liveness_next(liveness_after(step, outcomes.drop_last()), outcomes.last())
    }
}

impl LivenessStep {
    /// The step that the loop starts with.
    pub fn first() -> (step: LivenessStep)
        ensures
            step == LivenessStep::Subscribe,
    {
        LivenessStep::Subscribe
    }

    /// The step after this one, given whether this one succeeded. No step
    /// leads back to `Subscribe`.
    pub fn next(self, succeeded: bool) -> (next: LivenessStep)
        ensures
            next == liveness_next(self, succeeded),
            next != LivenessStep::Subscribe,
    {
        match self {
            LivenessStep::Subscribe => if succeeded {
                LivenessStep::Sleep
            } else {
                LivenessStep::Abort
            },
            LivenessStep::Sleep => LivenessStep::Report,
            LivenessStep::Report => LivenessStep::Sleep,
            LivenessStep::Abort => LivenessStep::Abort,
        }
    }
}

/// Once subscribed, the loop alternates sleep and report and does nothing
/// else, whatever the outcomes: it never ends and never subscribes again.
pub proof fn lemma_subscribed_loop_never_ends(outcomes: Seq<bool>)
    ensures
        outcomes.len() % 2 == 0 ==> liveness_after(LivenessStep::Sleep, outcomes)
            == LivenessStep::Sleep,
        outcomes.len() % 2 == 1 ==> liveness_after(LivenessStep::Sleep, outcomes)
            == LivenessStep::Report,
    decreases outcomes.len(),
{
    if outcomes.len() > 0 {
        lemma_subscribed_loop_never_ends(outcomes.drop_last());
    }
}

/// A refused subscription is final: the loop aborts and stays aborted.
pub proof fn lemma_refused_subscription_is_fatal(outcomes: Seq<bool>)
    requires
        outcomes.len() > 0,
        !outcomes[0],
    ensures
        liveness_after(LivenessStep::Subscribe, outcomes) == LivenessStep::Abort,
    decreases outcomes.len(),
{
    if outcomes.len() > 1 {
        assert(outcomes.drop_last()[0] == outcomes[0]);
        lemma_refused_subscription_is_fatal(outcomes.drop_last());
    } else {
        assert(liveness_after(LivenessStep::Subscribe, outcomes.drop_last())
            == LivenessStep::Subscribe);
    }
}

} // verus!
