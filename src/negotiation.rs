//! The order of the negotiation of one session: apply the remote offer,
//! create an answer, apply it locally, wait until every local candidate has
//! been gathered, and only then hand out the answer.

use vstd::prelude::*;

verus! {

/// How far a negotiation has come.
#[derive(Clone, Copy, PartialEq, Eq, Structural, Debug)]
pub enum NegotiationPhase {
    /// The offer has not been applied yet.
    Offered,
    /// The offer is the session's remote description.
    RemoteApplied,
    /// An answer has been created.
    AnswerCreated,
    /// The answer is the session's local description; candidates are being gathered.
    LocalApplied,
    /// Candidate gathering is complete.
    Gathered,
    /// The answer has been handed out.
    Answered,
    /// A step failed.
    Failed,
}

/// Why a negotiation failed.
#[derive(Clone, Copy, PartialEq, Eq, Structural, Debug)]
pub enum NegotiationFailed {
    /// The offer could not be read or applied.
    BadOffer,
    /// No answer could be created.
    AnswerNotCreated,
    /// The answer could not be applied as the local description.
    AnswerNotApplied,
    /// Candidate gathering did not complete.
    GatheringIncomplete,
    /// The session has no local description to send, or it is empty.
    NoAnswer,
    /// A step was reported out of order.
    OutOfOrder,
}

/// What the caller must do next.
#[derive(Clone, Copy, PartialEq, Eq, Structural, Debug)]
pub enum NegotiationStep {
    /// Create an answer to the offer.
    CreateAnswer,
    /// Apply the answer as the local description.
    ApplyAnswer,
    /// Wait until candidate gathering completes.
    AwaitGathering,
    /// Serialise the local description and pass it to `finish`.
    ReadAnswer,
    /// Give up, for the reason given.
    Fail(NegotiationFailed),
}

/// The phase that follows `p` when its step succeeded.
pub open spec fn next_phase(p: NegotiationPhase) -> NegotiationPhase {
    match p {
        NegotiationPhase::Offered => NegotiationPhase::RemoteApplied,
        NegotiationPhase::RemoteApplied => NegotiationPhase::AnswerCreated,
        NegotiationPhase::AnswerCreated => NegotiationPhase::LocalApplied,
        NegotiationPhase::LocalApplied => NegotiationPhase::Gathered,
        _ => NegotiationPhase::Failed,
    }
}

/// The failure that ends phase `p` when its step failed.
pub open spec fn failure_of(p: NegotiationPhase) -> NegotiationFailed {
    match p {
        NegotiationPhase::Offered => NegotiationFailed::BadOffer,
        NegotiationPhase::RemoteApplied => NegotiationFailed::AnswerNotCreated,
        NegotiationPhase::AnswerCreated => NegotiationFailed::AnswerNotApplied,
        NegotiationPhase::LocalApplied => NegotiationFailed::GatheringIncomplete,
        _ => NegotiationFailed::OutOfOrder,
    }
}

/// The step asked for on entering phase `p`.
pub open spec fn step_into(p: NegotiationPhase) -> NegotiationStep {
    match p {
        NegotiationPhase::RemoteApplied => NegotiationStep::CreateAnswer,
        NegotiationPhase::AnswerCreated => NegotiationStep::ApplyAnswer,
        NegotiationPhase::LocalApplied => NegotiationStep::AwaitGathering,
        _ => NegotiationStep::ReadAnswer,
    }
}

/// A phase in which a step is under way.
pub open spec fn in_progress(p: NegotiationPhase) -> bool {
    p == NegotiationPhase::Offered || p == NegotiationPhase::RemoteApplied
        || p == NegotiationPhase::AnswerCreated || p == NegotiationPhase::LocalApplied
}

/// The phase reached from `p` when the steps report `outcomes` in turn.
pub open spec fn phase_after(p: NegotiationPhase, outcomes: Seq<bool>) -> NegotiationPhase
    decreases outcomes.len(),
{
    if outcomes.len() == 0 {
        p
    } else if in_progress(p) && outcomes[0] {
        phase_after(next_phase(p), outcomes.drop_first())
    } else {
        phase_after(NegotiationPhase::Failed, outcomes.drop_first())
    }
}

/// One negotiation.
#[derive(Clone, Copy, PartialEq, Eq, Structural, Debug)]
pub struct Negotiation {
    pub phase: NegotiationPhase,
}

impl Negotiation {
    /// A negotiation whose first step is to apply the offer.
    pub fn new() -> (r: Negotiation)
        ensures
            r.phase == NegotiationPhase::Offered,
    {
        Negotiation { phase: NegotiationPhase::Offered }
    }

    /// Takes the outcome of the step under way and returns the next one.
    pub fn advance(&mut self, ok: bool) -> (r: NegotiationStep)
        ensures
            in_progress(old(self).phase) && ok ==> final(self).phase == next_phase(old(self).phase)
                && r == step_into(final(self).phase),
            !(in_progress(old(self).phase) && ok) ==> final(self).phase == NegotiationPhase::Failed
                && r == NegotiationStep::Fail(failure_of(old(self).phase)),
    {
        let p = self.phase;
        if ok {
            match p {
                NegotiationPhase::Offered => {
                    self.phase = NegotiationPhase::RemoteApplied;
                    return NegotiationStep::CreateAnswer;
                },
                NegotiationPhase::RemoteApplied => {
                    self.phase = NegotiationPhase::AnswerCreated;
                    return NegotiationStep::ApplyAnswer;
                },
                NegotiationPhase::AnswerCreated => {
                    self.phase = NegotiationPhase::LocalApplied;
                    return NegotiationStep::AwaitGathering;
                },
                NegotiationPhase::LocalApplied => {
                    self.phase = NegotiationPhase::Gathered;
                    return NegotiationStep::ReadAnswer;
                },
                _ => {},
            }
        }
        self.phase = NegotiationPhase::Failed;
        let why = match p {
            NegotiationPhase::Offered => NegotiationFailed::BadOffer,
            NegotiationPhase::RemoteApplied => NegotiationFailed::AnswerNotCreated,
            NegotiationPhase::AnswerCreated => NegotiationFailed::AnswerNotApplied,
            NegotiationPhase::LocalApplied => NegotiationFailed::GatheringIncomplete,
            _ => NegotiationFailed::OutOfOrder,
        };
        NegotiationStep::Fail(why)
    }

    /// Takes the serialised local description, if the session has one, and
    /// returns the answer to send. The answer is handed out only once
    /// gathering is complete, only once, and never empty.
    pub fn finish(&mut self, local: Option<String>) -> (r: Result<String, NegotiationFailed>)
        ensures
            old(self).phase != NegotiationPhase::Gathered ==> r == Err::<String, NegotiationFailed>(
                NegotiationFailed::OutOfOrder,
            ) && final(self).phase == NegotiationPhase::Failed,
            old(self).phase == NegotiationPhase::Gathered ==> match local {
                Some(s) => if s@.len() > 0 {
                    r == Ok::<String, NegotiationFailed>(s) && final(self).phase
                        == NegotiationPhase::Answered
                } else {
                    r == Err::<String, NegotiationFailed>(NegotiationFailed::NoAnswer)
                        && final(self).phase == NegotiationPhase::Failed
                },
                None => r == Err::<String, NegotiationFailed>(NegotiationFailed::NoAnswer)
                    && final(self).phase == NegotiationPhase::Failed,
            },
    {
        if self.phase != NegotiationPhase::Gathered {
            self.phase = NegotiationPhase::Failed;
            return Err(NegotiationFailed::OutOfOrder);
        }
        match local {
            Some(s) => {
                if !s.as_str().is_empty() {
                    self.phase = NegotiationPhase::Answered;
                    Ok(s)
                } else {
                    self.phase = NegotiationPhase::Failed;
                    Err(NegotiationFailed::NoAnswer)
                }
            },
            None => {
                self.phase = NegotiationPhase::Failed;
                Err(NegotiationFailed::NoAnswer)
            },
        }
    }
}

proof fn lemma_failed_is_final(outcomes: Seq<bool>)
    ensures
        phase_after(NegotiationPhase::Failed, outcomes) == NegotiationPhase::Failed,
    decreases outcomes.len(),
{
    if outcomes.len() > 0 {
        lemma_failed_is_final(outcomes.drop_first());
    }
}

/// How many steps remain from phase `p` until gathering is complete.
pub open spec fn steps_left(p: NegotiationPhase) -> nat {
    match p {
        NegotiationPhase::Offered => 4,
        NegotiationPhase::RemoteApplied => 3,
        NegotiationPhase::AnswerCreated => 2,
        NegotiationPhase::LocalApplied => 1,
        _ => 0,
    }
}

proof fn lemma_gathered_needs_every_step(p: NegotiationPhase, outcomes: Seq<bool>)
    requires
        phase_after(p, outcomes) == NegotiationPhase::Gathered,
    ensures
        outcomes.len() == steps_left(p),
        forall|i: int| 0 <= i < outcomes.len() ==> outcomes[i],
    decreases outcomes.len(),
{
    if outcomes.len() > 0 {
        let rest = outcomes.drop_first();
        if in_progress(p) && outcomes[0] {
            lemma_gathered_needs_every_step(next_phase(p), rest);
            assert forall|i: int| 0 <= i < outcomes.len() implies outcomes[i] by {
                if i > 0 {
                    assert(outcomes[i] == rest[i - 1]);
                }
            }
        } else {
            lemma_failed_is_final(rest);
        }
    }
}

/// A negotiation reaches the point where its answer may be handed out
/// only after all four steps succeeded in order, the last of them the
/// completion of candidate gathering; a failure of any step ends it.
pub proof fn lemma_answer_only_after_gathering(outcomes: Seq<bool>)
    requires
        phase_after(NegotiationPhase::Offered, outcomes) == NegotiationPhase::Gathered,
    ensures
        outcomes.len() == 4,
        forall|i: int| 0 <= i < 4 ==> outcomes[i],
{
    lemma_gathered_needs_every_step(NegotiationPhase::Offered, outcomes);
}

} // verus!
