use vstd::prelude::*;

verus! {

/// Where a run stands.
#[derive(Clone, Copy, Debug, PartialEq, Eq, Structural)]
pub enum Stage {
    /// Nothing has been started.
    Start,
    /// The transcoder invocations are running.
    Transcoding,
    /// The multiplexer is running.
    Multiplexing,
    /// The intermediate files are being removed.
    CleaningUp,
    /// The run has succeeded.
    Done,
    /// The run has failed.
    Failed,
}

/// What the driver of a run does next.
#[derive(Clone, Copy, Debug, PartialEq, Eq, Structural)]
pub enum Step {
    /// Run the transcoder invocations, all at once, and wait for all of them.
    Transcode,
    /// Run the multiplexer and wait for it.
    Multiplex,
    /// Remove the intermediate files.
    RemoveIntermediates,
    /// End the run successfully.
    Finish,
    /// End the run abnormally.
    Abort,
}

/// The next stage and step, given the stage, the run mode and whether the
/// previous step succeeded. Any failure ends the run abnormally; a dummy run
/// ends after its single transcoder invocation.
pub open spec fn advance_of(stage: Stage, dummy: bool, succeeded: bool) -> (Stage, Step) {
    match stage {
        Stage::Start => (Stage::Transcoding, Step::Transcode),
        Stage::Transcoding => if !succeeded {
            (Stage::Failed, Step::Abort)
        } else if dummy {
            (Stage::Done, Step::Finish)
        } else {
            (Stage::Multiplexing, Step::Multiplex)
        },
        Stage::Multiplexing => if succeeded {
            (Stage::CleaningUp, Step::RemoveIntermediates)
        } else {
            (Stage::Failed, Step::Abort)
        },
        Stage::CleaningUp => if succeeded {
            (Stage::Done, Step::Finish)
        } else {
            (Stage::Failed, Step::Abort)
        },
        Stage::Done => (Stage::Done, Step::Finish),
        Stage::Failed => (Stage::Failed, Step::Abort),
    }
}

/// The steps that a run takes from `stage` when the previous steps came out
/// as `outcomes` says, one outcome per step.
pub open spec fn steps_of(stage: Stage, dummy: bool, outcomes: Seq<bool>) -> Seq<Step>
    decreases outcomes.len(),
{
    if outcomes.len() == 0 {
        Seq::empty()
    } else {
        let (next, step) = advance_of(stage, dummy, outcomes[0]);
        seq![step] + steps_of(next, dummy, outcomes.drop_first())
    }
}

/// The next stage of a run and the step to take.
pub fn advance(stage: Stage, dummy: bool, succeeded: bool) -> (r: (Stage, Step))
    ensures
        r == advance_of(stage, dummy, succeeded),
{
    match stage {
        Stage::Start => (Stage::Transcoding, Step::Transcode),
        Stage::Transcoding => {
            if !succeeded {
                (Stage::Failed, Step::Abort)
            } else if dummy {
                (Stage::Done, Step::Finish)
            } else {
                (Stage::Multiplexing, Step::Multiplex)
            }
        },
        Stage::Multiplexing => {
            if succeeded {
                (Stage::CleaningUp, Step::RemoveIntermediates)
            } else {
                (Stage::Failed, Step::Abort)
            }
        },
        Stage::CleaningUp => {
            if succeeded {
                (Stage::Done, Step::Finish)
            } else {
                (Stage::Failed, Step::Abort)
            }
        },
        Stage::Done => (Stage::Done, Step::Finish),
        Stage::Failed => (Stage::Failed, Step::Abort),
    }
}

/// A run takes one step per outcome.
pub proof fn lemma_steps_len(stage: Stage, dummy: bool, outcomes: Seq<bool>)
    ensures
        steps_of(stage, dummy, outcomes).len() == outcomes.len(),
    decreases outcomes.len(),
{
    if outcomes.len() > 0 {
        let (next, step) = advance_of(stage, dummy, outcomes[0]);
        lemma_steps_len(next, dummy, outcomes.drop_first());
    }
}

/// A failed run stays failed: every later step aborts.
pub proof fn lemma_failed_stays_failed(dummy: bool, outcomes: Seq<bool>)
    ensures
        forall|i: int| 0 <= i < outcomes.len() ==> #[trigger] steps_of(Stage::Failed, dummy, outcomes)[i] == Step::Abort,
    decreases outcomes.len(),
{
    if outcomes.len() > 0 {
        lemma_failed_stays_failed(dummy, outcomes.drop_first());
        lemma_steps_len(Stage::Failed, dummy, outcomes.drop_first());
        let s = steps_of(Stage::Failed, dummy, outcomes);
        assert forall|i: int| 0 <= i < outcomes.len() implies #[trigger] s[i] == Step::Abort by {
            if i > 0 {
                assert(s[i] == steps_of(Stage::Failed, dummy, outcomes.drop_first())[i - 1]);
            }
        }
    }
}

/// A finished run stays finished: every later step finishes.
pub proof fn lemma_done_stays_done(dummy: bool, outcomes: Seq<bool>)
    ensures
        forall|i: int| 0 <= i < outcomes.len() ==> #[trigger] steps_of(Stage::Done, dummy, outcomes)[i] == Step::Finish,
    decreases outcomes.len(),
{
    if outcomes.len() > 0 {
        lemma_done_stays_done(dummy, outcomes.drop_first());
        lemma_steps_len(Stage::Done, dummy, outcomes.drop_first());
        let s = steps_of(Stage::Done, dummy, outcomes);
        assert forall|i: int| 0 <= i < outcomes.len() implies #[trigger] s[i] == Step::Finish by {
            if i > 0 {
                assert(s[i] == steps_of(Stage::Done, dummy, outcomes.drop_first())[i - 1]);
            }
        }
    }
}

/// When the multiplexer fails, the intermediate files are never removed and
/// the run ends abnormally.
pub proof fn lemma_failed_multiplex_keeps_intermediates(outcomes: Seq<bool>)
    requires
        outcomes.len() >= 3,
        outcomes[1],
        !outcomes[2],
    ensures
        steps_of(Stage::Start, false, outcomes)[1] == Step::Multiplex,
        steps_of(Stage::Start, false, outcomes)[2] == Step::Abort,
        forall|i: int| 2 <= i < outcomes.len() ==> #[trigger] steps_of(Stage::Start, false, outcomes)[i] == Step::Abort,
        forall|i: int| 0 <= i < outcomes.len() ==> #[trigger] steps_of(Stage::Start, false, outcomes)[i] != Step::RemoveIntermediates,
{
    let o1 = outcomes.drop_first();
    let o2 = o1.drop_first();
    let o3 = o2.drop_first();
    lemma_failed_stays_failed(false, o3);
    lemma_steps_len(Stage::Failed, false, o3);
    lemma_steps_len(Stage::Multiplexing, false, o2);
    lemma_steps_len(Stage::Transcoding, false, o1);
    let s = steps_of(Stage::Start, false, outcomes);
    let s1 = steps_of(Stage::Transcoding, false, o1);
    let s2 = steps_of(Stage::Multiplexing, false, o2);
    let s3 = steps_of(Stage::Failed, false, o3);
    assert(s2 == seq![Step::Abort] + s3);
    assert(s1 == seq![Step::Multiplex] + s2);
    assert(s == seq![Step::Transcode] + s1);
    assert forall|i: int| 2 <= i < outcomes.len() implies #[trigger] s[i] == Step::Abort by {
        assert(s[i] == s1[i - 1]);
        assert(s1[i - 1] == s2[i - 2]);
        if i > 2 {
            assert(s2[i - 2] == s3[i - 3]);
        }
    }
    assert forall|i: int| 0 <= i < outcomes.len() implies #[trigger] s[i] != Step::RemoveIntermediates by {
        if i >= 2 {
            assert(s[i] == Step::Abort);
        }
    }
}

/// A dummy run never invokes the multiplexer and never removes files: it
/// transcodes once, then finishes or aborts.
pub proof fn lemma_dummy_run_never_multiplexes(outcomes: Seq<bool>)
    requires
        outcomes.len() >= 1,
    ensures
        steps_of(Stage::Start, true, outcomes)[0] == Step::Transcode,
        forall|i: int| 1 <= i < outcomes.len() ==> {
            let s = #[trigger] steps_of(Stage::Start, true, outcomes)[i];
            s == Step::Finish || s == Step::Abort
        },
{
    let o1 = outcomes.drop_first();
    let s = steps_of(Stage::Start, true, outcomes);
    let s1 = steps_of(Stage::Transcoding, true, o1);
    assert(s == seq![Step::Transcode] + s1);
    lemma_steps_len(Stage::Transcoding, true, o1);
    if o1.len() > 0 {
        let o2 = o1.drop_first();
        lemma_failed_stays_failed(true, o2);
        lemma_done_stays_done(true, o2);
        lemma_steps_len(Stage::Done, true, o2);
        lemma_steps_len(Stage::Failed, true, o2);
        let next = if o1[0] { Stage::Done } else { Stage::Failed };
        assert(s1 == seq![if o1[0] { Step::Finish } else { Step::Abort }] + steps_of(next, true, o2));
        assert forall|i: int| 1 <= i < outcomes.len() implies {
            let t = #[trigger] s[i];
            t == Step::Finish || t == Step::Abort
        } by {
            assert(s[i] == s1[i - 1]);
            if i > 1 {
                assert(s1[i - 1] == steps_of(next, true, o2)[i - 2]);
            }
        }
    }
}

} // verus!
