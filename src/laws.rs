use vstd::prelude::*;

use crate::session::{
    action_of, initial, outcome, run, step_spec, Action, ErrorView, EventView, InputView, Phase,
    SessionView, POLL_SLICE_MS,
};

verus! {

/// The session has been let go or is about to be: nothing more is awaited.
pub open spec fn settled(p: Phase) -> bool {
    p == Phase::Releasing || p == Phase::Finished
}

/// Before the flow settles nothing has been found and nothing has failed.
pub open spec fn well_formed(s: SessionView) -> bool {
    !settled(s.phase) ==> s.found is None && s.error is None
}

/// The input reports a resolved instance.
pub open spec fn answers(i: InputView) -> bool {
    i matches InputView::Delivered(EventView::Resolved(_, _))
}

/// The input reports that setting up the session or the browse failed.
pub open spec fn fails(i: InputView) -> bool {
    i is SessionFailed || i is BrowseFailed
}

/// The input is a clock reading at or past `deadline`.
pub open spec fn reads_past(i: InputView, deadline: u64) -> bool {
    i matches InputView::Clock(c) && c >= deadline
}

/// No responder answers and the multicast subsystem does not fail.
pub open spec fn quiet(inputs: Seq<InputView>) -> bool {
    forall|j: int| 0 <= j < inputs.len() ==> !answers(#[trigger] inputs[j]) && !fails(inputs[j])
}

proof fn lemma_run_well_formed(s: SessionView, inputs: Seq<InputView>)
    requires
        well_formed(s),
    ensures
        well_formed(run(s, inputs)),
        run(s, inputs).deadline == s.deadline,
    decreases inputs.len(),
{
    if inputs.len() > 0 {
        lemma_run_well_formed(step_spec(s, inputs[0]), inputs.drop_first());
    }
}

proof fn lemma_settled_run(s: SessionView, inputs: Seq<InputView>)
    requires
        settled(s.phase),
    ensures
        settled(run(s, inputs).phase),
        run(s, inputs).found == s.found,
        run(s, inputs).error == s.error,
    decreases inputs.len(),
{
    if inputs.len() > 0 {
        lemma_settled_run(step_spec(s, inputs[0]), inputs.drop_first());
    }
}

proof fn lemma_finished_run(s: SessionView, inputs: Seq<InputView>)
    requires
        s.phase == Phase::Finished,
    ensures
        run(s, inputs) == s,
    decreases inputs.len(),
{
    if inputs.len() > 0 {
        lemma_finished_run(step_spec(s, inputs[0]), inputs.drop_first());
    }
}

proof fn lemma_quiet_run(s: SessionView, inputs: Seq<InputView>)
    requires
        s.found is None,
        s.error is None,
        quiet(inputs),
    ensures
        run(s, inputs).found is None,
        run(s, inputs).error is None,
        !settled(s.phase) && settled(run(s, inputs).phase) ==> exists|j: int|
            0 <= j < inputs.len() && #[trigger] reads_past(inputs[j], s.deadline),
    decreases inputs.len(),
{
    if inputs.len() > 0 {
        let next = step_spec(s, inputs[0]);
        let rest = inputs.drop_first();
        assert(!answers(inputs[0]) && !fails(inputs[0]));
        assert forall|j: int| 0 <= j < rest.len() implies !answers(#[trigger] rest[j]) && !fails(
            rest[j],
        ) by {
            assert(rest[j] == inputs[j + 1]);
        }
        lemma_quiet_run(next, rest);
        if !settled(s.phase) && settled(run(s, inputs).phase) {
            if settled(next.phase) {
                assert(reads_past(inputs[0], s.deadline));
            } else {
                let j = choose|j: int|
                    0 <= j < rest.len() && #[trigger] reads_past(rest[j], next.deadline);
                assert(inputs[j + 1] == rest[j]);
            }
        }
    }
}

proof fn lemma_finish_passes_release(s: SessionView, inputs: Seq<InputView>)
    requires
        s.phase != Phase::Finished,
        run(s, inputs).phase == Phase::Finished,
    ensures
        (exists|j: int| 0 <= j < inputs.len() && #[trigger] inputs[j] == InputView::Released)
            || run(s, inputs).error matches Some(ErrorView::SessionInit(_)),
    decreases inputs.len(),
{
    let next = step_spec(s, inputs[0]);
    let rest = inputs.drop_first();
    if next.phase == Phase::Finished {
        lemma_finished_run(next, rest);
        if s.phase == Phase::Releasing {
            assert(inputs[0] == InputView::Released);
        }
    } else {
        lemma_finish_passes_release(next, rest);
        if exists|j: int| 0 <= j < rest.len() && #[trigger] rest[j] == InputView::Released {
            let j = choose|j: int| 0 <= j < rest.len() && #[trigger] rest[j] == InputView::Released;
            assert(inputs[j + 1] == rest[j]);
        }
    }
}

/// A discovery finishes only after its session was reported released, unless
/// the session could never be set up; once finished it asks for nothing more.
pub proof fn lemma_released_on_every_exit(timeout_ms: Option<u64>, inputs: Seq<InputView>)
    requires
        run(initial(timeout_ms), inputs).phase == Phase::Finished,
    ensures
        (exists|j: int| 0 <= j < inputs.len() && #[trigger] inputs[j] == InputView::Released)
            || outcome(run(initial(timeout_ms), inputs)) matches Err(ErrorView::SessionInit(_)),
        forall|more: Seq<InputView>|
            #[trigger] run(run(initial(timeout_ms), inputs), more) == run(initial(timeout_ms), inputs),
{
    lemma_finish_passes_release(initial(timeout_ms), inputs);
    assert forall|more: Seq<InputView>|
        #[trigger] run(run(initial(timeout_ms), inputs), more) == run(initial(timeout_ms), inputs) by {
        lemma_finished_run(run(initial(timeout_ms), inputs), more);
    }
}

/// A wait is asked for only right after a clock reading below the deadline,
/// and never for longer than one poll slice; the deadline itself never moves.
pub proof fn lemma_wait_only_before_deadline(s: SessionView, i: InputView)
    ensures
        step_spec(s, i).deadline == s.deadline,
        s.phase != Phase::Waiting && step_spec(s, i).phase == Phase::Waiting ==> (i matches InputView::Clock(
            t,
        ) && t < s.deadline),
        action_of(Phase::Waiting) == (Action::Wait { cap_ms: POLL_SLICE_MS }),
{
}

/// Once a clock reading reaches the deadline, no wait is ever asked for again,
/// whatever is reported afterwards.
pub proof fn lemma_no_wait_after_deadline(s: SessionView, t: u64, rest: Seq<InputView>)
    requires
        s.phase == Phase::Checking,
        t >= s.deadline,
    ensures
        forall|k: int|
            0 <= k <= rest.len() ==> settled(
                #[trigger] run(step_spec(s, InputView::Clock(t)), rest.take(k)).phase,
            ),
{
    assert forall|k: int| 0 <= k <= rest.len() implies settled(
        #[trigger] run(step_spec(s, InputView::Clock(t)), rest.take(k)).phase,
    ) by {
        lemma_settled_run(step_spec(s, InputView::Clock(t)), rest.take(k));
    }
}

/// When no responder answers, the outcome is absent, never an error; and the
/// flow settles only after a clock reading has reached the deadline.
pub proof fn lemma_no_responder_absent(timeout_ms: Option<u64>, inputs: Seq<InputView>)
    requires
        quiet(inputs),
    ensures
        outcome(run(initial(timeout_ms), inputs)) == Ok::<Option<(Seq<char>, u16)>, ErrorView>(None),
        settled(run(initial(timeout_ms), inputs).phase) ==> exists|j: int|
            0 <= j < inputs.len() && #[trigger] reads_past(inputs[j], initial(timeout_ms).deadline),
{
    lemma_quiet_run(initial(timeout_ms), inputs);
}

/// The first resolved instance delivered while waiting is the outcome,
/// whatever is delivered after it, another instance included.
pub proof fn lemma_first_resolved_wins(
    timeout_ms: Option<u64>,
    before: Seq<InputView>,
    host: Seq<char>,
    port: u16,
    after: Seq<InputView>,
)
    requires
        run(initial(timeout_ms), before).phase == Phase::Waiting,
    ensures
        outcome(
            run(
                run(initial(timeout_ms), before),
                seq![InputView::Delivered(EventView::Resolved(host, port))] + after,
            ),
        ) == Ok::<Option<(Seq<char>, u16)>, ErrorView>(Some((host, port))),
{
    let s = run(initial(timeout_ms), before);
    lemma_run_well_formed(initial(timeout_ms), before);
    let first = InputView::Delivered(EventView::Resolved(host, port));
    let all = seq![first] + after;
    assert(all[0] == first);
    assert(all.drop_first() =~= after);
    lemma_settled_run(step_spec(s, first), after);
}

/// When the session cannot be set up, the outcome is that error, and no
/// further action but taking the outcome is ever asked for: nothing is polled.
pub proof fn lemma_session_failure_never_polls(
    timeout_ms: Option<u64>,
    cause: Seq<char>,
    rest: Seq<InputView>,
)
    ensures
        ({
            let failed = step_spec(initial(timeout_ms), InputView::SessionFailed(cause));
            &&& outcome(failed) == Err::<Option<(Seq<char>, u16)>, ErrorView>(
                ErrorView::SessionInit(cause),
            )
            &&& forall|k: int|
                0 <= k <= rest.len() ==> #[trigger] run(failed, rest.take(k)) == failed
                    && action_of(failed.phase) == Action::Finish
        }),
{
    let failed = step_spec(initial(timeout_ms), InputView::SessionFailed(cause));
    assert forall|k: int| 0 <= k <= rest.len() implies #[trigger] run(failed, rest.take(k))
        == failed && action_of(failed.phase) == Action::Finish by {
        lemma_finished_run(failed, rest.take(k));
    }
}

/// Discovering again and again with no responder present gives an absent
/// outcome every time: each attempt starts afresh and carries nothing over.
pub proof fn lemma_repeated_discovery_absent(
    timeouts: Seq<Option<u64>>,
    attempts: Seq<Seq<InputView>>,
)
    requires
        timeouts.len() == attempts.len(),
        forall|a: int| 0 <= a < attempts.len() ==> quiet(#[trigger] attempts[a]),
    ensures
        forall|a: int|
            0 <= a < attempts.len() ==> #[trigger] outcome(run(initial(timeouts[a]), attempts[a]))
                == Ok::<Option<(Seq<char>, u16)>, ErrorView>(None),
{
    assert forall|a: int| 0 <= a < attempts.len() implies #[trigger] outcome(
        run(initial(timeouts[a]), attempts[a]),
    ) == Ok::<Option<(Seq<char>, u16)>, ErrorView>(None) by {
        lemma_no_responder_absent(timeouts[a], attempts[a]);
    }
}

} // verus!
