use vstd::prelude::*;

use crate::prompt::{
    lemma_corrective_prompt_embeds_rejected, lemma_corrective_prompt_identifies_rejected,
};
use crate::session::{
    initial_session, retry_exhausted, status_text_view, transition, ActionV, ConfigV, EventV,
    Phase, SessionV, Status,
};

verus! {

/// A terminal session: one that has stopped and reported its outcome.
pub open spec fn is_terminal(phase: Phase) -> bool {
    phase == Phase::Done || phase == Phase::Aborted
}

/// The actions a session issues on a sequence of collaborator answers: each
/// answer in turn is fed to the transition relation, until an answer does not
/// fit or the answers run out.
pub open spec fn run(s: SessionV, events: Seq<EventV>) -> Seq<ActionV>
    decreases events.len(),
{
    if events.len() == 0 {
        Seq::empty()
    } else {
        match transition(s, events[0]) {
            Some(r) => seq![r.1] + run(r.0, events.drop_first()),
            None => Seq::empty(),
        }
    }
}

/// How many commit actions a sequence of actions holds.
pub open spec fn commit_count(acts: Seq<ActionV>) -> nat
    decreases acts.len(),
{
    if acts.len() == 0 {
        0
    } else {
        (if acts[0] is Commit {
            1nat
        } else {
            0nat
        }) + commit_count(acts.drop_first())
    }
}

proof fn lemma_commit_count_cons(a: ActionV, rest: Seq<ActionV>)
    ensures
        commit_count(seq![a] + rest) == (if a is Commit {
            1nat
        } else {
            0nat
        }) + commit_count(rest),
{
    assert((seq![a] + rest).drop_first() =~= rest);
    assert((seq![a] + rest)[0] == a);
}

/// A session's structural invariant: a phase that relies on a pending
/// candidate has one, and an outcome is recorded exactly when the session
/// has stopped.
pub open spec fn wf(s: SessionV) -> bool {
    &&& (s.phase == Phase::AwaitingApproval || s.phase == Phase::Staging) ==> s.candidate is Some
    &&& is_terminal(s.phase) <==> s.outcome is Some
}

/// Law: every session starts well formed.
pub proof fn lemma_initial_session_wf(config: ConfigV)
    ensures
        wf(initial_session(config)),
{
}

/// Law: every transition preserves well-formedness, so every reachable
/// session is well formed.
pub proof fn lemma_transition_preserves_wf(s: SessionV, e: EventV)
    requires
        wf(s),
        transition(s, e) is Some,
    ensures
        wf(transition(s, e)->Some_0.0),
{
}

/// A stop action is issued exactly by the step that makes the session
/// terminal, and it reports the outcome that the session records.
pub proof fn lemma_stop_records_outcome(s: SessionV, e: EventV)
    requires
        transition(s, e) is Some,
    ensures
        ({
            let r = transition(s, e)->Some_0;
            r.1 is Stop <==> is_terminal(r.0.phase)
        }),
        ({
            let r = transition(s, e)->Some_0;
            r.1 is Stop ==> r.0.outcome == Some(r.1->Stop_0)
        }),
{
}

/// A terminal session accepts no event at all.
pub proof fn lemma_terminal_no_transition(s: SessionV, e: EventV)
    requires
        is_terminal(s.phase),
    ensures
        transition(s, e) is None,
{
}

/// A terminal session issues no further action, whatever answers arrive.
pub proof fn lemma_terminal_run_empty(s: SessionV, events: Seq<EventV>)
    requires
        is_terminal(s.phase),
    ensures
        run(s, events) == Seq::<ActionV>::empty(),
{
    if events.len() > 0 {
        lemma_terminal_no_transition(s, events[0]);
    }
}

/// Law: when the repository check reports false, the session aborts cleanly
/// with the not-a-repository status, and performs no further call of any
/// kind: whatever answers would arrive later, no action is issued.
pub proof fn lemma_repo_check_false_halts(s: SessionV, later: Seq<EventV>)
    requires
        s.phase == Phase::CheckingRepo,
    ensures
        transition(s, EventV::RepoChecked(false)) is Some,
        ({
            let r = transition(s, EventV::RepoChecked(false))->Some_0;
            &&& r.0.phase == Phase::Aborted
            &&& r.0.outcome == Some(Status::NotARepository)
            &&& r.1 == ActionV::Stop(Status::NotARepository)
            &&& run(r.0, later) == Seq::<ActionV>::empty()
        }),
{
    let r = transition(s, EventV::RepoChecked(false))->Some_0;
    lemma_terminal_run_empty(r.0, later);
}

/// Law: when the pending-changes check reports nothing to commit, the
/// session aborts cleanly with the no-changes status, and performs no
/// generation call nor any other call: whatever answers would arrive later,
/// no action is issued.
pub proof fn lemma_no_changes_halts(s: SessionV, later: Seq<EventV>)
    requires
        s.phase == Phase::CheckingChanges,
    ensures
        transition(s, EventV::ChangesChecked(false)) is Some,
        ({
            let r = transition(s, EventV::ChangesChecked(false))->Some_0;
            &&& r.0.phase == Phase::Aborted
            &&& r.0.outcome == Some(Status::NoChanges)
            &&& r.1 == ActionV::Stop(Status::NoChanges)
            &&& run(r.0, later) == Seq::<ActionV>::empty()
        }),
{
    let r = transition(s, EventV::ChangesChecked(false))->Some_0;
    lemma_terminal_run_empty(r.0, later);
}

/// The phases a session can stand in once a candidate has been handed to
/// commit.
pub open spec fn committed_region(phase: Phase) -> bool {
    ||| phase == Phase::Committing
    ||| phase == Phase::OfferingPush
    ||| phase == Phase::Pushing
    ||| phase == Phase::Done
    ||| phase == Phase::Aborted
}

/// Once a candidate has been handed to commit, a session stays there and
/// never issues another generation or commit action.
pub proof fn lemma_committed_region_step(s: SessionV, e: EventV)
    requires
        committed_region(s.phase),
        transition(s, e) is Some,
    ensures
        committed_region(transition(s, e)->Some_0.0.phase),
        !(transition(s, e)->Some_0.1 is Generate),
        !(transition(s, e)->Some_0.1 is Commit),
{
}

/// Once a candidate has been handed to commit, no answer sequence makes the
/// session issue another generation or commit action.
pub proof fn lemma_committed_region_run(s: SessionV, events: Seq<EventV>)
    requires
        committed_region(s.phase),
    ensures
        commit_count(run(s, events)) == 0,
        forall|i: int|
            0 <= i < run(s, events).len() ==> !((#[trigger] run(s, events)[i]) is Generate) && !(
            run(s, events)[i] is Commit),
    decreases events.len(),
{
    if events.len() > 0 {
        if transition(s, events[0]) is Some {
            let r = transition(s, events[0])->Some_0;
            lemma_committed_region_step(s, events[0]);
            lemma_committed_region_run(r.0, events.drop_first());
            lemma_commit_count_cons(r.1, run(r.0, events.drop_first()));
            assert forall|i: int|
                0 <= i < run(s, events).len() implies !((#[trigger] run(s, events)[i]) is Generate)
                && !(run(s, events)[i] is Commit) by {
                if i >= 1 {
                    assert(run(s, events)[i] == run(r.0, events.drop_first())[i - 1]);
                }
            }
        }
    }
}

/// While the staging operation runs, the approved candidate is the only
/// message that can still reach commit, it reaches it at most once, and no
/// generation action is issued any more.
pub proof fn lemma_staging_run(s: SessionV, events: Seq<EventV>)
    requires
        s.phase == Phase::Staging,
        s.candidate is Some,
    ensures
        commit_count(run(s, events)) <= 1,
        forall|i: int|
            0 <= i < run(s, events).len() ==> !((#[trigger] run(s, events)[i]) is Generate),
        forall|i: int|
            0 <= i < run(s, events).len() && (#[trigger] run(s, events)[i]) is Commit ==> run(
                s,
                events,
            )[i] == ActionV::Commit(s.candidate->Some_0),
{
    if events.len() > 0 {
        if transition(s, events[0]) is Some {
            let r = transition(s, events[0])->Some_0;
            let rest = events.drop_first();
            if r.0.phase == Phase::Aborted {
                lemma_terminal_run_empty(r.0, rest);
            } else {
                lemma_committed_region_run(r.0, rest);
            }
            lemma_commit_count_cons(r.1, run(r.0, rest));
            assert forall|i: int|
                0 <= i < run(s, events).len() implies !((#[trigger] run(s, events)[i]) is Generate)
                && (run(s, events)[i] is Commit ==> run(s, events)[i] == ActionV::Commit(
                s.candidate->Some_0,
            )) by {
                if i >= 1 {
                    assert(run(s, events)[i] == run(r.0, rest)[i - 1]);
                }
            }
        }
    }
}

/// Law: approval terminates the loop. When the approval answer is true, the
/// pending candidate is handed to commit — at once, or through the explicit
/// staging step when the configuration asks for one — and it is the only
/// message ever handed to commit in that session: no later step issues
/// another generation or commit action.
pub proof fn lemma_approval_terminates_loop(s: SessionV, later: Seq<EventV>)
    requires
        s.phase == Phase::AwaitingApproval,
        s.candidate is Some,
    ensures
        transition(s, EventV::ApprovalAnswered(true)) is Some,
        ({
            let c = s.candidate->Some_0;
            let acts = run(s, seq![EventV::ApprovalAnswered(true)] + later);
            &&& acts.len() >= 1
            &&& (!s.config.auto_stage ==> acts[0] == ActionV::Commit(c) && commit_count(acts)
                == 1)
            &&& (s.config.auto_stage ==> acts[0] == ActionV::StageAll && commit_count(acts) <= 1)
            &&& forall|i: int| 0 <= i < acts.len() ==> !((#[trigger] acts[i]) is Generate)
            &&& forall|i: int|
                0 <= i < acts.len() && (#[trigger] acts[i]) is Commit ==> acts[i]
                    == ActionV::Commit(c)
        }),
{
    let fed = seq![EventV::ApprovalAnswered(true)] + later;
    assert(fed[0] == EventV::ApprovalAnswered(true));
    assert(fed.drop_first() =~= later);
    let r = transition(s, fed[0])->Some_0;
    let acts = run(s, fed);
    if s.config.auto_stage {
        lemma_staging_run(r.0, later);
    } else {
        lemma_committed_region_run(r.0, later);
    }
    lemma_commit_count_cons(r.1, run(r.0, later));
    assert forall|i: int|
        0 <= i < acts.len() implies !((#[trigger] acts[i]) is Generate) && (acts[i] is Commit
        ==> acts[i] == ActionV::Commit(s.candidate->Some_0)) by {
        if i >= 1 {
            assert(acts[i] == run(r.0, later)[i - 1]);
        }
    }
}

/// A commit action carries exactly the pending candidate, and is issued only
/// on approval — at once, or from a successful staging step.
pub proof fn lemma_commit_carries_candidate(s: SessionV, e: EventV, message: Seq<char>)
    requires
        transition(s, e) is Some,
        transition(s, e)->Some_0.1 == ActionV::Commit(message),
    ensures
        s.candidate == Some(message),
        (s.phase == Phase::AwaitingApproval && e == EventV::ApprovalAnswered(true)
            && !s.config.auto_stage) || (s.phase == Phase::Staging && e
            == EventV::StagingFinished(true)),
{
}

/// Law: the push is attempted if and only if the push confirmation is
/// answered true. A true answer issues the push action; a false answer ends
/// the session with the committed-but-not-pushed status.
pub proof fn lemma_push_iff_confirmed(s: SessionV)
    requires
        s.phase == Phase::OfferingPush,
    ensures
        transition(s, EventV::PushAnswered(true)) == Some(
            ((SessionV { phase: Phase::Pushing, ..s }), ActionV::Push),
        ),
        transition(s, EventV::PushAnswered(false)) == Some(
            (
                (SessionV {
                    phase: Phase::Done,
                    outcome: Some(Status::CommittedNotPushed),
                    ..s
                }),
                ActionV::Stop(Status::CommittedNotPushed),
            ),
        ),
{
}

/// A push action is issued only from the push offer, and only on the answer
/// true.
pub proof fn lemma_push_only_on_confirmation(s: SessionV, e: EventV)
    requires
        transition(s, e) is Some,
        transition(s, e)->Some_0.1 == ActionV::Push,
    ensures
        s.phase == Phase::OfferingPush,
        e == EventV::PushAnswered(true),
{
}

/// Law: both push outcomes report a deterministic status line, and the two
/// lines are distinct.
pub proof fn lemma_push_outcomes_distinct()
    ensures
        status_text_view(Status::CommittedAndPushed) != status_text_view(
            Status::CommittedNotPushed,
        ),
{
    reveal_strlit("Changes committed and pushed.");
    reveal_strlit("Changes committed but not pushed.");
    assert(status_text_view(Status::CommittedAndPushed).len() == 29);
    assert(status_text_view(Status::CommittedNotPushed).len() == 33);
}

/// Law: each rejection regenerates with a prompt that embeds the rejected
/// candidate verbatim as its tail, and the candidate is kept until the new
/// one replaces it.
pub proof fn lemma_rejection_embeds_candidate(s: SessionV)
    requires
        s.phase == Phase::AwaitingApproval,
        s.candidate is Some,
        !retry_exhausted(s.config, s.attempts),
    ensures
        transition(s, EventV::ApprovalAnswered(false)) is Some,
        ({
            let r = transition(s, EventV::ApprovalAnswered(false))->Some_0;
            let candidate = s.candidate->Some_0;
            &&& r.0.phase == Phase::Generating
            &&& r.1 is Generate
            &&& r.1->Generate_0.len() >= candidate.len()
            &&& r.1->Generate_0.subrange(
                r.1->Generate_0.len() - candidate.len(),
                r.1->Generate_0.len() as int,
            ) == candidate
        }),
{
    let candidate = s.candidate->Some_0;
    let diff_on_retry = if s.config.keep_diff_on_retry {
        Some(s.diff)
    } else {
        None
    };
    lemma_corrective_prompt_embeds_rejected(
        s.config.follow_up,
        s.config.template,
        candidate,
        diff_on_retry,
    );
}

/// Law: two rejections of distinct candidates, under one configuration and
/// one diff, regenerate with distinct prompts: successive generation calls
/// never replay an identical prompt while the candidate changes.
pub proof fn lemma_distinct_rejections_distinct_prompts(s1: SessionV, s2: SessionV)
    requires
        s1.phase == Phase::AwaitingApproval,
        s2.phase == Phase::AwaitingApproval,
        s1.candidate is Some,
        s2.candidate is Some,
        s1.candidate != s2.candidate,
        s1.config == s2.config,
        s1.diff == s2.diff,
        !retry_exhausted(s1.config, s1.attempts),
        !retry_exhausted(s2.config, s2.attempts),
    ensures
        transition(s1, EventV::ApprovalAnswered(false))->Some_0.1 != transition(
            s2,
            EventV::ApprovalAnswered(false),
        )->Some_0.1,
{
    let p1 = transition(s1, EventV::ApprovalAnswered(false))->Some_0.1;
    let p2 = transition(s2, EventV::ApprovalAnswered(false))->Some_0.1;
    let diff_on_retry = if s1.config.keep_diff_on_retry {
        Some(s1.diff)
    } else {
        None
    };
    if p1 == p2 {
        lemma_corrective_prompt_identifies_rejected(
            s1.config.follow_up,
            s1.config.template,
            s1.candidate->Some_0,
            s2.candidate->Some_0,
            diff_on_retry,
        );
    }
}

} // verus!
