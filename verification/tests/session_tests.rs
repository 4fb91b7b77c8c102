use commit_assistant::scope::ChangeScope;
use commit_assistant::session::{
    approval_question, nature_question, push_question, scope_question, standard_config,
    status_text, target_directory_question, Action, Config, Event, Phase, Session, Status,
};

fn plain_config() -> Config {
    Config {
        template: "Write a commit message".to_string(),
        follow_up: "Retry.".to_string(),
        ask_nature: false,
        keep_diff_on_retry: true,
        auto_stage: false,
        max_attempts: None,
        exclusions: Vec::new(),
    }
}

#[test]
fn staged_scope_approved_commit_without_push() {
    let mut s = Session::new(plain_config());
    assert_eq!(s.initial_action(), Action::CheckRepo);
    assert_eq!(s.step(Event::RepoChecked(true)), Action::CheckChanges);
    assert_eq!(s.step(Event::ChangesChecked(true)), Action::AskScope);
    assert_eq!(
        s.step(Event::ScopeSelected("staged".to_string())),
        Action::FetchDiff(ChangeScope::Staged)
    );
    let mut generation_calls: usize = 0;
    let a = s.step(Event::DiffRetrieved("one staged file modified".to_string()));
    match &a {
        Action::Generate(prompt) => {
            generation_calls += 1;
            assert_eq!(
                prompt,
                "Write a commit message for these changes:\none staged file modified"
            );
        }
        other => panic!("expected a generation call, got {:?}", other),
    }
    assert_eq!(
        s.step(Event::Generated("feat: add widget".to_string())),
        Action::AskApproval("feat: add widget".to_string())
    );
    assert_eq!(
        s.step(Event::ApprovalAnswered(true)),
        Action::Commit("feat: add widget".to_string())
    );
    assert_eq!(s.step(Event::CommitFinished(true)), Action::AskPush);
    let a = s.step(Event::PushAnswered(false));
    assert_eq!(a, Action::Stop(Status::CommittedNotPushed));
    assert_eq!(generation_calls, 1);
    assert_eq!(s.phase, Phase::Done);
    assert_eq!(
        status_text(&Status::CommittedNotPushed),
        "Changes committed but not pushed."
    );
}

#[test]
fn no_changes_exits_cleanly_without_generation() {
    let mut s = Session::new(plain_config());
    assert_eq!(s.step(Event::RepoChecked(true)), Action::CheckChanges);
    let a = s.step(Event::ChangesChecked(false));
    assert_eq!(a, Action::Stop(Status::NoChanges));
    assert_eq!(s.phase, Phase::Aborted);
    assert_eq!(s.attempts, 0);
    assert_eq!(status_text(&Status::NoChanges), "No changes to commit.");
    // A stopped session waits for nothing: no event fits any more.
    assert!(!s.event_fits(&Event::Generated("feat: late".to_string())));
    assert!(!s.event_fits(&Event::RepoChecked(true)));
}

#[test]
fn not_a_repository_exits_cleanly() {
    let mut s = Session::new(plain_config());
    let a = s.step(Event::RepoChecked(false));
    assert_eq!(a, Action::Stop(Status::NotARepository));
    assert_eq!(s.phase, Phase::Aborted);
    assert_eq!(s.outcome, Some(Status::NotARepository));
    assert_eq!(
        status_text(&Status::NotARepository),
        "Target directory is not a git repository."
    );
    assert!(!s.event_fits(&Event::ChangesChecked(true)));
}

#[test]
fn reject_twice_then_approve_uses_third_candidate() {
    let mut s = Session::new(plain_config());
    s.step(Event::RepoChecked(true));
    s.step(Event::ChangesChecked(true));
    s.step(Event::ScopeSelected("staged".to_string()));
    let mut prompts: Vec<String> = Vec::new();
    match s.step(Event::DiffRetrieved("a diff".to_string())) {
        Action::Generate(p) => prompts.push(p),
        other => panic!("expected a generation call, got {:?}", other),
    }
    s.step(Event::Generated("first candidate".to_string()));
    match s.step(Event::ApprovalAnswered(false)) {
        Action::Generate(p) => prompts.push(p),
        other => panic!("expected a generation call, got {:?}", other),
    }
    s.step(Event::Generated("second candidate".to_string()));
    match s.step(Event::ApprovalAnswered(false)) {
        Action::Generate(p) => prompts.push(p),
        other => panic!("expected a generation call, got {:?}", other),
    }
    s.step(Event::Generated("third candidate".to_string()));
    let a = s.step(Event::ApprovalAnswered(true));
    assert_eq!(a, Action::Commit("third candidate".to_string()));
    // Exactly three generation calls were issued.
    assert_eq!(prompts.len(), 3);
    assert_eq!(s.attempts, 3);
    // The second and third prompts each embed the immediately preceding
    // rejected candidate, so successive prompts are never identical.
    assert!(prompts[1].ends_with("first candidate"));
    assert!(prompts[2].ends_with("second candidate"));
    assert_ne!(prompts[0], prompts[1]);
    assert_ne!(prompts[1], prompts[2]);
}

#[test]
fn push_confirmed_reports_committed_and_pushed() {
    let mut s = Session::new(plain_config());
    s.step(Event::RepoChecked(true));
    s.step(Event::ChangesChecked(true));
    s.step(Event::ScopeSelected("unstaged".to_string()));
    s.step(Event::DiffRetrieved("a diff".to_string()));
    s.step(Event::Generated("fix: a bug".to_string()));
    s.step(Event::ApprovalAnswered(true));
    s.step(Event::CommitFinished(true));
    let a = s.step(Event::PushAnswered(true));
    assert_eq!(a, Action::Push);
    let a = s.step(Event::PushFinished(true));
    assert_eq!(a, Action::Stop(Status::CommittedAndPushed));
    assert_eq!(s.phase, Phase::Done);
    assert_eq!(
        status_text(&Status::CommittedAndPushed),
        "Changes committed and pushed."
    );
    assert_ne!(
        status_text(&Status::CommittedAndPushed),
        status_text(&Status::CommittedNotPushed)
    );
}

#[test]
fn push_failure_aborts_with_status() {
    let mut s = Session::new(plain_config());
    s.step(Event::RepoChecked(true));
    s.step(Event::ChangesChecked(true));
    s.step(Event::ScopeSelected("staged".to_string()));
    s.step(Event::DiffRetrieved("a diff".to_string()));
    s.step(Event::Generated("fix: a bug".to_string()));
    s.step(Event::ApprovalAnswered(true));
    s.step(Event::CommitFinished(true));
    s.step(Event::PushAnswered(true));
    let a = s.step(Event::PushFinished(false));
    assert_eq!(a, Action::Stop(Status::PushFailed));
    assert_eq!(s.phase, Phase::Aborted);
    assert_eq!(status_text(&Status::PushFailed), "Push failed.");
}

#[test]
fn commit_failure_aborts_with_status() {
    let mut s = Session::new(plain_config());
    s.step(Event::RepoChecked(true));
    s.step(Event::ChangesChecked(true));
    s.step(Event::ScopeSelected("staged".to_string()));
    s.step(Event::DiffRetrieved("a diff".to_string()));
    s.step(Event::Generated("fix: a bug".to_string()));
    s.step(Event::ApprovalAnswered(true));
    let a = s.step(Event::CommitFinished(false));
    assert_eq!(a, Action::Stop(Status::CommitFailed));
    assert_eq!(s.phase, Phase::Aborted);
    assert_eq!(status_text(&Status::CommitFailed), "Commit failed.");
}

#[test]
fn generation_failure_aborts_with_status() {
    let mut s = Session::new(plain_config());
    s.step(Event::RepoChecked(true));
    s.step(Event::ChangesChecked(true));
    s.step(Event::ScopeSelected("staged".to_string()));
    s.step(Event::DiffRetrieved("a diff".to_string()));
    let a = s.step(Event::GenerationFailed);
    assert_eq!(a, Action::Stop(Status::GenerationFailed));
    assert_eq!(s.phase, Phase::Aborted);
    assert_eq!(
        status_text(&Status::GenerationFailed),
        "Commit message generation failed."
    );
}

#[test]
fn changes_check_failure_is_fatal() {
    let mut s = Session::new(plain_config());
    s.step(Event::RepoChecked(true));
    let a = s.step(Event::ChangesCheckFailed);
    assert_eq!(a, Action::Stop(Status::ChangesCheckFailed));
    assert_eq!(s.phase, Phase::Aborted);
    assert_eq!(
        status_text(&Status::ChangesCheckFailed),
        "Could not determine whether the repository has changes."
    );
}

#[test]
fn retry_cap_stops_the_loop() {
    let mut config = plain_config();
    config.max_attempts = Some(2);
    let mut s = Session::new(config);
    s.step(Event::RepoChecked(true));
    s.step(Event::ChangesChecked(true));
    s.step(Event::ScopeSelected("staged".to_string()));
    s.step(Event::DiffRetrieved("a diff".to_string()));
    s.step(Event::Generated("first candidate".to_string()));
    match s.step(Event::ApprovalAnswered(false)) {
        Action::Generate(_) => {}
        other => panic!("expected a generation call, got {:?}", other),
    }
    s.step(Event::Generated("second candidate".to_string()));
    let a = s.step(Event::ApprovalAnswered(false));
    assert_eq!(a, Action::Stop(Status::RetryLimitReached));
    assert_eq!(s.phase, Phase::Aborted);
    assert_eq!(
        status_text(&Status::RetryLimitReached),
        "Retry limit reached without an approved commit message."
    );
}

#[test]
fn nature_answer_is_embedded_in_the_prompt() {
    let mut config = plain_config();
    config.ask_nature = true;
    let mut s = Session::new(config);
    s.step(Event::RepoChecked(true));
    s.step(Event::ChangesChecked(true));
    s.step(Event::ScopeSelected("staged".to_string()));
    assert_eq!(
        s.step(Event::DiffRetrieved("a diff".to_string())),
        Action::AskNature
    );
    let a = s.step(Event::NatureGiven("bugfix".to_string()));
    assert_eq!(
        a,
        Action::Generate("Write a commit message for these changes:\na diff type:bugfix".to_string())
    );
}

#[test]
fn empty_nature_answer_leaves_the_prompt_bare() {
    let mut config = plain_config();
    config.ask_nature = true;
    let mut s = Session::new(config);
    s.step(Event::RepoChecked(true));
    s.step(Event::ChangesChecked(true));
    s.step(Event::ScopeSelected("staged".to_string()));
    s.step(Event::DiffRetrieved("a diff".to_string()));
    let a = s.step(Event::NatureGiven(String::new()));
    assert_eq!(
        a,
        Action::Generate("Write a commit message for these changes:\na diff".to_string())
    );
    assert_eq!(s.nature, None);
}

#[test]
fn rejection_keeps_diff_only_when_configured() {
    let mut config = plain_config();
    config.keep_diff_on_retry = false;
    let mut s = Session::new(config);
    s.step(Event::RepoChecked(true));
    s.step(Event::ChangesChecked(true));
    s.step(Event::ScopeSelected("staged".to_string()));
    s.step(Event::DiffRetrieved("a diff".to_string()));
    s.step(Event::Generated("first candidate".to_string()));
    match s.step(Event::ApprovalAnswered(false)) {
        Action::Generate(p) => {
            assert_eq!(p, "Retry. Write a commit messagefirst candidate");
            assert!(!p.contains("a diff"));
        }
        other => panic!("expected a generation call, got {:?}", other),
    }
}

#[test]
fn auto_stage_runs_the_staging_step_before_commit() {
    let mut config = plain_config();
    config.auto_stage = true;
    let mut s = Session::new(config);
    s.step(Event::RepoChecked(true));
    s.step(Event::ChangesChecked(true));
    s.step(Event::ScopeSelected("unstaged".to_string()));
    s.step(Event::DiffRetrieved("a diff".to_string()));
    s.step(Event::Generated("feat: add widget".to_string()));
    let a = s.step(Event::ApprovalAnswered(true));
    assert_eq!(a, Action::StageAll);
    let a = s.step(Event::StagingFinished(true));
    assert_eq!(a, Action::Commit("feat: add widget".to_string()));
}

#[test]
fn staging_failure_aborts_with_status() {
    let mut config = plain_config();
    config.auto_stage = true;
    let mut s = Session::new(config);
    s.step(Event::RepoChecked(true));
    s.step(Event::ChangesChecked(true));
    s.step(Event::ScopeSelected("unstaged".to_string()));
    s.step(Event::DiffRetrieved("a diff".to_string()));
    s.step(Event::Generated("feat: add widget".to_string()));
    s.step(Event::ApprovalAnswered(true));
    let a = s.step(Event::StagingFinished(false));
    assert_eq!(a, Action::Stop(Status::StageFailed));
    assert_eq!(s.phase, Phase::Aborted);
    assert_eq!(status_text(&Status::StageFailed), "Staging failed.");
}

#[test]
fn event_fits_tracks_the_waited_answer() {
    let mut s = Session::new(plain_config());
    assert!(s.event_fits(&Event::RepoChecked(true)));
    assert!(s.event_fits(&Event::RepoChecked(false)));
    assert!(!s.event_fits(&Event::ChangesChecked(true)));
    assert!(!s.event_fits(&Event::ApprovalAnswered(true)));
    s.step(Event::RepoChecked(true));
    assert!(s.event_fits(&Event::ChangesChecked(false)));
    assert!(s.event_fits(&Event::ChangesCheckFailed));
    assert!(!s.event_fits(&Event::RepoChecked(true)));
}

#[test]
fn standard_config_matches_the_shipped_defaults() {
    let c = standard_config();
    assert!(c.template.starts_with("Generate a commit message up to 255 characters"));
    assert!(c.follow_up.starts_with("The previous message was unsatisfactory"));
    assert!(c.ask_nature);
    assert!(c.keep_diff_on_retry);
    assert!(!c.auto_stage);
    assert_eq!(c.max_attempts, None);
    assert_eq!(c.exclusions, vec!["Cargo.lock"]);
}

#[test]
fn question_labels_are_fixed() {
    assert_eq!(
        target_directory_question(),
        "Please enter the target directory containing the Git repository:"
    );
    assert_eq!(scope_question(), "What type of changes would you like to commit?");
    assert_eq!(
        nature_question(),
        "What is the nature of the changes (e.g., bugfix, feature)? Leave empty to skip."
    );
    assert_eq!(approval_question(), "Do you approve this commit message?");
    assert_eq!(push_question(), "Do you want to push the changes?");
}
