use vstd::prelude::*;

use crate::prompt::{
    corrective_prompt, corrective_prompt_view, initial_prompt, initial_prompt_view,
};
use crate::scope::{scope_from_answer, scope_of_answer, ChangeScope};

verus! {

/// Where in the change-capture, generation and approval sequence a session
/// stands. Each non-terminal phase waits for the answer of exactly one
/// collaborator call.
#[derive(Clone, Copy, PartialEq, Eq, Structural, Debug)]
pub enum Phase {
    /// Waiting for the answer of the repository check.
    CheckingRepo,
    /// Waiting for the answer of the pending-changes check.
    CheckingChanges,
    /// Waiting for the operator's scope answer.
    SelectingScope,
    /// Waiting for the diff of the selected scope.
    FetchingDiff,
    /// Waiting for the operator's nature-of-change answer.
    AskingNature,
    /// Waiting for the generation collaborator's candidate.
    Generating,
    /// Waiting for the operator's approval answer.
    AwaitingApproval,
    /// Waiting for the outcome of the staging operation.
    Staging,
    /// Waiting for the outcome of the commit operation.
    Committing,
    /// Waiting for the operator's push answer.
    OfferingPush,
    /// Waiting for the outcome of the push operation.
    Pushing,
    /// The session finished with a commit.
    Done,
    /// The session stopped without committing, or after a failed push.
    Aborted,
}

/// The outcome a session reports when it stops.
#[derive(Clone, Copy, PartialEq, Eq, Structural, Debug)]
pub enum Status {
    NotARepository,
    NoChanges,
    ChangesCheckFailed,
    GenerationFailed,
    StageFailed,
    CommitFailed,
    PushFailed,
    CommittedAndPushed,
    CommittedNotPushed,
    RetryLimitReached,
}

/// An answer handed back to the session: the result of the one collaborator
/// call the session asked for.
#[derive(Clone, PartialEq, Eq, Debug)]
pub enum Event {
    RepoChecked(bool),
    ChangesChecked(bool),
    ChangesCheckFailed,
    ScopeSelected(String),
    DiffRetrieved(String),
    NatureGiven(String),
    Generated(String),
    GenerationFailed,
    ApprovalAnswered(bool),
    StagingFinished(bool),
    CommitFinished(bool),
    PushAnswered(bool),
    PushFinished(bool),
}

/// The one collaborator call the session asks for next, or the order to stop
/// with a final status.
#[derive(Clone, PartialEq, Eq, Debug)]
pub enum Action {
    CheckRepo,
    CheckChanges,
    AskScope,
    FetchDiff(ChangeScope),
    AskNature,
    Generate(String),
    AskApproval(String),
    StageAll,
    Commit(String),
    AskPush,
    Push,
    Stop(Status),
}

/// The mathematical form of an `Event`.
pub enum EventV {
    RepoChecked(bool),
    ChangesChecked(bool),
    ChangesCheckFailed,
    ScopeSelected(Seq<char>),
    DiffRetrieved(Seq<char>),
    NatureGiven(Seq<char>),
    Generated(Seq<char>),
    GenerationFailed,
    ApprovalAnswered(bool),
    StagingFinished(bool),
    CommitFinished(bool),
    PushAnswered(bool),
    PushFinished(bool),
}

/// The mathematical form of an `Action`.
pub enum ActionV {
    CheckRepo,
    CheckChanges,
    AskScope,
    FetchDiff(ChangeScope),
    AskNature,
    Generate(Seq<char>),
    AskApproval(Seq<char>),
    StageAll,
    Commit(Seq<char>),
    AskPush,
    Push,
    Stop(Status),
}

impl View for Event {
    type V = EventV;

    open spec fn view(&self) -> EventV {
        match self {
            Event::RepoChecked(ok) => EventV::RepoChecked(*ok),
            Event::ChangesChecked(any) => EventV::ChangesChecked(*any),
            Event::ChangesCheckFailed => EventV::ChangesCheckFailed,
            Event::ScopeSelected(answer) => EventV::ScopeSelected(answer@),
            Event::DiffRetrieved(diff) => EventV::DiffRetrieved(diff@),
            Event::NatureGiven(nature) => EventV::NatureGiven(nature@),
            Event::Generated(candidate) => EventV::Generated(candidate@),
            Event::GenerationFailed => EventV::GenerationFailed,
            Event::ApprovalAnswered(yes) => EventV::ApprovalAnswered(*yes),
            Event::StagingFinished(ok) => EventV::StagingFinished(*ok),
            Event::CommitFinished(ok) => EventV::CommitFinished(*ok),
            Event::PushAnswered(yes) => EventV::PushAnswered(*yes),
            Event::PushFinished(ok) => EventV::PushFinished(*ok),
        }
    }
}

impl View for Action {
    type V = ActionV;

    open spec fn view(&self) -> ActionV {
        match self {
            Action::CheckRepo => ActionV::CheckRepo,
            Action::CheckChanges => ActionV::CheckChanges,
            Action::AskScope => ActionV::AskScope,
            Action::FetchDiff(scope) => ActionV::FetchDiff(*scope),
            Action::AskNature => ActionV::AskNature,
            Action::Generate(prompt) => ActionV::Generate(prompt@),
            Action::AskApproval(candidate) => ActionV::AskApproval(candidate@),
            Action::StageAll => ActionV::StageAll,
            Action::Commit(message) => ActionV::Commit(message@),
            Action::AskPush => ActionV::AskPush,
            Action::Push => ActionV::Push,
            Action::Stop(status) => ActionV::Stop(*status),
        }
    }
}

/// What a session is given at construction: the fixed texts of the prompt,
/// whether the nature of the change is asked for, whether a regeneration
/// prompt carries the diff again, whether everything is staged before the
/// commit (staging is otherwise the operator's responsibility), an optional
/// cap on generation attempts, and the paths kept out of every diff.
pub struct Config {
    pub template: String,
    pub follow_up: String,
    pub ask_nature: bool,
    pub keep_diff_on_retry: bool,
    pub auto_stage: bool,
    pub max_attempts: Option<usize>,
    pub exclusions: Vec<String>,
}

/// The mathematical form of a `Config`.
pub struct ConfigV {
    pub template: Seq<char>,
    pub follow_up: Seq<char>,
    pub ask_nature: bool,
    pub keep_diff_on_retry: bool,
    pub auto_stage: bool,
    pub max_attempts: Option<usize>,
    pub exclusions: Seq<Seq<char>>,
}

impl View for Config {
    type V = ConfigV;

    open spec fn view(&self) -> ConfigV {
        ConfigV {
            template: self.template@,
            follow_up: self.follow_up@,
            ask_nature: self.ask_nature,
            keep_diff_on_retry: self.keep_diff_on_retry,
            auto_stage: self.auto_stage,
            max_attempts: self.max_attempts,
            exclusions: self.exclusions.deep_view(),
        }
    }
}

/// The configuration the assistant ships with: the fixed instruction and
/// corrective texts, the nature of the change asked for, the diff kept in
/// regeneration prompts, staging left to the operator, no cap on attempts,
/// and the dependency lock file kept out of every diff.
pub fn standard_config() -> (c: Config)
    ensures
        c@.template == crate::prompt::default_template_view(),
        c@.follow_up == crate::prompt::default_follow_up_view(),
        c@.ask_nature == true,
        c@.keep_diff_on_retry == true,
        c@.auto_stage == false,
        c@.max_attempts is None,
        c@.exclusions == seq!["Cargo.lock"@],
{
    let mut exclusions: Vec<String> = Vec::new();
    exclusions.push(String::from_str("Cargo.lock"));
    let c = Config {
        template: crate::prompt::default_template().to_owned(),
        follow_up: crate::prompt::default_follow_up().to_owned(),
        ask_nature: true,
        keep_diff_on_retry: true,
        auto_stage: false,
        max_attempts: None,
        exclusions,
    };
    proof {
        assert(c@.exclusions =~= seq!["Cargo.lock"@]);
    }
    c
}

/// The view of an optional owned string, as an optional character sequence.
pub open spec fn opt_string_view(o: Option<String>) -> Option<Seq<char>> {
    match o {
        Some(s) => Some(s@),
        None => None,
    }
}

/// One run of the assistant: its configuration and everything it holds
/// between two collaborator answers. At most one candidate message exists at
/// a time; a regenerated candidate fully replaces the rejected one.
pub struct Session {
    pub config: Config,
    pub phase: Phase,
    pub scope: ChangeScope,
    pub diff: String,
    pub nature: Option<String>,
    pub candidate: Option<String>,
    pub attempts: usize,
    pub outcome: Option<Status>,
}

/// The mathematical form of a `Session`.
pub struct SessionV {
    pub config: ConfigV,
    pub phase: Phase,
    pub scope: ChangeScope,
    pub diff: Seq<char>,
    pub nature: Option<Seq<char>>,
    pub candidate: Option<Seq<char>>,
    pub attempts: usize,
    pub outcome: Option<Status>,
}

impl View for Session {
    type V = SessionV;

    open spec fn view(&self) -> SessionV {
        SessionV {
            config: self.config@,
            phase: self.phase,
            scope: self.scope,
            diff: self.diff@,
            nature: opt_string_view(self.nature),
            candidate: opt_string_view(self.candidate),
            attempts: self.attempts,
            outcome: self.outcome,
        }
    }
}

/// The state a session starts in: nothing gathered yet, waiting for the
/// repository check.
pub open spec fn initial_session(config: ConfigV) -> SessionV {
    SessionV {
        config,
        phase: Phase::CheckingRepo,
        scope: ChangeScope::Staged,
        diff: Seq::empty(),
        nature: None,
        candidate: None,
        attempts: 0,
        outcome: None,
    }
}

/// An attempt count one higher, held at the machine limit.
pub open spec fn sat_inc(n: usize) -> usize {
    if n == usize::MAX {
        n
    } else {
        (n + 1) as usize
    }
}

/// Whether the configured cap on generation attempts forbids another one.
pub open spec fn retry_exhausted(config: ConfigV, attempts: usize) -> bool {
    match config.max_attempts {
        Some(cap) => attempts >= cap,
        None => false,
    }
}

/// The nature hint an operator's answer supplies: an empty answer supplies
/// none.
pub open spec fn nature_of_answer(answer: Seq<char>) -> Option<Seq<char>> {
    if answer.len() == 0 {
        None
    } else {
        Some(answer)
    }
}

/// The session abandoned with the given status.
pub open spec fn aborted(s: SessionV, status: Status) -> SessionV {
    SessionV { phase: Phase::Aborted, outcome: Some(status), ..s }
}

/// The session completed with the given status.
pub open spec fn finished(s: SessionV, status: Status) -> SessionV {
    SessionV { phase: Phase::Done, outcome: Some(status), ..s }
}

/// The complete transition relation of the orchestrator: from a session and
/// the answer it was waiting for, the next session and the next collaborator
/// call (or the order to stop). `None` means the event is not the answer the
/// session's phase waits for; a terminal session accepts no event at all.
pub open spec fn transition(s: SessionV, e: EventV) -> Option<(SessionV, ActionV)> {
    match (s.phase, e) {
        (Phase::CheckingRepo, EventV::RepoChecked(ok)) => Some(
            if ok {
                (SessionV { phase: Phase::CheckingChanges, ..s }, ActionV::CheckChanges)
            } else {
                (aborted(s, Status::NotARepository), ActionV::Stop(Status::NotARepository))
            },
        ),
        (Phase::CheckingChanges, EventV::ChangesChecked(any)) => Some(
            if any {
                (SessionV { phase: Phase::SelectingScope, ..s }, ActionV::AskScope)
            } else {
                (aborted(s, Status::NoChanges), ActionV::Stop(Status::NoChanges))
            },
        ),
        (Phase::CheckingChanges, EventV::ChangesCheckFailed) => Some(
            (aborted(s, Status::ChangesCheckFailed), ActionV::Stop(Status::ChangesCheckFailed)),
        ),
        (Phase::SelectingScope, EventV::ScopeSelected(answer)) => {
            let chosen = scope_of_answer(answer);
            Some(
                (
                    SessionV { phase: Phase::FetchingDiff, scope: chosen, ..s },
                    ActionV::FetchDiff(chosen),
                ),
            )
        },
        (Phase::FetchingDiff, EventV::DiffRetrieved(diff)) => Some(
            if s.config.ask_nature {
                (SessionV { phase: Phase::AskingNature, diff, ..s }, ActionV::AskNature)
            } else {
                (
                    SessionV {
                        phase: Phase::Generating,
                        diff,
                        attempts: sat_inc(s.attempts),
                        ..s
                    },
                    ActionV::Generate(initial_prompt_view(s.config.template, diff, s.nature)),
                )
            },
        ),
        (Phase::AskingNature, EventV::NatureGiven(answer)) => {
            let nature = nature_of_answer(answer);
            Some(
                (
                    SessionV {
                        phase: Phase::Generating,
                        nature,
                        attempts: sat_inc(s.attempts),
                        ..s
                    },
                    ActionV::Generate(initial_prompt_view(s.config.template, s.diff, nature)),
                ),
            )
        },
        (Phase::Generating, EventV::Generated(candidate)) => Some(
            (
                SessionV { phase: Phase::AwaitingApproval, candidate: Some(candidate), ..s },
                ActionV::AskApproval(candidate),
            ),
        ),
        (Phase::Generating, EventV::GenerationFailed) => Some(
            (aborted(s, Status::GenerationFailed), ActionV::Stop(Status::GenerationFailed)),
        ),
        (Phase::AwaitingApproval, EventV::ApprovalAnswered(approved)) => match s.candidate {
            Some(candidate) => Some(
                if approved {
                    if s.config.auto_stage {
                        (SessionV { phase: Phase::Staging, ..s }, ActionV::StageAll)
                    } else {
                        (SessionV { phase: Phase::Committing, ..s }, ActionV::Commit(candidate))
                    }
                } else if retry_exhausted(s.config, s.attempts) {
                    (
                        aborted(s, Status::RetryLimitReached),
                        ActionV::Stop(Status::RetryLimitReached),
                    )
                } else {
                    (
                        SessionV {
                            phase: Phase::Generating,
                            attempts: sat_inc(s.attempts),
                            ..s
                        },
                        ActionV::Generate(
                            corrective_prompt_view(
                                s.config.follow_up,
                                s.config.template,
                                candidate,
                                if s.config.keep_diff_on_retry {
                                    Some(s.diff)
                                } else {
                                    None
                                },
                            ),
                        ),
                    )
                },
            ),
            None => None,
        },
        (Phase::Staging, EventV::StagingFinished(ok)) => match s.candidate {
            Some(candidate) => Some(
                if ok {
                    (SessionV { phase: Phase::Committing, ..s }, ActionV::Commit(candidate))
                } else {
                    (aborted(s, Status::StageFailed), ActionV::Stop(Status::StageFailed))
                },
            ),
            None => None,
        },
        (Phase::Committing, EventV::CommitFinished(ok)) => Some(
            if ok {
                (SessionV { phase: Phase::OfferingPush, ..s }, ActionV::AskPush)
            } else {
                (aborted(s, Status::CommitFailed), ActionV::Stop(Status::CommitFailed))
            },
        ),
        (Phase::OfferingPush, EventV::PushAnswered(yes)) => Some(
            if yes {
                (SessionV { phase: Phase::Pushing, ..s }, ActionV::Push)
            } else {
                (
                    finished(s, Status::CommittedNotPushed),
                    ActionV::Stop(Status::CommittedNotPushed),
                )
            },
        ),
        (Phase::Pushing, EventV::PushFinished(ok)) => Some(
            if ok {
                (
                    finished(s, Status::CommittedAndPushed),
                    ActionV::Stop(Status::CommittedAndPushed),
                )
            } else {
                (aborted(s, Status::PushFailed), ActionV::Stop(Status::PushFailed))
            },
        ),
        _ => None,
    }
}

/// An attempt count one higher, held at the machine limit.
fn bump(n: usize) -> (r: usize)
    ensures
        r == sat_inc(n),
{
    if n == usize::MAX {
        n
    } else {
        n + 1
    }
}

impl Session {
    /// A fresh session over the given configuration, waiting for the
    /// repository check.
    pub fn new(config: Config) -> (s: Session)
        ensures
            s@ == initial_session(config@),
    {
        Session {
            config,
            phase: Phase::CheckingRepo,
            scope: ChangeScope::Staged,
            diff: String::new(),
            nature: None,
            candidate: None,
            attempts: 0,
            outcome: None,
        }
    }

    /// The first collaborator call of every session: the repository check.
    pub fn initial_action(&self) -> (a: Action)
        ensures
            a@ == ActionV::CheckRepo,
    {
        Action::CheckRepo
    }

    /// Whether the event is the answer this session's phase waits for, so
    /// that an unverified caller can test `step`'s precondition.
    pub fn event_fits(&self, e: &Event) -> (r: bool)
        ensures
            r == (transition(self@, e@) is Some),
    {
        match (self.phase, e) {
            (Phase::CheckingRepo, Event::RepoChecked(_)) => true,
            (Phase::CheckingChanges, Event::ChangesChecked(_)) => true,
            (Phase::CheckingChanges, Event::ChangesCheckFailed) => true,
            (Phase::SelectingScope, Event::ScopeSelected(_)) => true,
            (Phase::FetchingDiff, Event::DiffRetrieved(_)) => true,
            (Phase::AskingNature, Event::NatureGiven(_)) => true,
            (Phase::Generating, Event::Generated(_)) => true,
            (Phase::Generating, Event::GenerationFailed) => true,
            (Phase::AwaitingApproval, Event::ApprovalAnswered(_)) => self.candidate.is_some(),
            (Phase::Staging, Event::StagingFinished(_)) => self.candidate.is_some(),
            (Phase::Committing, Event::CommitFinished(_)) => true,
            (Phase::OfferingPush, Event::PushAnswered(_)) => true,
            (Phase::Pushing, Event::PushFinished(_)) => true,
            _ => false,
        }
    }

    /// Feed the session the answer it was waiting for and obtain the next
    /// collaborator call. The session moves exactly as the transition
    /// relation says.
    pub fn step(&mut self, e: Event) -> (a: Action)
        requires
            transition(old(self)@, e@) is Some,
        ensures
            final(self)@ == transition(old(self)@, e@)->Some_0.0,
            a@ == transition(old(self)@, e@)->Some_0.1,
    {
        match (self.phase, e) {
            (Phase::CheckingRepo, Event::RepoChecked(ok)) => {
                if ok {
                    self.phase = Phase::CheckingChanges;
                    Action::CheckChanges
                } else {
                    self.phase = Phase::Aborted;
                    self.outcome = Some(Status::NotARepository);
                    Action::Stop(Status::NotARepository)
                }
            },
            (Phase::CheckingChanges, Event::ChangesChecked(any)) => {
                if any {
                    self.phase = Phase::SelectingScope;
                    Action::AskScope
                } else {
                    self.phase = Phase::Aborted;
                    self.outcome = Some(Status::NoChanges);
                    Action::Stop(Status::NoChanges)
                }
            },
            (Phase::CheckingChanges, Event::ChangesCheckFailed) => {
                self.phase = Phase::Aborted;
                self.outcome = Some(Status::ChangesCheckFailed);
                Action::Stop(Status::ChangesCheckFailed)
            },
            (Phase::SelectingScope, Event::ScopeSelected(answer)) => {
                let chosen = scope_from_answer(answer.as_str());
                self.scope = chosen;
                self.phase = Phase::FetchingDiff;
                Action::FetchDiff(chosen)
            },
            (Phase::FetchingDiff, Event::DiffRetrieved(diff)) => {
                self.diff = diff;
                if self.config.ask_nature {
                    self.phase = Phase::AskingNature;
                    Action::AskNature
                } else {
                    self.attempts = bump(self.attempts);
                    self.phase = Phase::Generating;
                    let p = match &self.nature {
                        Some(nature) => initial_prompt(
                            self.config.template.as_str(),
                            self.diff.as_str(),
                            Some(nature.as_str()),
                        ),
                        None => initial_prompt(
                            self.config.template.as_str(),
                            self.diff.as_str(),
                            None,
                        ),
                    };
                    Action::Generate(p)
                }
            },
            (Phase::AskingNature, Event::NatureGiven(answer)) => {
                if answer.as_str().is_empty() {
                    self.nature = None;
                } else {
                    self.nature = Some(answer);
                }
                self.attempts = bump(self.attempts);
                self.phase = Phase::Generating;
                let p = match &self.nature {
                    Some(nature) => initial_prompt(
                        self.config.template.as_str(),
                        self.diff.as_str(),
                        Some(nature.as_str()),
                    ),
                    None => initial_prompt(self.config.template.as_str(), self.diff.as_str(), None),
                };
                Action::Generate(p)
            },
            (Phase::Generating, Event::Generated(candidate)) => {
                let shown = candidate.clone();
                self.candidate = Some(candidate);
                self.phase = Phase::AwaitingApproval;
                Action::AskApproval(shown)
            },
            (Phase::Generating, Event::GenerationFailed) => {
                self.phase = Phase::Aborted;
                self.outcome = Some(Status::GenerationFailed);
                Action::Stop(Status::GenerationFailed)
            },
            (Phase::AwaitingApproval, Event::ApprovalAnswered(approved)) => {
                let candidate = match &self.candidate {
                    Some(c) => c.clone(),
                    None => {
                        proof {
                            assert(false);
                        }
                        vstd::pervasive::unreached()
                    },
                };
                if approved {
                    if self.config.auto_stage {
                        self.phase = Phase::Staging;
                        Action::StageAll
                    } else {
                        self.phase = Phase::Committing;
                        Action::Commit(candidate)
                    }
                } else {
                    let exhausted = match self.config.max_attempts {
                        Some(cap) => self.attempts >= cap,
                        None => false,
                    };
                    if exhausted {
                        self.phase = Phase::Aborted;
                        self.outcome = Some(Status::RetryLimitReached);
                        Action::Stop(Status::RetryLimitReached)
                    } else {
                        self.attempts = bump(self.attempts);
                        self.phase = Phase::Generating;
                        let p = if self.config.keep_diff_on_retry {
                            corrective_prompt(
                                self.config.follow_up.as_str(),
                                self.config.template.as_str(),
                                candidate.as_str(),
                                Some(self.diff.as_str()),
                            )
                        } else {
                            corrective_prompt(
                                self.config.follow_up.as_str(),
                                self.config.template.as_str(),
                                candidate.as_str(),
                                None,
                            )
                        };
                        Action::Generate(p)
                    }
                }
            },
            (Phase::Staging, Event::StagingFinished(ok)) => {
                let candidate = match &self.candidate {
                    Some(c) => c.clone(),
                    None => {
                        proof {
                            assert(false);
                        }
                        vstd::pervasive::unreached()
                    },
                };
                if ok {
                    self.phase = Phase::Committing;
                    Action::Commit(candidate)
                } else {
                    self.phase = Phase::Aborted;
                    self.outcome = Some(Status::StageFailed);
                    Action::Stop(Status::StageFailed)
                }
            },
            (Phase::Committing, Event::CommitFinished(ok)) => {
                if ok {
                    self.phase = Phase::OfferingPush;
                    Action::AskPush
                } else {
                    self.phase = Phase::Aborted;
                    self.outcome = Some(Status::CommitFailed);
                    Action::Stop(Status::CommitFailed)
                }
            },
            (Phase::OfferingPush, Event::PushAnswered(yes)) => {
                if yes {
                    self.phase = Phase::Pushing;
                    Action::Push
                } else {
                    self.phase = Phase::Done;
                    self.outcome = Some(Status::CommittedNotPushed);
                    Action::Stop(Status::CommittedNotPushed)
                }
            },
            (Phase::Pushing, Event::PushFinished(ok)) => {
                if ok {
                    self.phase = Phase::Done;
                    self.outcome = Some(Status::CommittedAndPushed);
                    Action::Stop(Status::CommittedAndPushed)
                } else {
                    self.phase = Phase::Aborted;
                    self.outcome = Some(Status::PushFailed);
                    Action::Stop(Status::PushFailed)
                }
            },
            _ => {
                proof {
                    assert(false);
                }
                vstd::pervasive::unreached()
            },
        }
    }
}

/// The status line each outcome reports.
pub open spec fn status_text_view(status: Status) -> Seq<char> {
    match status {
        Status::NotARepository => "Target directory is not a git repository."@,
        Status::NoChanges => "No changes to commit."@,
        Status::ChangesCheckFailed => "Could not determine whether the repository has changes."@,
        Status::GenerationFailed => "Commit message generation failed."@,
        Status::StageFailed => "Staging failed."@,
        Status::CommitFailed => "Commit failed."@,
        Status::PushFailed => "Push failed."@,
        Status::CommittedAndPushed => "Changes committed and pushed."@,
        Status::CommittedNotPushed => "Changes committed but not pushed."@,
        Status::RetryLimitReached => "Retry limit reached without an approved commit message."@,
    }
}

/// The status line each outcome reports.
pub fn status_text(status: &Status) -> (t: &'static str)
    ensures
        t@ == status_text_view(*status),
{
    match status {
        Status::NotARepository => "Target directory is not a git repository.",
        Status::NoChanges => "No changes to commit.",
        Status::ChangesCheckFailed => "Could not determine whether the repository has changes.",
        Status::GenerationFailed => "Commit message generation failed.",
        Status::StageFailed => "Staging failed.",
        Status::CommitFailed => "Commit failed.",
        Status::PushFailed => "Push failed.",
        Status::CommittedAndPushed => "Changes committed and pushed.",
        Status::CommittedNotPushed => "Changes committed but not pushed.",
        Status::RetryLimitReached => "Retry limit reached without an approved commit message.",
    }
}

/// The question that asks for the repository directory.
pub fn target_directory_question() -> (t: &'static str)
    ensures
        t@ == "Please enter the target directory containing the Git repository:"@,
{
    "Please enter the target directory containing the Git repository:"
}

/// The question that asks which scope of changes to commit.
pub fn scope_question() -> (t: &'static str)
    ensures
        t@ == "What type of changes would you like to commit?"@,
{
    "What type of changes would you like to commit?"
}

/// The question that asks for the nature of the changes.
pub fn nature_question() -> (t: &'static str)
    ensures
        t@ == "What is the nature of the changes (e.g., bugfix, feature)? Leave empty to skip."@,
{
    "What is the nature of the changes (e.g., bugfix, feature)? Leave empty to skip."
}

/// The question that asks whether the candidate message is approved.
pub fn approval_question() -> (t: &'static str)
    ensures
        t@ == "Do you approve this commit message?"@,
{
    "Do you approve this commit message?"
}

/// The question that asks whether to push the new commit.
pub fn push_question() -> (t: &'static str)
    ensures
        t@ == "Do you want to push the changes?"@,
{
    "Do you want to push the changes?"
}

} // verus!
