/// The laws the orchestrator obeys: what a whole session can and cannot do.
pub mod laws;
/// Assembly of generation prompts, first attempts and regenerations alike.
pub mod prompt;
/// Diff scopes and the argument lists of the version-control queries.
pub mod scope;
/// The orchestrator: the session state machine that drives one run.
pub mod session;
