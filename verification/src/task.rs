//! The context classifier: maps the task-name string found in the
//! foreign process to one of a closed set of execution contexts.
//!
//! Classification is exact-match only. The string is re-read and
//! re-classified on every poll, because the foreign process can change
//! context between reads, and it gates which further offsets may be
//! interpreted at all.

use vstd::prelude::*;

verus! {

use vstd::string::StringExecFns;

/// A context whose fixed field offsets are safe to interpret.
#[derive(Clone, Copy, PartialEq, Eq, Structural, Debug)]
pub enum ReadableTask {
    /// A running play session.
    Game,
    /// The out-of-session hub: village, hall, farm or house.
    Lobby,
}

/// The execution context of the foreign process, derived fresh each tick
/// from its task-name string.
#[derive(Clone, Copy, PartialEq, Eq, Structural, Debug)]
pub enum Task {
    /// One of the two recognized contexts.
    Readable(ReadableTask),
    /// Anything else, a safe fallback standing for menu time.
    Unknown,
}

/// The task-name string the foreign process shows while a session runs.
pub open spec fn game_ident() -> Seq<char> {
    "game_task.ovl"@
}

/// The task-name string the foreign process shows in the lobby.
pub open spec fn lobby_ident() -> Seq<char> {
    "lobby_task.ovl"@
}

/// The context a task-name string classifies to: one of the two exact
/// identifiers, or `Unknown` for everything else.
pub open spec fn classify_spec(s: Seq<char>) -> Task {
    if s == lobby_ident() {
        Task::Readable(ReadableTask::Lobby)
    } else if s == game_ident() {
        Task::Readable(ReadableTask::Game)
    } else {
        Task::Unknown
    }
}

/// Classifies a task-name string read from the foreign process.
pub fn classify(s: &String) -> (r: Task)
    ensures
        r == classify_spec(s@),
{
    let lobby = String::from_str("lobby_task.ovl");
    let game = String::from_str("game_task.ovl");
    if *s == lobby {
        Task::Readable(ReadableTask::Lobby)
    } else if *s == game {
        Task::Readable(ReadableTask::Game)
    } else {
        Task::Unknown
    }
}

/// A string is classified `Unknown` exactly when it differs from both
/// recognized identifiers: recognition is exact-match only, so an empty
/// or truncated string never yields a readable context.
pub proof fn lemma_classify_exact(s: Seq<char>)
    ensures
        (classify_spec(s) is Unknown) <==> (s != lobby_ident() && s != game_ident()),
{
}

} // verus!
