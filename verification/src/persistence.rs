//! The persistence boundary: where the layout is kept, what is saved, and
//! what a load at startup makes of what it found.

use vstd::prelude::*;
use vstd::string::StrSliceExecFns;
use vstd::string::StringExecFns;
use crate::error::PersistenceError;
use crate::host::data_dir;
use crate::session::{
    clone_groups, clone_sessions, group_views_of, opt_view, views_of, AppState, AppStateView,
    SessionGroup, SessionInfo,
};

verus! {

/// `leaf` appended to the path `base`: an absolute `leaf` replaces `base`;
/// otherwise a separator is put between the two unless `base` is empty or
/// ends in one.
pub open spec fn joined(base: Seq<char>, leaf: Seq<char>) -> Seq<char> {
    if leaf.len() > 0 && leaf[0] == '/' {
        leaf
    } else if base.len() == 0 || base.last() == '/' {
        base + leaf
    } else {
        base + seq!['/'] + leaf
    }
}

/// Appends `leaf` to the path `base`.
pub fn join_path(base: &str, leaf: &str) -> (r: String)
    ensures
        r@ == joined(base@, leaf@),
{
    let leaf_len = leaf.unicode_len();
    if leaf_len > 0 && leaf.get_char(0) == '/' {
        return String::from_str(leaf);
    }
    let base_len = base.unicode_len();
    let mut path = String::from_str(base);
    if base_len > 0 && base.get_char(base_len - 1) != '/' {
        proof {
            reveal_strlit("/");
            assert("/"@ =~= seq!['/']);
        }
        path.append("/");
    }
    path.append(leaf);
    path
}

/// The directory used where the machine knows no data directory.
pub open spec fn fallback_data_dir() -> Seq<char> {
    "."@
}

/// The application's data directory below the user's data directory `base`.
pub open spec fn app_data_dir(base: Option<Seq<char>>) -> Seq<char> {
    joined(
        match base {
            Some(dir) => dir,
            None => fallback_data_dir(),
        },
        "TerminalManager"@,
    )
}

/// The path of the state file below the user's data directory `base`.
pub open spec fn state_file_path(base: Option<Seq<char>>) -> Seq<char> {
    joined(app_data_dir(base), "state.json"@)
}

/// The application's data directory, given the user's data directory.
pub fn app_data_dir_in(base: Option<String>) -> (r: String)
    ensures
        r@ == app_data_dir(opt_view(base)),
{
    match base {
        Some(dir) => join_path(dir.as_str(), "TerminalManager"),
        None => join_path(".", "TerminalManager"),
    }
}

/// The path of the state file, given the user's data directory.
pub fn state_file_path_in(base: Option<String>) -> (r: String)
    ensures
        r@ == state_file_path(opt_view(base)),
{
    let dir = app_data_dir_in(base);
    join_path(dir.as_str(), "state.json")
}

/// The application's data directory on this machine: below the user's data
/// directory, or below the current directory where there is none.
pub fn get_app_data_dir() -> (r: String)
    ensures
        exists|base: Option<Seq<char>>| r@ == #[trigger] app_data_dir(base),
{
    let base = data_dir();
    let r = app_data_dir_in(base);
    assert(r@ == app_data_dir(opt_view(base)));
    r
}

/// The path of the state file on this machine.
pub fn get_state_file_path() -> (r: String)
    ensures
        exists|base: Option<Seq<char>>| r@ == #[trigger] state_file_path(base),
{
    let base = data_dir();
    let r = state_file_path_in(base);
    assert(r@ == state_file_path(opt_view(base)));
    r
}

/// The state to save for the given sessions, groups and active session.
pub fn save_sessions(sessions: &[SessionInfo], groups: &[SessionGroup], active_id: Option<String>) -> (r:
    AppState)
    ensures
        r@ == (AppStateView {
            sessions: views_of(sessions@),
            groups: group_views_of(groups@),
            active_session_id: opt_view(active_id),
        }),
{
    AppState {
        sessions: clone_sessions(sessions),
        groups: clone_groups(groups),
        active_session_id: active_id,
    }
}

/// What a load makes of the state file: where there is no file, `found` is
/// `None` and the state is the empty one; where there is a file, the state
/// is what was read from it, and a file that could not be read or parsed is
/// an error, not an empty state.
pub fn load_state(found: Option<Result<AppState, PersistenceError>>) -> (r: Result<
    AppState,
    PersistenceError,
>)
    ensures
        found is None ==> (r matches Ok(state) && state@ == (AppStateView {
            sessions: Seq::empty(),
            groups: Seq::empty(),
            active_session_id: None,
        })),
        found matches Some(outcome) ==> r == outcome,
{
    match found {
        None => Ok(AppState::default()),
        Some(outcome) => outcome,
    }
}

} // verus!
