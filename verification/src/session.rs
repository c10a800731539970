//! Session records, groups and the persisted layout.

use vstd::prelude::*;
use crate::host::unix_now;

verus! {

/// Status of a terminal session.
#[derive(Debug, PartialEq, Eq)]
pub enum SessionStatus {
    Running,
    Stopped,
    Error(String),
}

/// Mathematical model of a [`SessionStatus`].
pub enum StatusView {
    Running,
    Stopped,
    Error(Seq<char>),
}

impl View for SessionStatus {
    type V = StatusView;

    open spec fn view(&self) -> StatusView {
        match *self {
            SessionStatus::Running => StatusView::Running,
            SessionStatus::Stopped => StatusView::Stopped,
            SessionStatus::Error(message) => StatusView::Error(message@),
        }
    }
}

impl Clone for SessionStatus {
    fn clone(&self) -> (r: Self)
        ensures
            r == *self,
    {
        match self {
            SessionStatus::Running => SessionStatus::Running,
            SessionStatus::Stopped => SessionStatus::Stopped,
            SessionStatus::Error(message) => SessionStatus::Error(message.clone()),
        }
    }
}

impl SessionStatus {
    /// True exactly for `Running`.
    pub fn is_running(&self) -> (r: bool)
        ensures
            r == (self@ == StatusView::Running),
    {
        match self {
            SessionStatus::Running => true,
            _ => false,
        }
    }

}

/// Clones an optional string.
pub fn clone_opt(s: &Option<String>) -> (r: Option<String>)
    ensures
        r == *s,
{
    match s {
        Some(text) => Some(text.clone()),
        None => None,
    }
}

/// Spec view of an optional string.
pub open spec fn opt_view(s: Option<String>) -> Option<Seq<char>> {
    match s {
        Some(text) => Some(text@),
        None => None,
    }
}

/// A terminal session's metadata.
#[derive(Debug, PartialEq, Eq)]
pub struct SessionInfo {
    pub id: String,
    pub name: String,
    pub group_id: Option<String>,
    pub shell: String,
    pub cwd: String,
    pub status: SessionStatus,
    pub created_at: i64,
    pub startup_command: Option<String>,
}

/// Mathematical model of a [`SessionInfo`].
pub struct SessionInfoView {
    pub id: Seq<char>,
    pub name: Seq<char>,
    pub group_id: Option<Seq<char>>,
    pub shell: Seq<char>,
    pub cwd: Seq<char>,
    pub status: StatusView,
    pub created_at: int,
    pub startup_command: Option<Seq<char>>,
}

impl View for SessionInfo {
    type V = SessionInfoView;

    open spec fn view(&self) -> SessionInfoView {
        SessionInfoView {
            id: self.id@,
            name: self.name@,
            group_id: opt_view(self.group_id),
            shell: self.shell@,
            cwd: self.cwd@,
            status: self.status@,
            created_at: self.created_at as int,
            startup_command: opt_view(self.startup_command),
        }
    }
}

impl Clone for SessionInfo {
    fn clone(&self) -> (r: Self)
        ensures
            r == *self,
    {
        SessionInfo {
            id: self.id.clone(),
            name: self.name.clone(),
            group_id: clone_opt(&self.group_id),
            shell: self.shell.clone(),
            cwd: self.cwd.clone(),
            status: self.status.clone(),
            created_at: self.created_at,
            startup_command: clone_opt(&self.startup_command),
        }
    }
}

impl SessionInfo {
    /// The record of a session created at the time `created_at`: running,
    /// in no group, without a startup command.
    pub fn with_timestamp(id: String, name: String, shell: String, cwd: String, created_at: i64) -> (r:
        Self)
        ensures
            r@ == (SessionInfoView {
                id: id@,
                name: name@,
                group_id: None,
                shell: shell@,
                cwd: cwd@,
                status: StatusView::Running,
                created_at: created_at as int,
                startup_command: None,
            }),
    {
        SessionInfo {
            id,
            name,
            group_id: None,
            shell,
            cwd,
            status: SessionStatus::Running,
            created_at,
            startup_command: None,
        }
    }

    /// The record of a session created now. The creation time is read from
    /// the clock; everything else is as [`SessionInfo::with_timestamp`] says.
    pub fn new(id: String, name: String, shell: String, cwd: String) -> (r: Self)
        ensures
            r@ == (SessionInfoView {
                id: id@,
                name: name@,
                group_id: None,
                shell: shell@,
                cwd: cwd@,
                status: StatusView::Running,
                created_at: r@.created_at,
                startup_command: None,
            }),
    {
        SessionInfo::with_timestamp(id, name, shell, cwd, unix_now())
    }
}

/// A group for organizing terminal sessions.
#[derive(Debug, PartialEq, Eq)]
pub struct SessionGroup {
    pub id: String,
    pub name: String,
    pub collapsed: bool,
    /// Manual ordering for display; not the position in a list.
    pub order: i32,
}

/// Mathematical model of a [`SessionGroup`].
pub struct SessionGroupView {
    pub id: Seq<char>,
    pub name: Seq<char>,
    pub collapsed: bool,
    pub order: int,
}

impl View for SessionGroup {
    type V = SessionGroupView;

    open spec fn view(&self) -> SessionGroupView {
        SessionGroupView {
            id: self.id@,
            name: self.name@,
            collapsed: self.collapsed,
            order: self.order as int,
        }
    }
}

impl Clone for SessionGroup {
    fn clone(&self) -> (r: Self)
        ensures
            r == *self,
    {
        SessionGroup {
            id: self.id.clone(),
            name: self.name.clone(),
            collapsed: self.collapsed,
            order: self.order,
        }
    }
}

impl SessionGroup {
    /// An expanded group at order 0.
    pub fn new(id: String, name: String) -> (r: Self)
        ensures
            r@ == (SessionGroupView { id: id@, name: name@, collapsed: false, order: 0 }),
    {
        SessionGroup { id, name, collapsed: false, order: 0 }
    }
}

/// The views of `infos`, in order.
pub open spec fn views_of(infos: Seq<SessionInfo>) -> Seq<SessionInfoView> {
    infos.map_values(|info: SessionInfo| info@)
}

/// The views of `groups`, in order.
pub open spec fn group_views_of(groups: Seq<SessionGroup>) -> Seq<SessionGroupView> {
    groups.map_values(|group: SessionGroup| group@)
}

/// The persisted application state.
#[derive(Debug, PartialEq, Eq)]
pub struct AppState {
    pub sessions: Vec<SessionInfo>,
    pub groups: Vec<SessionGroup>,
    pub active_session_id: Option<String>,
}

/// Mathematical model of an [`AppState`].
pub struct AppStateView {
    pub sessions: Seq<SessionInfoView>,
    pub groups: Seq<SessionGroupView>,
    pub active_session_id: Option<Seq<char>>,
}

impl View for AppState {
    type V = AppStateView;

    open spec fn view(&self) -> AppStateView {
        AppStateView {
            sessions: views_of(self.sessions@),
            groups: group_views_of(self.groups@),
            active_session_id: opt_view(self.active_session_id),
        }
    }
}

impl Default for AppState {
    /// The empty state: no sessions, no groups, no active session.
    fn default() -> (r: Self)
        ensures
            r@ == (AppStateView {
                sessions: Seq::empty(),
                groups: Seq::empty(),
                active_session_id: None,
            }),
    {
        let r = AppState { sessions: Vec::new(), groups: Vec::new(), active_session_id: None };
        assert(views_of(r.sessions@) =~= Seq::empty());
        assert(group_views_of(r.groups@) =~= Seq::empty());
        r
    }
}

/// Copies a list of session records.
pub fn clone_sessions(sessions: &[SessionInfo]) -> (r: Vec<SessionInfo>)
    ensures
        views_of(r@) == views_of(sessions@),
{
    let mut all: Vec<SessionInfo> = Vec::new();
    let mut i: usize = 0;
    while i < sessions.len()
        invariant
            i <= sessions.len(),
            all@.len() == i,
            forall|k: int| 0 <= k < i ==> all@[k] == sessions@[k],
        decreases sessions.len() - i,
    {
        all.push(sessions[i].clone());
        i += 1;
    }
    assert(views_of(all@) =~= views_of(sessions@));
    all
}

/// Copies a list of groups.
pub fn clone_groups(groups: &[SessionGroup]) -> (r: Vec<SessionGroup>)
    ensures
        group_views_of(r@) == group_views_of(groups@),
{
    let mut all: Vec<SessionGroup> = Vec::new();
    let mut i: usize = 0;
    while i < groups.len()
        invariant
            i <= groups.len(),
            all@.len() == i,
            forall|k: int| 0 <= k < i ==> all@[k] == groups@[k],
        decreases groups.len() - i,
    {
        all.push(groups[i].clone());
        i += 1;
    }
    assert(group_views_of(all@) =~= group_views_of(groups@));
    all
}

} // verus!
