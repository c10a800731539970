//! The command surface beyond the registry's own operations: session
//! creation, group bookkeeping, the active session and the layout to save.

use vstd::prelude::*;
use vstd::string::StringExecFns;
use crate::error::{GroupError, SessionError, SpawnError};
use crate::host::fresh_id;
use crate::manager::{
    command_bytes, has_id, placed, position_of, registered, same_but_at, PtyManager,
};
use crate::persistence::save_sessions;
use crate::pty::{may_flush, may_write, SessionHandle};
use crate::session::{
    clone_groups, clone_opt, group_views_of, opt_view, AppState, AppStateView, SessionGroup,
    SessionGroupView, SessionInfo, SessionInfoView, StatusView,
};
use crate::spawner::{
    env_value, may_launch, pairs_view, resolved_cwd, resolved_shell, shell_variable, PtyBackend,
    SpawnPlan,
};
use crate::streamer::{OutputStreamer, StreamerView};

verus! {

/// Some group in `groups` has the id `id`.
pub open spec fn has_group(groups: Seq<SessionGroupView>, id: Seq<char>) -> bool {
    exists|i: int| 0 <= i < groups.len() && #[trigger] groups[i].id == id
}

/// `i` is the position of the first group in `groups` with the id `id`.
pub open spec fn is_first_with(groups: Seq<SessionGroupView>, id: Seq<char>, i: int) -> bool {
    &&& 0 <= i < groups.len()
    &&& groups[i].id == id
    &&& forall|k: int| 0 <= k < i ==> (#[trigger] groups[k]).id != id
}

/// The position of the first group with the id `id`; meaningful where
/// `has_group` holds.
pub open spec fn group_position(groups: Seq<SessionGroupView>, id: Seq<char>) -> int {
    choose|i: int| is_first_with(groups, id, i)
}

/// No two groups in `groups` share an id.
pub open spec fn unique_group_ids(groups: Seq<SessionGroupView>) -> bool {
    forall|i: int, j: int|
        0 <= i < j < groups.len() ==> #[trigger] groups[i].id != #[trigger] groups[j].id
}

/// The first position with a given id is determined by the list.
pub proof fn lemma_first_is_unique(groups: Seq<SessionGroupView>, id: Seq<char>, i: int)
    requires
        is_first_with(groups, id, i),
    ensures
        has_group(groups, id),
        group_position(groups, id) == i,
{
    let j = group_position(groups, id);
    assert(is_first_with(groups, id, j));
    if j < i {
        assert(groups[j].id != id);
    }
    if i < j {
        assert(groups[i].id != id);
    }
}

/// The groups and the active session, as the presentation layer set them.
pub struct GroupState {
    groups: Vec<SessionGroup>,
    active_session_id: Option<String>,
}

impl Default for GroupState {
    /// No groups and no active session.
    fn default() -> (r: Self)
        ensures
            r.groups() == Seq::<SessionGroupView>::empty(),
            r.active() == None::<Seq<char>>,
    {
        let r = GroupState { groups: Vec::new(), active_session_id: None };
        assert(group_views_of(r.groups@) =~= Seq::empty());
        r
    }
}

impl GroupState {
    /// The groups, in the order in which they were created.
    pub closed spec fn groups(self) -> Seq<SessionGroupView> {
        group_views_of(self.groups@)
    }

    /// The id of the active session, if any.
    pub closed spec fn active(self) -> Option<Seq<char>> {
        opt_view(self.active_session_id)
    }

    fn find(&self, id: &str) -> (r: Option<usize>)
        ensures
            match r {
                Some(i) => is_first_with(self.groups(), id@, i as int) && has_group(
                    self.groups(),
                    id@,
                ) && group_position(self.groups(), id@) == i,
                None => !has_group(self.groups(), id@),
            },
    {
        let key = String::from_str(id);
        let mut i: usize = 0;
        while i < self.groups.len()
            invariant
                i <= self.groups.len(),
                key@ == id@,
                forall|k: int| 0 <= k < i ==> (#[trigger] self.groups()[k]).id != id@,
            decreases self.groups.len() - i,
        {
            if self.groups[i].id == key {
                proof {
                    assert(self.groups()[i as int].id == id@);
                    lemma_first_is_unique(self.groups(), id@, i as int);
                }
                return Some(i);
            }
            i += 1;
        }
        None
    }
}

/// Appends a group with the given id and name: expanded, and ordered
/// after the groups that exist. Returns a copy of it.
pub fn create_group_with_id(group_state: &mut GroupState, id: String, name: String) -> (r: SessionGroup)
    ensures
        r@ == (SessionGroupView {
            id: id@,
            name: name@,
            collapsed: false,
            order: (old(group_state).groups().len() as i32) as int,
        }),
        final(group_state).groups() == old(group_state).groups().push(r@),
        final(group_state).active() == old(group_state).active(),
{
    let ghost before = group_state.groups();
    let order = #[verifier::truncate]
    (group_state.groups.len() as i32);
    let group = SessionGroup { id, name, collapsed: false, order };
    group_state.groups.push(group.clone());
    assert(group_state.groups() =~= before.push(group@));
    group
}

/// Creates a group named `name` under a fresh identifier: expanded, and
/// ordered after the groups that exist. Returns a copy of it.
pub fn create_group(group_state: &mut GroupState, name: String) -> (r: SessionGroup)
    ensures
        r@ == (SessionGroupView {
            id: r@.id,
            name: name@,
            collapsed: false,
            order: (old(group_state).groups().len() as i32) as int,
        }),
        final(group_state).groups() == old(group_state).groups().push(r@),
        final(group_state).active() == old(group_state).active(),
{
    create_group_with_id(group_state, fresh_id(), name)
}

/// Removes the first group with the id `id`. Sessions that refer to the
/// group are not touched.
pub fn delete_group(group_state: &mut GroupState, id: &str) -> (r: Result<(), GroupError>)
    ensures
        final(group_state).active() == old(group_state).active(),
        has_group(old(group_state).groups(), id@) ==> r is Ok && final(group_state).groups() == old(group_state).groups().remove(group_position(old(group_state).groups(), id@)),
        !has_group(old(group_state).groups(), id@) ==> group_not_found(r, id@) && final(group_state).groups()
            == old(group_state).groups(),
{
    match group_state.find(id) {
        Some(i) => {
            let ghost before = group_state.groups();
            group_state.groups.remove(i);
            assert(group_state.groups() =~= before.remove(i as int));
            Ok(())
        },
        None => Err(GroupError::NotFound(String::from_str(id))),
    }
}

/// Gives the first group with the id `id` the name `name`.
pub fn rename_group(group_state: &mut GroupState, id: &str, name: String) -> (r: Result<
    (),
    GroupError,
>)
    ensures
        final(group_state).active() == old(group_state).active(),
        has_group(old(group_state).groups(), id@) ==> r is Ok && final(group_state).groups() == old(group_state).groups().update(
            group_position(old(group_state).groups(), id@),
            SessionGroupView {
                name: name@,
                ..old(group_state).groups()[group_position(old(group_state).groups(), id@)]
            },
        ),
        !has_group(old(group_state).groups(), id@) ==> group_not_found(r, id@) && final(group_state).groups()
            == old(group_state).groups(),
{
    match group_state.find(id) {
        Some(i) => {
            let ghost before = group_state.groups();
            group_state.groups[i].name = name;
            assert(group_state.groups() =~= before.update(
                i as int,
                SessionGroupView { name: name@, ..before[i as int] },
            ));
            Ok(())
        },
        None => Err(GroupError::NotFound(String::from_str(id))),
    }
}

/// Collapses the first group with the id `id` if it is expanded, and
/// expands it if it is collapsed. Returns the new state.
pub fn toggle_group_collapsed(group_state: &mut GroupState, id: &str) -> (r: Result<
    bool,
    GroupError,
>)
    ensures
        final(group_state).active() == old(group_state).active(),
        has_group(old(group_state).groups(), id@) ==> r == Ok::<bool, GroupError>(
            !old(group_state).groups()[group_position(old(group_state).groups(), id@)].collapsed,
        ) && final(group_state).groups() == old(group_state).groups().update(
            group_position(old(group_state).groups(), id@),
            SessionGroupView {
                collapsed: !old(group_state).groups()[group_position(
                    old(group_state).groups(),
                    id@,
                )].collapsed,
                ..old(group_state).groups()[group_position(old(group_state).groups(), id@)]
            },
        ),
        !has_group(old(group_state).groups(), id@) ==> group_not_found(r, id@) && final(group_state).groups()
            == old(group_state).groups(),
{
    match group_state.find(id) {
        Some(i) => {
            let ghost before = group_state.groups();
            let collapsed = !group_state.groups[i].collapsed;
            group_state.groups[i].collapsed = collapsed;
            assert(group_state.groups() =~= before.update(
                i as int,
                SessionGroupView { collapsed, ..before[i as int] },
            ));
            Ok(collapsed)
        },
        None => Err(GroupError::NotFound(String::from_str(id))),
    }
}

/// Copies of all groups, in the order in which they were created.
pub fn get_all_groups(group_state: &GroupState) -> (r: Vec<SessionGroup>)
    ensures
        group_views_of(r@) == group_state.groups(),
{
    clone_groups(group_state.groups.as_slice())
}

/// Makes `id` the active session, or none.
pub fn set_active_session(group_state: &mut GroupState, id: Option<String>)
    ensures
        final(group_state).active() == opt_view(id),
        final(group_state).groups() == old(group_state).groups(),
{
    group_state.active_session_id = id;
}

/// The id of the active session, if any.
pub fn get_active_session(group_state: &GroupState) -> (r: Option<String>)
    ensures
        opt_view(r) == group_state.active(),
{
    clone_opt(&group_state.active_session_id)
}

/// Takes the outcome of loading the persisted layout at startup. A
/// loaded layout replaces the groups and the active session; its
/// sessions are left to the presentation layer to spawn again. A failed
/// load leaves the state as it is.
pub fn restore_layout<E>(group_state: &mut GroupState, loaded: Result<AppState, E>)
    ensures
        loaded matches Ok(state) ==> final(group_state).groups() == state@.groups && final(group_state).active() == state@.active_session_id,
        loaded is Err ==> final(group_state).groups() == old(group_state).groups() && final(group_state).active()
            == old(group_state).active(),
{
    match loaded {
        Ok(state) => {
            group_state.groups = state.groups;
            group_state.active_session_id = state.active_session_id;
        },
        Err(_) => {},
    }
}

/// `r` is the error that reports the group `id` as unknown.
pub open spec fn group_not_found<T>(r: Result<T, GroupError>, id: Seq<char>) -> bool {
    r matches Err(GroupError::NotFound(missing)) && missing@ == id
}

/// Deleting a group keeps the ids of the remaining groups unique.
pub proof fn lemma_delete_keeps_unique(groups: Seq<SessionGroupView>, i: int)
    requires
        unique_group_ids(groups),
        0 <= i < groups.len(),
    ensures
        unique_group_ids(groups.remove(i)),
        !has_group(groups.remove(i), groups[i].id),
{
    let rest = groups.remove(i);
    assert forall|a: int, b: int| 0 <= a < b < rest.len() implies #[trigger] rest[a].id
        != #[trigger] rest[b].id by {
        let a0 = if a < i { a } else { a + 1 };
        let b0 = if b < i { b } else { b + 1 };
        assert(rest[a] == groups[a0]);
        assert(rest[b] == groups[b0]);
    }
    assert forall|k: int| 0 <= k < rest.len() implies (#[trigger] rest[k]).id != groups[i].id by {
        let k0 = if k < i { k } else { k + 1 };
        assert(rest[k] == groups[k0]);
    }
}

/// Renaming a group, or collapsing or expanding it, keeps the ids unique.
pub proof fn lemma_change_keeps_unique(
    groups: Seq<SessionGroupView>,
    i: int,
    changed: SessionGroupView,
)
    requires
        unique_group_ids(groups),
        0 <= i < groups.len(),
        changed.id == groups[i].id,
    ensures
        unique_group_ids(groups.update(i, changed)),
{
    let after = groups.update(i, changed);
    assert forall|a: int, b: int| 0 <= a < b < after.len() implies #[trigger] after[a].id
        != #[trigger] after[b].id by {
        assert(after[a].id == groups[a].id);
        assert(after[b].id == groups[b].id);
    }
}

/// Appending a group whose id is not in use keeps the ids unique.
pub proof fn lemma_create_keeps_unique(groups: Seq<SessionGroupView>, group: SessionGroupView)
    requires
        unique_group_ids(groups),
        !has_group(groups, group.id),
    ensures
        unique_group_ids(groups.push(group)),
{
    let after = groups.push(group);
    assert forall|a: int, b: int| 0 <= a < b < after.len() implies #[trigger] after[a].id
        != #[trigger] after[b].id by {
        assert(after[a] == groups[a]);
        if b < groups.len() {
            assert(after[b] == groups[b]);
        } else {
            assert(groups[a].id != group.id);
        }
    }
}

/// Rows of a new terminal where the caller names none.
pub const DEFAULT_ROWS: u16 = 24;

/// Columns of a new terminal where the caller names none.
pub const DEFAULT_COLS: u16 = 80;

/// The rows of a new terminal: those asked for, else the default.
pub open spec fn rows_or_default(rows: Option<u16>) -> u16 {
    match rows {
        Some(n) => n,
        None => DEFAULT_ROWS,
    }
}

/// The columns of a new terminal: those asked for, else the default.
pub open spec fn cols_or_default(cols: Option<u16>) -> u16 {
    match cols {
        Some(n) => n,
        None => DEFAULT_COLS,
    }
}

/// The rows of a new terminal: those asked for, else the default.
fn rows_or(rows: Option<u16>) -> (r: u16)
    ensures
        r == rows_or_default(rows),
{
    match rows {
        Some(n) => n,
        None => DEFAULT_ROWS,
    }
}

/// The columns of a new terminal: those asked for, else the default.
fn cols_or(cols: Option<u16>) -> (r: u16)
    ensures
        r == cols_or_default(cols),
{
    match cols {
        Some(n) => n,
        None => DEFAULT_COLS,
    }
}

/// How long to wait, in milliseconds, before a startup command is written
/// to a new session, so that the shell can finish initializing.
pub const STARTUP_DELAY_MS: u64 = 500;

/// A startup command waiting to be written to its session.
#[derive(Debug, PartialEq, Eq)]
pub struct ScheduledCommand {
    /// The session to write to.
    pub id: String,
    /// The command.
    pub command: String,
    /// How long to wait before writing, in milliseconds.
    pub delay_ms: u64,
}

/// The view of an optional scheduled command: the session, the command and
/// the delay.
pub open spec fn scheduled_view(scheduled: Option<ScheduledCommand>) -> Option<
    (Seq<char>, Seq<char>, int),
> {
    match scheduled {
        Some(s) => Some((s.id@, s.command@, s.delay_ms as int)),
        None => None,
    }
}

/// What the startup command `command` of session `id` is scheduled as.
pub open spec fn scheduled_for(id: Seq<char>, command: Option<Seq<char>>) -> Option<
    (Seq<char>, Seq<char>, int),
> {
    match command {
        Some(text) => Some((id, text, STARTUP_DELAY_MS as int)),
        None => None,
    }
}

/// A session that was just created.
pub struct Created<R> {
    /// The session's record as the caller asked for it.
    pub info: SessionInfo,
    /// The reader of the terminal's output, for the background reader.
    pub reader: R,
    /// The streamer bound to the session's id.
    pub streamer: OutputStreamer,
    /// The startup command to write after its delay, if one was given.
    pub startup: Option<ScheduledCommand>,
}

/// Creates a session under the identifier `id`.
///
/// The backend is handed the plan of [`SpawnPlan::new`] for a terminal of
/// `rows` by `cols` cells, 24 rows and 80 columns where they are not given.
/// The session is registered with the requested group and startup command,
/// and the returned record is a copy of the registry's. The group need not
/// exist. A startup command is not written here; it is returned as
/// scheduled, to be written after its delay.
pub fn create_session_with_id<H: SessionHandle, A, B: PtyBackend<Handle = H>>(
    manager: &mut PtyManager<H, A>,
    backend: &mut B,
    host: &Vec<(String, String)>,
    id: String,
    name: String,
    shell: Option<String>,
    cwd: Option<String>,
    group_id: Option<String>,
    startup_command: Option<String>,
    rows: Option<u16>,
    cols: Option<u16>,
) -> (r: Result<Created<B::Reader>, SessionError>)
    requires
        old(manager).wf(),
    ensures
        final(manager).wf(),
        final(manager).sink() == old(manager).sink(),
        exists|
            plan: SpawnPlan,
            home: Option<Seq<char>>,
            launcher: &mut B,
            launched: Result<(H, B::Reader), SpawnError>,
        |
            {
                &&& plan.is_plan_for(
                    opt_view(shell),
                    opt_view(cwd),
                    rows_or_default(rows),
                    cols_or_default(cols),
                    pairs_view(host@),
                    home,
                )
                &&& may_launch(launcher, *old(backend), plan, launched)
                &&& mut_ref_future(launcher) == *final(backend)
                &&& launched matches Err(cause) ==> (r matches Err(SessionError::Spawn(e)) && e
                    == cause)
                &&& launched matches Ok((handle, reader)) ==> (r matches Ok(created) && {
                    &&& created.reader == reader
                    &&& created.info@.shell == plan.shell@
                    &&& created.info@.cwd == plan.cwd@
                    &&& final(manager).handles() == placed(
                        old(manager).records(),
                        id@,
                        old(manager).handles(),
                        handle,
                    )
                })
            },
        r matches Err(e) ==> e is Spawn && final(manager).records() == old(manager).records()
            && final(manager).handles() == old(manager).handles(),
        r matches Ok(created) ==> {
            &&& created.info@.id == id@
            &&& created.info@.name == name@
            &&& created.info@.group_id == opt_view(group_id)
            &&& created.info@.shell == resolved_shell(
                opt_view(shell),
                env_value(pairs_view(host@), shell_variable()),
            )
            &&& exists|home: Option<Seq<char>>|
                created.info@.cwd == #[trigger] resolved_cwd(opt_view(cwd), home)
            &&& created.info@.status == StatusView::Running
            &&& created.info@.startup_command == opt_view(startup_command)
            &&& created.streamer@ == (StreamerView {
                id: id@,
                wired: old(manager).wired(),
                finished: false,
            })
            &&& scheduled_view(created.startup) == scheduled_for(
                id@,
                opt_view(startup_command),
            )
            &&& final(manager).records() == registered(old(manager).records(), created.info@)
        },
{
    let ghost before = manager.records();
    let spawned = match manager.spawn_session(
        backend,
        host,
        id.clone(),
        name,
        shell,
        cwd,
        rows_or(rows),
        cols_or(cols),
    ) {
        Ok(spawned) => spawned,
        Err(e) => {
            return Err(e);
        },
    };
    let ghost stored = spawned.info@;
    let mut info = spawned.info;
    proof {
        crate::manager::lemma_registered(before, stored);
    }
    match group_id {
        Some(group) => {
            info.group_id = Some(group.clone());
            if let Err(e) = manager.set_session_group(id.as_str(), Some(group)) {
                return Err(e);
            }
            proof {
                crate::manager::lemma_reregistered(before, stored, info@);
                crate::manager::lemma_registered(before, info@);
            }
        },
        None => {},
    }
    let ghost grouped = info@;
    let mut startup: Option<ScheduledCommand> = None;
    match startup_command {
        Some(command) => {
            info.startup_command = Some(command.clone());
            if let Err(e) = manager.set_startup_command(id.as_str(), Some(command.clone())) {
                return Err(e);
            }
            proof {
                crate::manager::lemma_reregistered(before, grouped, info@);
            }
            startup = Some(ScheduledCommand { id, command, delay_ms: STARTUP_DELAY_MS });
        },
        None => {},
    }
    Ok(Created { info, reader: spawned.reader, streamer: spawned.streamer, startup })
}

/// Creates a session under a fresh identifier, as
/// [`create_session_with_id`] does under a given one.
pub fn create_session<H: SessionHandle, A, B: PtyBackend<Handle = H>>(
    manager: &mut PtyManager<H, A>,
    backend: &mut B,
    host: &Vec<(String, String)>,
    name: String,
    shell: Option<String>,
    cwd: Option<String>,
    group_id: Option<String>,
    startup_command: Option<String>,
    rows: Option<u16>,
    cols: Option<u16>,
) -> (r: Result<Created<B::Reader>, SessionError>)
    requires
        old(manager).wf(),
    ensures
        final(manager).wf(),
        final(manager).sink() == old(manager).sink(),
        exists|
            plan: SpawnPlan,
            home: Option<Seq<char>>,
            launcher: &mut B,
            launched: Result<(H, B::Reader), SpawnError>,
        |
            {
                &&& plan.is_plan_for(
                    opt_view(shell),
                    opt_view(cwd),
                    rows_or_default(rows),
                    cols_or_default(cols),
                    pairs_view(host@),
                    home,
                )
                &&& may_launch(launcher, *old(backend), plan, launched)
                &&& mut_ref_future(launcher) == *final(backend)
                &&& launched matches Err(cause) ==> (r matches Err(SessionError::Spawn(e)) && e
                    == cause)
                &&& launched matches Ok((handle, reader)) ==> (r matches Ok(created) && {
                    &&& created.reader == reader
                    &&& created.info@.shell == plan.shell@
                    &&& created.info@.cwd == plan.cwd@
                    &&& final(manager).handles() == placed(
                        old(manager).records(),
                        created.info@.id,
                        old(manager).handles(),
                        handle,
                    )
                })
            },
        r matches Err(e) ==> e is Spawn && final(manager).records() == old(manager).records()
            && final(manager).handles() == old(manager).handles(),
        r matches Ok(created) ==> {
            &&& created.info@.name == name@
            &&& created.info@.group_id == opt_view(group_id)
            &&& created.info@.shell == resolved_shell(
                opt_view(shell),
                env_value(pairs_view(host@), shell_variable()),
            )
            &&& exists|home: Option<Seq<char>>|
                created.info@.cwd == #[trigger] resolved_cwd(opt_view(cwd), home)
            &&& created.info@.status == StatusView::Running
            &&& created.info@.startup_command == opt_view(startup_command)
            &&& created.streamer@ == (StreamerView {
                id: created.info@.id,
                wired: old(manager).wired(),
                finished: false,
            })
            &&& scheduled_view(created.startup) == scheduled_for(
                created.info@.id,
                opt_view(startup_command),
            )
            &&& final(manager).records() == registered(old(manager).records(), created.info@)
        },
{
    create_session_with_id(
        manager,
        backend,
        host,
        fresh_id(),
        name,
        shell,
        cwd,
        group_id,
        startup_command,
        rows,
        cols,
    )
}

/// Writes a scheduled startup command to its session: where the session is
/// live, its handle is handed the command's bytes and a newline to write,
/// and is flushed after a write that succeeded. Whether the write or the
/// flush fails is not reported, and nothing is tried again; where the
/// session has been killed while the command was waiting, nothing is
/// touched.
pub fn run_scheduled<H: SessionHandle, A>(manager: &mut PtyManager<H, A>, scheduled: &ScheduledCommand)
    requires
        old(manager).wf(),
    ensures
        final(manager).wf(),
        final(manager).records() == old(manager).records(),
        final(manager).sink() == old(manager).sink(),
        !has_id(old(manager).records(), scheduled.id@) ==> final(manager).handles() == old(
            manager,
        ).handles(),
        has_id(old(manager).records(), scheduled.id@) ==> ({
            let at = position_of(old(manager).records(), scheduled.id@);
            &&& same_but_at(old(manager).handles(), final(manager).handles(), at)
            &&& exists|line: &[u8], write: &mut H, written: Result<(), String>|
                may_write(write, old(manager).handles()[at], line, written) && line@
                    == command_bytes(scheduled.command@) && match written {
                    Err(_) => final(manager).handles()[at] == mut_ref_future(write),
                    Ok(_) => exists|flush: &mut H, flushed: Result<(), String>|
                        may_flush(flush, mut_ref_future(write), flushed)
                            && final(manager).handles()[at] == mut_ref_future(flush),
                }
        }),
{
    let _ = manager.run_command(scheduled.id.as_str(), scheduled.command.as_str());
}

/// The layout to save: the records of the live sessions, the groups and the
/// active session.
pub fn save_layout<H: SessionHandle, A>(manager: &PtyManager<H, A>, group_state: &GroupState) -> (r:
    AppState)
    ensures
        r@ == (AppStateView {
            sessions: manager.records(),
            groups: group_state.groups(),
            active_session_id: group_state.active(),
        }),
{
    let sessions = manager.get_all_sessions();
    let groups = get_all_groups(group_state);
    let active_id = get_active_session(group_state);
    save_sessions(sessions.as_slice(), groups.as_slice(), active_id)
}

} // verus!
