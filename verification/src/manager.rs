//! The registry of live sessions.

use vstd::prelude::*;
use vstd::string::StringExecFns;
use vstd::string::StrSliceExecFns;
use vstd::string::StringSliceAdditionalSpecFns;
use vstd::utf8::encode_utf8;
use crate::error::{IoError, SessionError, SpawnError};
use crate::host::home_dir;
use crate::pty::{may_flush, may_kill, may_resize, may_write, PtySize, SessionHandle};
use crate::session::{opt_view, views_of, SessionInfo, SessionInfoView, StatusView};
use crate::spawner::{
    env_value, may_launch, pairs_view, resolved_cwd, resolved_shell, shell_variable, PtyBackend,
    SpawnPlan,
};
use crate::streamer::{OutputStreamer, StreamerView};

verus! {

/// A live session: its record and the handles that the registry owns.
struct ActiveSession<H> {
    info: SessionInfo,
    handle: H,
}

/// Some record in `records` has the id `id`.
pub open spec fn has_id(records: Seq<SessionInfoView>, id: Seq<char>) -> bool {
    exists|i: int| 0 <= i < records.len() && #[trigger] records[i].id == id
}

/// No two records in `records` share an id.
pub open spec fn unique_ids(records: Seq<SessionInfoView>) -> bool {
    forall|i: int, j: int|
        0 <= i < j < records.len() ==> #[trigger] records[i].id != #[trigger] records[j].id
}

/// The position of the record with id `id`; meaningful where `has_id` holds.
pub open spec fn position_of(records: Seq<SessionInfoView>, id: Seq<char>) -> int {
    choose|i: int| 0 <= i < records.len() && #[trigger] records[i].id == id
}

/// The record with id `id`; meaningful where `has_id` holds.
pub open spec fn record_of(records: Seq<SessionInfoView>, id: Seq<char>) -> SessionInfoView {
    records[position_of(records, id)]
}

/// The records after a session with the record `info` has been registered:
/// it replaces the session that had its id, or else comes last.
pub open spec fn registered(records: Seq<SessionInfoView>, info: SessionInfoView) -> Seq<
    SessionInfoView,
> {
    if has_id(records, info.id) {
        records.update(position_of(records, info.id), info)
    } else {
        records.push(info)
    }
}

/// `items` after `item` has been placed for the session `id`: where a record
/// in `records` has that id, at its position, else last.
pub open spec fn placed<T>(records: Seq<SessionInfoView>, id: Seq<char>, items: Seq<T>, item: T) -> Seq<
    T,
> {
    if has_id(records, id) {
        items.update(position_of(records, id), item)
    } else {
        items.push(item)
    }
}

/// `after` is `before` but for the item at position `i`.
pub open spec fn same_but_at<T>(before: Seq<T>, after: Seq<T>, i: int) -> bool {
    &&& after.len() == before.len()
    &&& forall|j: int| 0 <= j < before.len() && j != i ==> #[trigger] after[j] == before[j]
}

/// A session that was just spawned: its record, and what the background
/// reader needs to stream its output.
pub struct Spawned<R> {
    /// A copy of the session's record.
    pub info: SessionInfo,
    /// The reader of the terminal's output, to be handed to the background
    /// reader once and not touched again by the registry.
    pub reader: R,
    /// The streamer bound to the session's id.
    pub streamer: OutputStreamer,
}

/// The bytes that are written to a session to run `command`: its UTF-8
/// encoding followed by a newline.
pub open spec fn command_bytes(command: Seq<char>) -> Seq<u8> {
    encode_utf8(command).push(10u8)
}

/// The bytes of `command` followed by a newline.
pub fn command_line(command: &str) -> (r: Vec<u8>)
    ensures
        r@ == command_bytes(command@),
{
    let mut bytes = command.as_bytes_vec();
    bytes.push(10u8);
    bytes
}

/// `r` is the error that reports `id` as unknown.
pub open spec fn not_found<T>(r: Result<T, SessionError>, id: Seq<char>) -> bool {
    r matches Err(SessionError::NotFound(missing)) && missing@ == id
}

/// Manages all live sessions. `H` is the type of a session's handles, `A`
/// the type of the handle to the event sink.
pub struct PtyManager<H, A> {
    sessions: Vec<ActiveSession<H>>,
    app_handle: Option<A>,
}

impl<H, A> PtyManager<H, A> {
    /// The registry's invariant: no two live sessions share an id.
    pub open spec fn wf(self) -> bool {
        unique_ids(self.records())
    }

    /// The records of the live sessions, oldest first.
    pub closed spec fn records(self) -> Seq<SessionInfoView> {
        records_of(self.sessions@)
    }

    /// The handles of the live sessions, in the order of their records.
    pub closed spec fn handles(self) -> Seq<H> {
        handles_of(self.sessions@)
    }

    /// Every live session has a record and its handles.
    pub proof fn lemma_one_handle_per_record(self)
        ensures
            self.handles().len() == self.records().len(),
    {
    }

    /// The handle to the event sink, once one has been attached.
    pub closed spec fn sink(self) -> Option<A> {
        self.app_handle
    }

    /// An event sink has been attached.
    pub open spec fn wired(self) -> bool {
        self.sink() is Some
    }

    /// A registry without sessions and without an event sink.
    pub fn new() -> (r: Self)
        ensures
            r.wf(),
            r.records() == Seq::<SessionInfoView>::empty(),
            r.handles() == Seq::<H>::empty(),
            !r.wired(),
    {
        let r = PtyManager { sessions: Vec::new(), app_handle: None };
        assert(r.handles() =~= Seq::<H>::empty());
        r
    }

    /// Attaches the handle to the event sink. Sessions spawned before this
    /// have their events dropped.
    pub fn set_app_handle(&mut self, handle: A)
        ensures
            final(self).sink() == Some(handle),
            final(self).records() == old(self).records(),
            final(self).handles() == old(self).handles(),
    {
        self.app_handle = Some(handle);
    }

    /// The handle to the event sink, if one has been attached.
    pub fn get_app_handle(&self) -> (r: Option<&A>)
        ensures
            match r {
                Some(handle) => self.sink() == Some(*handle),
                None => self.sink() is None,
            },
    {
        self.app_handle.as_ref()
    }

    fn find(&self, id: &str) -> (r: Option<usize>)
        requires
            self.wf(),
        ensures
            match r {
                Some(i) => i < self.records().len() && self.records()[i as int].id == id@
                    && i as int == position_of(self.records(), id@) && has_id(self.records(), id@),
                None => !has_id(self.records(), id@),
            },
    {
        let key = String::from_str(id);
        let mut i: usize = 0;
        while i < self.sessions.len()
            invariant
                i <= self.sessions.len(),
                key@ == id@,
                unique_ids(self.records()),
                forall|k: int| 0 <= k < i ==> (#[trigger] self.records()[k]).id != id@,
            decreases self.sessions.len() - i,
        {
            if self.sessions[i].info.id == key {
                assert(self.records()[i as int].id == id@);
                return Some(i);
            }
            i += 1;
        }
        None
    }

}

impl<H, A> Default for PtyManager<H, A> {
    /// A registry without sessions and without an event sink.
    fn default() -> (r: Self)
        ensures
            r.wf(),
            r.records() == Seq::<SessionInfoView>::empty(),
            r.handles() == Seq::<H>::empty(),
            !r.wired(),
    {
        PtyManager::new()
    }
}

impl<H: SessionHandle, A> PtyManager<H, A> {
    /// Takes the outcome of a launch for the session `id`. A failed launch
    /// is passed on and changes nothing. A launched session is registered
    /// under its id as running, in no group and without a startup command,
    /// with the shell and the working directory it was launched with.
    pub fn complete_spawn<R>(
        &mut self,
        id: String,
        name: String,
        shell: String,
        cwd: String,
        launched: Result<(H, R), SpawnError>,
    ) -> (r: Result<Spawned<R>, SessionError>)
        requires
            old(self).wf(),
        ensures
            final(self).wf(),
            final(self).sink() == old(self).sink(),
            launched matches Err(cause) ==> (r matches Err(SessionError::Spawn(e)) && e == cause)
                && final(self).records() == old(self).records() && final(self).handles() == old(
                self,
            ).handles(),
            launched matches Ok((handle, reader)) ==> (r matches Ok(spawned) && {
                &&& final(self).handles() == placed(
                    old(self).records(),
                    id@,
                    old(self).handles(),
                    handle,
                )
                &&& spawned.reader == reader
                &&& spawned.info@ == (SessionInfoView {
                    id: id@,
                    name: name@,
                    group_id: None,
                    shell: shell@,
                    cwd: cwd@,
                    status: StatusView::Running,
                    created_at: spawned.info@.created_at,
                    startup_command: None,
                })
                &&& spawned.streamer@ == (StreamerView {
                    id: id@,
                    wired: old(self).wired(),
                    finished: false,
                })
                &&& final(self).records() == registered(old(self).records(), spawned.info@)
            }),
    {
        match launched {
            Err(cause) => Err(SessionError::Spawn(cause)),
            Ok((handle, reader)) => {
                let info = SessionInfo::new(id.clone(), name, shell, cwd);
                let streamer = OutputStreamer::new(id.clone(), self.app_handle.is_some());
                let ghost before = self.records();
                let ghost held = self.handles();
                let found = self.find(id.as_str());
                let session = ActiveSession { info: info.clone(), handle };
                match found {
                    Some(i) => {
                        self.sessions.set(i, session);
                        proof {
                            assert(self.records() =~= before.update(i as int, info@));
                            assert(self.handles() =~= held.update(i as int, handle));
                            lemma_registered(before, info@);
                        }
                    },
                    None => {
                        self.sessions.push(session);
                        proof {
                            assert(self.records() =~= before.push(info@));
                            assert(self.handles() =~= held.push(handle));
                            lemma_registered(before, info@);
                        }
                    },
                }
                Ok(Spawned { info, reader, streamer })
            },
        }
    }

    /// Spawns a new terminal session: plans the launch, has `backend` carry
    /// it out, and registers the session.
    ///
    /// The backend is handed the plan that [`SpawnPlan::new`] makes of the
    /// request, once: the shell asked for, else the host's `SHELL`, else the
    /// fallback, as a login shell; the working directory asked for, else the
    /// user's home directory, else the root; the host's environment with the
    /// terminal's identification overridden; a terminal of `rows` by `cols`
    /// cells. Whether the launch succeeds is the backend's to say;
    /// [`PtyManager::complete_spawn`] says what follows from either outcome.
    pub fn spawn_session<B: PtyBackend<Handle = H>>(
        &mut self,
        backend: &mut B,
        host: &Vec<(String, String)>,
        id: String,
        name: String,
        shell: Option<String>,
        cwd: Option<String>,
        rows: u16,
        cols: u16,
    ) -> (r: Result<Spawned<B::Reader>, SessionError>)
        requires
            old(self).wf(),
        ensures
            final(self).wf(),
            final(self).sink() == old(self).sink(),
            exists|
                plan: SpawnPlan,
                home: Option<Seq<char>>,
                launcher: &mut B,
                launched: Result<(H, B::Reader), SpawnError>,
            |
                {
                    &&& plan.is_plan_for(
                        opt_view(shell),
                        opt_view(cwd),
                        rows,
                        cols,
                        pairs_view(host@),
                        home,
                    )
                    &&& may_launch(launcher, *old(backend), plan, launched)
                    &&& mut_ref_future(launcher) == *final(backend)
                    &&& launched matches Err(cause) ==> (r matches Err(SessionError::Spawn(e)) && e
                        == cause)
                    &&& launched matches Ok((handle, reader)) ==> (r matches Ok(spawned) && {
                        &&& spawned.reader == reader
                        &&& spawned.info@.shell == plan.shell@
                        &&& spawned.info@.cwd == plan.cwd@
                        &&& final(self).handles() == placed(
                            old(self).records(),
                            id@,
                            old(self).handles(),
                            handle,
                        )
                    })
                },
            r matches Err(e) ==> e is Spawn && final(self).records() == old(self).records()
                && final(self).handles() == old(self).handles(),
            r matches Ok(spawned) ==> {
                &&& spawned.info@.id == id@
                &&& spawned.info@.name == name@
                &&& spawned.info@.group_id is None
                &&& spawned.info@.shell == resolved_shell(
                    opt_view(shell),
                    env_value(pairs_view(host@), shell_variable()),
                )
                &&& exists|home: Option<Seq<char>>|
                    spawned.info@.cwd == #[trigger] resolved_cwd(opt_view(cwd), home)
                &&& spawned.info@.status == StatusView::Running
                &&& spawned.info@.startup_command is None
                &&& spawned.streamer@ == (StreamerView {
                    id: id@,
                    wired: old(self).wired(),
                    finished: false,
                })
                &&& final(self).records() == registered(old(self).records(), spawned.info@)
            },
    {
        let home = match &cwd {
            Some(_) => None,
            None => home_dir(),
        };
        let plan = SpawnPlan::new(shell, cwd, rows, cols, host, home);
        let launched = backend.launch(&plan);
        let r = self.complete_spawn(id, name, plan.shell, plan.cwd, launched);
        proof {
            if r is Ok {
                assert(r->Ok_0.info@.cwd == resolved_cwd(opt_view(cwd), opt_view(home)));
                assert(self.handles() == placed(
                    old(self).records(),
                    id@,
                    old(self).handles(),
                    launched->Ok_0.0,
                ));
            }
        }
        r
    }

    /// Runs `command` in session `id`: writes its bytes, followed by a
    /// newline, to the session's input and flushes, as
    /// [`PtyManager::write_to_session`] does with those bytes.
    pub fn run_command(&mut self, id: &str, command: &str) -> (r: Result<(), SessionError>)
        requires
            old(self).wf(),
        ensures
            final(self).wf(),
            final(self).records() == old(self).records(),
            final(self).sink() == old(self).sink(),
            !has_id(old(self).records(), id@) ==> not_found(r, id@) && final(self).handles() == old(
                self,
            ).handles(),
            has_id(old(self).records(), id@) ==> ({
                let at = position_of(old(self).records(), id@);
                &&& r is Ok || (r matches Err(SessionError::Io(e)) && (e is Write || e is Flush))
                &&& same_but_at(old(self).handles(), final(self).handles(), at)
                &&& exists|line: &[u8], write: &mut H, written: Result<(), String>|
                    may_write(write, old(self).handles()[at], line, written) && line@ == command_bytes(command@) && match written {
                        Err(_) => final(self).handles()[at] == mut_ref_future(write) && r == write_result(written),
                        Ok(_) => exists|flush: &mut H, flushed: Result<(), String>|
                            may_flush(flush, mut_ref_future(write), flushed) && final(self).handles()[at]
                                == mut_ref_future(flush) && r == flush_result(flushed),
                    }
            }),
    {
        let line = command_line(command);
        self.write_to_session(id, line.as_slice())
    }

    /// Writes `data` to the input of session `id`, then flushes.
    ///
    /// An unknown id is reported as such and nothing is touched. For a live
    /// session, the session's own handle is handed exactly `data` to write;
    /// a write that fails is the result, as [`write_failed`] reports it, and
    /// nothing is flushed; after a write that succeeds the same handle is
    /// flushed, and the result is that of the flush, as [`flush_failed`]
    /// reports it. What the write and the flush do to the handle is what the
    /// handle's type says of them. No record and no other session's handle
    /// changes either way.
    pub fn write_to_session(&mut self, id: &str, data: &[u8]) -> (r: Result<(), SessionError>)
        requires
            old(self).wf(),
        ensures
            final(self).wf(),
            final(self).records() == old(self).records(),
            final(self).sink() == old(self).sink(),
            !has_id(old(self).records(), id@) ==> not_found(r, id@) && final(self).handles() == old(
                self,
            ).handles(),
            has_id(old(self).records(), id@) ==> ({
                let at = position_of(old(self).records(), id@);
                &&& r is Ok || (r matches Err(SessionError::Io(e)) && (e is Write || e is Flush))
                &&& same_but_at(old(self).handles(), final(self).handles(), at)
                &&& exists|write: &mut H, written: Result<(), String>|
                    may_write(write, old(self).handles()[at], data, written) && match written {
                        Err(_) => final(self).handles()[at] == mut_ref_future(write) && r == write_result(written),
                        Ok(_) => exists|flush: &mut H, flushed: Result<(), String>|
                            may_flush(flush, mut_ref_future(write), flushed) && final(self).handles()[at]
                                == mut_ref_future(flush) && r == flush_result(flushed),
                    }
            }),
    {
        match self.find(id) {
            None => Err(SessionError::NotFound(String::from_str(id))),
            Some(i) => write_at(&mut self.sessions, i, data),
        }
    }

    /// Tells the terminal of session `id` its new size, in character cells.
    ///
    /// An unknown id is reported as such. For a live session, the session's
    /// own handle is handed the size `rows` by `cols`, with no pixel
    /// dimensions, and the result is that of the resize, as
    /// [`resize_failed`] reports it.
    pub fn resize_session(&self, id: &str, rows: u16, cols: u16) -> (r: Result<(), SessionError>)
        requires
            self.wf(),
        ensures
            !has_id(self.records(), id@) ==> not_found(r, id@),
            has_id(self.records(), id@) ==> exists|outcome: Result<(), String>|
                may_resize(
                    &self.handles()[position_of(self.records(), id@)],
                    (PtySize { rows, cols, pixel_width: 0, pixel_height: 0 }),
                    outcome,
                ) && r == resize_result(outcome),
    {
        match self.find(id) {
            None => Err(SessionError::NotFound(String::from_str(id))),
            Some(i) => resize_failed(self.sessions[i].handle.resize(PtySize::cells(rows, cols))),
        }
    }

    /// Terminates the child process of session `id` and removes the session.
    ///
    /// Always succeeds: an unknown id changes nothing. For a live session,
    /// the session's own handle is told to kill the child, and is dropped
    /// with the session; a failure to terminate the process is not reported.
    pub fn kill_session(&mut self, id: &str) -> (r: Result<(), SessionError>)
        requires
            old(self).wf(),
        ensures
            final(self).wf(),
            r is Ok,
            final(self).sink() == old(self).sink(),
            !has_id(final(self).records(), id@),
            has_id(old(self).records(), id@) ==> final(self).records() == old(self).records().remove(
                position_of(old(self).records(), id@),
            ) && final(self).handles() == old(self).handles().remove(
                position_of(old(self).records(), id@),
            ),
            !has_id(old(self).records(), id@) ==> final(self).records() == old(self).records()
                && final(self).handles() == old(self).handles(),
            has_id(old(self).records(), id@) ==> exists|victim: &mut H, outcome: Result<(), String>|
                may_kill(
                    victim,
                    old(self).handles()[position_of(old(self).records(), id@)],
                    outcome,
                ),
    {
        match self.find(id) {
            None => {},
            Some(i) => {
                let ghost before = self.records();
                let ghost held = self.handles();
                let mut session = self.sessions.remove(i);
                let _ = session.handle.kill();
                proof {
                    assert(self.records() =~= before.remove(i as int));
                    assert(self.handles() =~= held.remove(i as int));
                    lemma_remove_forgets(before, i as int);
                }
            },
        }
        Ok(())
    }

    /// A copy of the record of session `id`, if the session is live.
    pub fn get_session_info(&self, id: &str) -> (r: Option<SessionInfo>)
        requires
            self.wf(),
        ensures
            has_id(self.records(), id@) ==> (r matches Some(info) && info@ == record_of(
                self.records(),
                id@,
            )),
            !has_id(self.records(), id@) ==> r is None,
    {
        match self.find(id) {
            None => None,
            Some(i) => Some(self.sessions[i].info.clone()),
        }
    }

    /// Copies of the records of all live sessions, oldest first.
    pub fn get_all_sessions(&self) -> (r: Vec<SessionInfo>)
        ensures
            views_of(r@) == self.records(),
    {
        let mut all: Vec<SessionInfo> = Vec::new();
        let mut i: usize = 0;
        while i < self.sessions.len()
            invariant
                i <= self.sessions.len(),
                all@.len() == i,
                views_of(all@) == self.records().take(i as int),
            decreases self.sessions.len() - i,
        {
            let ghost copied = all@;
            let info = self.sessions[i].info.clone();
            all.push(info);
            proof {
                let next = self.records().take(i as int + 1);
                assert(views_of(copied) == self.records().take(i as int));
                assert forall|k: int| 0 <= k < next.len() implies views_of(all@)[k] == next[k] by {
                    if k < i {
                        assert(all@[k] == copied[k]);
                        assert(views_of(copied)[k] == self.records().take(i as int)[k]);
                    } else {
                        assert(all@[k] == info);
                    }
                }
                assert(views_of(all@) =~= next);
            }
            i += 1;
        }
        assert(self.records().take(i as int) =~= self.records());
        all
    }

    /// Gives session `id` the display name `name`.
    pub fn rename_session(&mut self, id: &str, name: String) -> (r: Result<(), SessionError>)
        requires
            old(self).wf(),
        ensures
            final(self).wf(),
            final(self).sink() == old(self).sink(),
            final(self).handles() == old(self).handles(),
            !has_id(old(self).records(), id@) ==> not_found(r, id@) && final(self).records() == old(self).records(),
            has_id(old(self).records(), id@) ==> r is Ok && final(self).records() == old(self).records().update(
                position_of(old(self).records(), id@),
                SessionInfoView { name: name@, ..record_of(old(self).records(), id@) },
            ),
    {
        match self.find(id) {
            None => Err(SessionError::NotFound(String::from_str(id))),
            Some(i) => {
                let ghost before = self.records();
                let ghost held = self.handles();
                self.sessions[i].info.name = name;
                proof {
                    assert(self.handles() =~= held);
                    assert(self.records() =~= before.update(
                        i as int,
                        SessionInfoView { name: name@, ..before[i as int] },
                    ));
                }
                Ok(())
            },
        }
    }

    /// Assigns session `id` to the group `group_id`, or to none.
    pub fn set_session_group(&mut self, id: &str, group_id: Option<String>) -> (r: Result<
        (),
        SessionError,
    >)
        requires
            old(self).wf(),
        ensures
            final(self).wf(),
            final(self).sink() == old(self).sink(),
            final(self).handles() == old(self).handles(),
            !has_id(old(self).records(), id@) ==> not_found(r, id@) && final(self).records() == old(self).records(),
            has_id(old(self).records(), id@) ==> r is Ok && final(self).records() == old(self).records().update(
                position_of(old(self).records(), id@),
                SessionInfoView {
                    group_id: opt_view(group_id),
                    ..record_of(old(self).records(), id@)
                },
            ),
    {
        match self.find(id) {
            None => Err(SessionError::NotFound(String::from_str(id))),
            Some(i) => {
                let ghost before = self.records();
                let ghost held = self.handles();
                self.sessions[i].info.group_id = group_id;
                proof {
                    assert(self.handles() =~= held);
                    assert(self.records() =~= before.update(
                        i as int,
                        SessionInfoView { group_id: opt_view(group_id), ..before[i as int] },
                    ));
                }
                Ok(())
            },
        }
    }

    /// Sets the command that session `id` runs once after launch, or none.
    pub fn set_startup_command(&mut self, id: &str, command: Option<String>) -> (r: Result<
        (),
        SessionError,
    >)
        requires
            old(self).wf(),
        ensures
            final(self).wf(),
            final(self).sink() == old(self).sink(),
            final(self).handles() == old(self).handles(),
            !has_id(old(self).records(), id@) ==> not_found(r, id@) && final(self).records() == old(self).records(),
            has_id(old(self).records(), id@) ==> r is Ok && final(self).records() == old(self).records().update(
                position_of(old(self).records(), id@),
                SessionInfoView {
                    startup_command: opt_view(command),
                    ..record_of(old(self).records(), id@)
                },
            ),
    {
        match self.find(id) {
            None => Err(SessionError::NotFound(String::from_str(id))),
            Some(i) => {
                let ghost before = self.records();
                let ghost held = self.handles();
                self.sessions[i].info.startup_command = command;
                proof {
                    assert(self.handles() =~= held);
                    assert(self.records() =~= before.update(
                        i as int,
                        SessionInfoView { startup_command: opt_view(command), ..before[i as int] },
                    ));
                }
                Ok(())
            },
        }
    }

    /// Session `id` is live and its status is `Running`.
    pub fn is_session_running(&self, id: &str) -> (r: bool)
        requires
            self.wf(),
        ensures
            r == (has_id(self.records(), id@) && record_of(self.records(), id@).status
                == StatusView::Running),
    {
        match self.find(id) {
            None => false,
            Some(i) => self.sessions[i].info.status.is_running(),
        }
    }
}

/// Registering a record keeps the ids unique and makes the record the one
/// found under its id.
pub proof fn lemma_registered(records: Seq<SessionInfoView>, info: SessionInfoView)
    requires
        unique_ids(records),
    ensures
        unique_ids(registered(records, info)),
        has_id(registered(records, info), info.id),
        record_of(registered(records, info), info.id) == info,
{
    let after = registered(records, info);
    if has_id(records, info.id) {
        let p = position_of(records, info.id);
        assert(after[p].id == info.id);
        assert forall|a: int, b: int| 0 <= a < b < after.len() implies #[trigger] after[a].id
            != #[trigger] after[b].id by {
            assert(after[a].id == records[a].id);
            assert(after[b].id == records[b].id);
        }
        let q = position_of(after, info.id);
        if q != p {
            assert(after[q].id == after[p].id);
        }
    } else {
        let p = records.len() as int;
        assert(after[p].id == info.id);
        assert forall|a: int, b: int| 0 <= a < b < after.len() implies #[trigger] after[a].id
            != #[trigger] after[b].id by {
            if b == p {
                assert(after[a] == records[a]);
                assert(records[a].id != info.id);
            } else {
                assert(after[a] == records[a]);
                assert(after[b] == records[b]);
            }
        }
        let q = position_of(after, info.id);
        if q != p {
            assert(after[q].id == after[p].id);
        }
    }
}

/// Replacing the record that was just registered by another with the same
/// id gives what registering the other at once would have given.
pub proof fn lemma_reregistered(
    records: Seq<SessionInfoView>,
    first: SessionInfoView,
    second: SessionInfoView,
)
    requires
        unique_ids(records),
        first.id == second.id,
    ensures
        registered(records, first).update(position_of(registered(records, first), first.id), second)
            == registered(records, second),
{
    lemma_registered(records, first);
    let after = registered(records, first);
    let q = position_of(after, first.id);
    if has_id(records, first.id) {
        let p = position_of(records, first.id);
        assert(after[p].id == first.id);
        if q != p {
            assert(after[q].id == after[p].id);
        }
        assert(after.update(q, second) =~= records.update(p, second));
    } else {
        let p = records.len() as int;
        assert(after[p].id == first.id);
        if q != p {
            assert(after[q].id == after[p].id);
        }
        assert(after.update(q, second) =~= records.push(second));
    }
}

/// Removing the record at `i` from a sequence with unique ids leaves no
/// record with that id, and the ids stay unique.
pub proof fn lemma_remove_forgets(records: Seq<SessionInfoView>, i: int)
    requires
        unique_ids(records),
        0 <= i < records.len(),
    ensures
        unique_ids(records.remove(i)),
        !has_id(records.remove(i), records[i].id),
{
    let rest = records.remove(i);
    assert forall|a: int, b: int| 0 <= a < b < rest.len() implies #[trigger] rest[a].id
        != #[trigger] rest[b].id by {
        let a0 = if a < i { a } else { a + 1 };
        let b0 = if b < i { b } else { b + 1 };
        assert(rest[a] == records[a0]);
        assert(rest[b] == records[b0]);
    }
    assert forall|k: int| 0 <= k < rest.len() implies (#[trigger] rest[k]).id != records[i].id by {
        let k0 = if k < i { k } else { k + 1 };
        assert(rest[k] == records[k0]);
    }
}

/// The handles held by `entries`, in order.
spec fn handles_of<H>(entries: Seq<ActiveSession<H>>) -> Seq<H> {
    entries.map_values(|s: ActiveSession<H>| s.handle)
}

/// The records held by `entries`, in order.
spec fn records_of<H>(entries: Seq<ActiveSession<H>>) -> Seq<SessionInfoView> {
    entries.map_values(|s: ActiveSession<H>| s.info@)
}

/// The result of an operation whose write ended in `outcome`.
pub open spec fn write_result(outcome: Result<(), String>) -> Result<(), SessionError> {
    match outcome {
        Ok(_) => Ok(()),
        Err(cause) => Err(SessionError::Io(IoError::Write(cause))),
    }
}

/// The result of an operation whose flush ended in `outcome`.
pub open spec fn flush_result(outcome: Result<(), String>) -> Result<(), SessionError> {
    match outcome {
        Ok(_) => Ok(()),
        Err(cause) => Err(SessionError::Io(IoError::Flush(cause))),
    }
}

/// The result of an operation whose resize ended in `outcome`.
pub open spec fn resize_result(outcome: Result<(), String>) -> Result<(), SessionError> {
    match outcome {
        Ok(_) => Ok(()),
        Err(cause) => Err(SessionError::Io(IoError::Resize(cause))),
    }
}

/// What a write that ended in `outcome` makes of the operation.
pub fn write_failed(outcome: Result<(), String>) -> (r: Result<(), SessionError>)
    ensures
        r == write_result(outcome),
{
    match outcome {
        Ok(()) => Ok(()),
        Err(cause) => Err(SessionError::Io(IoError::Write(cause))),
    }
}

/// What a flush that ended in `outcome` makes of the operation.
pub fn flush_failed(outcome: Result<(), String>) -> (r: Result<(), SessionError>)
    ensures
        r == flush_result(outcome),
{
    match outcome {
        Ok(()) => Ok(()),
        Err(cause) => Err(SessionError::Io(IoError::Flush(cause))),
    }
}

/// What a resize that ended in `outcome` makes of the operation.
pub fn resize_failed(outcome: Result<(), String>) -> (r: Result<(), SessionError>)
    ensures
        r == resize_result(outcome),
{
    match outcome {
        Ok(()) => Ok(()),
        Err(cause) => Err(SessionError::Io(IoError::Resize(cause))),
    }
}

fn write_at<H: SessionHandle>(sessions: &mut Vec<ActiveSession<H>>, i: usize, data: &[u8]) -> (r:
    Result<(), SessionError>)
    requires
        i < old(sessions).len(),
    ensures
        records_of(final(sessions)@) == records_of(old(sessions)@),
        same_but_at(handles_of(old(sessions)@), handles_of(final(sessions)@), i as int),
        exists|write: &mut H, written: Result<(), String>|
            may_write(write, handles_of(old(sessions)@)[i as int], data, written) && match written {
                Err(_) => handles_of(final(sessions)@)[i as int] == mut_ref_future(write) && r
                    == write_result(written),
                Ok(_) => exists|flush: &mut H, flushed: Result<(), String>|
                    may_flush(flush, mut_ref_future(write), flushed)
                        && handles_of(final(sessions)@)[i as int] == mut_ref_future(flush)
                        && r == flush_result(flushed),
            },
        r is Ok || (r matches Err(SessionError::Io(e)) && (e is Write || e is Flush)),
{
    let session = &mut sessions[i];
    let written = write_failed(session.handle.write_all(data));
    let r = match written {
        Err(e) => Err(e),
        Ok(()) => flush_failed(session.handle.flush()),
    };
    assert(records_of(sessions@) =~= records_of(old(sessions)@));
    r
}

/// With unique ids, the position of an id is the one place where it occurs.
pub proof fn lemma_position_is_unique(records: Seq<SessionInfoView>, i: int)
    requires
        unique_ids(records),
        0 <= i < records.len(),
    ensures
        has_id(records, records[i].id),
        position_of(records, records[i].id) == i,
{
    let p = position_of(records, records[i].id);
    if p != i {
        assert(records[p].id == records[i].id);
    }
}

/// Changing the record of one session, under the same id, changes the
/// record of no other session, and neither adds nor removes a session.
pub proof fn lemma_update_keeps_others(
    records: Seq<SessionInfoView>,
    changed: SessionInfoView,
    other: Seq<char>,
)
    requires
        unique_ids(records),
        has_id(records, changed.id),
        other != changed.id,
    ensures
        unique_ids(records.update(position_of(records, changed.id), changed)),
        has_id(records.update(position_of(records, changed.id), changed), other) == has_id(
            records,
            other,
        ),
        has_id(records, other) ==> record_of(
            records.update(position_of(records, changed.id), changed),
            other,
        ) == record_of(records, other),
{
    let p = position_of(records, changed.id);
    let after = records.update(p, changed);
    assert forall|a: int, b: int| 0 <= a < b < after.len() implies #[trigger] after[a].id
        != #[trigger] after[b].id by {
        assert(after[a].id == records[a].id);
        assert(after[b].id == records[b].id);
    }
    if has_id(records, other) {
        let q = position_of(records, other);
        assert(after[q] == records[q]);
        lemma_position_is_unique(after, q);
    }
    if has_id(after, other) {
        let q = position_of(after, other);
        assert(after[q] == records[q]);
    }
}

/// Registering a session changes the record of no other session, and
/// removes none.
pub proof fn lemma_registered_keeps_others(
    records: Seq<SessionInfoView>,
    info: SessionInfoView,
    other: Seq<char>,
)
    requires
        unique_ids(records),
        other != info.id,
    ensures
        has_id(registered(records, info), other) == has_id(records, other),
        has_id(records, other) ==> record_of(registered(records, info), other) == record_of(
            records,
            other,
        ),
{
    lemma_registered(records, info);
    if has_id(records, info.id) {
        lemma_update_keeps_others(records, info, other);
    } else {
        let after = records.push(info);
        if has_id(records, other) {
            let q = position_of(records, other);
            assert(after[q] == records[q]);
            lemma_position_is_unique(after, q);
        }
        if has_id(after, other) {
            let q = position_of(after, other);
            assert(after[q] == records[q]);
        }
    }
}

/// After a session is killed, no record has its id, and every other session
/// has the record it had.
pub proof fn lemma_killed_is_gone(records: Seq<SessionInfoView>, id: Seq<char>, other: Seq<char>)
    requires
        unique_ids(records),
        has_id(records, id),
        other != id,
    ensures
        unique_ids(records.remove(position_of(records, id))),
        !has_id(records.remove(position_of(records, id)), id),
        has_id(records.remove(position_of(records, id)), other) == has_id(records, other),
        has_id(records, other) ==> record_of(records.remove(position_of(records, id)), other)
            == record_of(records, other),
{
    let p = position_of(records, id);
    let after = records.remove(p);
    lemma_remove_forgets(records, p);
    if has_id(records, other) {
        let q = position_of(records, other);
        let q1 = if q < p { q } else { q - 1 };
        assert(after[q1] == records[q]);
        lemma_position_is_unique(after, q1);
    }
    if has_id(after, other) {
        let q = position_of(after, other);
        let q0 = if q < p { q } else { q + 1 };
        assert(after[q] == records[q0]);
    }
}

/// Two writes to one session, one after the other, arrive in the order in
/// which they were submitted: where the handle's type keeps account of the
/// bytes it has received, so that a write that succeeds adds exactly the
/// bytes it was handed and a flush adds none, a handle that was taken from
/// `first` to `second` by a write of `a` and from `second` to `third` by a
/// write of `b`, as [`PtyManager::write_to_session`] does on success, has
/// received `a` and then `b`, with nothing between, lost or repeated.
pub proof fn lemma_writes_arrive_in_order<H: SessionHandle>(
    received: spec_fn(H) -> Seq<u8>,
    first: H,
    a: &[u8],
    second: H,
    b: &[u8],
    third: H,
)
    requires
        forall|write: &mut H, data: &[u8], written: Result<(), String>|
            #[trigger] call_ensures(H::write_all, (write, data), written) && written is Ok
                ==> received(mut_ref_future(write)) == received(mut_ref_current(write)) + data@,
        forall|flush: &mut H, flushed: Result<(), String>|
            #[trigger] call_ensures(H::flush, (flush,), flushed) ==> received(mut_ref_future(flush))
                == received(mut_ref_current(flush)),
        exists|write: &mut H, written: Result<(), String>, flush: &mut H, flushed: Result<(), String>|
            may_write(write, first, a, written) && written is Ok && may_flush(
                flush,
                mut_ref_future(write),
                flushed,
            ) && second == mut_ref_future(flush),
        exists|write: &mut H, written: Result<(), String>, flush: &mut H, flushed: Result<(), String>|
            may_write(write, second, b, written) && written is Ok && may_flush(
                flush,
                mut_ref_future(write),
                flushed,
            ) && third == mut_ref_future(flush),
    ensures
        received(third) == received(first) + a@ + b@,
{
}

} // verus!
