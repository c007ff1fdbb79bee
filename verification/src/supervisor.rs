//! The process handle of one supervised service: its PID, whether it is up,
//! and its PID file.
//!
//! The launcher spawns, terminates and restarts the process, and the file
//! system holds the PID file; the handle decides. Each of its steps takes
//! what the launcher or the file system answered and says what the handle
//! then holds and what is to happen to the PID file.

use vstd::prelude::*;
use vstd::string::*;
use crate::clock::{
    can_write_span, span_in_range, span_text, wall_clock, write_span, Timespec,
};
use crate::error::Error;
use crate::numbers::{lemma_written_number_reads_back, parse_i32, parse_int, signed_decimal, write_i64};
use crate::spec::ServiceGroup;

verus! {

/// The number of a process.
pub type Pid = i32;

/// Whether the process of a service runs.
#[derive(Debug, Clone, Copy, PartialEq, Eq, Structural)]
pub enum ProcessState {
    Down,
    Up,
}

impl ProcessState {
    /// The name of the state.
    pub open spec fn name(self) -> Seq<char> {
        match self {
            ProcessState::Down => "down"@,
            ProcessState::Up => "up"@,
        }
    }

    /// The state as the status line names it.
    pub fn as_str(&self) -> (r: &'static str)
        ensures
            r@ == self.name(),
    {
        match self {
            ProcessState::Down => "down",
            ProcessState::Up => "up",
        }
    }
}

/// What is to happen to the PID file after a step.
#[derive(Debug, Clone, Copy, PartialEq, Eq, Structural)]
pub enum PidFileAction {
    /// Leave it as it is.
    Keep,
    /// Remove it. A failure to remove it is no error.
    Remove,
}

/// How a restart is to be made.
#[derive(Debug, Clone, Copy, PartialEq, Eq, Structural)]
pub enum RestartPlan {
    /// Ask the launcher to restart this process in place.
    InPlace(Pid),
    /// No process is known: start the service afresh.
    Fresh,
}

/// How a restart in place went.
#[derive(Debug, PartialEq, Eq)]
pub enum Restarted {
    /// The service runs again, under a new PID.
    Up,
    /// The launcher gave a new PID, but the PID file could not be written.
    PidFileFailed(Error),
    /// The launcher failed. The service counts as down, its PID file is to
    /// be removed, and it is to be started afresh.
    StartAfresh(Error),
}

/// The first line of a text, without its line ending: what stands before
/// the first line feed, less one carriage return at its end. A text without
/// a character has no line.
pub open spec fn first_line(s: Seq<char>) -> Option<Seq<char>> {
    if s.len() == 0 {
        None
    } else {
        let upto = first_line_end(s, 0);
        let line = s.subrange(0, upto);
        if line.len() > 0 && line.last() == '\r' {
            Some(line.drop_last())
        } else {
            Some(line)
        }
    }
}

/// The place of the first line feed of `s` at or after `from`, or the
/// length of `s` if there is none.
pub open spec fn first_line_end(s: Seq<char>, from: int) -> int
    decreases s.len() - from,
{
    if from < 0 || from >= s.len() {
        s.len() as int
    } else if s[from] == '\n' {
        from
    } else {
        first_line_end(s, from + 1)
    }
}

/// The PID that the text of a PID file holds: the number on its first line.
pub open spec fn pid_in(content: Seq<char>) -> Option<int> {
    match first_line(content) {
        Some(line) => parse_int(line, i32::MIN as int, i32::MAX as int),
        None => None,
    }
}

/// The text of the PID file of the process `pid`.
pub open spec fn pid_text(pid: int) -> Seq<char> {
    signed_decimal(pid)
}

/// The path of the PID file of the service `service`.
pub open spec fn pid_file_of(service: Seq<char>) -> Seq<char> {
    "/hab/svc/"@ + service + "/PID"@
}

/// The first line of `s`, if it has one.
pub fn take_first_line(s: &str) -> (r: Option<String>)
    ensures
        match r {
            Some(line) => first_line(s@) == Some(line@),
            None => first_line(s@) is None,
        },
{
    let n = s.unicode_len();
    if n == 0 {
        return None;
    }
    let mut i: usize = 0;
    while i < n && s.get_char(i) != '\n'
        invariant
            i <= n,
            n == s@.len(),
            first_line_end(s@, 0) == first_line_end(s@, i as int),
        decreases n - i,
    {
        i = i + 1;
    }
    let end = if i > 0 && s.get_char(i - 1) == '\r' {
        i - 1
    } else {
        i
    };
    proof {
        let line = s@.subrange(0, i as int);
        if i > 0 && s@[i - 1] == '\r' {
            assert(line.drop_last() =~= s@.subrange(0, end as int));
        }
    }
    Some(s.substring_char(0, end).to_owned())
}

/// Reads the PID that the text of a PID file holds. `pid_file` is the path
/// of the file, for the error.
pub fn read_pid(content: &str, pid_file: &str) -> (r: Result<Pid, Error>)
    ensures
        match r {
            Ok(pid) => pid_in(content@) == Some(pid as int),
            Err(e) => {
                &&& pid_in(content@) is None
                &&& e matches Error::PidFileCorrupt(p)
                &&& p@ == pid_file@
            },
        },
{
    match take_first_line(content) {
        Some(line) => match parse_i32(line.as_str()) {
            Some(pid) => Ok(pid),
            None => Err(Error::PidFileCorrupt(pid_file.to_owned())),
        },
        None => Err(Error::PidFileCorrupt(pid_file.to_owned())),
    }
}

/// The text to write into the PID file of the process `pid`.
pub fn pid_file_content(pid: Pid) -> (r: String)
    ensures
        r@ == pid_text(pid as int),
{
    write_i64(pid as i64)
}

/// The path of the PID file of a service.
pub fn pid_file_path(service: &str) -> (r: String)
    ensures
        r@ == pid_file_of(service@),
{
    let mut out = "/hab/svc/".to_owned();
    out.append(service);
    out.append("/PID");
    out
}

/// The digits of a number hold no line ending.
proof fn lemma_pid_text_is_one_line(pid: int, from: int)
    requires
        0 <= from <= pid_text(pid).len(),
    ensures
        first_line_end(pid_text(pid), from) == pid_text(pid).len(),
        pid_text(pid).len() > 0,
        pid_text(pid).last() != '\r',
    decreases pid_text(pid).len() - from,
{
    let s = pid_text(pid);
    if pid < 0 {
        crate::numbers::lemma_decimal(-pid);
        let d = crate::numbers::decimal(-pid);
        assert(s.last() == d.last());
        assert(crate::numbers::is_digit(d[d.len() - 1]));
        if from < s.len() {
            if from > 0 {
                assert(s[from] == d[from - 1]);
                assert(crate::numbers::is_digit(d[from - 1]));
            }
            lemma_pid_text_is_one_line(pid, from + 1);
        }
    } else {
        crate::numbers::lemma_decimal(pid);
        assert(crate::numbers::is_digit(s[s.len() - 1]));
        if from < s.len() {
            assert(crate::numbers::is_digit(s[from]));
            lemma_pid_text_is_one_line(pid, from + 1);
        }
    }
}

/// What is written into the PID file of a process reads back as the PID of
/// that process.
pub proof fn law_pid_file_round_trip(pid: Pid)
    ensures
        pid_in(pid_text(pid as int)) == Some(pid as int),
{
    let s = pid_text(pid as int);
    lemma_pid_text_is_one_line(pid as int, 0);
    assert(s.subrange(0, s.len() as int) =~= s);
    lemma_written_number_reads_back(pid as int, i32::MIN as int, i32::MAX as int);
}

/// What was told of a service, by its view.
pub open spec fn told_view(r: Option<(bool, String)>) -> Option<(bool, Seq<char>)> {
    match r {
        Some((healthy, line)) => Some((healthy, line@)),
        None => None,
    }
}

/// The process handle of one supervised service.
#[derive(Debug, PartialEq, Eq)]
pub struct Supervisor {
    /// The name of the service group, for messages.
    pub preamble: String,
    /// Whether the process runs.
    pub state: ProcessState,
    /// When the state was entered.
    pub state_entered: Timespec,
    /// The PID of the process, if one is known.
    pub pid: Option<Pid>,
    /// The path of the PID file.
    pub pid_file: String,
}

impl Supervisor {
    /// Whether `other` differs from this handle at most in state, time of
    /// entry and PID.
    pub open spec fn same_service(&self, other: &Supervisor) -> bool {
        self.preamble == other.preamble && self.pid_file == other.pid_file
    }

    /// The handle of a service that does not run yet: down, without a PID.
    pub fn new(service_group: &ServiceGroup) -> (r: Supervisor)
        ensures
            r.state_entered.valid(),
            r.preamble@ == service_group@.text(),
            r.state == ProcessState::Down,
            r.pid is None,
            r.pid_file@ == pid_file_of(service_group@.service),
    {
        Supervisor {
            preamble: service_group.to_string(),
            state: ProcessState::Down,
            state_entered: wall_clock(),
            pid: None,
            pid_file: pid_file_path(service_group.service()),
        }
    }

    /// Enters `state` at the time `now`, unless the handle is in that state
    /// already.
    pub fn enter_state(&mut self, state: ProcessState, now: Timespec)
        ensures
            old(self).state == state ==> *final(self) == *old(self),
            old(self).state != state ==> *final(self) == (Supervisor {
                state,
                state_entered: now,
                ..*old(self)
            }),
    {
        if self.state == state {
            return ;
        }
        self.state = state;
        self.state_entered = now;
    }

    /// Enters `state` now, unless the handle is in that state already.
    fn change_state(&mut self, state: ProcessState)
        ensures
            final(self).state == state,
            final(self).pid == old(self).pid,
            final(self).same_service(old(self)),
            old(self).state == state ==> *final(self) == *old(self),
    {
        if self.state == state {
            return ;
        }
        let now = wall_clock();
        self.enter_state(state, now);
    }

    /// The PID of the process to look for: the one in memory, else the one
    /// that the PID file holds, where there is such a file. `pid_file` is
    /// the text of the file, if it exists.
    pub fn known_pid(&self, pid_file: Option<&str>) -> (r: Result<Option<Pid>, Error>)
        ensures
            self.pid is Some ==> r == Ok::<Option<Pid>, Error>(self.pid),
            self.pid is None && pid_file is None ==> r == Ok::<Option<Pid>, Error>(None),
            self.pid is None && pid_file is Some ==> match r {
                Ok(p) => p matches Some(pid) && pid_in(pid_file->0@) == Some(pid as int),
                Err(e) => {
                    &&& pid_in(pid_file->0@) is None
                    &&& e matches Error::PidFileCorrupt(p)
                    &&& p@ == self.pid_file@
                },
            },
    {
        match self.pid {
            Some(pid) => Ok(Some(pid)),
            None => match pid_file {
                Some(content) => match read_pid(content, self.pid_file.as_str()) {
                    Ok(pid) => Ok(Some(pid)),
                    Err(e) => Err(e),
                },
                None => Ok(None),
            },
        }
    }

    /// Takes note of whether the process `pid`, from `known_pid`, is alive.
    /// A live process is up and its PID is kept. Otherwise the service is
    /// down, no PID is known any more and the PID file is to be removed.
    /// Returns whether the process runs.
    pub fn check_process(&mut self, pid: Option<Pid>, alive: bool) -> (r: (bool, PidFileAction))
        ensures
            final(self).same_service(old(self)),
            r.0 == (pid is Some && alive),
            r.0 ==> final(self).state == ProcessState::Up && final(self).pid == pid && r.1
                == PidFileAction::Keep,
            !r.0 ==> final(self).state == ProcessState::Down && final(self).pid is None && r.1
                == PidFileAction::Remove,
    {
        if pid.is_some() && alive {
            self.change_state(ProcessState::Up);
            self.pid = pid;
            return (true, PidFileAction::Keep);
        }
        self.change_state(ProcessState::Down);
        self.pid = None;
        (false, PidFileAction::Remove)
    }

    /// Takes note of the launcher's answer to a request to spawn the
    /// service. On success the PID is recorded; `pid_file_written` says
    /// whether the PID file could then be written with `pid_file_content`,
    /// and only if it could is the service up.
    pub fn start(&mut self, spawned: Result<Pid, Error>, pid_file_written: bool) -> (r: Result<
        (),
        Error,
    >)
        ensures
            final(self).same_service(old(self)),
            match spawned {
                Ok(pid) => {
                    &&& final(self).pid == Some(pid)
                    &&& pid_file_written ==> r is Ok && final(self).state == ProcessState::Up
                    &&& !pid_file_written ==> final(self).state == old(self).state && (
                    r matches Err(Error::PidFileIO(p)) && p@ == old(self).pid_file@)
                },
                Err(e) => *final(self) == *old(self) && r == Err::<(), Error>(e),
            },
    {
        match spawned {
            Ok(pid) => {
                self.pid = Some(pid);
                if !pid_file_written {
                    return Err(Error::PidFileIO(self.pid_file.clone()));
                }
                self.change_state(ProcessState::Up);
                Ok(())
            },
            Err(e) => Err(e),
        }
    }

    /// The line that tells of the state of the service at the time `now`:
    /// the preamble, the state, and for how long it has lasted.
    pub open spec fn status_line(&self, now: Timespec) -> Seq<char> {
        self.preamble@ + ": "@ + self.state.name() + " for "@ + span_text(
            self.state_entered.sec as int,
            self.state_entered.nsec as int,
            now.sec as int,
            now.nsec as int,
        )
    }

    /// Whether the service is healthy at the time `now`, and the line that
    /// tells of its state.
    pub fn status_at(&self, now: Timespec) -> (r: (bool, String))
        requires
            span_in_range(self.state_entered, now),
        ensures
            r.0 == (self.state == ProcessState::Up),
            r.1@ == self.status_line(now),
    {
        let lasted = write_span(self.state_entered, now);
        let mut line = self.preamble.clone();
        line.append(": ");
        line.append(self.state.as_str());
        line.append(" for ");
        line.append(lasted.as_str());
        let healthy = match self.state {
            ProcessState::Up => true,
            ProcessState::Down => false,
        };
        (healthy, line)
    }

    /// What is told of the service at the time `now`: whether it is
    /// healthy, and the line that tells of its state. Nothing is told where
    /// `now` is too far from the time at which the state was entered for
    /// the span to be written, or where one of the two is no time.
    pub open spec fn told_at(&self, now: Timespec) -> Option<(bool, Seq<char>)> {
        if span_in_range(self.state_entered, now) {
            Some((self.state == ProcessState::Up, self.status_line(now)))
        } else {
            None
        }
    }

    /// Whether the service is healthy, and the line that tells of its
    /// state now: what is told of it at the time that the wall clock
    /// gives, which is some time with nanoseconds of less than a second.
    /// Whether anything is told lies with the clock alone, but for a
    /// handle whose state was entered at no time: of that one nothing is
    /// ever told.
    pub fn status(&self) -> (r: Option<(bool, String)>)
        ensures
            exists|now: Timespec|
                now.valid() && told_view(r) == #[trigger] self.told_at(now),
            !self.state_entered.valid() ==> r is None,
    {
        let now = wall_clock();
        let told = if can_write_span(self.state_entered, now) {
            Some(self.status_at(now))
        } else {
            None
        };
        assert(told_view(told) == self.told_at(now));
        told
    }

    /// The PID of the process that the launcher is to terminate, if the
    /// service is to be stopped. Without a PID there is nothing to stop.
    pub fn pid_to_stop(&self) -> (r: Option<Pid>)
        ensures
            r == self.pid,
    {
        self.pid
    }

    /// Takes note of the launcher's answer to a request to terminate the
    /// process. Whatever the launcher answered, the service is down and its
    /// PID file is to be removed; the answer is handed back for the log.
    /// Without a PID nothing changes.
    pub fn stop(&mut self, terminated: Result<(), Error>) -> (r: (PidFileAction, Result<(), Error>))
        ensures
            final(self).same_service(old(self)),
            final(self).pid == old(self).pid,
            old(self).pid is None ==> *final(self) == *old(self) && r.0 == PidFileAction::Keep && r.1
                == Ok::<(), Error>(()),
            old(self).pid is Some ==> final(self).state == ProcessState::Down && r.0
                == PidFileAction::Remove && r.1 == terminated,
    {
        if self.pid.is_none() {
            return (PidFileAction::Keep, Ok(()));
        }
        self.change_state(ProcessState::Down);
        (PidFileAction::Remove, terminated)
    }

    /// How the service is to be restarted: in place where a PID is known,
    /// else afresh.
    pub fn restart_plan(&self) -> (r: RestartPlan)
        ensures
            r == match self.pid {
                Some(pid) => RestartPlan::InPlace(pid),
                None => RestartPlan::Fresh,
            },
    {
        match self.pid {
            Some(pid) => RestartPlan::InPlace(pid),
            None => RestartPlan::Fresh,
        }
    }

    /// Takes note of the launcher's answer to a request to restart the
    /// process in place. A new PID is taken up as after a start. If the
    /// launcher failed, the service is down without a PID, its PID file is
    /// to be removed, and it is to be started afresh.
    pub fn restart(&mut self, restarted: Result<Pid, Error>, pid_file_written: bool) -> (r: (
        PidFileAction,
        Restarted,
    ))
        ensures
            final(self).same_service(old(self)),
            match restarted {
                Ok(pid) => {
                    &&& final(self).pid == Some(pid)
                    &&& r.0 == PidFileAction::Keep
                    &&& pid_file_written ==> r.1 == Restarted::Up && final(self).state
                        == ProcessState::Up
                    &&& !pid_file_written ==> final(self).state == old(self).state && (
                    r.1 matches Restarted::PidFileFailed(Error::PidFileIO(p)) && p@ == old(
                        self,
                    ).pid_file@)
                },
                Err(e) => {
                    &&& final(self).pid is None
                    &&& final(self).state == ProcessState::Down
                    &&& r.0 == PidFileAction::Remove
                    &&& r.1 == Restarted::StartAfresh(e)
                },
            },
    {
        match restarted {
            Ok(pid) => match self.start(Ok(pid), pid_file_written) {
                Ok(()) => (PidFileAction::Keep, Restarted::Up),
                Err(e) => (PidFileAction::Keep, Restarted::PidFileFailed(e)),
            },
            Err(e) => {
                self.change_state(ProcessState::Down);
                self.pid = None;
                (PidFileAction::Remove, Restarted::StartAfresh(e))
            },
        }
    }
}

/// As whom a service runs: the names and numbers of its user and group,
/// as far as they are known.
#[derive(Debug, PartialEq, Eq)]
pub struct UserInfo {
    pub user: Option<String>,
    pub uid: Option<u32>,
    pub group: Option<String>,
    pub gid: Option<u32>,
}

/// Who the supervisor itself runs as.
#[derive(Debug, PartialEq, Eq)]
pub struct CurrentUser {
    pub user: Option<String>,
    pub uid: u32,
    pub group: Option<String>,
    pub gid: Option<u32>,
}

/// Finds as whom a service runs. A supervisor that can run processes as
/// another user runs the service as the user and group of its package,
/// which the system must know: `uid` and `gid` are the numbers that the
/// system has for them. The user is looked at first. A supervisor that
/// cannot runs the service as itself.
pub fn user_info(
    svc_user: &str,
    svc_group: &str,
    can_set_user: bool,
    uid: Option<u32>,
    gid: Option<u32>,
    current: CurrentUser,
) -> (r: Result<UserInfo, Error>)
    ensures
        match r {
            Ok(info) => if can_set_user {
                &&& uid is Some && gid is Some
                &&& info.uid == uid && info.gid == gid
                &&& info.user matches Some(u) && u@ == svc_user@
                &&& info.group matches Some(g) && g@ == svc_group@
            } else {
                info == (UserInfo {
                    user: current.user,
                    uid: Some(current.uid),
                    group: current.group,
                    gid: current.gid,
                })
            },
            Err(e) => can_set_user && if uid is None {
                e matches Error::UserNotFound(u) && u@ == svc_user@
            } else {
                gid is None && (e matches Error::GroupNotFound(g) && g@ == svc_group@)
            },
        },
{
    if can_set_user {
        let uid = match uid {
            Some(uid) => uid,
            None => {
                return Err(Error::UserNotFound(svc_user.to_owned()));
            },
        };
        let gid = match gid {
            Some(gid) => gid,
            None => {
                return Err(Error::GroupNotFound(svc_group.to_owned()));
            },
        };
        Ok(
            UserInfo {
                user: Some(svc_user.to_owned()),
                uid: Some(uid),
                group: Some(svc_group.to_owned()),
                gid: Some(gid),
            },
        )
    } else {
        let CurrentUser { user, uid, group, gid } = current;
        Ok(UserInfo { user, uid: Some(uid), group, gid })
    }
}

/// The name by which a user is told of in a message: the name where there
/// is one, else a word for someone without a name.
pub fn user_name_or_anonymous(name: &Option<String>) -> (r: &str)
    ensures
        r@ == match *name {
            Some(n) => n@,
            None => "anonymous"@,
        },
{
    match name {
        Some(n) => n.as_str(),
        None => "anonymous",
    }
}

} // verus!
