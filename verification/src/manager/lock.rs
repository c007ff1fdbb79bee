//! The process lock of the supervisor: a file that holds the PID of the
//! supervisor that manages a state directory.
//!
//! The lock is taken by creating the file. Where the file exists already,
//! the supervisor whose PID it holds may be dead: then the lock is stale
//! and is taken over. A lock that holds no number is taken over, too.

use vstd::prelude::*;
use vstd::string::*;
use crate::error::Error;
use crate::numbers::{parse_i32, parse_int};
use crate::supervisor::{pid_file_content, pid_in, pid_text, take_first_line, Pid};

verus! {

/// The name of the lock file in the state directory.
pub const PROC_LOCK_FILE: &'static str = "LOCK";

/// What reading the lock file gave: its text, or the failure to read it.
#[derive(Debug, PartialEq, Eq)]
pub enum LockFile {
    /// The file was read and holds this text.
    Content(String),
    /// The file could not be opened.
    Unreadable,
}

/// Reads the PID that a process lock holds. `lock_path` is the path of the
/// file, for the error.
pub fn read_process_lock(file: &LockFile, lock_path: &str) -> (r: Result<Pid, Error>)
    ensures
        match *file {
            LockFile::Content(text) => match pid_in(text@) {
                Some(pid) => r == Ok::<Pid, Error>(pid as i32),
                None => r == Err::<Pid, Error>(Error::ProcessLockCorrupt),
            },
            LockFile::Unreadable => r matches Err(Error::ProcessLockIO(p)) && p@ == lock_path@,
        },
{
    match file {
        LockFile::Content(text) => match take_first_line(text.as_str()) {
            Some(line) => match parse_i32(line.as_str()) {
                Some(pid) => Ok(pid),
                None => Err(Error::ProcessLockCorrupt),
            },
            None => Err(Error::ProcessLockCorrupt),
        },
        LockFile::Unreadable => Err(Error::ProcessLockIO(lock_path.to_owned())),
    }
}

/// The PID to write into the lock: that of the launcher where the
/// environment names one, else the supervisor's own. A PID in the
/// environment that is no number is an error.
pub fn lock_pid(launcher_pid: Option<&str>, current_pid: Pid) -> (r: Result<Pid, Error>)
    ensures
        r == match launcher_pid {
            Some(text) => match parse_int(text@, i32::MIN as int, i32::MAX as int) {
                Some(pid) => Ok::<Pid, Error>(pid as i32),
                None => Err::<Pid, Error>(Error::ProcessLockCorrupt),
            },
            None => Ok::<Pid, Error>(current_pid),
        },
{
    match launcher_pid {
        Some(text) => match parse_i32(text) {
            Some(pid) => Ok(pid),
            None => Err(Error::ProcessLockCorrupt),
        },
        None => Ok(current_pid),
    }
}

/// The text of the lock of the process `pid`.
pub fn process_lock_content(pid: Pid) -> (r: String)
    ensures
        r@ == pid_text(pid as int),
{
    pid_file_content(pid)
}

/// What is to be done about a lock that could not be taken because the
/// file exists.
#[derive(Debug, PartialEq, Eq)]
pub enum LockDecision {
    /// The lock is stale or holds no number: remove the file and take the
    /// lock anew.
    Reclaim,
    /// The lock stands: give up with this error.
    GiveUp(Error),
}

/// What is to be done about an existing lock, given what reading it gave
/// and whether the process it names is alive.
pub open spec fn lock_decision(existing: Result<Pid, Error>, alive: bool) -> LockDecision {
    match existing {
        Ok(pid) => if alive {
            LockDecision::GiveUp(Error::ProcessLocked(pid))
        } else {
            LockDecision::Reclaim
        },
        Err(Error::ProcessLockCorrupt) => LockDecision::Reclaim,
        Err(e) => LockDecision::GiveUp(e),
    }
}

/// Decides what is to be done about a lock that could not be taken because
/// the file exists. `existing` is what `read_process_lock` gave; `alive`
/// says whether the process that the lock names lives, and counts only
/// where the lock names one.
pub fn obtain_process_lock(existing: Result<Pid, Error>, alive: bool) -> (r: LockDecision)
    ensures
        r == lock_decision(existing, alive),
{
    match existing {
        Ok(pid) => {
            if alive {
                LockDecision::GiveUp(Error::ProcessLocked(pid))
            } else {
                LockDecision::Reclaim
            }
        },
        Err(Error::ProcessLockCorrupt) => LockDecision::Reclaim,
        Err(e) => LockDecision::GiveUp(e),
    }
}

/// What the supervisor tells when it is asked to terminate the running
/// supervisor and there is none: a lock file that cannot be read means
/// that no supervisor was started, which is no error.
pub fn sub_term(result: Result<(), Error>) -> (r: (Result<(), Error>, bool))
    ensures
        r.1 == (result matches Err(Error::ProcessLockIO(_))),
        r.0 == if r.1 {
            Ok::<(), Error>(())
        } else {
            result
        },
{
    match result {
        Err(Error::ProcessLockIO(_)) => (Ok(()), true),
        other => (other, false),
    }
}

/// A lock that was written is read back as the PID that was written.
pub proof fn law_lock_round_trip(pid: Pid)
    ensures
        pid_in(pid_text(pid as int)) == Some(pid as int),
{
    crate::supervisor::law_pid_file_round_trip(pid);
}

} // verus!
