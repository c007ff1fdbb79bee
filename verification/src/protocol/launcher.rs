//! Requests to the launcher and its answers.
//!
//! Every field of a message may be set or not. A field that is not set reads
//! as the empty text or as zero.

use vstd::prelude::*;
use crate::text::{copy_opt_text, opt_text};

verus! {

/// The views of the entries of an environment: names and values, in order.
pub open spec fn entries_view(v: Seq<(String, String)>) -> Seq<(Seq<char>, Seq<char>)> {
    v.map_values(|e: (String, String)| (e.0@, e.1@))
}

/// A copy of the entries of an environment.
pub fn copy_entries(v: &Vec<(String, String)>) -> (r: Vec<(String, String)>)
    ensures
        entries_view(r@) == entries_view(v@),
{
    let mut out: Vec<(String, String)> = Vec::new();
    let mut i: usize = 0;
    while i < v.len()
        invariant
            i <= v.len(),
            out.len() == i,
            forall|j: int| 0 <= j < i ==> out@[j].0@ == v@[j].0@ && out@[j].1@ == v@[j].1@,
        decreases v.len() - i,
    {
        out.push((v[i].0.clone(), v[i].1.clone()));
        i = i + 1;
    }
    assert(entries_view(out@) =~= entries_view(v@));
    out
}

/// The value that an environment gives to `name`: that of the last entry
/// under that name.
pub open spec fn env_value(env: Seq<(Seq<char>, Seq<char>)>, name: Seq<char>) -> Option<Seq<char>>
    decreases env.len(),
{
    if env.len() == 0 {
        None
    } else if env.last().0 == name {
        Some(env.last().1)
    } else {
        env_value(env.drop_last(), name)
    }
}

/// How a process came to its end.
#[derive(Debug, Clone, Copy, PartialEq, Eq, Hash, Structural)]
pub enum ShutdownMethod {
    /// It had exited before anything was done.
    AlreadyExited,
    /// It exited on the signal that asked it to.
    GracefulTermination,
    /// It had to be killed.
    Killed,
}

impl ShutdownMethod {
    /// The number that stands for the method on the wire.
    pub open spec fn number(self) -> i32 {
        match self {
            ShutdownMethod::AlreadyExited => 0,
            ShutdownMethod::GracefulTermination => 1,
            ShutdownMethod::Killed => 2,
        }
    }

    /// The number that stands for the method on the wire.
    pub fn value(&self) -> (r: i32)
        ensures
            r == self.number(),
    {
        match self {
            ShutdownMethod::AlreadyExited => 0,
            ShutdownMethod::GracefulTermination => 1,
            ShutdownMethod::Killed => 2,
        }
    }

    /// The method that a number stands for, if it stands for one.
    pub fn from_i32(value: i32) -> (r: Option<ShutdownMethod>)
        ensures
            match r {
                Some(m) => m.number() == value,
                None => value < 0 || value > 2,
            },
    {
        if value == 0 {
            Some(ShutdownMethod::AlreadyExited)
        } else if value == 1 {
            Some(ShutdownMethod::GracefulTermination)
        } else if value == 2 {
            Some(ShutdownMethod::Killed)
        } else {
            None
        }
    }

    /// All methods, in the order of their numbers.
    pub fn values() -> (r: Vec<ShutdownMethod>)
        ensures
            r@ == seq![
                ShutdownMethod::AlreadyExited,
                ShutdownMethod::GracefulTermination,
                ShutdownMethod::Killed,
            ],
    {
        let mut out: Vec<ShutdownMethod> = Vec::new();
        out.push(ShutdownMethod::AlreadyExited);
        out.push(ShutdownMethod::GracefulTermination);
        out.push(ShutdownMethod::Killed);
        assert(out@ =~= seq![
            ShutdownMethod::AlreadyExited,
            ShutdownMethod::GracefulTermination,
            ShutdownMethod::Killed,
        ]);
        out
    }
}

/// The handshake of a supervisor: names the pipe on which it listens for
/// the launcher's answers.
#[derive(Debug, PartialEq, Eq)]
pub struct Register {
    pipe: Option<String>,
}

/// The mathematical value of a `Register`: each field, where it is set.
pub struct RegisterView {
    pub pipe: Option<Seq<char>>,
}

impl View for Register {
    type V = RegisterView;

    closed spec fn view(&self) -> RegisterView {
        RegisterView {
            pipe: opt_text(self.pipe),
        }
    }
}

impl RegisterView {
    /// The message without any field set.
    pub open spec fn empty() -> RegisterView {
        RegisterView {
            pipe: None,
        }
    }
}

impl Clone for Register {
    fn clone(&self) -> (r: Self)
        ensures
            r@ == self@,
    {
        Register {
            pipe: copy_opt_text(&self.pipe),
        }
    }
}

impl Register {
    /// A message without any field set.
    pub fn new() -> (r: Register)
        ensures
            r@ == RegisterView::empty(),
    {
        Register { pipe: None }
    }

    /// Unsets every field.
    pub fn clear(&mut self)
        ensures
            final(self)@ == RegisterView::empty(),
    {
        *self = Register::new();
    }

    /// Unsets the name of the pipe.
    pub fn clear_pipe(&mut self)
        ensures
            final(self)@ == (RegisterView { pipe: None, ..old(self)@ }),
    {
        self.pipe = None;
    }

    /// Whether the name of the pipe is set.
    pub fn has_pipe(&self) -> (r: bool)
        ensures
            r == (self@.pipe is Some),
    {
        self.pipe.is_some()
    }

    /// Sets the name of the pipe.
    pub fn set_pipe(&mut self, v: String)
        ensures
            final(self)@ == (RegisterView { pipe: Some(v@), ..old(self)@ }),
    {
        self.pipe = Some(v);
    }

    /// Gives the name of the pipe to be changed in place. Where it was not set, it is set to
    /// the empty value first.
    pub fn mut_pipe(&mut self) -> (r: &mut String)
        ensures
            r@ == match old(self)@.pipe {
                Some(s) => s,
                None => Seq::<char>::empty(),
            },
            final(self)@ == (RegisterView { pipe: Some(final(r)@), ..old(self)@ }),
    {
        self.pipe.get_or_insert(String::new())
    }

    /// Takes the name of the pipe out of the message and leaves it unset. Where it was not
    /// set, the empty value comes out.
    pub fn take_pipe(&mut self) -> (r: String)
        ensures
            r@ == match old(self)@.pipe {
                Some(s) => s,
                None => Seq::<char>::empty(),
            },
            final(self)@ == (RegisterView { pipe: None, ..old(self)@ }),
    {
        match self.pipe.take() {
            Some(s) => s,
            None => String::new(),
        }
    }

    /// The name of the pipe, or the empty value where it is not set.
    pub fn get_pipe(&self) -> (r: &str)
        ensures
            r@ == match self@.pipe {
                Some(s) => s,
                None => Seq::<char>::empty(),
            },
    {
        proof {
            reveal_strlit("");
        }
        match &self.pipe {
            Some(v) => v.as_str(),
            None => "",
        }
    }
}

/// Asks the launcher to restart a process in place.
#[derive(Debug, PartialEq, Eq)]
pub struct Restart {
    pid: Option<u32>,
}

/// The mathematical value of a `Restart`: each field, where it is set.
pub struct RestartView {
    pub pid: Option<u32>,
}

impl View for Restart {
    type V = RestartView;

    closed spec fn view(&self) -> RestartView {
        RestartView {
            pid: self.pid,
        }
    }
}

impl RestartView {
    /// The message without any field set.
    pub open spec fn empty() -> RestartView {
        RestartView {
            pid: None,
        }
    }
}

impl Clone for Restart {
    fn clone(&self) -> (r: Self)
        ensures
            r@ == self@,
    {
        Restart {
            pid: self.pid,
        }
    }
}

impl Restart {
    /// A message without any field set.
    pub fn new() -> (r: Restart)
        ensures
            r@ == RestartView::empty(),
    {
        Restart { pid: None }
    }

    /// Unsets every field.
    pub fn clear(&mut self)
        ensures
            final(self)@ == RestartView::empty(),
    {
        *self = Restart::new();
    }

    /// Unsets the PID of the process.
    pub fn clear_pid(&mut self)
        ensures
            final(self)@ == (RestartView { pid: None, ..old(self)@ }),
    {
        self.pid = None;
    }

    /// Whether the PID of the process is set.
    pub fn has_pid(&self) -> (r: bool)
        ensures
            r == (self@.pid is Some),
    {
        self.pid.is_some()
    }

    /// Sets the PID of the process.
    pub fn set_pid(&mut self, v: u32)
        ensures
            final(self)@ == (RestartView { pid: Some(v), ..old(self)@ }),
    {
        self.pid = Some(v);
    }

    /// The PID of the process, or the value that stands for none.
    pub open spec fn get_pid_spec(&self) -> u32 {
        match self@.pid {
            Some(v) => v,
            None => 0,
        }
    }

    /// The PID of the process, or zero where it is not set.
    pub fn get_pid(&self) -> (r: u32)
        ensures
            r == self.get_pid_spec(),
    {
        match self.pid {
            Some(v) => v,
            None => 0,
        }
    }
}

/// Asks the launcher to spawn the process of a service.
#[derive(Debug, PartialEq, Eq)]
pub struct Spawn {
    id: Option<String>,
    binary: Option<String>,
    svc_user: Option<String>,
    svc_group: Option<String>,
    svc_password: Option<String>,
    env: Vec<(String, String)>,
}

/// The mathematical value of a `Spawn`: each field, where it is set.
pub struct SpawnView {
    pub id: Option<Seq<char>>,
    pub binary: Option<Seq<char>>,
    pub svc_user: Option<Seq<char>>,
    pub svc_group: Option<Seq<char>>,
    pub svc_password: Option<Seq<char>>,
    pub env: Seq<(Seq<char>, Seq<char>)>,
}

impl View for Spawn {
    type V = SpawnView;

    closed spec fn view(&self) -> SpawnView {
        SpawnView {
            id: opt_text(self.id),
            binary: opt_text(self.binary),
            svc_user: opt_text(self.svc_user),
            svc_group: opt_text(self.svc_group),
            svc_password: opt_text(self.svc_password),
            env: entries_view(self.env@),
        }
    }
}

impl SpawnView {
    /// The message without any field set.
    pub open spec fn empty() -> SpawnView {
        SpawnView {
            id: None,
            binary: None,
            svc_user: None,
            svc_group: None,
            svc_password: None,
            env: Seq::<(Seq<char>, Seq<char>)>::empty(),
        }
    }
}

impl Clone for Spawn {
    fn clone(&self) -> (r: Self)
        ensures
            r@ == self@,
    {
        Spawn {
            id: copy_opt_text(&self.id),
            binary: copy_opt_text(&self.binary),
            svc_user: copy_opt_text(&self.svc_user),
            svc_group: copy_opt_text(&self.svc_group),
            svc_password: copy_opt_text(&self.svc_password),
            env: copy_entries(&self.env),
        }
    }
}

impl Spawn {
    /// A message without any field set.
    pub fn new() -> (r: Spawn)
        ensures
            r@ == SpawnView::empty(),
    {
        let r = Spawn { id: None, binary: None, svc_user: None, svc_group: None, svc_password: None, env: Vec::new() };
        assert(r@.env =~= Seq::<(Seq<char>, Seq<char>)>::empty());
        r
    }

    /// Unsets every field.
    pub fn clear(&mut self)
        ensures
            final(self)@ == SpawnView::empty(),
    {
        *self = Spawn::new();
    }

    /// Unsets the name of the service.
    pub fn clear_id(&mut self)
        ensures
            final(self)@ == (SpawnView { id: None, ..old(self)@ }),
    {
        self.id = None;
    }

    /// Whether the name of the service is set.
    pub fn has_id(&self) -> (r: bool)
        ensures
            r == (self@.id is Some),
    {
        self.id.is_some()
    }

    /// Sets the name of the service.
    pub fn set_id(&mut self, v: String)
        ensures
            final(self)@ == (SpawnView { id: Some(v@), ..old(self)@ }),
    {
        self.id = Some(v);
    }

    /// Gives the name of the service to be changed in place. Where it was not set, it is set to
    /// the empty value first.
    pub fn mut_id(&mut self) -> (r: &mut String)
        ensures
            r@ == match old(self)@.id {
                Some(s) => s,
                None => Seq::<char>::empty(),
            },
            final(self)@ == (SpawnView { id: Some(final(r)@), ..old(self)@ }),
    {
        self.id.get_or_insert(String::new())
    }

    /// Takes the name of the service out of the message and leaves it unset. Where it was not
    /// set, the empty value comes out.
    pub fn take_id(&mut self) -> (r: String)
        ensures
            r@ == match old(self)@.id {
                Some(s) => s,
                None => Seq::<char>::empty(),
            },
            final(self)@ == (SpawnView { id: None, ..old(self)@ }),
    {
        match self.id.take() {
            Some(s) => s,
            None => String::new(),
        }
    }

    /// The name of the service, or the empty value where it is not set.
    pub fn get_id(&self) -> (r: &str)
        ensures
            r@ == match self@.id {
                Some(s) => s,
                None => Seq::<char>::empty(),
            },
    {
        proof {
            reveal_strlit("");
        }
        match &self.id {
            Some(v) => v.as_str(),
            None => "",
        }
    }

    /// Unsets the path of the program to run.
    pub fn clear_binary(&mut self)
        ensures
            final(self)@ == (SpawnView { binary: None, ..old(self)@ }),
    {
        self.binary = None;
    }

    /// Whether the path of the program to run is set.
    pub fn has_binary(&self) -> (r: bool)
        ensures
            r == (self@.binary is Some),
    {
        self.binary.is_some()
    }

    /// Sets the path of the program to run.
    pub fn set_binary(&mut self, v: String)
        ensures
            final(self)@ == (SpawnView { binary: Some(v@), ..old(self)@ }),
    {
        self.binary = Some(v);
    }

    /// Gives the path of the program to run to be changed in place. Where it was not set, it is set to
    /// the empty value first.
    pub fn mut_binary(&mut self) -> (r: &mut String)
        ensures
            r@ == match old(self)@.binary {
                Some(s) => s,
                None => Seq::<char>::empty(),
            },
            final(self)@ == (SpawnView { binary: Some(final(r)@), ..old(self)@ }),
    {
        self.binary.get_or_insert(String::new())
    }

    /// Takes the path of the program to run out of the message and leaves it unset. Where it was not
    /// set, the empty value comes out.
    pub fn take_binary(&mut self) -> (r: String)
        ensures
            r@ == match old(self)@.binary {
                Some(s) => s,
                None => Seq::<char>::empty(),
            },
            final(self)@ == (SpawnView { binary: None, ..old(self)@ }),
    {
        match self.binary.take() {
            Some(s) => s,
            None => String::new(),
        }
    }

    /// The path of the program to run, or the empty value where it is not set.
    pub fn get_binary(&self) -> (r: &str)
        ensures
            r@ == match self@.binary {
                Some(s) => s,
                None => Seq::<char>::empty(),
            },
    {
        proof {
            reveal_strlit("");
        }
        match &self.binary {
            Some(v) => v.as_str(),
            None => "",
        }
    }

    /// Unsets the user to run the service as.
    pub fn clear_svc_user(&mut self)
        ensures
            final(self)@ == (SpawnView { svc_user: None, ..old(self)@ }),
    {
        self.svc_user = None;
    }

    /// Whether the user to run the service as is set.
    pub fn has_svc_user(&self) -> (r: bool)
        ensures
            r == (self@.svc_user is Some),
    {
        self.svc_user.is_some()
    }

    /// Sets the user to run the service as.
    pub fn set_svc_user(&mut self, v: String)
        ensures
            final(self)@ == (SpawnView { svc_user: Some(v@), ..old(self)@ }),
    {
        self.svc_user = Some(v);
    }

    /// Gives the user to run the service as to be changed in place. Where it was not set, it is set to
    /// the empty value first.
    pub fn mut_svc_user(&mut self) -> (r: &mut String)
        ensures
            r@ == match old(self)@.svc_user {
                Some(s) => s,
                None => Seq::<char>::empty(),
            },
            final(self)@ == (SpawnView { svc_user: Some(final(r)@), ..old(self)@ }),
    {
        self.svc_user.get_or_insert(String::new())
    }

    /// Takes the user to run the service as out of the message and leaves it unset. Where it was not
    /// set, the empty value comes out.
    pub fn take_svc_user(&mut self) -> (r: String)
        ensures
            r@ == match old(self)@.svc_user {
                Some(s) => s,
                None => Seq::<char>::empty(),
            },
            final(self)@ == (SpawnView { svc_user: None, ..old(self)@ }),
    {
        match self.svc_user.take() {
            Some(s) => s,
            None => String::new(),
        }
    }

    /// The user to run the service as, or the empty value where it is not set.
    pub fn get_svc_user(&self) -> (r: &str)
        ensures
            r@ == match self@.svc_user {
                Some(s) => s,
                None => Seq::<char>::empty(),
            },
    {
        proof {
            reveal_strlit("");
        }
        match &self.svc_user {
            Some(v) => v.as_str(),
            None => "",
        }
    }

    /// Unsets the group to run the service as.
    pub fn clear_svc_group(&mut self)
        ensures
            final(self)@ == (SpawnView { svc_group: None, ..old(self)@ }),
    {
        self.svc_group = None;
    }

    /// Whether the group to run the service as is set.
    pub fn has_svc_group(&self) -> (r: bool)
        ensures
            r == (self@.svc_group is Some),
    {
        self.svc_group.is_some()
    }

    /// Sets the group to run the service as.
    pub fn set_svc_group(&mut self, v: String)
        ensures
            final(self)@ == (SpawnView { svc_group: Some(v@), ..old(self)@ }),
    {
        self.svc_group = Some(v);
    }

    /// Gives the group to run the service as to be changed in place. Where it was not set, it is set to
    /// the empty value first.
    pub fn mut_svc_group(&mut self) -> (r: &mut String)
        ensures
            r@ == match old(self)@.svc_group {
                Some(s) => s,
                None => Seq::<char>::empty(),
            },
            final(self)@ == (SpawnView { svc_group: Some(final(r)@), ..old(self)@ }),
    {
        self.svc_group.get_or_insert(String::new())
    }

    /// Takes the group to run the service as out of the message and leaves it unset. Where it was not
    /// set, the empty value comes out.
    pub fn take_svc_group(&mut self) -> (r: String)
        ensures
            r@ == match old(self)@.svc_group {
                Some(s) => s,
                None => Seq::<char>::empty(),
            },
            final(self)@ == (SpawnView { svc_group: None, ..old(self)@ }),
    {
        match self.svc_group.take() {
            Some(s) => s,
            None => String::new(),
        }
    }

    /// The group to run the service as, or the empty value where it is not set.
    pub fn get_svc_group(&self) -> (r: &str)
        ensures
            r@ == match self@.svc_group {
                Some(s) => s,
                None => Seq::<char>::empty(),
            },
    {
        proof {
            reveal_strlit("");
        }
        match &self.svc_group {
            Some(v) => v.as_str(),
            None => "",
        }
    }

    /// Unsets the password of the service user.
    pub fn clear_svc_password(&mut self)
        ensures
            final(self)@ == (SpawnView { svc_password: None, ..old(self)@ }),
    {
        self.svc_password = None;
    }

    /// Whether the password of the service user is set.
    pub fn has_svc_password(&self) -> (r: bool)
        ensures
            r == (self@.svc_password is Some),
    {
        self.svc_password.is_some()
    }

    /// Sets the password of the service user.
    pub fn set_svc_password(&mut self, v: String)
        ensures
            final(self)@ == (SpawnView { svc_password: Some(v@), ..old(self)@ }),
    {
        self.svc_password = Some(v);
    }

    /// Gives the password of the service user to be changed in place. Where it was not set, it is set to
    /// the empty value first.
    pub fn mut_svc_password(&mut self) -> (r: &mut String)
        ensures
            r@ == match old(self)@.svc_password {
                Some(s) => s,
                None => Seq::<char>::empty(),
            },
            final(self)@ == (SpawnView { svc_password: Some(final(r)@), ..old(self)@ }),
    {
        self.svc_password.get_or_insert(String::new())
    }

    /// Takes the password of the service user out of the message and leaves it unset. Where it was not
    /// set, the empty value comes out.
    pub fn take_svc_password(&mut self) -> (r: String)
        ensures
            r@ == match old(self)@.svc_password {
                Some(s) => s,
                None => Seq::<char>::empty(),
            },
            final(self)@ == (SpawnView { svc_password: None, ..old(self)@ }),
    {
        match self.svc_password.take() {
            Some(s) => s,
            None => String::new(),
        }
    }

    /// The password of the service user, or the empty value where it is not set.
    pub fn get_svc_password(&self) -> (r: &str)
        ensures
            r@ == match self@.svc_password {
                Some(s) => s,
                None => Seq::<char>::empty(),
            },
    {
        proof {
            reveal_strlit("");
        }
        match &self.svc_password {
            Some(v) => v.as_str(),
            None => "",
        }
    }

    /// Removes every entry of the environment of the process.
    pub fn clear_env(&mut self)
        ensures
            final(self)@ == (SpawnView { env: Seq::<(Seq<char>, Seq<char>)>::empty(), ..old(self)@ }),
    {
        self.env.clear();
        assert(entries_view(self.env@) =~= Seq::<(Seq<char>, Seq<char>)>::empty());
    }

    /// Sets the environment of the process.
    pub fn set_env(&mut self, v: Vec<(String, String)>)
        ensures
            final(self)@ == (SpawnView { env: entries_view(v@), ..old(self)@ }),
    {
        self.env = v;
    }

    /// Gives the environment of the process to be changed in place.
    pub fn mut_env(&mut self) -> (r: &mut Vec<(String, String)>)
        ensures
            entries_view(r@) == old(self)@.env,
            final(self)@ == (SpawnView { env: entries_view(final(r)@), ..old(self)@ }),
    {
        &mut self.env
    }

    /// Takes the environment of the process out of the message and leaves it empty.
    pub fn take_env(&mut self) -> (r: Vec<(String, String)>)
        ensures
            entries_view(r@) == old(self)@.env,
            final(self)@ == (SpawnView { env: Seq::<(Seq<char>, Seq<char>)>::empty(), ..old(self)@ }),
    {
        let mut out: Vec<(String, String)> = Vec::new();
        std::mem::swap(&mut self.env, &mut out);
        assert(entries_view(self.env@) =~= Seq::<(Seq<char>, Seq<char>)>::empty());
        out
    }

    /// The environment of the process.
    pub fn get_env(&self) -> (r: &Vec<(String, String)>)
        ensures
            entries_view(r@) == self@.env,
    {
        &self.env
    }
}

/// The launcher has spawned or restarted a process.
#[derive(Debug, PartialEq, Eq)]
pub struct SpawnOk {
    pid: Option<u32>,
}

/// The mathematical value of a `SpawnOk`: each field, where it is set.
pub struct SpawnOkView {
    pub pid: Option<u32>,
}

impl View for SpawnOk {
    type V = SpawnOkView;

    closed spec fn view(&self) -> SpawnOkView {
        SpawnOkView {
            pid: self.pid,
        }
    }
}

impl SpawnOkView {
    /// The message without any field set.
    pub open spec fn empty() -> SpawnOkView {
        SpawnOkView {
            pid: None,
        }
    }
}

impl Clone for SpawnOk {
    fn clone(&self) -> (r: Self)
        ensures
            r@ == self@,
    {
        SpawnOk {
            pid: self.pid,
        }
    }
}

impl SpawnOk {
    /// A message without any field set.
    pub fn new() -> (r: SpawnOk)
        ensures
            r@ == SpawnOkView::empty(),
    {
        SpawnOk { pid: None }
    }

    /// Unsets every field.
    pub fn clear(&mut self)
        ensures
            final(self)@ == SpawnOkView::empty(),
    {
        *self = SpawnOk::new();
    }

    /// Unsets the PID of the new process.
    pub fn clear_pid(&mut self)
        ensures
            final(self)@ == (SpawnOkView { pid: None, ..old(self)@ }),
    {
        self.pid = None;
    }

    /// Whether the PID of the new process is set.
    pub fn has_pid(&self) -> (r: bool)
        ensures
            r == (self@.pid is Some),
    {
        self.pid.is_some()
    }

    /// Sets the PID of the new process.
    pub fn set_pid(&mut self, v: u32)
        ensures
            final(self)@ == (SpawnOkView { pid: Some(v), ..old(self)@ }),
    {
        self.pid = Some(v);
    }

    /// The PID of the new process, or the value that stands for none.
    pub open spec fn get_pid_spec(&self) -> u32 {
        match self@.pid {
            Some(v) => v,
            None => 0,
        }
    }

    /// The PID of the new process, or zero where it is not set.
    pub fn get_pid(&self) -> (r: u32)
        ensures
            r == self.get_pid_spec(),
    {
        match self.pid {
            Some(v) => v,
            None => 0,
        }
    }
}

/// Asks the launcher to terminate a process.
#[derive(Debug, PartialEq, Eq)]
pub struct Terminate {
    pid: Option<u32>,
}

/// The mathematical value of a `Terminate`: each field, where it is set.
pub struct TerminateView {
    pub pid: Option<u32>,
}

impl View for Terminate {
    type V = TerminateView;

    closed spec fn view(&self) -> TerminateView {
        TerminateView {
            pid: self.pid,
        }
    }
}

impl TerminateView {
    /// The message without any field set.
    pub open spec fn empty() -> TerminateView {
        TerminateView {
            pid: None,
        }
    }
}

impl Clone for Terminate {
    fn clone(&self) -> (r: Self)
        ensures
            r@ == self@,
    {
        Terminate {
            pid: self.pid,
        }
    }
}

impl Terminate {
    /// A message without any field set.
    pub fn new() -> (r: Terminate)
        ensures
            r@ == TerminateView::empty(),
    {
        Terminate { pid: None }
    }

    /// Unsets every field.
    pub fn clear(&mut self)
        ensures
            final(self)@ == TerminateView::empty(),
    {
        *self = Terminate::new();
    }

    /// Unsets the PID of the process.
    pub fn clear_pid(&mut self)
        ensures
            final(self)@ == (TerminateView { pid: None, ..old(self)@ }),
    {
        self.pid = None;
    }

    /// Whether the PID of the process is set.
    pub fn has_pid(&self) -> (r: bool)
        ensures
            r == (self@.pid is Some),
    {
        self.pid.is_some()
    }

    /// Sets the PID of the process.
    pub fn set_pid(&mut self, v: u32)
        ensures
            final(self)@ == (TerminateView { pid: Some(v), ..old(self)@ }),
    {
        self.pid = Some(v);
    }

    /// The PID of the process, or the value that stands for none.
    pub open spec fn get_pid_spec(&self) -> u32 {
        match self@.pid {
            Some(v) => v,
            None => 0,
        }
    }

    /// The PID of the process, or zero where it is not set.
    pub fn get_pid(&self) -> (r: u32)
        ensures
            r == self.get_pid_spec(),
    {
        match self.pid {
            Some(v) => v,
            None => 0,
        }
    }
}

/// The launcher has terminated a process.
#[derive(Debug, PartialEq, Eq)]
pub struct TerminateOk {
    exit_code: Option<i32>,
    shutdown_method: Option<ShutdownMethod>,
}

/// The mathematical value of a `TerminateOk`: each field, where it is set.
pub struct TerminateOkView {
    pub exit_code: Option<i32>,
    pub shutdown_method: Option<ShutdownMethod>,
}

impl View for TerminateOk {
    type V = TerminateOkView;

    closed spec fn view(&self) -> TerminateOkView {
        TerminateOkView {
            exit_code: self.exit_code,
            shutdown_method: self.shutdown_method,
        }
    }
}

impl TerminateOkView {
    /// The message without any field set.
    pub open spec fn empty() -> TerminateOkView {
        TerminateOkView {
            exit_code: None,
            shutdown_method: None,
        }
    }
}

impl Clone for TerminateOk {
    fn clone(&self) -> (r: Self)
        ensures
            r@ == self@,
    {
        TerminateOk {
            exit_code: self.exit_code,
            shutdown_method: self.shutdown_method,
        }
    }
}

impl TerminateOk {
    /// A message without any field set.
    pub fn new() -> (r: TerminateOk)
        ensures
            r@ == TerminateOkView::empty(),
    {
        TerminateOk { exit_code: None, shutdown_method: None }
    }

    /// Unsets every field.
    pub fn clear(&mut self)
        ensures
            final(self)@ == TerminateOkView::empty(),
    {
        *self = TerminateOk::new();
    }

    /// Unsets the exit code of the process.
    pub fn clear_exit_code(&mut self)
        ensures
            final(self)@ == (TerminateOkView { exit_code: None, ..old(self)@ }),
    {
        self.exit_code = None;
    }

    /// Whether the exit code of the process is set.
    pub fn has_exit_code(&self) -> (r: bool)
        ensures
            r == (self@.exit_code is Some),
    {
        self.exit_code.is_some()
    }

    /// Sets the exit code of the process.
    pub fn set_exit_code(&mut self, v: i32)
        ensures
            final(self)@ == (TerminateOkView { exit_code: Some(v), ..old(self)@ }),
    {
        self.exit_code = Some(v);
    }

    /// The exit code of the process, or the value that stands for none.
    pub open spec fn get_exit_code_spec(&self) -> i32 {
        match self@.exit_code {
            Some(v) => v,
            None => 0,
        }
    }

    /// The exit code of the process, or zero where it is not set.
    pub fn get_exit_code(&self) -> (r: i32)
        ensures
            r == self.get_exit_code_spec(),
    {
        match self.exit_code {
            Some(v) => v,
            None => 0,
        }
    }

    /// Unsets how the process came to its end.
    pub fn clear_shutdown_method(&mut self)
        ensures
            final(self)@ == (TerminateOkView { shutdown_method: None, ..old(self)@ }),
    {
        self.shutdown_method = None;
    }

    /// Whether how the process came to its end is set.
    pub fn has_shutdown_method(&self) -> (r: bool)
        ensures
            r == (self@.shutdown_method is Some),
    {
        self.shutdown_method.is_some()
    }

    /// Sets how the process came to its end.
    pub fn set_shutdown_method(&mut self, v: ShutdownMethod)
        ensures
            final(self)@ == (TerminateOkView { shutdown_method: Some(v), ..old(self)@ }),
    {
        self.shutdown_method = Some(v);
    }

    /// How the process came to its end, or the value that stands for none.
    pub open spec fn get_shutdown_method_spec(&self) -> ShutdownMethod {
        match self@.shutdown_method {
            Some(v) => v,
            None => ShutdownMethod::AlreadyExited,
        }
    }

    /// How the process came to its end, or `AlreadyExited` where it is not set.
    pub fn get_shutdown_method(&self) -> (r: ShutdownMethod)
        ensures
            r == self.get_shutdown_method_spec(),
    {
        match self.shutdown_method {
            Some(v) => v,
            None => ShutdownMethod::AlreadyExited,
        }
    }
}

} // verus!
