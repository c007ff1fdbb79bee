//! The signals that the supervisor and the launcher send and pass on.

use vstd::prelude::*;
use vstd::std_specs::convert::FromSpecImpl;
use crate::text::same_text;

verus! {

/// The number of a signal, as the operating system counts them.
pub type SignalCode = i32;

/// A signal.
#[allow(non_snake_case)]
#[derive(Debug, Clone, Copy, PartialEq, Eq, Structural)]
pub enum Signal {
    INT,
    ILL,
    ABRT,
    FPE,
    KILL,
    SEGV,
    TERM,
    HUP,
    QUIT,
    ALRM,
    USR1,
    USR2,
}

/// What ties a signal to the number that the operating system has for it.
pub trait OsSignal: Sized {
    /// The number of the signal.
    fn os_signal(&self) -> SignalCode;

    /// The signal with the number `code`, if there is one.
    fn from_signal_code(code: SignalCode) -> Option<Self>;
}

impl Signal {
    /// The number of the signal.
    pub open spec fn number(self) -> i32 {
        match self {
            Signal::HUP => 1,
            Signal::INT => 2,
            Signal::QUIT => 3,
            Signal::ILL => 4,
            Signal::ABRT => 6,
            Signal::FPE => 8,
            Signal::KILL => 9,
            Signal::USR1 => 10,
            Signal::SEGV => 11,
            Signal::USR2 => 12,
            Signal::ALRM => 14,
            Signal::TERM => 15,
        }
    }

    /// The signal with the number `code`, if there is one.
    pub open spec fn with_number(code: i32) -> Option<Signal> {
        if code == 1 {
            Some(Signal::HUP)
        } else if code == 2 {
            Some(Signal::INT)
        } else if code == 3 {
            Some(Signal::QUIT)
        } else if code == 4 {
            Some(Signal::ILL)
        } else if code == 6 {
            Some(Signal::ABRT)
        } else if code == 8 {
            Some(Signal::FPE)
        } else if code == 9 {
            Some(Signal::KILL)
        } else if code == 10 {
            Some(Signal::USR1)
        } else if code == 11 {
            Some(Signal::SEGV)
        } else if code == 12 {
            Some(Signal::USR2)
        } else if code == 14 {
            Some(Signal::ALRM)
        } else if code == 15 {
            Some(Signal::TERM)
        } else {
            None
        }
    }

    /// The name of the signal.
    pub open spec fn name(self) -> Seq<char> {
        match self {
            Signal::ABRT => "ABRT"@,
            Signal::ALRM => "ALRM"@,
            Signal::FPE => "FPE"@,
            Signal::HUP => "HUP"@,
            Signal::ILL => "ILL"@,
            Signal::INT => "INT"@,
            Signal::KILL => "KILL"@,
            Signal::QUIT => "QUIT"@,
            Signal::SEGV => "SEGV"@,
            Signal::TERM => "TERM"@,
            Signal::USR1 => "USR1"@,
            Signal::USR2 => "USR2"@,
        }
    }

    /// The signal that a name stands for. A name that stands for none gives
    /// `KILL`.
    pub open spec fn named(s: Seq<char>) -> Signal {
        if s == "ABRT"@ {
            Signal::ABRT
        } else if s == "ALRM"@ {
            Signal::ALRM
        } else if s == "FPE"@ {
            Signal::FPE
        } else if s == "HUP"@ {
            Signal::HUP
        } else if s == "ILL"@ {
            Signal::ILL
        } else if s == "INT"@ {
            Signal::INT
        } else if s == "QUIT"@ {
            Signal::QUIT
        } else if s == "SEGV"@ {
            Signal::SEGV
        } else if s == "TERM"@ {
            Signal::TERM
        } else if s == "USR1"@ {
            Signal::USR1
        } else if s == "USR2"@ {
            Signal::USR2
        } else {
            Signal::KILL
        }
    }

    /// Reads the name of a signal. A name that stands for none gives `KILL`.
    pub fn from_str(s: &str) -> (r: Result<Signal, crate::error::Error>)
        ensures
            r == Ok::<Signal, crate::error::Error>(Signal::named(s@)),
    {
        let sig = if same_text(s, "ABRT") {
            Signal::ABRT
        } else if same_text(s, "ALRM") {
            Signal::ALRM
        } else if same_text(s, "FPE") {
            Signal::FPE
        } else if same_text(s, "HUP") {
            Signal::HUP
        } else if same_text(s, "ILL") {
            Signal::ILL
        } else if same_text(s, "INT") {
            Signal::INT
        } else if same_text(s, "QUIT") {
            Signal::QUIT
        } else if same_text(s, "SEGV") {
            Signal::SEGV
        } else if same_text(s, "TERM") {
            Signal::TERM
        } else if same_text(s, "USR1") {
            Signal::USR1
        } else if same_text(s, "USR2") {
            Signal::USR2
        } else {
            Signal::KILL
        };
        Ok(sig)
    }

    /// The name of the signal.
    pub fn as_str(&self) -> (r: &'static str)
        ensures
            r@ == self.name(),
    {
        match self {
            Signal::ABRT => "ABRT",
            Signal::ALRM => "ALRM",
            Signal::FPE => "FPE",
            Signal::HUP => "HUP",
            Signal::ILL => "ILL",
            Signal::INT => "INT",
            Signal::KILL => "KILL",
            Signal::QUIT => "QUIT",
            Signal::SEGV => "SEGV",
            Signal::TERM => "TERM",
            Signal::USR1 => "USR1",
            Signal::USR2 => "USR2",
        }
    }

    /// The name of the signal, as a string of its own.
    pub fn to_string(&self) -> (r: String)
        ensures
            r@ == self.name(),
    {
        self.as_str().to_owned()
    }
}

impl From<i32> for Signal {
    /// The signal with the number `val`. A number that no signal has gives
    /// `KILL`.
    fn from(val: i32) -> (r: Signal) {
        match Signal::from_signal_code(val) {
            Some(s) => s,
            None => Signal::KILL,
        }
    }
}

impl FromSpecImpl<i32> for Signal {
    open spec fn obeys_from_spec() -> bool {
        true
    }

    open spec fn from_spec(val: i32) -> Signal {
        match Signal::with_number(val) {
            Some(s) => s,
            None => Signal::KILL,
        }
    }
}

impl From<Signal> for i32 {
    /// The number of the signal.
    fn from(value: Signal) -> (r: i32) {
        value.os_signal()
    }
}

impl FromSpecImpl<Signal> for i32 {
    open spec fn obeys_from_spec() -> bool {
        true
    }

    open spec fn from_spec(value: Signal) -> i32 {
        value.number()
    }
}

impl OsSignal for Signal {
    fn os_signal(&self) -> (r: SignalCode)
        ensures
            r == self.number(),
    {
        match self {
            Signal::HUP => 1,
            Signal::INT => 2,
            Signal::QUIT => 3,
            Signal::ILL => 4,
            Signal::ABRT => 6,
            Signal::FPE => 8,
            Signal::KILL => 9,
            Signal::USR1 => 10,
            Signal::SEGV => 11,
            Signal::USR2 => 12,
            Signal::ALRM => 14,
            Signal::TERM => 15,
        }
    }

    fn from_signal_code(code: SignalCode) -> (r: Option<Signal>)
        ensures
            r == Signal::with_number(code),
    {
        if code == 1 {
            Some(Signal::HUP)
        } else if code == 2 {
            Some(Signal::INT)
        } else if code == 3 {
            Some(Signal::QUIT)
        } else if code == 4 {
            Some(Signal::ILL)
        } else if code == 6 {
            Some(Signal::ABRT)
        } else if code == 8 {
            Some(Signal::FPE)
        } else if code == 9 {
            Some(Signal::KILL)
        } else if code == 10 {
            Some(Signal::USR1)
        } else if code == 11 {
            Some(Signal::SEGV)
        } else if code == 12 {
            Some(Signal::USR2)
        } else if code == 14 {
            Some(Signal::ALRM)
        } else if code == 15 {
            Some(Signal::TERM)
        } else {
            None
        }
    }
}

/// The number of a signal stands for that signal and no other.
pub proof fn law_signal_numbers_round_trip(signal: Signal)
    ensures
        Signal::with_number(signal.number()) == Some(signal),
        <Signal as vstd::std_specs::convert::FromSpec<i32>>::from_spec(signal.number()) == signal,
{
}

} // verus!
