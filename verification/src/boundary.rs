//! What the runtime layer sees of the system boundary: its errors, the
//! events epoll returns, and the sinks the runtime writes to.
use vstd::prelude::*;
use vstd::string::*;
use crate::text::append_string;

verus! {

/// A failure at the system boundary, by where it happened.
#[derive(Debug, Clone, PartialEq, Eq)]
pub enum BoundaryError {
    Clock(String),
    Kmes(String),
    Timer(String),
    Io(String),
}

// What `{:?}` shows of a string: the text in double quotes, with the
// characters that string `Debug` escapes escaped.
pub uninterp spec fn debug_quoted(s: Seq<char>) -> Seq<char>;

/// `format!("{:?}", s)`: std's `Debug` for `str`. Trusted to give text that
/// depends on `s` alone; what the text is, is not stated here.
#[verifier::external_body]
fn quoted(s: &str) -> (r: String)
    ensures
        r@ == debug_quoted(s@),
{
    format!("{:?}", s)
}

impl BoundaryError {
    /// The variant's name, as `Debug` writes it.
    pub open spec fn spec_variant_name(self) -> Seq<char> {
        match self {
            BoundaryError::Clock(_) => "Clock"@,
            BoundaryError::Kmes(_) => "Kmes"@,
            BoundaryError::Timer(_) => "Timer"@,
            BoundaryError::Io(_) => "Io"@,
        }
    }

    pub open spec fn spec_message(self) -> Seq<char> {
        match self {
            BoundaryError::Clock(m) => m@,
            BoundaryError::Kmes(m) => m@,
            BoundaryError::Timer(m) => m@,
            BoundaryError::Io(m) => m@,
        }
    }

    /// What `{:?}` shows of the error: the variant, then the message as
    /// `Debug` quotes it, in brackets.
    pub open spec fn spec_debug(self) -> Seq<char> {
        self.spec_variant_name() + "("@ + debug_quoted(self.spec_message()) + ")"@
    }

    /// The error's `Debug` text around a message already quoted.
    pub fn debug_text_with(&self, quoted_message: &String) -> (s: String)
        ensures
            s@ == self.spec_variant_name() + "("@ + quoted_message@ + ")"@,
    {
        let name = match self {
            BoundaryError::Clock(_) => "Clock(",
            BoundaryError::Kmes(_) => "Kmes(",
            BoundaryError::Timer(_) => "Timer(",
            BoundaryError::Io(_) => "Io(",
        };
        let mut s = String::from_str(name);
        append_string(&mut s, quoted_message);
        s.append(")");
        proof {
            reveal_strlit("Clock(");
            reveal_strlit("Kmes(");
            reveal_strlit("Timer(");
            reveal_strlit("Io(");
            reveal_strlit("Clock");
            reveal_strlit("Kmes");
            reveal_strlit("Timer");
            reveal_strlit("Io");
            reveal_strlit("(");
            reveal_strlit(")");
        }
        s
    }

    /// What `{:?}` shows of the error.
    pub fn debug_text(&self) -> (s: String)
        ensures
            s@ == self.spec_debug(),
    {
        let m = match self {
            BoundaryError::Clock(m) => m,
            BoundaryError::Kmes(m) => m,
            BoundaryError::Timer(m) => m,
            BoundaryError::Io(m) => m,
        };
        let q = quoted(m.as_str());
        self.debug_text_with(&q)
    }
}

/// One event epoll returned: the token it was registered under.
#[derive(Debug, Clone, Copy, PartialEq, Eq)]
pub struct LinuxEpollEvent {
    pub token: u64,
    pub readable: bool,
}

impl LinuxEpollEvent {
    /// A readable event for `token`.
    pub fn read(token: u64) -> (e: Self)
        ensures
            e.token == token,
            e.readable,
    {
        LinuxEpollEvent { token, readable: true }
    }
}

/// The monotonic clock the loop's deadlines are kept on.
pub trait Clock {
    fn monotonic_ns(&mut self) -> Result<u64, BoundaryError>;
}

/// The wall clock calendar timers and response times are kept on.
pub trait RealtimeClock {
    fn realtime_ns(&mut self) -> Result<u64, BoundaryError>;
}

/// Both clocks in one object, as the runtime is handed them.
pub trait RuntimeClock: Clock + RealtimeClock {
}

impl<T: Clock + RealtimeClock> RuntimeClock for T {
}

} // verus!
