//! Error types surfaced by the library.

use vstd::prelude::*;
use vstd::string::StringExecFns;

verus! {

/// Error that may occur while a sink handles one event.
///
/// Per-event sink errors never propagate to the caller of a dispatch tree;
/// they are redirected to the diagnostic fallback path instead.  The plain
/// [`crate::api::Logger`] layer passes them upward to its outermost caller.
#[derive(Debug)]
pub enum LogError {
    /// A write to a byte sink failed; holds the reported error text.
    Io(String),
    /// A channel send failed because the receiving end is gone.
    Send(String),
    /// A lock guarding a sink was poisoned by a panic in another thread.
    Poison(String),
}

impl LogError {
    /// Human-readable description of the error.
    pub fn text(&self) -> (r: String)
        ensures
            r@ == self.text_spec(),
    {
        match self {
            LogError::Io(e) => concat_strs("IO Error: ", e.as_str()),
            LogError::Send(e) => concat_strs("Send Error: ", e.as_str()),
            LogError::Poison(e) => concat_strs("Poison Error: ", e.as_str()),
        }
    }

    /// The text `LogError::text` renders for each variant.
    pub open spec fn text_spec(&self) -> Seq<char> {
        match self {
            LogError::Io(e) => "IO Error: "@ + e@,
            LogError::Send(e) => "Send Error: "@ + e@,
            LogError::Poison(e) => "Poison Error: "@ + e@,
        }
    }
}

/// Error that may occur while building or installing a logging configuration.
#[derive(Debug)]
pub enum InitError {
    /// Opening a configured destination failed; holds the reported error text.
    Io(String),
    /// A process-wide logger had already been installed.
    SetLoggerError(String),
}

impl InitError {
    /// Human-readable description of the error.
    pub fn text(&self) -> (r: String)
        ensures
            r@ == self.text_spec(),
    {
        match self {
            InitError::Io(e) => concat_strs("IO Error: ", e.as_str()),
            InitError::SetLoggerError(e) => concat_strs(
                "global logger already initialized: ",
                e.as_str(),
            ),
        }
    }

    /// The text `InitError::text` renders for each variant.
    pub open spec fn text_spec(&self) -> Seq<char> {
        match self {
            InitError::Io(e) => "IO Error: "@ + e@,
            InitError::SetLoggerError(e) => "global logger already initialized: "@ + e@,
        }
    }
}

/// `a` followed by `b` as a fresh `String`.
pub fn concat_strs(a: &str, b: &str) -> (r: String)
    ensures
        r@ == a@ + b@,
{
    let mut s = a.to_owned();
    s.append(b);
    s
}

/// The character for one decimal digit.
pub open spec fn digit_char(d: nat) -> char {
    ((d + 48) as u8) as char
}

/// Decimal digits of `n`, most significant first.
pub open spec fn dec_str(n: nat) -> Seq<char>
    decreases n,
{
    if n < 10 {
        seq![digit_char(n)]
    } else {
        dec_str(n / 10).push(digit_char(n % 10))
    }
}

/// The label of one decimal digit.
fn digit_label(d: u32) -> (r: &'static str)
    requires
        d < 10,
    ensures
        r@ == seq![digit_char(d as nat)],
{
    proof {
        reveal_strlit("0");
        reveal_strlit("1");
        reveal_strlit("2");
        reveal_strlit("3");
        reveal_strlit("4");
        reveal_strlit("5");
        reveal_strlit("6");
        reveal_strlit("7");
        reveal_strlit("8");
        reveal_strlit("9");
    }
    match d {
        0 => "0",
        1 => "1",
        2 => "2",
        3 => "3",
        4 => "4",
        5 => "5",
        6 => "6",
        7 => "7",
        8 => "8",
        _ => "9",
    }
}

/// Render `n` in decimal.
pub fn u32_dec(n: u32) -> (r: String)
    ensures
        r@ == dec_str(n as nat),
    decreases n,
{
    if n < 10 {
        digit_label(n).to_owned()
    } else {
        let mut s = u32_dec(n / 10);
        s.append(digit_label(n % 10));
        s
    }
}

} // verus!
