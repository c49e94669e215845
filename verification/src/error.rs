//! The error that every fallible operation reports.

use vstd::prelude::*;
use vstd::string::*;

verus! {

/// Failure of a call into the operating system: the description of what was
/// attempted, a colon, a space and the platform's last-error code in decimal.
#[derive(Clone, Debug, PartialEq, Eq)]
pub enum Error {
    OsError(String),
}

impl Error {
    /// The text that the error carries.
    pub open spec fn text(self) -> Seq<char> {
        match self {
            Error::OsError(s) => s@,
        }
    }

    /// The error's text as an owned string.
    pub fn message(&self) -> (s: String)
        ensures
            s@ == self.text(),
    {
        match self {
            Error::OsError(s) => s.clone(),
        }
    }
}

/// The character that stands for a single decimal digit.
pub open spec fn digit_char(d: nat) -> char {
    if d == 0 {
        '0'
    } else if d == 1 {
        '1'
    } else if d == 2 {
        '2'
    } else if d == 3 {
        '3'
    } else if d == 4 {
        '4'
    } else if d == 5 {
        '5'
    } else if d == 6 {
        '6'
    } else if d == 7 {
        '7'
    } else if d == 8 {
        '8'
    } else {
        '9'
    }
}

/// The decimal numeral of `n`, most significant digit first, without padding.
pub open spec fn decimal(n: nat) -> Seq<char>
    decreases n,
{
    if n < 10 {
        seq![digit_char(n)]
    } else {
        decimal(n / 10).push(digit_char(n % 10))
    }
}

/// The text of an error for the attempted operation `msg` and the error code `code`.
pub open spec fn os_error_text(msg: Seq<char>, code: u32) -> Seq<char> {
    msg + seq![':', ' '] + decimal(code as nat)
}

fn digit_str(d: u32) -> (s: &'static str)
    requires
        d < 10,
    ensures
        s@ == seq![digit_char(d as nat)],
{
    proof {
        reveal_strlit("0");
        reveal_strlit("1");
        reveal_strlit("2");
        reveal_strlit("3");
        reveal_strlit("4");
        reveal_strlit("5");
        reveal_strlit("6");
        reveal_strlit("7");
        reveal_strlit("8");
        reveal_strlit("9");
    }
    let s = if d == 0 {
        "0"
    } else if d == 1 {
        "1"
    } else if d == 2 {
        "2"
    } else if d == 3 {
        "3"
    } else if d == 4 {
        "4"
    } else if d == 5 {
        "5"
    } else if d == 6 {
        "6"
    } else if d == 7 {
        "7"
    } else if d == 8 {
        "8"
    } else {
        "9"
    };
    s
}

/// Writes `n` in decimal.
pub fn decimal_string(n: u32) -> (s: String)
    ensures
        s@ == decimal(n as nat),
    decreases n,
{
    if n < 10 {
        String::from_str(digit_str(n))
    } else {
        let mut s = decimal_string(n / 10);
        s.append(digit_str(n % 10));
        s
    }
}

/// Builds the error for a failed system call from the description of the
/// attempted operation and the platform's last-error code.
pub fn get_win_os_error(msg: &str, code: u32) -> (e: Error)
    ensures
        e.text() == os_error_text(msg@, code),
{
    proof {
        reveal_strlit(": ");
    }
    let mut s = String::from_str(msg);
    s.append(": ");
    let digits = decimal_string(code);
    s.append(digits.as_str());
    Error::OsError(s)
}

} // verus!
