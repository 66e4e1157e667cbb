//! Request identifiers and the error half of a response.
use vstd::prelude::*;

use crate::text::push_char;

verus! {

broadcast use vstd::string::group_string_axioms;

/// `serde_json::Value`: an arbitrary JSON value, carried through untouched.
#[verifier::external_type_specification]
#[verifier::external_body]
pub struct ExJsonValue(serde_json::Value);

/// Request identifier. `None` on a request makes it a notification.
#[derive(Debug, Clone, PartialEq, Eq)]
pub enum Id {
    Number(u64),
    Text(String),
}

/// A JSON-RPC error object.
#[derive(Debug, Clone, PartialEq)]
pub struct Error {
    pub code: i32,
    /// Displayable in the app. Specific enough to diagnose from a support ticket.
    pub message: String,
    pub data: Option<serde_json::Value>,
}

/// The character of a decimal digit.
pub open spec fn digit_char(d: nat) -> char {
    if d == 0 {
        '0'
    } else if d == 1 {
        '1'
    } else if d == 2 {
        '2'
    } else if d == 3 {
        '3'
    } else if d == 4 {
        '4'
    } else if d == 5 {
        '5'
    } else if d == 6 {
        '6'
    } else if d == 7 {
        '7'
    } else if d == 8 {
        '8'
    } else {
        '9'
    }
}

/// The decimal digits of `n`, most significant first, with no leading zero.
pub open spec fn digits(n: nat) -> Seq<char>
    decreases n,
{
    if n < 10 {
        seq![digit_char(n)]
    } else {
        digits(n / 10).push(digit_char(n % 10))
    }
}

/// `n` written in decimal, as `{}` writes an integer: a minus sign, then the digits.
pub open spec fn decimal(n: int) -> Seq<char> {
    if n < 0 {
        seq!['-'] + digits((-n) as nat)
    } else {
        digits(n as nat)
    }
}

/// The one-line rendering of an error: its code in brackets, then its message.
pub open spec fn error_line(e: Error) -> Seq<char> {
    seq!['['] + decimal(e.code as int) + seq![']', ' '] + e.message@
}

fn digit(d: u64) -> (r: char)
    requires
        d < 10,
    ensures
        r == digit_char(d as nat),
{
    if d == 0 {
        '0'
    } else if d == 1 {
        '1'
    } else if d == 2 {
        '2'
    } else if d == 3 {
        '3'
    } else if d == 4 {
        '4'
    } else if d == 5 {
        '5'
    } else if d == 6 {
        '6'
    } else if d == 7 {
        '7'
    } else if d == 8 {
        '8'
    } else {
        '9'
    }
}

/// Appends the decimal digits of `n`.
fn push_digits(out: &mut String, n: u64)
    ensures
        final(out)@ == old(out)@ + digits(n as nat),
    decreases n,
{
    if n >= 10 {
        push_digits(out, n / 10);
    }
    push_char(out, digit(n % 10));
    proof {
        if n < 10 {
            assert(old(out)@ + digits(n as nat) =~= old(out)@.push(digit_char(n as nat)));
        } else {
            assert(old(out)@ + digits(n as nat) =~= (old(out)@ + digits((n / 10) as nat)).push(
                digit_char((n % 10) as nat),
            ));
        }
    }
}

impl Error {
    pub fn new(code: i32, message: String) -> (r: Error)
        ensures
            r.code == code,
            r.message@ == message@,
            r.data is None,
    {
        Error { code, message, data: None }
    }

    /// `[code] message` — what the error displays as.
    pub fn to_string(&self) -> (r: String)
        ensures
            r@ == error_line(*self),
    {
        let mut line = String::new();
        push_char(&mut line, '[');
        let wide: i64 = self.code as i64;
        if wide < 0 {
            push_char(&mut line, '-');
            push_digits(&mut line, (-wide) as u64);
        } else {
            push_digits(&mut line, wide as u64);
        }
        push_char(&mut line, ']');
        push_char(&mut line, ' ');
        line.append(self.message.as_str());
        proof {
            assert(line@ =~= error_line(*self));
        }
        line
    }
}

} // verus!
