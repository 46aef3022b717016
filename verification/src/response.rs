//! Turns an outcome into what a caller is shown: a status and a line of text.

use vstd::prelude::*;
use vstd::string::*;
use crate::outcome::{Outcome, OutcomeView};

verus! {

/// Status of a reply that carries a result.
pub const STATUS_OK: u16 = 200;

/// Status of a reply that reports a failure.
pub const STATUS_FAILED: u16 = 500;

/// The character that stands for one decimal digit.
pub open spec fn digit_char(d: nat) -> char
    recommends
        d < 10,
{
    if d == 0 {
        '0'
    } else if d == 1 {
        '1'
    } else if d == 2 {
        '2'
    } else if d == 3 {
        '3'
    } else if d == 4 {
        '4'
    } else if d == 5 {
        '5'
    } else if d == 6 {
        '6'
    } else if d == 7 {
        '7'
    } else if d == 8 {
        '8'
    } else {
        '9'
    }
}

/// A natural number in decimal, most significant digit first, without
/// leading zeros; zero is the single digit `0`.
pub open spec fn digits(n: nat) -> Seq<char>
    decreases n,
{
    if n < 10 {
        seq![digit_char(n)]
    } else {
        digits(n / 10).push(digit_char(n % 10))
    }
}

/// An integer in decimal: a minus sign before the digits of a negative one.
pub open spec fn decimal(v: int) -> Seq<char> {
    if v < 0 {
        seq!['-'] + digits((-v) as nat)
    } else {
        digits(v as nat)
    }
}

fn digit_text(d: u32) -> (r: &'static str)
    requires
        d < 10,
    ensures
        r@ == seq![digit_char(d as nat)],
{
    proof {
        reveal_strlit("0");
        reveal_strlit("1");
        reveal_strlit("2");
        reveal_strlit("3");
        reveal_strlit("4");
        reveal_strlit("5");
        reveal_strlit("6");
        reveal_strlit("7");
        reveal_strlit("8");
        reveal_strlit("9");
    }
    let r = if d == 0 {
        "0"
    } else if d == 1 {
        "1"
    } else if d == 2 {
        "2"
    } else if d == 3 {
        "3"
    } else if d == 4 {
        "4"
    } else if d == 5 {
        "5"
    } else if d == 6 {
        "6"
    } else if d == 7 {
        "7"
    } else if d == 8 {
        "8"
    } else {
        "9"
    };
    assert(r@ =~= seq![digit_char(d as nat)]);
    r
}

fn push_digits(n: u32, out: &mut String)
    ensures
        final(out)@ == old(out)@ + digits(n as nat),
    decreases n,
{
    if n >= 10 {
        push_digits(n / 10, out);
    }
    out.append(digit_text(n % 10));
    assert(final(out)@ =~= old(out)@ + digits(n as nat));
}

/// Renders an integer as decimal text.
pub fn decimal_text(v: i32) -> (r: String)
    ensures
        r@ == decimal(v as int),
{
    let mut text = String::new();
    if v < 0 {
        proof {
            reveal_strlit("-");
        }
        text.append("-");
        let magnitude: u32 = (-(v as i64)) as u32;
        push_digits(magnitude, &mut text);
    } else {
        push_digits(v as u32, &mut text);
    }
    assert(text@ =~= decimal(v as int));
    text
}

/// A reply as a mathematical value.
pub struct ResponseView {
    pub status: u16,
    pub body: Seq<char>,
}

/// What a caller is shown for one invocation.
#[derive(Debug, PartialEq, Eq)]
pub struct Response {
    pub status: u16,
    pub body: String,
}

impl View for Response {
    type V = ResponseView;

    open spec fn view(&self) -> ResponseView {
        ResponseView { status: self.status, body: self.body@ }
    }
}

/// The reply that an outcome calls for. A value gives the success status
/// and `result: ` before the value in decimal. A fault gives the failure
/// status and `failed to run module: ` before the fault's diagnostic, which
/// begins with the name of its kind.
pub open spec fn reply(outcome: OutcomeView) -> ResponseView {
    match outcome {
        OutcomeView::Value(v) => ResponseView {
            status: STATUS_OK,
            body: "result: "@ + decimal(v as int),
        },
        OutcomeView::Fault(f) => ResponseView {
            status: STATUS_FAILED,
            body: "failed to run module: "@ + f.message(),
        },
    }
}

/// Translates an outcome into the reply for the caller.
pub fn respond(outcome: &Outcome) -> (r: Response)
    ensures
        r@ == reply(outcome@),
{
    match outcome {
        Outcome::Value(v) => {
            let mut body = String::from_str("result: ");
            let number = decimal_text(*v);
            body.append(number.as_str());
            Response { status: STATUS_OK, body }
        },
        Outcome::Fault(f) => {
            let mut body = String::from_str("failed to run module: ");
            let message = f.message();
            body.append(message.as_str());
            Response { status: STATUS_FAILED, body }
        },
    }
}

} // verus!
