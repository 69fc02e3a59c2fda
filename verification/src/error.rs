//! How the attempt to settle an event in one directory can fail, and what
//! the operator is told of it.

use vstd::prelude::*;
use vstd::string::*;

verus! {

/// Why an event was not settled.
#[derive(Debug)]
pub enum CalloutError {
    /// No script took the event on itself. The search goes on elsewhere.
    NoMatchingScript,
    /// The script at this path failed the event: it took the event and
    /// ended with this status, or, where there is no status, it could not
    /// be started.
    InvocationFailure(String, Option<i32>),
    /// The script answered a query with something that is not JSON.
    InvalidJSON(serde_json::Error),
}

/// The model of a failure.
pub enum CalloutErrorView {
    NoMatchingScript,
    InvocationFailure(Seq<char>, Option<i32>),
    InvalidJSON(serde_json::Error),
}

impl View for CalloutError {
    type V = CalloutErrorView;

    open spec fn view(&self) -> CalloutErrorView {
        match self {
            CalloutError::NoMatchingScript => CalloutErrorView::NoMatchingScript,
            CalloutError::InvocationFailure(script, code) => CalloutErrorView::InvocationFailure(
                script@,
                *code,
            ),
            CalloutError::InvalidJSON(e) => CalloutErrorView::InvalidJSON(*e),
        }
    }
}

/// The model of what an attempt came to.
pub open spec fn settled_view(r: Result<(), CalloutError>) -> Result<(), CalloutErrorView> {
    match r {
        Ok(_) => Ok(()),
        Err(e) => Err(e@),
    }
}

/// The decimal digit for a number below ten.
pub open spec fn digit(d: int) -> char {
    if d == 0 {
        '0'
    } else if d == 1 {
        '1'
    } else if d == 2 {
        '2'
    } else if d == 3 {
        '3'
    } else if d == 4 {
        '4'
    } else if d == 5 {
        '5'
    } else if d == 6 {
        '6'
    } else if d == 7 {
        '7'
    } else if d == 8 {
        '8'
    } else {
        '9'
    }
}

/// A natural number in decimal digits, without leading zeros.
pub open spec fn digits(n: nat) -> Seq<char>
    decreases n,
{
    if n < 10 {
        seq![digit(n as int)]
    } else {
        digits(n / 10).push(digit((n % 10) as int))
    }
}

/// An integer in decimal digits, with a minus sign where it is negative.
pub open spec fn decimal(n: int) -> Seq<char> {
    if n < 0 {
        seq!['-'] + digits((-n) as nat)
    } else {
        digits(n as nat)
    }
}

/// What `std::fmt::Debug` prints for a path, read as text: the path in
/// double quotes, with what cannot be printed as it is written as an escape.
pub uninterp spec fn path_debug(path: Seq<char>) -> Seq<char>;

/// What the operator is told of a failure.
pub open spec fn message(e: CalloutErrorView) -> Seq<char> {
    match e {
        CalloutErrorView::NoMatchingScript => "No matching script for device found"@,
        CalloutErrorView::InvocationFailure(script, code) => "Script '"@ + path_debug(script)
            + "' failed with status '"@ + match code {
            Some(n) => decimal(n as int),
            None => "unknown"@,
        } + "'"@,
        CalloutErrorView::InvalidJSON(_) => "Invalid JSON received from callout script"@,
    }
}

/// Formats the path with `{:?}`, as `std::path::Path` implements
/// `std::fmt::Debug`. What is printed depends on the path alone: it is the
/// text named by `path_debug`.
#[verifier::external_body]
fn debug_path(path: &str) -> (quoted: String)
    ensures
        quoted@ == path_debug(path@),
{
    format!("{:?}", std::path::Path::new(path))
}

/// The digit of a number below ten, as a string.
fn digit_str(d: u32) -> (s: &'static str)
    requires
        d < 10,
    ensures
        s@ == seq![digit(d as int)],
{
    proof {
        reveal_strlit("0");
        reveal_strlit("1");
        reveal_strlit("2");
        reveal_strlit("3");
        reveal_strlit("4");
        reveal_strlit("5");
        reveal_strlit("6");
        reveal_strlit("7");
        reveal_strlit("8");
        reveal_strlit("9");
    }
    let s = if d == 0 {
        "0"
    } else if d == 1 {
        "1"
    } else if d == 2 {
        "2"
    } else if d == 3 {
        "3"
    } else if d == 4 {
        "4"
    } else if d == 5 {
        "5"
    } else if d == 6 {
        "6"
    } else if d == 7 {
        "7"
    } else if d == 8 {
        "8"
    } else {
        "9"
    };
    assert(s@ =~= seq![digit(d as int)]);
    s
}

/// A natural number in decimal digits.
fn digits_of(n: u32) -> (s: String)
    ensures
        s@ == digits(n as nat),
    decreases n,
{
    if n < 10 {
        String::from_str(digit_str(n))
    } else {
        let front = digits_of(n / 10);
        let s = front.concat(digit_str(n % 10));
        assert(s@ =~= digits((n / 10) as nat).push(digit((n % 10) as int)));
        s
    }
}

/// An exit status in decimal digits.
pub fn decimal_of(n: i32) -> (s: String)
    ensures
        s@ == decimal(n as int),
{
    if n < 0 {
        let wide: i64 = n as i64;
        let magnitude: u32 = (-wide) as u32;
        let minus = String::from_str("-");
        proof {
            reveal_strlit("-");
        }
        let s = minus.concat(digits_of(magnitude).as_str());
        assert(s@ =~= seq!['-'] + digits((-n) as nat));
        s
    } else {
        digits_of(n as u32)
    }
}

impl CalloutError {
    /// What the operator is told of the failure.
    pub fn to_string(&self) -> (s: String)
        ensures
            s@ == message(self@),
    {
        match self {
            CalloutError::NoMatchingScript => String::from_str(
                "No matching script for device found",
            ),
            CalloutError::InvocationFailure(script, code) => {
                let status = match code {
                    Some(n) => decimal_of(*n),
                    None => String::from_str("unknown"),
                };
                String::from_str("Script '").concat(debug_path(script.as_str()).as_str()).concat(
                    "' failed with status '",
                ).concat(status.as_str()).concat("'")
            },
            CalloutError::InvalidJSON(_) => String::from_str(
                "Invalid JSON received from callout script",
            ),
        }
    }
}

} // verus!
