//! The error taxonomy of the review pipeline. Every error is terminal for the
//! invocation that raised it; none is retried.

use vstd::prelude::*;
use vstd::string::StringExecFns;
use crate::text::push_char;

verus! {

/// Why a review invocation failed.
#[derive(Debug, Clone, PartialEq, Eq)]
pub enum ReviewError {
    /// The target directory is not a version-control working tree.
    NotARepository { path: String },
    /// The version-control tool itself could not be invoked.
    ToolInvocationFailed { message: String },
    /// The listing of modified files could not be obtained.
    DiffListFailed { message: String },
    /// The listing output was not valid text.
    EncodingError,
    /// The remote call failed before any response arrived.
    TransportError { message: String },
    /// The remote service answered with a non-success status.
    ServiceError { status: u16, body: String },
    /// The response body did not have the expected shape.
    MalformedResponse,
    /// The response parsed but contained zero completions.
    EmptyResponse,
}

pub open spec fn dec_digit(d: int) -> char {
    if d == 0 { '0' }
    else if d == 1 { '1' }
    else if d == 2 { '2' }
    else if d == 3 { '3' }
    else if d == 4 { '4' }
    else if d == 5 { '5' }
    else if d == 6 { '6' }
    else if d == 7 { '7' }
    else if d == 8 { '8' }
    else { '9' }
}

/// The decimal digits of `n`, most significant first.
pub open spec fn dec_of(n: nat) -> Seq<char>
    decreases n,
{
    if n < 10 {
        seq![dec_digit(n as int)]
    } else {
        dec_of(n / 10) + seq![dec_digit((n % 10) as int)]
    }
}

fn digit_char(d: u16) -> (c: char)
    requires
        d < 10,
    ensures
        c == dec_digit(d as int),
{
    match d {
        0 => '0',
        1 => '1',
        2 => '2',
        3 => '3',
        4 => '4',
        5 => '5',
        6 => '6',
        7 => '7',
        8 => '8',
        _ => '9',
    }
}

/// Renders a status code in decimal.
pub fn u16_dec(n: u16) -> (r: String)
    ensures
        r@ == dec_of(n as nat),
    decreases n,
{
    if n < 10 {
        let mut s = String::new();
        push_char(&mut s, digit_char(n));
        proof {
            assert(s@ =~= dec_of(n as nat));
        }
        s
    } else {
        let mut s = u16_dec(n / 10);
        push_char(&mut s, digit_char(n % 10));
        proof {
            assert(s@ =~= dec_of(n as nat));
        }
        s
    }
}

/// The diagnostic text of each error, with the offending path, status code or
/// underlying message embedded.
pub open spec fn error_text(e: ReviewError) -> Seq<char> {
    match e {
        ReviewError::NotARepository { path } =>
            "The directory '"@ + path@ + "' is not a git repository"@,
        ReviewError::ToolInvocationFailed { message } =>
            "Failed to execute git status. Make sure git is installed and the directory is a git repository: "@
                + message@,
        ReviewError::DiffListFailed { message } => "Failed to get git diff: "@ + message@,
        ReviewError::EncodingError => "git output was not valid UTF-8"@,
        ReviewError::TransportError { message } =>
            "Failed to send request to Kimi API: "@ + message@,
        ReviewError::ServiceError { status, body } =>
            "API request failed with status "@ + dec_of(status as nat) + ": "@ + body@,
        ReviewError::MalformedResponse => "Failed to parse API response"@,
        ReviewError::EmptyResponse => "No response from Kimi API"@,
    }
}

impl ReviewError {
    /// The printable diagnostic for this error.
    pub fn message(&self) -> (r: String)
        ensures
            r@ == error_text(*self),
    {
        match self {
            ReviewError::NotARepository { path } => {
                let mut s = String::from_str("The directory '");
                s.append(path.as_str());
                s.append("' is not a git repository");
                proof {
                    assert(s@ =~= error_text(*self));
                }
                s
            },
            ReviewError::ToolInvocationFailed { message } => {
                let mut s = String::from_str(
                    "Failed to execute git status. Make sure git is installed and the directory is a git repository: ",
                );
                s.append(message.as_str());
                proof {
                    assert(s@ =~= error_text(*self));
                }
                s
            },
            ReviewError::DiffListFailed { message } => {
                let mut s = String::from_str("Failed to get git diff: ");
                s.append(message.as_str());
                proof {
                    assert(s@ =~= error_text(*self));
                }
                s
            },
            ReviewError::EncodingError => String::from_str("git output was not valid UTF-8"),
            ReviewError::TransportError { message } => {
                let mut s = String::from_str("Failed to send request to Kimi API: ");
                s.append(message.as_str());
                proof {
                    assert(s@ =~= error_text(*self));
                }
                s
            },
            ReviewError::ServiceError { status, body } => {
                let mut s = String::from_str("API request failed with status ");
                let digits = u16_dec(*status);
                s.append(digits.as_str());
                s.append(": ");
                s.append(body.as_str());
                proof {
                    assert(s@ =~= error_text(*self));
                }
                s
            },
            ReviewError::MalformedResponse => String::from_str("Failed to parse API response"),
            ReviewError::EmptyResponse => String::from_str("No response from Kimi API"),
        }
    }
}

} // verus!
