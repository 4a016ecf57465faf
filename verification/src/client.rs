use vstd::prelude::*;

use crate::text::{decimal, push_decimal, push_str};

verus! {

/// Why a request to a daemon failed.
pub enum ClientError {
    /// The daemon could not be reached; the reason as text.
    Connect(String),
    /// The daemon answered with an error.
    Daemon { message: String },
    /// The request or the reply could not be written, read or understood.
    Input(String),
}

/// A reply's "status" field says "error".
pub open spec fn is_error_status(status: Option<&str>) -> bool {
    match status {
        Some(s) => s@ == "error"@,
        None => false,
    }
}

/// What a reply's "status" and "message" fields mean: an "error" status is a daemon error
/// carrying the message (or "unknown error" without one); any other reply is a success.
pub fn check_reply(status: Option<&str>, message: Option<&str>) -> (r: Result<(), ClientError>)
    ensures
        if is_error_status(status) {
            &&& r matches Err(ClientError::Daemon { message: m })
            &&& m@ == match message {
                Some(t) => t@,
                None => "unknown error"@,
            }
        } else {
            r is Ok
        },
{
    let is_error = match status {
        Some(s) => crate::text::str_equal(s, "error"),
        None => false,
    };
    if is_error {
        let m = match message {
            Some(t) => String::from_str(t),
            None => String::from_str("unknown error"),
        };
        Err(ClientError::Daemon { message: m })
    } else {
        Ok(())
    }
}

/// The text `propeller loop position` prints: "tick/loop_duration", with "-" for the loop
/// length when no project is loaded.
pub open spec fn position_text(tick: u64, loop_duration: Option<u64>) -> Seq<char> {
    decimal(tick as nat) + "/"@ + match loop_duration {
        Some(d) => decimal(d as nat),
        None => "-"@,
    }
}

/// Formats a position as "tick/loop_duration" ("tick/-" without a project).
pub fn format_position_output(tick: u64, loop_duration: Option<u64>) -> (r: String)
    ensures
        r@ == position_text(tick, loop_duration),
{
    let mut s = String::new();
    push_decimal(&mut s, tick);
    push_str(&mut s, "/");
    match loop_duration {
        Some(d) => push_decimal(&mut s, d),
        None => push_str(&mut s, "-"),
    }
    s
}

} // verus!
