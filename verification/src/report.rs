//! The lines the server logs about its own life: one at startup, one when
//! it has stopped.

use vstd::prelude::*;
use vstd::string::StringExecFns;

verus! {

/// The line logged once the routes are registered.
pub fn startup_message() -> (line: &'static str)
    ensures
        line@ == "Foobar !!!"@,
{
    "Foobar !!!"
}

/// What the line logged after the server has stopped says: that it shut down
/// in good order, or the error it met.
pub open spec fn shutdown_line(outcome: Result<(), Seq<char>>) -> Seq<char> {
    match outcome {
        Ok(_) => "Rocket shut down gracefully."@,
        Err(error) => "Rocket had an error: "@ + error,
    }
}

/// The line logged after the server has stopped. `outcome` holds the text of
/// the error, if the server met one.
pub fn shutdown_message(outcome: Result<(), String>) -> (line: String)
    ensures
        line@ == shutdown_line(
            match outcome {
                Ok(_) => Ok(()),
                Err(error) => Err(error@),
            },
        ),
{
    match outcome {
        Ok(_) => String::from_str("Rocket shut down gracefully."),
        Err(error) => String::from_str("Rocket had an error: ").concat(error.as_str()),
    }
}

} // verus!
