//! Diagnostic notes for the serial console.

use vstd::prelude::*;
use vstd::string::StringExecFns;

verus! {

/// The line that reports `message` on the console: the message behind the
/// prefix `Note: `. Sending it is left to the caller.
pub fn note(message: &str) -> (line: String)
    ensures
        line@ == "Note: "@ + message@,
{
    String::from_str("Note: ").concat(message)
}

} // verus!
