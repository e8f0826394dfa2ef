//! The reporting channel: four categorized one-line report formats, each a
//! pure formatting step with a fixed prefix tag. The caller performs the
//! actual output; these functions only build the line.

use vstd::prelude::*;
use vstd::string::StringExecFns;

verus! {

/// Formats a success report line.
pub fn success_line(message: &str) -> (line: String)
    ensures
        line@ == "[SUCCESS] "@ + message@,
{
    String::from_str("[SUCCESS] ").concat(message)
}

/// Formats an error report line.
pub fn error_line(message: &str) -> (line: String)
    ensures
        line@ == "[ERROR] "@ + message@,
{
    String::from_str("[ERROR] ").concat(message)
}

/// Formats an informational report line.
pub fn info_line(message: &str) -> (line: String)
    ensures
        line@ == "[INFO] "@ + message@,
{
    String::from_str("[INFO] ").concat(message)
}

/// Formats a warning report line.
pub fn warning_line(message: &str) -> (line: String)
    ensures
        line@ == "[WARNING] "@ + message@,
{
    String::from_str("[WARNING] ").concat(message)
}

} // verus!
