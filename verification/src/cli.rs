//! Decisions made around the histogram: error kinds and their messages,
//! and recognition of the help and standard-input command-line arguments.

use vstd::prelude::*;
use vstd::string::StringExecFns;

verus! {

/// Why a single source was skipped (or, for standard input, why the run failed).
#[derive(Clone, Copy, PartialEq, Eq, Structural, Debug)]
pub enum Error {
    FileNotOpenable,
    PathNotFound,
    NotARegularFile,
    UnexpectedIO,
}

/// The warning printed when a source is skipped for the given reason.
pub open spec fn spec_skip_message(e: Error, path: Seq<char>) -> Seq<char> {
    match e {
        Error::PathNotFound => "The specified path '"@ + path + "' does not exist, skipping."@,
        Error::NotARegularFile => "The specified file '"@ + path
            + "' is not a regular file, skipping."@,
        Error::FileNotOpenable => "Could not open file '"@ + path + "' for reading, skipping."@,
        Error::UnexpectedIO => "Got unexpected IO error reading from file '"@ + path
            + "', skipping."@,
    }
}

/// Render the warning for a skipped source: the reason's message text around
/// the offending path.
pub fn skip_message(e: Error, path: &str) -> (r: String)
    ensures
        r@ == spec_skip_message(e, path@),
{
    match e {
        Error::PathNotFound => String::from_str("The specified path '").concat(path).concat(
            "' does not exist, skipping.",
        ),
        Error::NotARegularFile => String::from_str("The specified file '").concat(path).concat(
            "' is not a regular file, skipping.",
        ),
        Error::FileNotOpenable => String::from_str("Could not open file '").concat(path).concat(
            "' for reading, skipping.",
        ),
        Error::UnexpectedIO => String::from_str("Got unexpected IO error reading from file '")
            .concat(path).concat("', skipping."),
    }
}

/// The fatal message when standard input, the only source, fails to read.
pub fn stdin_failure_message() -> (r: String)
    ensures
        r@ == "Got unexpected IO error reading from stdin."@,
{
    String::from_str("Got unexpected IO error reading from stdin.")
}

/// Whether the argument is the conventional alias for standard input.
pub fn is_stdin_alias(arg: &String) -> (r: bool)
    ensures
        r == (arg@ == "-"@),
{
    let dash = String::from_str("-");
    *arg == dash
}

/// The path actually opened for the argument: the standard-input alias is
/// read through the process's standard-input device, any other argument
/// names itself.
pub fn effective_path<'a>(arg: &'a String) -> (r: &'a str)
    ensures
        r@ == if arg@ == "-"@ {
            "/dev/stdin"@
        } else {
            arg@
        },
{
    if is_stdin_alias(arg) {
        "/dev/stdin"
    } else {
        arg.as_str()
    }
}

/// Whether any argument asks for the usage text, which short-circuits all
/// other processing.
pub fn wants_help(args: &Vec<String>) -> (r: bool)
    ensures
        r == exists|i: int|
            0 <= i < args@.len() && (args@[i]@ == "--help"@ || args@[i]@ == "-h"@),
{
    let long = String::from_str("--help");
    let short = String::from_str("-h");
    let n = args.len();
    let mut i: usize = 0;
    while i < n
        invariant
            i <= n,
            n == args@.len(),
            long@ == "--help"@,
            short@ == "-h"@,
            forall|j: int| 0 <= j < i ==> args@[j]@ != "--help"@ && args@[j]@ != "-h"@,
        decreases n - i,
    {
        if args[i] == long || args[i] == short {
            return true;
        }
        i += 1;
    }
    false
}

} // verus!
