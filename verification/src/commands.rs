//! The command surface: what the application is told about each request.
//!
//! Each command takes what its caller learned from the spooler or from the
//! adapter and turns it into the reply: the value on success, or one line of
//! text that names the command and the cause.

use crate::error::DriverError;
use vstd::prelude::*;
use vstd::string::*;

verus! {

/// One installed printer, as reported to the application.
#[derive(Debug, Clone)]
pub struct PrinterInfo {
    pub name: String,
}

/// The reply to a failed listing.
pub open spec fn list_failure(cause: Seq<char>) -> Seq<char> {
    "Failed to list printers: "@ + cause
}

/// The reply to a failed print.
pub open spec fn print_failure(cause: Seq<char>) -> Seq<char> {
    "Failed to print: "@ + cause
}

/// The reply to a failed self-test.
pub open spec fn test_failure(cause: Seq<char>) -> Seq<char> {
    "Failed to test printer: "@ + cause
}

/// Lists the installed printers.
///
/// `reported` is the spooler's answer: the names of the installed printers,
/// or the cause of the query's failure. Every reported name becomes one
/// record, in the order reported: none is dropped, added or repeated.
pub fn list_printers(reported: Result<Vec<String>, String>) -> (listed: Result<
    Vec<PrinterInfo>,
    String,
>)
    ensures
        match reported {
            Ok(names) => listed is Ok && listed->Ok_0.len() == names.len() && forall|i: int|
                0 <= i < names.len() ==> (#[trigger] listed->Ok_0[i]).name@ == names[i]@,
            Err(cause) => listed is Err && listed->Err_0@ == list_failure(cause@),
        },
{
    match reported {
        Ok(names) => {
            let mut infos: Vec<PrinterInfo> = Vec::new();
            let mut i: usize = 0;
            while i < names.len()
                invariant
                    i <= names.len(),
                    infos.len() == i,
                    forall|k: int| 0 <= k < i ==> (#[trigger] infos[k]).name@ == names[k]@,
                decreases names.len() - i,
            {
                infos.push(PrinterInfo { name: names[i].clone() });
                i += 1;
            }
            Ok(infos)
        },
        Err(cause) => Err(String::from_str("Failed to list printers: ").concat(cause.as_str())),
    }
}

/// Replies to a print request, given how preparing and flushing it ended:
/// `true` for a submitted job, else the failure under the command's name.
pub fn print(outcome: Result<(), DriverError>) -> (reply: Result<bool, String>)
    ensures
        match outcome {
            Ok(_) => reply == Ok::<bool, String>(true),
            Err(error) => reply is Err && reply->Err_0@ == print_failure(error.spec_message()),
        },
{
    match outcome {
        Ok(_) => Ok(true),
        Err(error) => Err(
            String::from_str("Failed to print: ").concat(error.message().as_str()),
        ),
    }
}

/// Replies to a self-test request, given how preparing and flushing it
/// ended: `true` for a submitted job, else the failure under the command's
/// name.
pub fn test_printer(outcome: Result<(), DriverError>) -> (reply: Result<bool, String>)
    ensures
        match outcome {
            Ok(_) => reply == Ok::<bool, String>(true),
            Err(error) => reply is Err && reply->Err_0@ == test_failure(error.spec_message()),
        },
{
    match outcome {
        Ok(_) => Ok(true),
        Err(error) => Err(
            String::from_str("Failed to test printer: ").concat(error.message().as_str()),
        ),
    }
}

} // verus!
