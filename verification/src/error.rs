//! Failures of a print call and the text under which each is reported.

use escpos::errors::PrinterError;
use vstd::prelude::*;
use vstd::string::*;

verus! {

/// Why a print call ended without a submitted job.
#[derive(Debug, Clone, PartialEq, Eq)]
pub enum DriverError {
    /// The payload was not valid base64; holds the decoder's description.
    Decode(String),
    /// No printer of this name was registered when the adapter was flushed.
    PrinterNotFound(String),
    /// A lock that guards the adapter could not be acquired; holds the cause.
    /// The adapter itself takes no lock: this is for callers that share one.
    Lock(String),
    /// The spooler rejected the job; holds the cause it gave.
    Submission(String),
}

/// The detail that names a missing printer.
pub open spec fn not_found_detail(name: Seq<char>) -> Seq<char> {
    "Printer not found: "@ + name
}

/// The detail that reports a lock failure.
pub open spec fn lock_detail(cause: Seq<char>) -> Seq<char> {
    "Lock error: "@ + cause
}

/// How the device layer words a fault of its input.
pub open spec fn input_error_text(detail: Seq<char>) -> Seq<char> {
    "Input error: "@ + detail
}

/// How the device layer words a fault of transport.
pub open spec fn io_error_text(detail: Seq<char>) -> Seq<char> {
    "IO error: "@ + detail
}

/// Renders `detail` as an input fault through the `Display` impl of
/// `escpos::errors::PrinterError`, variant `Input`. Trusted: that impl writes
/// the fixed words "Input error: " followed by the detail, unchanged.
#[verifier::external_body]
fn render_input_error(detail: &str) -> (text: String)
    ensures
        text@ == input_error_text(detail@),
{
    PrinterError::Input(detail.to_string()).to_string()
}

/// Renders `detail` as a transport fault through the `Display` impl of
/// `escpos::errors::PrinterError`, variant `Io`. Trusted: that impl writes
/// the fixed words "IO error: " followed by the detail, unchanged.
#[verifier::external_body]
fn render_io_error(detail: &str) -> (text: String)
    ensures
        text@ == io_error_text(detail@),
{
    PrinterError::Io(detail.to_string()).to_string()
}

impl DriverError {
    /// What went wrong, in the failure's own words: the decoder's
    /// description, the missing printer by name, or the cause of a lock or
    /// submission failure.
    pub open spec fn spec_detail(&self) -> Seq<char> {
        match self {
            DriverError::Decode(description) => description@,
            DriverError::PrinterNotFound(name) => not_found_detail(name@),
            DriverError::Lock(cause) => lock_detail(cause@),
            DriverError::Submission(cause) => cause@,
        }
    }

    /// The text under which this failure is reported: a decoding failure by
    /// its detail alone, a missing printer as a fault of the device's input,
    /// a lock or submission failure as a fault of transport.
    pub open spec fn spec_message(&self) -> Seq<char> {
        match self {
            DriverError::Decode(_) => self.spec_detail(),
            DriverError::PrinterNotFound(_) => input_error_text(self.spec_detail()),
            DriverError::Lock(_) => io_error_text(self.spec_detail()),
            DriverError::Submission(_) => io_error_text(self.spec_detail()),
        }
    }

    /// What went wrong, without the words that classify the failure.
    pub fn detail(&self) -> (text: String)
        ensures
            text@ == self.spec_detail(),
    {
        match self {
            DriverError::Decode(description) => description.clone(),
            DriverError::PrinterNotFound(name) => String::from_str("Printer not found: ").concat(
                name.as_str(),
            ),
            DriverError::Lock(cause) => String::from_str("Lock error: ").concat(cause.as_str()),
            DriverError::Submission(cause) => cause.clone(),
        }
    }

    /// The text under which this failure is reported.
    pub fn message(&self) -> (text: String)
        ensures
            text@ == self.spec_message(),
    {
        let detail = self.detail();
        match self {
            DriverError::Decode(_) => detail,
            DriverError::PrinterNotFound(_) => render_input_error(detail.as_str()),
            DriverError::Lock(_) => render_io_error(detail.as_str()),
            DriverError::Submission(_) => render_io_error(detail.as_str()),
        }
    }
}

} // verus!
