//! The byte-sink adapter: bytes written to it are buffered in memory and
//! handed over in one piece when it is flushed.
//!
//! The adapter never talks to the spooler itself. Its caller looks the
//! printer up at the moment of flushing, hands what it found to
//! [`WindowsDriver::flush`], submits the job that comes back, and hands the
//! spooler's answer to [`conclude_flush`].

use crate::error::DriverError;
use crate::payload::{decode_payload, standard_base64_decoding};
use vstd::prelude::*;

verus! {

/// The fixed self-test receipt: initialise, centre, double-size "TEST",
/// normal-size "Printer", left-align, three line feeds, partial cut.
pub const TEST_RECEIPT: [u8; 33] = [
    0x1b, 0x40,
    0x1b, 0x61, 0x01,
    0x1b, 0x21, 0x30,
    0x54, 0x45, 0x53, 0x54, 0x0a,
    0x1b, 0x21, 0x00,
    0x50, 0x72, 0x69, 0x6e, 0x74, 0x65, 0x72, 0x0a,
    0x1b, 0x61, 0x00,
    0x0a, 0x0a, 0x0a,
    0x1d, 0x56, 0x01,
];

/// What an adapter is, to its callers: the printer it is bound to and the
/// bytes written since the last flush, oldest first.
pub struct DriverView {
    pub name: Seq<char>,
    pub pending: Seq<u8>,
}

impl DriverView {
    /// A new adapter for `name`: nothing is buffered.
    pub open spec fn fresh(name: Seq<char>) -> DriverView {
        DriverView { name, pending: Seq::empty() }
    }

    /// The adapter after `data` was written: `data` follows what was pending.
    pub open spec fn write(self, data: Seq<u8>) -> DriverView {
        DriverView { name: self.name, pending: self.pending + data }
    }

    /// The one job that a flush submits: everything pending, where the
    /// printer was found; no job at all where it was not.
    pub open spec fn submission(self, printer_found: bool) -> Option<Seq<u8>> {
        if printer_found {
            Some(self.pending)
        } else {
            None
        }
    }

    /// The adapter after a flush: drained where the printer was found,
    /// untouched where it was not.
    pub open spec fn flushed(self, printer_found: bool) -> DriverView {
        if printer_found {
            DriverView { name: self.name, pending: Seq::empty() }
        } else {
            self
        }
    }
}

/// One unit of work for the spooler: `payload`, to be submitted whole and
/// with default options to `printer`, the handle that the lookup gave.
#[derive(Debug, PartialEq, Eq)]
pub struct PrintJob<P> {
    pub printer: P,
    pub payload: Vec<u8>,
}

/// A buffering byte sink bound to one printer name.
pub struct WindowsDriver {
    name: String,
    buffer: Vec<u8>,
}

impl View for WindowsDriver {
    type V = DriverView;

    closed spec fn view(&self) -> DriverView {
        DriverView { name: self.name@, pending: self.buffer@ }
    }
}

impl WindowsDriver {
    /// Creates an adapter for the printer called `name`, with nothing buffered.
    pub fn new(name: String) -> (driver: Self)
        ensures
            driver@ == DriverView::fresh(name@),
    {
        WindowsDriver { name, buffer: Vec::new() }
    }

    /// The name of the printer this adapter is bound to.
    pub fn name(&self) -> (name: String)
        ensures
            name@ == self@.name,
    {
        self.name.clone()
    }

    /// Appends `data` to the buffer. Never fails, and never reaches the printer.
    pub fn write(&mut self, data: &[u8]) -> (written: Result<(), DriverError>)
        ensures
            written is Ok,
            final(self)@ == old(self)@.write(data@),
    {
        self.buffer.extend_from_slice(data);
        proof {
            assert(self.buffer@ =~= old(self).buffer@ + data@);
        }
        Ok(())
    }

    /// Reads nothing: the adapter is write-only, so zero bytes are reported
    /// and neither `buf` nor the adapter changes.
    pub fn read(&self, buf: &mut [u8]) -> (read: Result<usize, DriverError>)
        ensures
            read == Ok::<usize, DriverError>(0),
            final(buf)@ == old(buf)@,
    {
        Ok(0)
    }

    /// Decides what a flush submits, given the outcome of looking the
    /// printer up by name just now: its handle, or `None` where no such
    /// printer is registered.
    ///
    /// Found: the whole buffer is drained into one job for that printer; the
    /// buffer is empty afterwards, whatever becomes of the job. Not found:
    /// the flush fails, naming the printer, and the buffer stays as it was.
    pub fn flush<P>(&mut self, printer: Option<P>) -> (job: Result<PrintJob<P>, DriverError>)
        ensures
            final(self)@ == old(self)@.flushed(printer is Some),
            match old(self)@.submission(printer is Some) {
                Some(payload) => job is Ok && job->Ok_0.payload@ == payload && printer == Some(
                    job->Ok_0.printer,
                ),
                None => job matches Err(DriverError::PrinterNotFound(missing)) && missing@ == old(
                    self,
                )@.name,
            },
    {
        match printer {
            Some(printer) => {
                let mut payload: Vec<u8> = Vec::new();
                payload.append(&mut self.buffer);
                proof {
                    assert(payload@ =~= old(self).buffer@);
                }
                Ok(PrintJob { printer, payload })
            },
            None => Err(DriverError::PrinterNotFound(self.name.clone())),
        }
    }
}

/// Turns the spooler's answer to a submitted job into the flush's result:
/// a rejected job is a [`DriverError::Submission`] holding the cause.
pub fn conclude_flush(answer: Result<(), String>) -> (flushed: Result<(), DriverError>)
    ensures
        match answer {
            Ok(_) => flushed is Ok,
            Err(cause) => flushed == Err::<(), DriverError>(DriverError::Submission(cause)),
        },
{
    match answer {
        Ok(_) => Ok(()),
        Err(cause) => Err(DriverError::Submission(cause)),
    }
}

/// A fresh adapter for `printer_name` holding exactly `payload`, ready to be
/// flushed.
pub fn load(printer_name: &str, payload: &[u8]) -> (loaded: Result<WindowsDriver, DriverError>)
    ensures
        loaded is Ok,
        loaded->Ok_0@ == DriverView::fresh(printer_name@).write(payload@),
{
    let mut driver = WindowsDriver::new(printer_name.to_owned());
    match driver.write(payload) {
        Ok(_) => Ok(driver),
        Err(error) => Err(error),
    }
}

/// The adapter that a print request for `printer_name` leaves to be flushed:
/// loaded with the decoding of `text`, where `text` is valid base64.
pub open spec fn print_request(printer_name: Seq<char>, text: Seq<char>) -> Option<DriverView> {
    match standard_base64_decoding(text) {
        Ok(bytes) => Some(DriverView::fresh(printer_name).write(bytes)),
        Err(_) => None,
    }
}

/// Prepares a print of base64-encoded data on the named printer.
///
/// Valid base64 gives an adapter loaded with the decoded bytes, to be flushed
/// by the caller. Anything else fails with [`DriverError::Decode`] before an
/// adapter exists, so before anything could reach the spooler.
pub fn print_base64(printer_name: &str, base64_data: &str) -> (prepared: Result<
    WindowsDriver,
    DriverError,
>)
    ensures
        match print_request(printer_name@, base64_data@) {
            Some(request) => prepared is Ok && prepared->Ok_0@ == request,
            None => prepared matches Err(DriverError::Decode(reported))
                && standard_base64_decoding(base64_data@) == Err::<Seq<u8>, Seq<char>>(reported@),
        },
{
    match decode_payload(base64_data) {
        Ok(bytes) => load(printer_name, bytes.as_slice()),
        Err(error) => Err(error),
    }
}

/// The adapter that a self-test of `printer_name` leaves to be flushed.
pub open spec fn test_request(printer_name: Seq<char>) -> DriverView {
    DriverView::fresh(printer_name).write(TEST_RECEIPT@)
}

/// Prepares the self-test print on the named printer: an adapter loaded with
/// [`TEST_RECEIPT`], to be flushed by the caller.
pub fn test_print(printer_name: &str) -> (prepared: Result<WindowsDriver, DriverError>)
    ensures
        prepared is Ok,
        prepared->Ok_0@ == test_request(printer_name@),
{
    load(printer_name, TEST_RECEIPT.as_slice())
}

/// The printer's name is fixed at construction: neither a write nor a flush,
/// found or not, changes it.
pub proof fn lemma_name_never_changes(driver: DriverView, data: Seq<u8>, printer_found: bool)
    ensures
        driver.write(data).name == driver.name,
        driver.flushed(printer_found).name == driver.name,
{
}

/// Bytes written one after the other are submitted as one job, in the order
/// written, behind what was already pending: nothing is reordered, cut or
/// padded.
pub proof fn lemma_writes_are_submitted_in_order(
    driver: DriverView,
    first: Seq<u8>,
    second: Seq<u8>,
)
    ensures
        driver.write(first).submission(true) == Some(driver.pending + first),
        driver.write(first).write(second).submission(true) == Some(
            driver.pending + first + second,
        ),
{
    assert(driver.pending + first + second =~= driver.pending + (first + second));
}

/// A print of valid base64 submits exactly the decoded bytes: the job of the
/// prepared adapter, once its printer is found, is the decoding itself.
pub proof fn lemma_print_submits_decoded_bytes(printer_name: Seq<char>, text: Seq<char>)
    requires
        standard_base64_decoding(text) is Ok,
    ensures
        print_request(printer_name, text) is Some,
        print_request(printer_name, text)->Some_0.name == printer_name,
        print_request(printer_name, text)->Some_0.submission(true) == Some(
            standard_base64_decoding(text)->Ok_0,
        ),
{
    let bytes = standard_base64_decoding(text)->Ok_0;
    assert(Seq::<u8>::empty() + bytes =~= bytes);
}

/// A print of invalid base64 prepares no adapter, so there is nothing that
/// could be flushed or submitted.
pub proof fn lemma_invalid_base64_prepares_nothing(printer_name: Seq<char>, text: Seq<char>)
    requires
        standard_base64_decoding(text) is Err,
    ensures
        print_request(printer_name, text) is None,
{
}

/// A flush for a printer that was not found submits no job and leaves the
/// adapter as it was.
pub proof fn lemma_missing_printer_submits_nothing(driver: DriverView)
    ensures
        driver.submission(false) is None,
        driver.flushed(false) == driver,
{
}

/// Once the printer was found, a flush leaves the buffer empty and the name
/// as it was; a second flush has nothing left of the first job to submit.
pub proof fn lemma_flush_empties_buffer(driver: DriverView)
    ensures
        driver.flushed(true).pending == Seq::<u8>::empty(),
        driver.flushed(true).name == driver.name,
        driver.flushed(true).submission(true) == Some(Seq::<u8>::empty()),
{
}

/// A self-test submits the same fixed receipt whatever the printer's name.
pub proof fn lemma_test_receipt_is_fixed(printer_name: Seq<char>, other_name: Seq<char>)
    ensures
        test_request(printer_name).submission(true) == Some(TEST_RECEIPT@),
        test_request(printer_name).submission(true) == test_request(other_name).submission(true),
{
    assert(Seq::<u8>::empty() + TEST_RECEIPT@ =~= TEST_RECEIPT@);
}

} // verus!
