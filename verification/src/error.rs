//! Errors of the link and their messages.

use vstd::prelude::*;
use vstd::string::StringExecFns;

use crate::text::{decimal, decimal_text};
use crate::time::Duration;

verus! {

/// The text that `std` gives a span of `secs` seconds and `nanos` nanoseconds in `{:?}` format.
pub uninterp spec fn duration_debug(secs: u64, nanos: u32) -> Seq<char>;

/// Formats a span with the `Debug` implementation of `std::time::Duration`.
///
/// Trusted: the text depends on the span alone. What it looks like is left to `std`.
#[verifier::external_body]
fn duration_debug_text(secs: u64, nanos: u32) -> (text: String)
    requires
        nanos < 1_000_000_000,
    ensures
        text@ == duration_debug(secs, nanos),
{
    format!("{:?}", std::time::Duration::new(secs, nanos))
}

/// Formats `ethercrab::error::Error::WorkingCounter` with its `Display` implementation.
///
/// Trusted: the text names the expected and the received counter, both in decimal notation.
#[verifier::external_body]
fn working_counter_text(expected: u16, received: u16) -> (text: String)
    ensures
        text@ == "working counter expected "@ + decimal(expected as nat) + ", got "@ + decimal(
            received as nat,
        ),
{
    ethercrab::error::Error::WorkingCounter { expected, received }.to_string()
}

/// A failure of the EtherCAT main device.
///
/// A wrong working counter is told apart, as the clock alignment tolerates it. Any other failure
/// is carried as its message.
#[derive(Debug)]
pub enum BusError {
    WorkingCounter { expected: u16, received: u16 },
    Other(String),
}

impl BusError {
    /// The message of the failure.
    pub open spec fn text(&self) -> Seq<char> {
        match self {
            BusError::WorkingCounter { expected, received } => "working counter expected "@
                + decimal(*expected as nat) + ", got "@ + decimal(*received as nat),
            BusError::Other(text) => text@,
        }
    }

    /// Returns the message of the failure.
    pub fn message(&self) -> (text: String)
        ensures
            text@ == self.text(),
    {
        match self {
            BusError::WorkingCounter { expected, received } => working_counter_text(
                *expected,
                *received,
            ),
            BusError::Other(text) => text.clone(),
        }
    }
}

/// Why the link could not be opened.
#[derive(Debug)]
pub enum EtherCrabError {
    PduStorageError,
    NoInterfaceAvailable,
    DeviceNotFound,
    IoError(String),
    EtherCrab(BusError),
    DeviceNumberMismatch(usize, usize),
    SyncTimeout(Duration),
}

/// The message of a clock alignment that timed out, given the text of the deviation that was left.
pub open spec fn sync_timeout_text(deviation: Seq<char>) -> Seq<char> {
    "Failed to synchronize devices (Max deviation: "@ + deviation + ")"@
}

/// Returns the message of a clock alignment that timed out, given the text of the deviation that
/// was left.
pub fn sync_timeout_message(deviation: &str) -> (text: String)
    ensures
        text@ == sync_timeout_text(deviation@),
{
    let mut text = "Failed to synchronize devices (Max deviation: ".to_owned();
    text.append(deviation);
    text.append(")");
    text
}

impl EtherCrabError {
    /// The message of the error.
    pub open spec fn text(&self) -> Seq<char> {
        match self {
            EtherCrabError::PduStorageError => "Can only split once"@,
            EtherCrabError::NoInterfaceAvailable => "No interface is available"@,
            EtherCrabError::DeviceNotFound => "No AUTD3 device found"@,
            EtherCrabError::IoError(text) => text@,
            EtherCrabError::EtherCrab(e) => e.text(),
            EtherCrabError::DeviceNumberMismatch(specified, found) =>
                "Number of devices specified ("@ + decimal(*specified as nat)
                + ") does not match the number found ("@ + decimal(*found as nat) + ")"@,
            EtherCrabError::SyncTimeout(deviation) => sync_timeout_text(
                duration_debug(
                    (deviation@ / 1_000_000_000) as u64,
                    (deviation@ % 1_000_000_000) as u32,
                ),
            ),
        }
    }

    /// Returns the message of the error.
    pub fn message(&self) -> (text: String)
        ensures
            text@ == self.text(),
    {
        match self {
            EtherCrabError::PduStorageError => "Can only split once".to_owned(),
            EtherCrabError::NoInterfaceAvailable => "No interface is available".to_owned(),
            EtherCrabError::DeviceNotFound => "No AUTD3 device found".to_owned(),
            EtherCrabError::IoError(text) => text.clone(),
            EtherCrabError::EtherCrab(e) => e.message(),
            EtherCrabError::DeviceNumberMismatch(specified, found) => {
                let mut text = "Number of devices specified (".to_owned();
                text.append(decimal_text(*specified as u64).as_str());
                text.append(") does not match the number found (");
                text.append(decimal_text(*found as u64).as_str());
                text.append(")");
                text
            },
            EtherCrabError::SyncTimeout(deviation) => {
                let shown = duration_debug_text(deviation.as_secs(), deviation.subsec_nanos());
                sync_timeout_message(shown.as_str())
            },
        }
    }

    /// Wraps the error for the caller of the link, which sees its message.
    pub fn to_link_error(&self) -> (e: LinkError)
        ensures
            e@ == self.text(),
    {
        LinkError { msg: self.message() }
    }
}

/// An error that the link reports to its caller.
///
/// Its view is its message.
#[derive(Debug)]
pub struct LinkError {
    msg: String,
}

impl View for LinkError {
    type V = Seq<char>;

    closed spec fn view(&self) -> Seq<char> {
        self.msg@
    }
}

impl LinkError {
    /// Creates an error with the given message.
    pub fn new(msg: &str) -> (e: LinkError)
        ensures
            e@ == msg@,
    {
        LinkError { msg: msg.to_owned() }
    }

    /// Returns the message of the error.
    pub fn message(&self) -> (msg: String)
        ensures
            msg@ == self@,
    {
        self.msg.clone()
    }
}

/// The message of each error, word for word, for every number, span and text that it carries.
pub proof fn law_messages_word_for_word(
    specified: usize,
    found: usize,
    deviation: Duration,
    e: BusError,
    text: String,
)
    ensures
        EtherCrabError::PduStorageError.text() == "Can only split once"@,
        EtherCrabError::NoInterfaceAvailable.text() == "No interface is available"@,
        EtherCrabError::DeviceNotFound.text() == "No AUTD3 device found"@,
        EtherCrabError::IoError(text).text() == text@,
        EtherCrabError::EtherCrab(e).text() == e.text(),
        EtherCrabError::DeviceNumberMismatch(specified, found).text()
            == "Number of devices specified ("@ + decimal(specified as nat)
            + ") does not match the number found ("@ + decimal(found as nat) + ")"@,
        EtherCrabError::SyncTimeout(deviation).text()
            == "Failed to synchronize devices (Max deviation: "@ + duration_debug(
            (deviation@ / 1_000_000_000) as u64,
            (deviation@ % 1_000_000_000) as u32,
        ) + ")"@,
{
}

/// The message of a failure of the main device: a wrong working counter tells what was expected and
/// what was received, any other failure speaks for itself.
pub proof fn law_bus_messages_word_for_word(expected: u16, received: u16, text: String)
    ensures
        (BusError::WorkingCounter { expected, received }).text() == "working counter expected "@
            + decimal(expected as nat) + ", got "@ + decimal(received as nat),
        BusError::Other(text).text() == text@,
{
}

/// The message of a clock alignment that timed out shows the deviation between fixed words.
pub proof fn law_timeout_message_shows_the_deviation(deviation: Seq<char>)
    ensures
        sync_timeout_text(deviation) == "Failed to synchronize devices (Max deviation: "@
            + deviation + ")"@,
{
}

} // verus!
