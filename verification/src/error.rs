//! Errors of device operations.

use crate::vulkan::abi::{vk_result_message, vk_result_text};
use vstd::prelude::*;
use vstd::string::StringExecFns;

verus! {

/// The platform's I/O error, carried and never looked into.
#[verifier::external_type_specification]
#[verifier::external_body]
pub struct ExIoError(std::io::Error);

/// Errors that can occur in GPU device operations.
#[derive(Debug)]
pub enum DeviceError {
    /// No device backend is available for the current platform.
    NoDevice,
    /// Failed to initialise the GPU device: no suitable physical device was
    /// found, or the logical device could not be created.
    InitFailed(String),
    /// The requested queue capability is not available on the selected device,
    /// such as a graphics queue on a compute-only device.
    QueueCapabilityUnavailable {
        /// Which capability was missing.
        message: String,
    },
    /// The device could not allocate a buffer of the requested type and size,
    /// or no suitable memory type was found.
    BufferCreationFailed {
        /// The platform error message.
        message: String,
    },
    /// The buffer contents could not be mapped back to host memory.
    BufferReadFailed {
        /// The platform error message.
        message: String,
    },
    /// Internal error that should not occur in normal operation.
    Internal(String),
    /// I/O error from the platform layer.
    Io(std::io::Error),
}

/// The result of a device operation.
pub type Result<T> = std::result::Result<T, DeviceError>;

/// A [`DeviceError`] by what it says.
pub enum ErrorView {
    NoDevice,
    InitFailed(Seq<char>),
    QueueCapabilityUnavailable { message: Seq<char> },
    BufferCreationFailed { message: Seq<char> },
    BufferReadFailed { message: Seq<char> },
    Internal(Seq<char>),
    Io(std::io::Error),
}

impl View for DeviceError {
    type V = ErrorView;

    open spec fn view(&self) -> ErrorView {
        match *self {
            DeviceError::NoDevice => ErrorView::NoDevice,
            DeviceError::InitFailed(text) => ErrorView::InitFailed(text@),
            DeviceError::QueueCapabilityUnavailable {
                message,
            } => ErrorView::QueueCapabilityUnavailable { message: message@ },
            DeviceError::BufferCreationFailed { message } => ErrorView::BufferCreationFailed {
                message: message@,
            },
            DeviceError::BufferReadFailed { message } => ErrorView::BufferReadFailed {
                message: message@,
            },
            DeviceError::Internal(text) => ErrorView::Internal(text@),
            DeviceError::Io(error) => ErrorView::Io(error),
        }
    }
}

impl ErrorView {
    /// `text` is how the error reads to a person. What stands behind the colon
    /// of an I/O error is the platform's own wording of it.
    pub open spec fn reads_as(self, text: Seq<char>) -> bool {
        match self {
            ErrorView::NoDevice => text == "no GPU device backend available for current platform"@,
            ErrorView::InitFailed(reason) => text == "failed to initialise GPU device: "@ + reason,
            ErrorView::QueueCapabilityUnavailable { message } => text
                == "requested queue capability unavailable: "@ + message,
            ErrorView::BufferCreationFailed { message } => text == "buffer creation failed: "@
                + message,
            ErrorView::BufferReadFailed { message } => text == "buffer readback failed: "@
                + message,
            ErrorView::Internal(reason) => text == "internal device error: "@ + reason,
            ErrorView::Io(error) => io_reads_as(error, text),
        }
    }
}

/// Calls the `Display` of `std::io::Error`. The wording is the platform's, so
/// nothing is claimed of it.
#[verifier::external_body]
fn io_error_text(error: &std::io::Error) -> (text: String) {
    error.to_string()
}

/// The platform can word the error so.
pub closed spec fn io_worded(error: std::io::Error, wording: String) -> bool {
    call_ensures(io_error_text, (&error,), wording)
}

/// `text` is the platform's wording of the error behind a label.
pub open spec fn io_reads_as(error: std::io::Error, text: Seq<char>) -> bool {
    exists|wording: String| #[trigger]
        io_worded(error, wording) && text == "platform I/O error: "@ + wording@
}

/// `head` followed by `tail`.
fn joined(head: &str, tail: &str) -> (text: String)
    ensures
        text@ == head@ + tail@,
{
    let mut text = String::from_str(head);
    text.append(tail);
    text
}

impl DeviceError {
    /// The error as it reads to a person.
    pub fn describe(&self) -> (text: String)
        ensures
            self@.reads_as(text@),
    {
        match self {
            DeviceError::NoDevice => String::from_str(
                "no GPU device backend available for current platform",
            ),
            DeviceError::InitFailed(reason) => joined(
                "failed to initialise GPU device: ",
                reason.as_str(),
            ),
            DeviceError::QueueCapabilityUnavailable { message } => joined(
                "requested queue capability unavailable: ",
                message.as_str(),
            ),
            DeviceError::BufferCreationFailed { message } => joined(
                "buffer creation failed: ",
                message.as_str(),
            ),
            DeviceError::BufferReadFailed { message } => joined(
                "buffer readback failed: ",
                message.as_str(),
            ),
            DeviceError::Internal(reason) => joined("internal device error: ", reason.as_str()),
            DeviceError::Io(error) => {
                let wording = io_error_text(error);
                assert(io_worded(*error, wording));
                let text = joined("platform I/O error: ", wording.as_str());
                assert(io_reads_as(*error, text@));
                text
            },
        }
    }
}

impl From<std::io::Error> for DeviceError {
    fn from(error: std::io::Error) -> (converted: DeviceError) {
        DeviceError::Io(error)
    }
}

impl vstd::std_specs::convert::FromSpecImpl<std::io::Error> for DeviceError {
    open spec fn obeys_from_spec() -> bool {
        true
    }

    open spec fn from_spec(error: std::io::Error) -> DeviceError {
        DeviceError::Io(error)
    }
}

/// A failed call as an error message names it: the call, a colon, the reason.
pub open spec fn failure_text(call: Seq<char>, reason: Seq<char>) -> Seq<char> {
    call + ": "@ + reason
}

/// Names a failed call and the reason.
pub fn failure_message(call: &str, reason: &str) -> (message: String)
    ensures
        message@ == failure_text(call@, reason@),
{
    let mut message = String::from_str(call);
    message.append(": ");
    message.append(reason);
    message
}

/// Names a failed Vulkan call and the text of its result code.
pub(crate) fn vk_failure_message(call: &str, code: i32) -> (message: String)
    ensures
        message@ == failure_text(call@, vk_result_message(code)),
{
    let reason = vk_result_text(code);
    failure_message(call, reason.as_str())
}

/// An error reads as what went wrong, followed by everything that it says
/// itself.
pub proof fn law_described_error_keeps_its_message(error: &DeviceError, text: String)
    requires
        call_ensures(DeviceError::describe, (error,), text),
    ensures
        match *error {
            DeviceError::NoDevice => text@
                == "no GPU device backend available for current platform"@,
            DeviceError::InitFailed(reason) => text@ == "failed to initialise GPU device: "@
                + reason@,
            DeviceError::QueueCapabilityUnavailable { message } => text@
                == "requested queue capability unavailable: "@ + message@,
            DeviceError::BufferCreationFailed { message } => text@ == "buffer creation failed: "@
                + message@,
            DeviceError::BufferReadFailed { message } => text@ == "buffer readback failed: "@
                + message@,
            DeviceError::Internal(reason) => text@ == "internal device error: "@ + reason@,
            DeviceError::Io(io) => exists|wording: String| #[trigger]
                io_worded(io, wording) && text@ == "platform I/O error: "@ + wording@,
        },
{
}

/// A failed call is named first, then comes the reason.
pub proof fn law_failure_names_call_and_reason(call: &str, reason: &str, message: String)
    requires
        call_ensures(failure_message, (call, reason), message),
    ensures
        message@ == call@ + ": "@ + reason@,
{
}

} // verus!
