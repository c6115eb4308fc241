//! The errors that a port operation can end in.

use crate::text::{decimal, decimal_string};
use vstd::prelude::*;
use vstd::string::*;

verus! {

/// Why a port operation was refused or failed.
///
/// Every variant is final for the call that met it: nothing is retried.
#[derive(Debug, Clone, PartialEq, Eq)]
pub enum ComPortError {
    /// No port of this name is known.
    PortNotFound(String),
    /// The port is in the registry already.
    PortAlreadyOpen(String),
    /// The port is not in the registry.
    PortNotOpen(String),
    /// The driver refused to open the port.
    OpenFailed(String),
    /// The driver failed while reading.
    ReadFailed(String),
    /// The driver failed, or ran out of time, while writing or flushing.
    WriteFailed(String),
    /// The baud rate is not acceptable. Kept for a baud check; the manager
    /// itself hands every baud rate on to the driver.
    InvalidBaudRate(u32),
    /// A field of the settings holds a value outside its set.
    InvalidConfiguration(String),
    /// A lower-level I/O failure that no other variant describes.
    IoError(String),
    /// A failure that the serial driver reported in its own words.
    SerialPortError(String),
}

/// The result of a port operation.
pub type ComPortResult<T> = Result<T, ComPortError>;

/// A `ComPortError` with its texts as sequences of characters.
pub enum ErrorView {
    PortNotFound(Seq<char>),
    PortAlreadyOpen(Seq<char>),
    PortNotOpen(Seq<char>),
    OpenFailed(Seq<char>),
    ReadFailed(Seq<char>),
    WriteFailed(Seq<char>),
    InvalidBaudRate(u32),
    InvalidConfiguration(Seq<char>),
    IoError(Seq<char>),
    SerialPortError(Seq<char>),
}

impl ErrorView {
    /// The line shown to a user: what went wrong, then the detail.
    pub open spec fn message(self) -> Seq<char> {
        match self {
            ErrorView::PortNotFound(name) => "Port not found: "@ + name,
            ErrorView::PortAlreadyOpen(name) => "Port already open: "@ + name,
            ErrorView::PortNotOpen(name) => "Port not open: "@ + name,
            ErrorView::OpenFailed(detail) => "Failed to open port: "@ + detail,
            ErrorView::ReadFailed(detail) => "Failed to read from port: "@ + detail,
            ErrorView::WriteFailed(detail) => "Failed to write to port: "@ + detail,
            ErrorView::InvalidBaudRate(baud) => "Invalid baud rate: "@ + decimal(baud as nat),
            ErrorView::InvalidConfiguration(detail) => "Invalid configuration: "@ + detail,
            ErrorView::IoError(detail) => "IO error: "@ + detail,
            ErrorView::SerialPortError(detail) => "Serial port error: "@ + detail,
        }
    }
}

impl View for ComPortError {
    type V = ErrorView;

    open spec fn view(&self) -> ErrorView {
        match self {
            ComPortError::PortNotFound(name) => ErrorView::PortNotFound(name@),
            ComPortError::PortAlreadyOpen(name) => ErrorView::PortAlreadyOpen(name@),
            ComPortError::PortNotOpen(name) => ErrorView::PortNotOpen(name@),
            ComPortError::OpenFailed(detail) => ErrorView::OpenFailed(detail@),
            ComPortError::ReadFailed(detail) => ErrorView::ReadFailed(detail@),
            ComPortError::WriteFailed(detail) => ErrorView::WriteFailed(detail@),
            ComPortError::InvalidBaudRate(baud) => ErrorView::InvalidBaudRate(*baud),
            ComPortError::InvalidConfiguration(detail) => ErrorView::InvalidConfiguration(detail@),
            ComPortError::IoError(detail) => ErrorView::IoError(detail@),
            ComPortError::SerialPortError(detail) => ErrorView::SerialPortError(detail@),
        }
    }
}

/// A result with its value and its error taken by their views.
pub open spec fn view_of<T: View>(answer: ComPortResult<T>) -> Result<T::V, ErrorView> {
    match answer {
        Ok(value) => Ok(value@),
        Err(error) => Err(error@),
    }
}

impl ComPortError {
    /// The line shown to a user.
    pub fn to_string(&self) -> (text: String)
        ensures
            text@ == self@.message(),
    {
        match self {
            ComPortError::PortNotFound(name) => String::from_str("Port not found: ").concat(
                name.as_str(),
            ),
            ComPortError::PortAlreadyOpen(name) => String::from_str("Port already open: ").concat(
                name.as_str(),
            ),
            ComPortError::PortNotOpen(name) => String::from_str("Port not open: ").concat(
                name.as_str(),
            ),
            ComPortError::OpenFailed(detail) => String::from_str("Failed to open port: ").concat(
                detail.as_str(),
            ),
            ComPortError::ReadFailed(detail) => String::from_str(
                "Failed to read from port: ",
            ).concat(detail.as_str()),
            ComPortError::WriteFailed(detail) => String::from_str(
                "Failed to write to port: ",
            ).concat(detail.as_str()),
            ComPortError::InvalidBaudRate(baud) => {
                let digits = decimal_string(*baud as u64);
                String::from_str("Invalid baud rate: ").concat(digits.as_str())
            },
            ComPortError::InvalidConfiguration(detail) => String::from_str(
                "Invalid configuration: ",
            ).concat(detail.as_str()),
            ComPortError::IoError(detail) => String::from_str("IO error: ").concat(
                detail.as_str(),
            ),
            ComPortError::SerialPortError(detail) => String::from_str(
                "Serial port error: ",
            ).concat(detail.as_str()),
        }
    }
}

} // verus!
