//! Errors of the bridge, and what each one means for the serial connection
//! and for the HTTP answer.

use vstd::prelude::*;
use vstd::string::{to_string_from_display_ensures, StringExecFns};

verus! {

/// `std::io::Error`, carried through unread.
#[verifier::external_type_specification]
#[verifier::external_body]
pub struct ExIoError(std::io::Error);

/// `tokio_serial::Error` (the serial port error of the `serialport` crate),
/// carried through unread.
#[verifier::external_type_specification]
#[verifier::external_body]
pub struct ExSerialError(tokio_serial::Error);

#[derive(Debug)]
pub enum AppError {
    /// Serial port error
    Serial(tokio_serial::Error),
    /// I/O error
    Io(std::io::Error),
    /// No reply from device (timeout)
    Timeout,
    /// Invalid reply from device
    InvalidReply,
    /// Invalid parameter, with the message for the client
    InvalidParameter(String),
}

pub type ApiResult<T> = Result<T, AppError>;

/// Whether the error leaves the serial connection unusable.
pub open spec fn spec_should_disconnect(e: AppError) -> bool {
    !(e is InvalidParameter)
}

/// The HTTP status code that answers the error.
pub open spec fn spec_status_code(e: AppError) -> u16 {
    match e {
        AppError::Serial(_) | AppError::Io(_) => 500,
        AppError::Timeout => 504,
        AppError::InvalidReply => 502,
        AppError::InvalidParameter(_) => 400,
    }
}

impl AppError {
    pub fn should_disconnect(&self) -> (r: bool)
        ensures
            r == spec_should_disconnect(*self),
    {
        match self {
            AppError::Serial(_) | AppError::Io(_) | AppError::Timeout | AppError::InvalidReply => true,
            AppError::InvalidParameter(_) => false,
        }
    }

    /// The HTTP status code of the error response: 500 for serial and I/O
    /// errors, 504 for a timeout, 502 for an invalid reply, 400 for an invalid
    /// parameter.
    pub fn status_code(&self) -> (r: u16)
        ensures
            r == spec_status_code(*self),
    {
        match self {
            AppError::Serial(_) | AppError::Io(_) => 500,
            AppError::Timeout => 504,
            AppError::InvalidReply => 502,
            AppError::InvalidParameter(_) => 400,
        }
    }
}

/// The text of the error answer's `error` field: an invalid parameter's own
/// message, otherwise the error's description.
pub open spec fn message_is(e: AppError, r: Seq<char>) -> bool {
    match e {
        AppError::Serial(inner) => exists|t: String|
            to_string_from_display_ensures::<tokio_serial::Error>(&inner, t) && r
                == "Serial port error: "@ + t@,
        AppError::Io(inner) => exists|t: String|
            to_string_from_display_ensures::<std::io::Error>(&inner, t) && r == "I/O error: "@
                + t@,
        AppError::Timeout => r == "No reply from device (timeout)"@,
        AppError::InvalidReply => r == "Invalid reply from device"@,
        AppError::InvalidParameter(m) => r == m@,
    }
}

impl AppError {
    /// The message of the error answer: for an invalid parameter its own
    /// message, for the others the error's description (serial and I/O errors
    /// followed by the text of the underlying error).
    pub fn message(&self) -> (r: String)
        ensures
            message_is(*self, r@),
    {
        match self {
            AppError::Serial(e) => {
                let mut s = "Serial port error: ".to_owned();
                let t = e.to_string();
                s.append(t.as_str());
                s
            },
            AppError::Io(e) => {
                let mut s = "I/O error: ".to_owned();
                let t = e.to_string();
                s.append(t.as_str());
                s
            },
            AppError::Timeout => "No reply from device (timeout)".to_owned(),
            AppError::InvalidReply => "Invalid reply from device".to_owned(),
            AppError::InvalidParameter(m) => m.clone(),
        }
    }
}

/// An `InvalidParameter` error with the given message.
pub open spec fn invalid_parameter(e: AppError, message: Seq<char>) -> bool {
    e matches AppError::InvalidParameter(m) && m@ == message
}

} // verus!
