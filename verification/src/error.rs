//! Error taxonomy of the viewer core.

use vstd::prelude::*;
use vstd::string::StringExecFns;

verus! {

/// Why parsing an integer out of a string failed.
#[derive(Debug, Clone, Copy, PartialEq, Eq, Structural)]
pub enum IntErrorKind {
    /// There was nothing to parse.
    Empty,
    /// A character that is not a digit of the radix was met.
    InvalidDigit,
    /// The digits denote a number too large for the target type.
    PosOverflow,
}

/// Kinds of I/O failure a device read can report.
#[derive(Debug, Clone, Copy, PartialEq, Eq, Structural)]
pub enum IoErrorKind {
    NotFound,
    PermissionDenied,
    ConnectionRefused,
    ConnectionReset,
    ConnectionAborted,
    NotConnected,
    AddrInUse,
    AddrNotAvailable,
    BrokenPipe,
    AlreadyExists,
    WouldBlock,
    InvalidInput,
    InvalidData,
    TimedOut,
    WriteZero,
    Interrupted,
    Unsupported,
    UnexpectedEof,
    OutOfMemory,
    Other,
}

/// Categories of failure reported by the serial port layer.
#[derive(Debug, Clone, Copy, PartialEq, Eq, Structural)]
pub enum SerialPortErrorKind {
    /// The device is not available (unplugged, or in use elsewhere).
    NoDevice,
    /// A parameter was incorrect.
    InvalidInput,
    /// The cause is not known.
    Unknown,
    /// An I/O error of the given kind occurred.
    Io(IoErrorKind),
}

/// A failure of the serial port layer: its category and what it said.
#[derive(Debug, Clone, PartialEq, Eq)]
pub struct SerialPortError {
    pub kind: SerialPortErrorKind,
    pub description: String,
}

/// Failures while reading or writing the viewer configuration.
#[derive(Debug, Clone, PartialEq, Eq)]
pub enum ViewerOptionConfigError {
    /// A hexadecimal number could not be parsed to its numerical components.
    HexNumberParseError(IntErrorKind),
    /// The supplied configuration path does not exist.
    NotFound,
    /// The configuration text could not be deserialized.
    DeserializationError(String),
    /// The configuration could not be serialized.
    SerializationError(String),
}

/// Everything that can go wrong in the viewer core.
#[derive(Debug, Clone, PartialEq, Eq)]
pub enum ViewerError {
    /// Discovery found no matching port or pad.
    ControllerNotFound,
    /// An I/O operation failed.
    IoError(IoErrorKind),
    /// The serial port layer failed.
    SerialPortError(SerialPortError),
    /// The worker thread went away without a word.
    SerialThreadError,
    /// The configuration is unusable.
    ConfigError(ViewerOptionConfigError),
    /// A report window held fewer symbols than a full report.
    MalformedSerialReport,
    /// Any other failure, by its description.
    Other(String),
    /// A failure of unknown cause.
    UnknownError,
}

pub type ViewerResult<T> = Result<T, ViewerError>;

impl IoErrorKind {
    /// Whether a read failure of this kind is worth a reconnection attempt:
    /// exactly timeouts and broken connections are.
    pub open spec fn spec_is_transient(self) -> bool {
        self == IoErrorKind::TimedOut || self == IoErrorKind::BrokenPipe
    }

    /// Whether a read failure of this kind is worth a reconnection attempt.
    #[verifier::when_used_as_spec(spec_is_transient)]
    pub fn is_transient(self) -> (transient: bool)
        ensures
            transient == self.spec_is_transient(),
    {
        match self {
            IoErrorKind::TimedOut | IoErrorKind::BrokenPipe => true,
            _ => false,
        }
    }

    /// The kind in words.
    pub open spec fn spec_describe(self) -> Seq<char> {
        match self {
            IoErrorKind::NotFound => "entity not found"@,
            IoErrorKind::PermissionDenied => "permission denied"@,
            IoErrorKind::ConnectionRefused => "connection refused"@,
            IoErrorKind::ConnectionReset => "connection reset"@,
            IoErrorKind::ConnectionAborted => "connection aborted"@,
            IoErrorKind::NotConnected => "not connected"@,
            IoErrorKind::AddrInUse => "address in use"@,
            IoErrorKind::AddrNotAvailable => "address not available"@,
            IoErrorKind::BrokenPipe => "broken pipe"@,
            IoErrorKind::AlreadyExists => "entity already exists"@,
            IoErrorKind::WouldBlock => "operation would block"@,
            IoErrorKind::InvalidInput => "invalid input parameter"@,
            IoErrorKind::InvalidData => "invalid data"@,
            IoErrorKind::TimedOut => "timed out"@,
            IoErrorKind::WriteZero => "write zero"@,
            IoErrorKind::Interrupted => "operation interrupted"@,
            IoErrorKind::Unsupported => "unsupported"@,
            IoErrorKind::UnexpectedEof => "unexpected end of file"@,
            IoErrorKind::OutOfMemory => "out of memory"@,
            IoErrorKind::Other => "other error"@,
        }
    }

    /// The kind in words.
    pub fn describe(self) -> (words: &'static str)
        ensures
            words@ == self.spec_describe(),
    {
        match self {
            IoErrorKind::NotFound => "entity not found",
            IoErrorKind::PermissionDenied => "permission denied",
            IoErrorKind::ConnectionRefused => "connection refused",
            IoErrorKind::ConnectionReset => "connection reset",
            IoErrorKind::ConnectionAborted => "connection aborted",
            IoErrorKind::NotConnected => "not connected",
            IoErrorKind::AddrInUse => "address in use",
            IoErrorKind::AddrNotAvailable => "address not available",
            IoErrorKind::BrokenPipe => "broken pipe",
            IoErrorKind::AlreadyExists => "entity already exists",
            IoErrorKind::WouldBlock => "operation would block",
            IoErrorKind::InvalidInput => "invalid input parameter",
            IoErrorKind::InvalidData => "invalid data",
            IoErrorKind::TimedOut => "timed out",
            IoErrorKind::WriteZero => "write zero",
            IoErrorKind::Interrupted => "operation interrupted",
            IoErrorKind::Unsupported => "unsupported",
            IoErrorKind::UnexpectedEof => "unexpected end of file",
            IoErrorKind::OutOfMemory => "out of memory",
            IoErrorKind::Other => "other error",
        }
    }
}

impl ViewerOptionConfigError {
    /// What the user is told of this failure.
    pub open spec fn spec_message(self) -> Seq<char> {
        match self {
            ViewerOptionConfigError::HexNumberParseError(_) =>
                "Could not parse hex number to its numerical components"@,
            ViewerOptionConfigError::NotFound =>
                "The supplied config path could not be found on the filesystem."@,
            ViewerOptionConfigError::DeserializationError(cause) => "TOML Deserialization Error: "@
                + cause@,
            ViewerOptionConfigError::SerializationError(cause) => "TOML Serialization Error: "@
                + cause@,
        }
    }

    /// What the user is told of this failure.
    pub fn message(&self) -> (text: String)
        ensures
            text@ == self.spec_message(),
    {
        match self {
            ViewerOptionConfigError::HexNumberParseError(_) => String::from_str(
                "Could not parse hex number to its numerical components",
            ),
            ViewerOptionConfigError::NotFound => String::from_str(
                "The supplied config path could not be found on the filesystem.",
            ),
            ViewerOptionConfigError::DeserializationError(cause) => String::from_str(
                "TOML Deserialization Error: ",
            ).concat(cause.as_str()),
            ViewerOptionConfigError::SerializationError(cause) => String::from_str(
                "TOML Serialization Error: ",
            ).concat(cause.as_str()),
        }
    }
}

impl ViewerError {
    /// What the user is told of this failure.
    pub open spec fn spec_message(self) -> Seq<char> {
        match self {
            ViewerError::ControllerNotFound =>
                "A B0XX could not be found on your system. Are you sure it's connected through the USB port?"@,
            ViewerError::IoError(kind) => "IoError: "@ + kind.spec_describe(),
            ViewerError::SerialPortError(e) => e.description@,
            ViewerError::SerialThreadError =>
                "Internal serial thread error: receiving on an empty and disconnected channel"@,
            ViewerError::ConfigError(e) => "Configuration error: "@ + e.spec_message(),
            ViewerError::MalformedSerialReport =>
                "The state report transmitted over serial was malformed"@,
            ViewerError::Other(cause) => cause@,
            ViewerError::UnknownError => "An unknown error occured, sorry"@,
        }
    }

    /// What the user is told of this failure.
    pub fn message(&self) -> (text: String)
        ensures
            text@ == self.spec_message(),
    {
        match self {
            ViewerError::ControllerNotFound => String::from_str(
                "A B0XX could not be found on your system. Are you sure it's connected through the USB port?",
            ),
            ViewerError::IoError(kind) => String::from_str("IoError: ").concat(kind.describe()),
            ViewerError::SerialPortError(e) => e.description.clone(),
            ViewerError::SerialThreadError => String::from_str(
                "Internal serial thread error: receiving on an empty and disconnected channel",
            ),
            ViewerError::ConfigError(e) => {
                let inner = e.message();
                String::from_str("Configuration error: ").concat(inner.as_str())
            },
            ViewerError::MalformedSerialReport => String::from_str(
                "The state report transmitted over serial was malformed",
            ),
            ViewerError::Other(cause) => cause.clone(),
            ViewerError::UnknownError => String::from_str("An unknown error occured, sorry"),
        }
    }
}

} // verus!
