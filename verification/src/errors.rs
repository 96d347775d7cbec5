//! What can go wrong in a discovery session.

use vstd::prelude::*;

verus! {

/// A failure of the operating system to open, configure, read or write a
/// socket, as the embedding program reports it.
#[derive(Clone, Debug, PartialEq, Eq)]
pub struct IoError {
    /// The operating system's error code, where there is one.
    pub code: Option<i32>,
    /// The failure in words.
    pub message: String,
}

/// The codec's rejection of a received message.
#[derive(Clone, Debug, PartialEq, Eq)]
pub enum DnsError {
    /// The message is shorter than a header.
    HeaderTooShort,
    /// The header has reserved bits set.
    ReservedBitsAreNonZero,
    /// The header was read, but what follows it is not what it announces.
    /// Holds the codec's description of the fault.
    Malformed(String),
}

/// The deadline of a wait passed.
#[derive(Clone, Copy, Debug, PartialEq, Eq, Structural)]
pub struct TimeoutError;

/// An error of a discovery session.
#[derive(Clone, Debug, PartialEq, Eq)]
pub enum Error {
    /// A socket could not be opened, configured, read or written.
    Io(IoError),
    /// The codec could not read the envelope of a received message.
    Dns(DnsError),
    /// A deadline passed.
    TimeoutError(TimeoutError),
}

/// What an [`IoError`] holds.
pub ghost struct IoErrorView {
    pub code: Option<i32>,
    pub message: Seq<char>,
}

/// What a [`DnsError`] holds.
pub ghost enum DnsErrorView {
    HeaderTooShort,
    ReservedBitsAreNonZero,
    Malformed(Seq<char>),
}

/// What an [`Error`] holds.
pub ghost enum ErrorView {
    Io(IoErrorView),
    Dns(DnsErrorView),
    TimeoutError,
}

impl View for IoError {
    type V = IoErrorView;

    open spec fn view(&self) -> IoErrorView {
        IoErrorView { code: self.code, message: self.message@ }
    }
}

impl View for DnsError {
    type V = DnsErrorView;

    open spec fn view(&self) -> DnsErrorView {
        match *self {
            DnsError::HeaderTooShort => DnsErrorView::HeaderTooShort,
            DnsError::ReservedBitsAreNonZero => DnsErrorView::ReservedBitsAreNonZero,
            DnsError::Malformed(description) => DnsErrorView::Malformed(description@),
        }
    }
}

impl View for Error {
    type V = ErrorView;

    open spec fn view(&self) -> ErrorView {
        match *self {
            Error::Io(error) => ErrorView::Io(error@),
            Error::Dns(error) => ErrorView::Dns(error@),
            Error::TimeoutError(_) => ErrorView::TimeoutError,
        }
    }
}

impl DnsErrorView {
    /// Whether the codec gave up on the header itself, so that not even the
    /// envelope of the message is known.
    pub open spec fn is_envelope(self) -> bool {
        self is HeaderTooShort || self is ReservedBitsAreNonZero
    }
}

impl DnsError {
    /// Whether the codec gave up on the header itself.
    pub fn is_envelope(&self) -> (envelope: bool)
        ensures
            envelope == self@.is_envelope(),
    {
        match self {
            DnsError::HeaderTooShort => true,
            DnsError::ReservedBitsAreNonZero => true,
            DnsError::Malformed(_) => false,
        }
    }
}

impl ErrorView {
    /// The error in words: what the operating system or the codec said, or
    /// that the time ran out.
    pub open spec fn message(self) -> Seq<char> {
        match self {
            ErrorView::Io(error) => error.message,
            ErrorView::Dns(DnsErrorView::HeaderTooShort) => "packet is smaller than header size"@,
            ErrorView::Dns(DnsErrorView::ReservedBitsAreNonZero) =>
                "packet has non-zero reserved bits"@,
            ErrorView::Dns(DnsErrorView::Malformed(description)) => description,
            ErrorView::TimeoutError => "future has timed out"@,
        }
    }
}

impl Error {
    /// The error in words.
    pub fn message(&self) -> (text: String)
        ensures
            text@ == self@.message(),
    {
        match self {
            Error::Io(error) => error.message.clone(),
            Error::Dns(DnsError::HeaderTooShort) => "packet is smaller than header size".to_owned(),
            Error::Dns(DnsError::ReservedBitsAreNonZero) =>
                "packet has non-zero reserved bits".to_owned(),
            Error::Dns(DnsError::Malformed(description)) => description.clone(),
            Error::TimeoutError(_) => "future has timed out".to_owned(),
        }
    }
}

impl From<IoError> for Error {
    fn from(error: IoError) -> (wrapped: Error) {
        Error::Io(error)
    }
}

impl vstd::std_specs::convert::FromSpecImpl<IoError> for Error {
    open spec fn obeys_from_spec() -> bool {
        true
    }

    open spec fn from_spec(error: IoError) -> Error {
        Error::Io(error)
    }
}

impl From<DnsError> for Error {
    fn from(error: DnsError) -> (wrapped: Error) {
        Error::Dns(error)
    }
}

impl vstd::std_specs::convert::FromSpecImpl<DnsError> for Error {
    open spec fn obeys_from_spec() -> bool {
        true
    }

    open spec fn from_spec(error: DnsError) -> Error {
        Error::Dns(error)
    }
}

impl From<TimeoutError> for Error {
    fn from(error: TimeoutError) -> (wrapped: Error) {
        Error::TimeoutError(error)
    }
}

impl vstd::std_specs::convert::FromSpecImpl<TimeoutError> for Error {
    open spec fn obeys_from_spec() -> bool {
        true
    }

    open spec fn from_spec(error: TimeoutError) -> Error {
        Error::TimeoutError(error)
    }
}

} // verus!
