//! Error types of the stack.
use vstd::prelude::*;

verus! {

/// Failure reported by the command transport for one exchange.
#[derive(Clone, Copy, Debug, PartialEq, Eq)]
pub enum AtError {
    /// Serial read error
    Read,
    /// Serial write error
    Write,
    /// Timed out while waiting for a response
    Timeout,
    /// Invalid response from module
    InvalidResponse,
    /// Command was aborted
    Aborted,
    /// Buffer overflow
    Overflow,
    /// Failed to parse received response
    Parse,
    /// Generic error response without any error message
    Error,
    /// Equipment related error with its numeric code
    CmeError(u16),
    /// Network related error with its numeric code
    CmsError(u16),
    /// Connection error with its numeric code
    ConnectionError(u8),
    /// Error response containing any error message
    Custom,
}

/// Outcome of an exchange that did not yield a response.
#[derive(Clone, Copy, Debug, PartialEq, Eq)]
pub enum CommandFailure {
    /// The transport has no answer yet.
    WouldBlock,
    /// The transport or the module reported an error.
    Other(AtError),
}

/// Error of a non-blocking operation: either a real error or the signal that
/// the operation cannot make progress yet.
#[derive(Debug, PartialEq, Eq)]
pub enum NbError<E> {
    /// A different kind of error
    Other(E),
    /// This operation requires blocking behavior to complete
    WouldBlock,
}

/// Network related errors
#[derive(Clone, Copy, Debug, PartialEq, Eq)]
pub enum Error {
    /// Error while enabling multiple connections
    EnablingMultiConnectionsFailed(AtError),
    /// Error while enabling passive socket receiving mode
    EnablingPassiveSocketModeFailed(AtError),
    /// TCP connect command failed
    ConnectError(AtError),
    /// Preparing the transmission failed
    TransmissionStartFailed(AtError),
    /// Transmission of data failed
    SendFailed(AtError),
    /// Receiving of data failed
    ReceiveFailed(AtError),
    /// Socket close command failed
    CloseError(AtError),
    /// The module confirmed receiving an unexpected byte count
    PartialSend,
    /// A connect or close command was answered by OK, but the connect or close
    /// was not confirmed by a notification.
    UnconfirmedSocketState,
    /// No socket available, since the maximum number is in use.
    NoSocketAvailable,
    /// Given socket is already connected to another remote. Socket needs to be
    /// closed first.
    AlreadyConnected,
    /// Unable to send data if socket is not connected
    SocketUnconnected,
    /// Socket was remotely closed and needs to be either reconnected or fully
    /// closed.
    ClosingSocket,
    /// Received more data than requested from the module, so that the data does
    /// not fit the remaining buffer.
    ReceiveOverflow,
    /// Received an unexpected WouldBlock. The most common cause is an incorrect
    /// mode of the transport, which must be either timeout or blocking.
    UnexpectedWouldBlock,
    /// Upstream timer error
    TimerError,
}

/// Possible errors when joining an access point
#[derive(Clone, Copy, Debug, PartialEq, Eq)]
pub enum JoinError {
    /// Error while setting the flash configuration mode
    ConfigurationStoreError(AtError),
    /// Error while setting WIFI mode to station
    ModeError(AtError),
    /// Error while setting WIFI credentials
    ConnectError(AtError),
    /// Given SSID is longer than the max. size of 32 bytes
    InvalidSSDLength,
    /// Given password is longer than the max. size of 63 bytes
    InvalidPasswordLength,
    /// Received an unexpected WouldBlock. The most common cause is an incorrect
    /// mode of the transport, which must be either timeout or blocking.
    UnexpectedWouldBlock,
}

/// Errors when receiving local address information
#[derive(Clone, Copy, Debug, PartialEq, Eq)]
pub enum AddressErrors {
    /// The address query failed
    CommandError(AtError),
    /// Error while parsing addresses
    AddressParseError,
    /// Received an unexpected WouldBlock. The most common cause is an incorrect
    /// mode of the transport, which must be either timeout or blocking.
    UnexpectedWouldBlock,
}

} // verus!
