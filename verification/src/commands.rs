//! Requests to the driver that owns the transport and the timer, and the
//! events by which it answers.
use crate::address::LocalAddressResponse;
use crate::error::{AtError, CommandFailure, Error};
use crate::urc::URCMessages;
use embedded_nal::SocketAddr;
use vstd::prelude::*;

verus! {

/// Socket address of `embedded_nal`, carried through as an opaque value.
#[verifier::external_type_specification]
#[verifier::external_body]
pub struct ExSocketAddr(SocketAddr);

/// A command for the module.
#[derive(Clone, Copy, Debug, PartialEq, Eq)]
pub enum Command<'a> {
    /// Switches the module to station mode.
    StationMode,
    /// Sets the credentials of the access point.
    AccessPointConnect { ssid: &'a str, key: &'a str },
    /// Asks for the local addresses.
    ObtainLocalAddress,
    /// Enables multiple connections.
    MultipleConnections,
    /// Enables the passive receiving mode, in which the module buffers
    /// received data until it is asked for.
    PassiveReceiving,
    /// Opens a TCP connection to the remote address.
    Connect { link_id: usize, remote: SocketAddr },
    /// Announces a transmission of the given length.
    TransmissionPrepare { link_id: usize, length: usize },
    /// Transmits the part of the caller's data that starts at `offset` and is
    /// `length` bytes long.
    Transmission { offset: usize, length: usize },
    /// Asks for at most `length` buffered bytes.
    ReceiveData { link_id: usize, length: usize },
    /// Closes the connection.
    CloseSocket { link_id: usize },
}

/// What the driver is asked to do next.
#[derive(Clone, Copy, Debug, PartialEq, Eq)]
pub enum Action<'a> {
    /// Poll the next pending notification; answered by [`Event::Notification`].
    PollNotification,
    /// Take a stale response of the passive receiving mode command out of the
    /// response queue and drop it; answered by [`Event::Acknowledged`].
    Housekeeping,
    /// Send the command and wait for its response; answered by
    /// [`Event::Addresses`] for [`Command::ObtainLocalAddress`] and by
    /// [`Event::Reply`] for every other command.
    Command(Command<'a>),
    /// Start the countdown of the given number of milliseconds; answered by
    /// [`Event::TimerStarted`].
    StartTimer(u32),
    /// Poll the countdown; answered by [`Event::Timer`].
    PollTimer,
    /// Reset the transport; answered by [`Event::Acknowledged`].
    ResetTransport,
}

/// State of the countdown.
#[derive(Clone, Copy, Debug, PartialEq, Eq)]
pub enum TimerState {
    /// The countdown is running.
    Pending,
    /// The countdown has elapsed.
    Elapsed,
    /// The timer failed.
    Failed,
}

/// What the driver reports.
#[derive(Debug, PartialEq, Eq)]
pub enum Event {
    /// Nothing was asked yet: the operation starts.
    Start,
    /// The next pending notification, or `None` if there is none.
    Notification(Option<URCMessages>),
    /// The request was carried out and has nothing to report.
    Acknowledged,
    /// The outcome of a command.
    Reply(Result<(), CommandFailure>),
    /// The outcome of the address query.
    Addresses(Result<heapless::Vec<LocalAddressResponse, 4>, CommandFailure>),
    /// Whether the countdown was started.
    TimerStarted(bool),
    /// The state of the countdown.
    Timer(TimerState),
}

/// One step of an operation: a request to the driver, or the result.
#[derive(Debug, PartialEq, Eq)]
pub enum Step<'a, T> {
    /// The driver performs the action and calls the operation again with the
    /// event that answers it.
    Perform(Action<'a>),
    /// The operation is complete.
    Complete(T),
}

/// The intent of a command of the stack, which names the error that its
/// failure gives.
#[derive(Clone, Copy, Debug, PartialEq, Eq)]
pub enum Intent {
    /// Enabling multiple connections
    MultipleConnections,
    /// Enabling the passive receiving mode
    PassiveReceiving,
    /// Connecting a socket
    Connect,
    /// Announcing a transmission
    TransmissionPrepare,
    /// Transmitting data
    Transmission,
    /// Asking for received data
    ReceiveData,
    /// Closing a socket
    CloseSocket,
}

impl Intent {
    /// The error that stands for a failure of a command of this intent.
    pub open spec fn error(self, cause: AtError) -> Error {
        match self {
            Intent::MultipleConnections => Error::EnablingMultiConnectionsFailed(cause),
            Intent::PassiveReceiving => Error::EnablingPassiveSocketModeFailed(cause),
            Intent::Connect => Error::ConnectError(cause),
            Intent::TransmissionPrepare => Error::TransmissionStartFailed(cause),
            Intent::Transmission => Error::SendFailed(cause),
            Intent::ReceiveData => Error::ReceiveFailed(cause),
            Intent::CloseSocket => Error::CloseError(cause),
        }
    }

    /// The result of a command of this intent, given the transport's reply.
    pub open spec fn outcome(self, reply: Result<(), CommandFailure>) -> Result<(), Error> {
        match reply {
            Ok(()) => Ok(()),
            Err(CommandFailure::WouldBlock) => Err(Error::UnexpectedWouldBlock),
            Err(CommandFailure::Other(cause)) => Err(self.error(cause)),
        }
    }

    /// Wraps the transport's error into the error of this intent.
    pub fn command_error(self, cause: AtError) -> (error: Error)
        ensures
            error == self.error(cause),
    {
        match self {
            Intent::MultipleConnections => Error::EnablingMultiConnectionsFailed(cause),
            Intent::PassiveReceiving => Error::EnablingPassiveSocketModeFailed(cause),
            Intent::Connect => Error::ConnectError(cause),
            Intent::TransmissionPrepare => Error::TransmissionStartFailed(cause),
            Intent::Transmission => Error::SendFailed(cause),
            Intent::ReceiveData => Error::ReceiveFailed(cause),
            Intent::CloseSocket => Error::CloseError(cause),
        }
    }

    /// Maps the transport's reply to a command of this intent: a transport
    /// error is wrapped into the error of the intent, and a transport that
    /// would block is reported as unexpected.
    pub fn send_command(self, reply: Result<(), CommandFailure>) -> (result: Result<(), Error>)
        ensures
            result == self.outcome(reply),
    {
        match reply {
            Ok(()) => Ok(()),
            Err(CommandFailure::WouldBlock) => Err(Error::UnexpectedWouldBlock),
            Err(CommandFailure::Other(cause)) => Err(self.command_error(cause)),
        }
    }
}

} // verus!
