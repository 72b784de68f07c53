//! Notifications that the module sends without being asked.
use vstd::prelude::*;

verus! {

/// A decoded notification of the module.
#[derive(Debug, PartialEq, Eq)]
pub enum URCMessages {
    /// The station lost its access point.
    WifiDisconnected,
    /// The access point assigned an address.
    ReceivedIP,
    /// The station is associated to an access point.
    WifiConnected,
    /// The module is ready.
    Ready,
    /// The socket with the given link id is connected.
    SocketConnected(usize),
    /// The socket with the given link id was closed.
    SocketClosed(usize),
    /// The module refused a connect, since the socket is connected already.
    AlreadyConnected,
    /// The module took over the given number of bytes for transmission.
    ReceivedBytes(usize),
    /// The module buffered the given number of bytes for the socket with the
    /// given link id.
    DataAvailable(usize, usize),
    /// Received bytes that the module hands out on request.
    Data(Vec<u8>),
    /// The transmission was confirmed.
    SendConfirmation,
    /// The transmission failed.
    SendFail,
    /// Any other message.
    Unknown,
}

} // verus!
