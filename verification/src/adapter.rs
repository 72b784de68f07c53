//! State of the adapter, the reconciliation of notifications, and the
//! operations that concern the WIFI connection.
use crate::address::{byte_length, records_of, LocalAddress};
use crate::commands::{Action, Command, Event, Step};
use crate::error::{AddressErrors, CommandFailure, Error, JoinError};
use crate::stack::SocketState;
use crate::urc::URCMessages;
use vstd::prelude::*;

verus! {

/// Number of socket slots, which is the module's maximum of concurrent links.
pub const MAX_SOCKETS: usize = 5;

/// Timeout for the confirmation of a transmission, unless set otherwise.
pub const DEFAULT_SEND_TIMEOUT_MS: u32 = 5_000;

/// Longest SSID in bytes.
pub const MAX_SSID_LENGTH: usize = 32;

/// Longest password in bytes.
pub const MAX_KEY_LENGTH: usize = 63;

/// Current WIFI connection state
#[derive(Copy, Clone, Debug, PartialEq, Eq)]
pub struct JoinState {
    /// True if connected to an WIFI access point
    pub connected: bool,
    /// True if an IP was assigned
    pub ip_assigned: bool,
}

/// Position within one reconciliation pass.
#[derive(Copy, Clone, Debug, PartialEq, Eq)]
pub enum Drain {
    /// Pending notifications are polled.
    Polling,
    /// No notification is pending, and the response queue is tidied.
    Housekeeping,
}

/// Progress of one reconciliation pass after an event.
#[derive(Copy, Clone, Debug, PartialEq, Eq)]
pub enum Reconciled {
    /// The pass goes on at the given position.
    Pending(Drain),
    /// The pass is complete.
    Finished,
    /// The event does not answer what the pass asked for.
    Unexpected,
}

/// The request that an operation in flight waits to be answered.
#[derive(Copy, Clone, Debug, PartialEq, Eq)]
pub enum Phase {
    /// No operation is in flight.
    Idle,
    /// Reconciliation on its own.
    Reconcile(Drain),
    /// Join: the station mode command.
    JoinStationMode,
    /// Join: the credentials command.
    JoinAccessPoint,
    /// Join: reconciliation after the commands.
    JoinReconcile(Drain),
    /// Address query: the query command.
    Address,
    /// Socket: reconciliation before the allocation.
    SocketReconcile(Drain),
    /// Socket: the command that enables multiple connections.
    SocketMultiplex,
    /// Connect: reconciliation before the commands.
    ConnectReconcile(Drain),
    /// Connect: the command that enables the passive receiving mode.
    ConnectPassiveMode,
    /// Connect: the connect command.
    ConnectCommand,
    /// Connect: reconciliation after the connect command, with its result.
    ConnectConfirm(Drain, Result<(), Error>),
    /// Connection query: reconciliation.
    IsConnectedReconcile(Drain),
    /// Send: reconciliation before the first chunk.
    SendReconcile(Drain),
    /// Send: the announcement of the chunk at the given offset.
    SendPrepare(usize),
    /// Send: the transmission of the chunk at the given offset.
    SendTransmit(usize),
    /// Send: the start of the countdown for the chunk at the given offset.
    SendTimerStart(usize),
    /// Send: reconciliation while the confirmation of the chunk at the given
    /// offset is awaited.
    SendAwait(usize, Drain),
    /// Send: the countdown for the chunk at the given offset.
    SendTimer(usize),
    /// Send: the reset of the transport, after which the error is reported.
    SendAbort(Error),
    /// Receive: reconciliation before the first request.
    ReceiveReconcile(Drain),
    /// Receive: the request for data.
    ReceiveCommand,
    /// Receive: reconciliation after the request for data.
    ReceiveCollect(Drain),
    /// Close: reconciliation before the command.
    CloseReconcile(Drain),
    /// Close: the close command.
    CloseCommand,
    /// Close: reconciliation after the close command, with its result.
    CloseConfirm(Drain, Result<(), Error>),
}

/// Protocol state of one radio module.
///
/// The adapter performs no I/O. Each operation is a step function: the driver
/// calls it with [`Event::Start`], performs the action that it returns, and
/// calls it again with the event that answers the action, until the step is
/// [`Step::Complete`]. An event that does not answer the pending request
/// starts the operation afresh.
///
/// `TX_SIZE`: Chunk size in bytes when sending data.
/// `RX_SIZE`: Chunk size in bytes when receiving data.
#[derive(Debug)]
pub struct Adapter<const TX_SIZE: usize, const RX_SIZE: usize> {
    /// Timeout for data transmission in milliseconds
    pub send_timeout_ms: u32,
    /// Currently joined to WIFI network? Gets updated by notifications.
    pub joined: bool,
    /// True if an IP was assigned by access point. Gets updated by notifications.
    pub ip_assigned: bool,
    /// True if multiple connections have been enabled
    pub multi_connections_enabled: bool,
    /// True if socket passive receiving mode is enabled
    pub passive_mode_enabled: bool,
    /// Current socket states, array index = link_id
    pub sockets: [SocketState; 5],
    /// Buffered and not yet retrieved bytes, array index = link_id
    pub data_available: [usize; 5],
    /// Byte count that the module took over for transmission. Gets reset
    /// before each chunk is sent.
    pub recv_byte_count: Option<usize>,
    /// True => Data transmission was confirmed by a notification
    /// False => Data transmission error signaled by a notification
    /// None => Neither of both yet
    pub send_confirmed: Option<bool>,
    /// True if the module refused the last connect, since the socket is
    /// connected already.
    pub already_connected: bool,
    /// Received data that was not taken over yet
    pub data: Option<Vec<u8>>,
    /// The pending request of the operation in flight
    pub phase: Phase,
}

/// Mathematical model of an [`Adapter`].
pub struct AdapterState {
    pub send_timeout_ms: u32,
    pub joined: bool,
    pub ip_assigned: bool,
    pub multi_connections_enabled: bool,
    pub passive_mode_enabled: bool,
    pub sockets: Seq<SocketState>,
    pub data_available: Seq<usize>,
    pub recv_byte_count: Option<usize>,
    pub send_confirmed: Option<bool>,
    pub already_connected: bool,
    pub data: Option<Seq<u8>>,
    pub phase: Phase,
}

/// The counter of buffered bytes after `count` more were announced. It stops
/// at the largest number instead of wrapping.
pub open spec fn announced(available: usize, count: usize) -> usize {
    if available + count > usize::MAX {
        usize::MAX
    } else {
        (available + count) as usize
    }
}

/// The counter of buffered bytes after `length` were retrieved. It stops at
/// zero instead of wrapping.
pub open spec fn retrieved(available: usize, length: nat) -> usize {
    if available < length {
        0
    } else {
        (available - length) as usize
    }
}

/// Bytes that are announced and then retrieved leave the counter where it
/// was, unless the counter stopped at the largest number in between. A
/// counter that starts at zero is at zero again.
pub proof fn lemma_announced_then_retrieved(available: usize, count: usize)
    ensures
        available + count <= usize::MAX ==> retrieved(announced(available, count), count as nat)
            == available,
        retrieved(announced(0, count), count as nat) == 0,
{
}

/// A retrieval never takes the counter below zero: it takes off what was
/// retrieved, and where that is more than was counted, the counter is zero.
pub proof fn lemma_retrieved_bounded(available: usize, length: nat)
    ensures
        0 <= retrieved(available, length) <= available,
        length <= available ==> retrieved(available, length) == available - length,
        length >= available ==> retrieved(available, length) == 0,
{
}

/// An announcement never lowers the counter.
pub proof fn lemma_announced_monotonic(available: usize, count: usize)
    ensures
        announced(available, count) >= available,
        available + count <= usize::MAX ==> announced(available, count) == available + count,
{
}

impl AdapterState {
    /// Every slot of the pool has a state and a counter.
    pub open spec fn wf(self) -> bool {
        self.sockets.len() == MAX_SOCKETS && self.data_available.len() == MAX_SOCKETS
    }

    /// The same state with another pending request.
    pub open spec fn at(self, phase: Phase) -> Self {
        AdapterState { phase, ..self }
    }

    /// The same state with the slot `link_id` in the given socket state.
    pub open spec fn with_socket(self, link_id: int, state: SocketState) -> Self {
        AdapterState { sockets: self.sockets.update(link_id, state), ..self }
    }

    /// The same state with the given count of buffered bytes for the slot
    /// `link_id`.
    pub open spec fn with_available(self, link_id: int, count: usize) -> Self {
        AdapterState { data_available: self.data_available.update(link_id, count), ..self }
    }

    /// The state after one notification was applied. A notification for a
    /// link id outside the pool changes nothing.
    pub open spec fn notified(self, message: URCMessages) -> Self {
        match message {
            URCMessages::WifiDisconnected => AdapterState {
                joined: false,
                ip_assigned: false,
                ..self
            },
            URCMessages::ReceivedIP => AdapterState { ip_assigned: true, ..self },
            URCMessages::WifiConnected => AdapterState { joined: true, ..self },
            URCMessages::Ready => self,
            URCMessages::SocketConnected(link_id) => if link_id < MAX_SOCKETS {
                self.with_socket(link_id as int, SocketState::Connected)
            } else {
                self
            },
            URCMessages::SocketClosed(link_id) => if link_id < MAX_SOCKETS {
                self.with_socket(link_id as int, SocketState::Closing)
            } else {
                self
            },
            URCMessages::AlreadyConnected => AdapterState { already_connected: true, ..self },
            URCMessages::ReceivedBytes(count) => AdapterState {
                recv_byte_count: Some(count),
                ..self
            },
            URCMessages::DataAvailable(link_id, count) => if link_id < MAX_SOCKETS {
                self.with_available(
                    link_id as int,
                    announced(self.data_available[link_id as int], count),
                )
            } else {
                self
            },
            URCMessages::Data(bytes) => AdapterState { data: Some(bytes@), ..self },
            URCMessages::SendConfirmation => AdapterState { send_confirmed: Some(true), ..self },
            URCMessages::SendFail => AdapterState { send_confirmed: Some(false), ..self },
            URCMessages::Unknown => self,
        }
    }

    /// The connection state that a join reports.
    pub open spec fn join_state(self) -> JoinState {
        JoinState { connected: self.joined, ip_assigned: self.ip_assigned }
    }
}

impl<const TX_SIZE: usize, const RX_SIZE: usize> View for Adapter<TX_SIZE, RX_SIZE> {
    type V = AdapterState;

    open spec fn view(&self) -> AdapterState {
        AdapterState {
            send_timeout_ms: self.send_timeout_ms,
            joined: self.joined,
            ip_assigned: self.ip_assigned,
            multi_connections_enabled: self.multi_connections_enabled,
            passive_mode_enabled: self.passive_mode_enabled,
            sockets: self.sockets@,
            data_available: self.data_available@,
            recv_byte_count: self.recv_byte_count,
            send_confirmed: self.send_confirmed,
            already_connected: self.already_connected,
            data: match self.data {
                Some(bytes) => Some(bytes@),
                None => None,
            },
            phase: self.phase,
        }
    }
}

/// The model of every adapter has a state and a counter for each slot of
/// the pool.
pub proof fn lemma_view_wf<const TX_SIZE: usize, const RX_SIZE: usize>(
    adapter: Adapter<TX_SIZE, RX_SIZE>,
)
    ensures
        adapter@.wf(),
{
}

/// The state of a new adapter: not joined, no mode enabled, every slot
/// closed and empty, the default timeout.
pub open spec fn initial_state() -> AdapterState {
    AdapterState {
        send_timeout_ms: DEFAULT_SEND_TIMEOUT_MS,
        joined: false,
        ip_assigned: false,
        multi_connections_enabled: false,
        passive_mode_enabled: false,
        sockets: Seq::new(MAX_SOCKETS as nat, |i: int| SocketState::Closed),
        data_available: Seq::new(MAX_SOCKETS as nat, |i: int| 0usize),
        recv_byte_count: None,
        send_confirmed: None,
        already_connected: false,
        data: None,
        phase: Phase::Idle,
    }
}

/// The request that a reconciliation pass makes at the given position.
pub open spec fn drain_request<'a>(drain: Drain) -> Action<'a> {
    match drain {
        Drain::Polling => Action::PollNotification,
        Drain::Housekeeping => Action::Housekeeping,
    }
}

/// One step of a reconciliation pass: each pending notification is applied
/// and the next one polled; when none is left, the response queue is tidied,
/// and with that the pass is complete.
pub open spec fn reconciled(state: AdapterState, drain: Drain, event: Event) -> (
    AdapterState,
    Reconciled,
) {
    match (drain, event) {
        (Drain::Polling, Event::Notification(Some(message))) => (
            state.notified(message),
            Reconciled::Pending(Drain::Polling),
        ),
        (Drain::Polling, Event::Notification(None)) => (
            state,
            Reconciled::Pending(Drain::Housekeeping),
        ),
        (Drain::Housekeeping, Event::Acknowledged) => (state, Reconciled::Finished),
        _ => (state, Reconciled::Unexpected),
    }
}

/// One step of a reconciliation on its own.
pub open spec fn process_urc_messages_step<'a>(state: AdapterState, event: Event) -> (
    AdapterState,
    Step<'a, ()>,
) {
    let (next, progress) = match state.phase {
        Phase::Reconcile(drain) => reconciled(state, drain, event),
        _ => (state, Reconciled::Unexpected),
    };
    match progress {
        Reconciled::Pending(drain) => (
            next.at(Phase::Reconcile(drain)),
            Step::Perform(drain_request(drain)),
        ),
        Reconciled::Finished => (next.at(Phase::Idle), Step::Complete(())),
        Reconciled::Unexpected => (
            state.at(Phase::Reconcile(Drain::Polling)),
            Step::Perform(Action::PollNotification),
        ),
    }
}

/// The credentials are short enough for the module.
pub open spec fn credentials_result(ssid: Seq<char>, key: Seq<char>) -> Result<(), JoinError> {
    if byte_length(ssid) > MAX_SSID_LENGTH {
        Err(JoinError::InvalidSSDLength)
    } else if byte_length(key) > MAX_KEY_LENGTH {
        Err(JoinError::InvalidPasswordLength)
    } else {
        Ok(())
    }
}

/// The error of a join whose station mode command failed.
pub open spec fn mode_failure(failure: CommandFailure) -> JoinError {
    match failure {
        CommandFailure::WouldBlock => JoinError::UnexpectedWouldBlock,
        CommandFailure::Other(cause) => JoinError::ModeError(cause),
    }
}

/// The error of a join whose credentials command failed.
pub open spec fn credentials_failure(failure: CommandFailure) -> JoinError {
    match failure {
        CommandFailure::WouldBlock => JoinError::UnexpectedWouldBlock,
        CommandFailure::Other(cause) => JoinError::ConnectError(cause),
    }
}

/// How a join starts: credentials that are too long are refused before any
/// command is issued; else the station mode is set.
pub open spec fn join_start<'a>(state: AdapterState, ssid: &'a str, key: &'a str) -> (
    AdapterState,
    Step<'a, Result<JoinState, JoinError>>,
) {
    match credentials_result(ssid@, key@) {
        Err(error) => (state.at(Phase::Idle), Step::Complete(Err(error))),
        Ok(()) => (
            state.at(Phase::JoinStationMode),
            Step::Perform(Action::Command(Command::StationMode)),
        ),
    }
}

/// One step of a join: the station mode is set, then the credentials, then
/// the notifications are reconciled, and the connection state that they leave
/// is the result. A failed command ends the join with its error.
pub open spec fn join_step<'a>(state: AdapterState, ssid: &'a str, key: &'a str, event: Event) -> (
    AdapterState,
    Step<'a, Result<JoinState, JoinError>>,
) {
    match (state.phase, event) {
        (Phase::JoinStationMode, Event::Reply(Err(failure))) => (
            state.at(Phase::Idle),
            Step::Complete(Err(mode_failure(failure))),
        ),
        (Phase::JoinStationMode, Event::Reply(Ok(()))) => match credentials_result(ssid@, key@) {
            Err(error) => (state.at(Phase::Idle), Step::Complete(Err(error))),
            Ok(()) => (
                state.at(Phase::JoinAccessPoint),
                Step::Perform(Action::Command(Command::AccessPointConnect { ssid, key })),
            ),
        },
        (Phase::JoinAccessPoint, Event::Reply(Err(failure))) => (
            state.at(Phase::Idle),
            Step::Complete(Err(credentials_failure(failure))),
        ),
        (Phase::JoinAccessPoint, Event::Reply(Ok(()))) => (
            state.at(Phase::JoinReconcile(Drain::Polling)),
            Step::Perform(Action::PollNotification),
        ),
        (Phase::JoinReconcile(drain), event) => {
            let (next, progress) = reconciled(state, drain, event);
            match progress {
                Reconciled::Pending(drain) => (
                    next.at(Phase::JoinReconcile(drain)),
                    Step::Perform(drain_request(drain)),
                ),
                Reconciled::Finished => (
                    next.at(Phase::Idle),
                    Step::Complete(Ok(next.join_state())),
                ),
                Reconciled::Unexpected => join_start(state, ssid, key),
            }
        },
        _ => join_start(state, ssid, key),
    }
}

/// The error of a failed address query.
pub open spec fn address_failure(failure: CommandFailure) -> AddressErrors {
    match failure {
        CommandFailure::WouldBlock => AddressErrors::UnexpectedWouldBlock,
        CommandFailure::Other(cause) => AddressErrors::CommandError(cause),
    }
}

impl<const TX_SIZE: usize, const RX_SIZE: usize> Adapter<TX_SIZE, RX_SIZE> {
    /// Creates the state for a module that was just started.
    pub fn new() -> (adapter: Self)
        ensures
            adapter@ == initial_state(),
    {
        let adapter = Self {
            send_timeout_ms: DEFAULT_SEND_TIMEOUT_MS,
            joined: false,
            ip_assigned: false,
            multi_connections_enabled: false,
            passive_mode_enabled: false,
            sockets: [SocketState::Closed; 5],
            data_available: [0; 5],
            recv_byte_count: None,
            send_confirmed: None,
            already_connected: false,
            data: None,
            phase: Phase::Idle,
        };
        assert(adapter@.sockets =~= initial_state().sockets);
        assert(adapter@.data_available =~= initial_state().data_available);
        adapter
    }

    /// Sets the timeout for sending TCP data in ms
    pub fn set_send_timeout_ms(&mut self, timeout: u32)
        ensures
            final(self)@ == (AdapterState { send_timeout_ms: timeout, ..old(self)@ }),
    {
        self.send_timeout_ms = timeout;
    }

    /// Applies a single polled notification. Returns false, if no
    /// notification was pending.
    pub fn handle_single_urc(&mut self, message: Option<URCMessages>) -> (pending: bool)
        ensures
            pending == message is Some,
            final(self)@ == (match message {
                Some(message) => old(self)@.notified(message),
                None => old(self)@,
            }),
    {
        match message {
            Some(URCMessages::WifiDisconnected) => {
                self.joined = false;
                self.ip_assigned = false;
            },
            Some(URCMessages::ReceivedIP) => {
                self.ip_assigned = true;
            },
            Some(URCMessages::WifiConnected) => {
                self.joined = true;
            },
            Some(URCMessages::Ready) => {},
            Some(URCMessages::SocketConnected(link_id)) => {
                if link_id < MAX_SOCKETS {
                    self.sockets[link_id] = SocketState::Connected;
                }
            },
            Some(URCMessages::SocketClosed(link_id)) => {
                if link_id < MAX_SOCKETS {
                    self.sockets[link_id] = SocketState::Closing;
                }
            },
            Some(URCMessages::AlreadyConnected) => {
                self.already_connected = true;
            },
            Some(URCMessages::ReceivedBytes(count)) => {
                self.recv_byte_count = Some(count);
            },
            Some(URCMessages::DataAvailable(link_id, count)) => {
                if link_id < MAX_SOCKETS {
                    let available: usize = self.data_available[link_id];
                    self.data_available[link_id] = if count > usize::MAX - available {
                        usize::MAX
                    } else {
                        available + count
                    };
                }
            },
            Some(URCMessages::Data(bytes)) => {
                self.data = Some(bytes);
            },
            Some(URCMessages::SendConfirmation) => {
                self.send_confirmed = Some(true);
            },
            Some(URCMessages::SendFail) => {
                self.send_confirmed = Some(false);
            },
            Some(URCMessages::Unknown) => {},
            None => {
                return false;
            },
        }
        true
    }

    /// Feeds one event to a reconciliation pass at the given position.
    pub fn reconcile(&mut self, drain: Drain, event: Event) -> (progress: Reconciled)
        ensures
            (final(self)@, progress) == reconciled(old(self)@, drain, event),
    {
        match (drain, event) {
            (Drain::Polling, Event::Notification(message)) => {
                if self.handle_single_urc(message) {
                    Reconciled::Pending(Drain::Polling)
                } else {
                    Reconciled::Pending(Drain::Housekeeping)
                }
            },
            (Drain::Housekeeping, Event::Acknowledged) => Reconciled::Finished,
            _ => Reconciled::Unexpected,
        }
    }

    /// Processes all pending notifications, step by step.
    pub fn process_urc_messages<'a>(&mut self, event: Event) -> (step: Step<'a, ()>)
        ensures
            (final(self)@, step) == process_urc_messages_step::<'a>(old(self)@, event),
    {
        let progress = match self.phase {
            Phase::Reconcile(drain) => self.reconcile(drain, event),
            _ => Reconciled::Unexpected,
        };
        match progress {
            Reconciled::Pending(drain) => {
                self.phase = Phase::Reconcile(drain);
                Step::Perform(drain_action(drain))
            },
            Reconciled::Finished => {
                self.phase = Phase::Idle;
                Step::Complete(())
            },
            Reconciled::Unexpected => {
                self.phase = Phase::Reconcile(Drain::Polling);
                Step::Perform(Action::PollNotification)
            },
        }
    }

    /// Checks the credentials and builds the command that hands them to the
    /// module.
    pub fn connect_access_point<'a>(ssid: &'a str, key: &'a str) -> (r: Result<
        Command<'a>,
        JoinError,
    >)
        ensures
            r == (match credentials_result(ssid@, key@) {
                Ok(()) => Ok::<Command<'a>, JoinError>(Command::AccessPointConnect { ssid, key }),
                Err(error) => Err::<Command<'a>, JoinError>(error),
            }),
    {
        if ssid.as_bytes().len() > MAX_SSID_LENGTH {
            return Err(JoinError::InvalidSSDLength);
        }
        if key.as_bytes().len() > MAX_KEY_LENGTH {
            return Err(JoinError::InvalidPasswordLength);
        }
        Ok(Command::AccessPointConnect { ssid, key })
    }

    /// Starts a join.
    fn set_station_mode<'a>(&mut self, ssid: &'a str, key: &'a str) -> (step: Step<
        'a,
        Result<JoinState, JoinError>,
    >)
        ensures
            (final(self)@, step) == join_start(old(self)@, ssid, key),
    {
        match Self::connect_access_point(ssid, key) {
            Err(error) => {
                self.phase = Phase::Idle;
                Step::Complete(Err(error))
            },
            Ok(_) => {
                self.phase = Phase::JoinStationMode;
                Step::Perform(Action::Command(Command::StationMode))
            },
        }
    }

    /// Connects to an WIFI access point and returns the connection state,
    /// step by step.
    ///
    /// Note:
    /// If the connection was not successful or is lost, the module will try
    /// independently from time to time to establish connection to the
    /// network.
    pub fn join<'a>(&mut self, ssid: &'a str, key: &'a str, event: Event) -> (step: Step<
        'a,
        Result<JoinState, JoinError>,
    >)
        ensures
            (final(self)@, step) == join_step(old(self)@, ssid, key, event),
            credentials_result(ssid@, key@) is Err ==> !(step matches Step::Perform(
                Action::Command(_),
            )),
    {
        match (self.phase, event) {
            (Phase::JoinStationMode, Event::Reply(Err(failure))) => {
                self.phase = Phase::Idle;
                Step::Complete(
                    Err(
                        match failure {
                            CommandFailure::WouldBlock => JoinError::UnexpectedWouldBlock,
                            CommandFailure::Other(cause) => JoinError::ModeError(cause),
                        },
                    ),
                )
            },
            (Phase::JoinStationMode, Event::Reply(Ok(()))) => {
                match Self::connect_access_point(ssid, key) {
                    Err(error) => {
                        self.phase = Phase::Idle;
                        Step::Complete(Err(error))
                    },
                    Ok(command) => {
                        self.phase = Phase::JoinAccessPoint;
                        Step::Perform(Action::Command(command))
                    },
                }
            },
            (Phase::JoinAccessPoint, Event::Reply(Err(failure))) => {
                self.phase = Phase::Idle;
                Step::Complete(
                    Err(
                        match failure {
                            CommandFailure::WouldBlock => JoinError::UnexpectedWouldBlock,
                            CommandFailure::Other(cause) => JoinError::ConnectError(cause),
                        },
                    ),
                )
            },
            (Phase::JoinAccessPoint, Event::Reply(Ok(()))) => {
                self.phase = Phase::JoinReconcile(Drain::Polling);
                Step::Perform(Action::PollNotification)
            },
            (Phase::JoinReconcile(drain), event) => {
                match self.reconcile(drain, event) {
                    Reconciled::Pending(drain) => {
                        self.phase = Phase::JoinReconcile(drain);
                        Step::Perform(drain_action(drain))
                    },
                    Reconciled::Finished => {
                        self.phase = Phase::Idle;
                        Step::Complete(
                            Ok(JoinState { connected: self.joined, ip_assigned: self.ip_assigned }),
                        )
                    },
                    Reconciled::Unexpected => self.set_station_mode(ssid, key),
                }
            },
            _ => self.set_station_mode(ssid, key),
        }
    }

    /// Returns local address information, step by step: the query is sent,
    /// and its answer is parsed.
    pub fn get_address<'a>(&mut self, event: Event) -> (step: Step<
        'a,
        Result<LocalAddress, AddressErrors>,
    >)
        ensures
            final(self)@ == old(self)@.at(final(self).phase),
            old(self).phase == Phase::Address && event is Addresses ==> final(self).phase
                == Phase::Idle && step is Complete,
            old(self).phase == Phase::Address ==> (match event {
                Event::Addresses(Ok(responses)) => step matches Step::Complete(result)
                    && LocalAddress::from_responses_ensures(records_of(responses), result),
                Event::Addresses(Err(failure)) => step == Step::<
                    'a,
                    Result<LocalAddress, AddressErrors>,
                >::Complete(Err(address_failure(failure))),
                _ => true,
            }),
            !(old(self).phase == Phase::Address && event is Addresses) ==> final(self).phase
                == Phase::Address && step == Step::<
                'a,
                Result<LocalAddress, AddressErrors>,
            >::Perform(Action::Command(Command::ObtainLocalAddress)),
    {
        match (self.phase, event) {
            (Phase::Address, Event::Addresses(Ok(responses))) => {
                self.phase = Phase::Idle;
                Step::Complete(LocalAddress::from_responses(responses))
            },
            (Phase::Address, Event::Addresses(Err(failure))) => {
                self.phase = Phase::Idle;
                Step::Complete(
                    Err(
                        match failure {
                            CommandFailure::WouldBlock => AddressErrors::UnexpectedWouldBlock,
                            CommandFailure::Other(cause) => AddressErrors::CommandError(cause),
                        },
                    ),
                )
            },
            _ => {
                self.phase = Phase::Address;
                Step::Perform(Action::Command(Command::ObtainLocalAddress))
            },
        }
    }
}

/// The request that a reconciliation pass makes at the given position.
pub fn drain_action<'a>(drain: Drain) -> (action: Action<'a>)
    ensures
        action == drain_request::<'a>(drain),
{
    match drain {
        Drain::Polling => Action::PollNotification,
        Drain::Housekeeping => Action::Housekeeping,
    }
}

} // verus!
