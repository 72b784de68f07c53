//! The pool of socket slots: allocation, connect, connection query and
//! teardown.
use crate::adapter::{
    drain_action, drain_request, reconciled, Adapter, AdapterState, Drain, Phase, Reconciled,
    MAX_SOCKETS,
};
use crate::commands::{Action, Command, Event, Intent, Step};
use crate::error::{Error, NbError};
use embedded_nal::SocketAddr;
use vstd::prelude::*;

verus! {

/// Unique socket for a network connection
#[derive(Debug, PartialEq, Eq)]
pub struct Socket {
    /// Unique link id of the module
    pub link_id: usize,
}

impl Socket {
    /// The socket names a slot of the pool.
    pub open spec fn wf(&self) -> bool {
        self.link_id < MAX_SOCKETS
    }

    /// The handle for the slot with the given link id.
    pub fn new(link_id: usize) -> (socket: Self)
        ensures
            socket.link_id == link_id,
    {
        Self { link_id }
    }
}

/// Internal connection state
#[derive(Copy, Clone, PartialEq, Eq, Debug, Structural)]
pub enum SocketState {
    /// Socket is closed and may be (re)used
    Closed,
    /// Socket was handed out but is not connected yet
    Open,
    /// Connection is fully open
    Connected,
    /// Socket was closed by the remote side, but the socket object still
    /// exists and needs to be fully closed.
    Closing,
}

/// The slot `link_id` is closed, and no slot before it is.
pub open spec fn is_first_closed(sockets: Seq<SocketState>, link_id: int) -> bool {
    &&& 0 <= link_id < sockets.len()
    &&& sockets[link_id] == SocketState::Closed
    &&& forall|i: int| 0 <= i < link_id ==> sockets[i] != SocketState::Closed
}

/// Some slot is closed.
pub open spec fn has_closed(sockets: Seq<SocketState>) -> bool {
    exists|i: int| 0 <= i < sockets.len() && sockets[i] == SocketState::Closed
}

/// Number of slots that are not closed.
pub open spec fn in_use(sockets: Seq<SocketState>) -> nat
    decreases sockets.len(),
{
    if sockets.len() == 0 {
        0
    } else {
        in_use(sockets.drop_last()) + (if sockets.last() == SocketState::Closed {
            0nat
        } else {
            1nat
        })
    }
}

/// The allocation of a slot: the first closed slot is opened and handed out;
/// if no slot is closed, the allocation fails and nothing changes.
pub open spec fn opened(state: AdapterState) -> (AdapterState, Result<Socket, Error>) {
    if has_closed(state.sockets) {
        let link_id = choose|i: int| is_first_closed(state.sockets, i);
        (
            state.with_socket(link_id, SocketState::Open),
            Ok(Socket { link_id: link_id as usize }),
        )
    } else {
        (state, Err(Error::NoSocketAvailable))
    }
}

/// One for a slot that is in use, zero for a closed one.
pub open spec fn used(state: SocketState) -> nat {
    if state == SocketState::Closed {
        0
    } else {
        1
    }
}

/// Never more slots are in use than the pool has.
pub proof fn lemma_in_use_bounded(sockets: Seq<SocketState>)
    ensures
        in_use(sockets) <= sockets.len(),
    decreases sockets.len(),
{
    if sockets.len() > 0 {
        lemma_in_use_bounded(sockets.drop_last());
    }
}

/// Every slot of the pool is in use if and only if no slot is closed.
pub proof fn lemma_in_use_all(sockets: Seq<SocketState>)
    ensures
        in_use(sockets) == sockets.len() <==> !has_closed(sockets),
    decreases sockets.len(),
{
    if sockets.len() > 0 {
        let front = sockets.drop_last();
        lemma_in_use_all(front);
        lemma_in_use_bounded(front);
        if has_closed(front) {
            let i = choose|i: int| 0 <= i < front.len() && front[i] == SocketState::Closed;
            assert(sockets[i] == SocketState::Closed);
        }
        if has_closed(sockets) && sockets.last() != SocketState::Closed {
            let i = choose|i: int| 0 <= i < sockets.len() && sockets[i] == SocketState::Closed;
            assert(front[i] == SocketState::Closed);
        }
        if sockets.last() == SocketState::Closed {
            assert(sockets[sockets.len() - 1] == SocketState::Closed);
        }
    }
}

/// A change of one slot changes the number of slots in use by what the slot
/// counted before and counts after.
pub proof fn lemma_in_use_update(sockets: Seq<SocketState>, link_id: int, state: SocketState)
    requires
        0 <= link_id < sockets.len(),
    ensures
        in_use(sockets.update(link_id, state)) + used(sockets[link_id]) == in_use(sockets) + used(
            state,
        ),
    decreases sockets.len(),
{
    let changed = sockets.update(link_id, state);
    if link_id == sockets.len() - 1 {
        assert(changed.drop_last() =~= sockets.drop_last());
    } else {
        assert(changed.drop_last() =~= sockets.drop_last().update(link_id, state));
        lemma_in_use_update(sockets.drop_last(), link_id, state);
    }
}

/// A closed slot exists if and only if a first one does, and there is only
/// one first closed slot.
pub proof fn lemma_first_closed(sockets: Seq<SocketState>)
    ensures
        has_closed(sockets) <==> exists|i: int| is_first_closed(sockets, i),
        forall|i: int, j: int|
            is_first_closed(sockets, i) && is_first_closed(sockets, j) ==> i == j,
    decreases sockets.len(),
{
    if sockets.len() > 0 {
        let front = sockets.drop_last();
        lemma_first_closed(front);
        if has_closed(front) {
            let i = choose|i: int| is_first_closed(front, i);
            assert(is_first_closed(front, i));
            assert(sockets[i] == front[i]);
            assert forall|k: int| 0 <= k < i implies sockets[k] != SocketState::Closed by {
                assert(sockets[k] == front[k]);
            }
            assert(is_first_closed(sockets, i));
        } else if has_closed(sockets) {
            let i = choose|i: int| 0 <= i < sockets.len() && sockets[i] == SocketState::Closed;
            if i < front.len() {
                assert(front[i] == SocketState::Closed);
            }
            assert forall|k: int| 0 <= k < sockets.len() - 1 implies sockets[k]
                != SocketState::Closed by {
                if sockets[k] == SocketState::Closed {
                    assert(front[k] == SocketState::Closed);
                }
            }
            assert(is_first_closed(sockets, sockets.len() - 1));
        }
    }
    if exists|i: int| is_first_closed(sockets, i) {
        let i = choose|i: int| is_first_closed(sockets, i);
        assert(0 <= i < sockets.len() && sockets[i] == SocketState::Closed);
    }
}

/// The allocation fails, with [`Error::NoSocketAvailable`] and without any
/// change, exactly when every slot of the pool is in use. Else it hands out
/// the first closed slot and opens it, so that one slot more is in use, and
/// still no more than the pool has.
pub proof fn lemma_opened(state: AdapterState)
    requires
        state.wf(),
    ensures
        opened(state).1 is Err <==> in_use(state.sockets) == MAX_SOCKETS,
        opened(state).1 is Err ==> opened(state) == (
            state,
            Err::<Socket, Error>(Error::NoSocketAvailable),
        ),
        opened(state).1 matches Ok(socket) ==> {
            &&& socket.wf()
            &&& is_first_closed(state.sockets, socket.link_id as int)
            &&& opened(state).0 == state.with_socket(socket.link_id as int, SocketState::Open)
            &&& in_use(opened(state).0.sockets) == in_use(state.sockets) + 1
        },
        opened(state).0.wf(),
        in_use(opened(state).0.sockets) <= MAX_SOCKETS,
{
    lemma_in_use_all(state.sockets);
    lemma_first_closed(state.sockets);
    lemma_in_use_bounded(opened(state).0.sockets);
    if has_closed(state.sockets) {
        let link_id = choose|i: int| is_first_closed(state.sockets, i);
        lemma_in_use_update(state.sockets, link_id, SocketState::Open);
    }
}

/// A request to the pool: the allocation of a slot, or the release of the
/// slot with the given link id.
pub enum PoolRequest {
    Allocate,
    Release(usize),
}

/// The slots after a sequence of allocations and releases. A release of a
/// link id outside the pool changes nothing.
pub open spec fn pool_after(state: AdapterState, requests: Seq<PoolRequest>) -> AdapterState
    decreases requests.len(),
{
    if requests.len() == 0 {
        state
    } else {
        let before = pool_after(state, requests.drop_last());
        match requests.last() {
            PoolRequest::Allocate => opened(before).0,
            PoolRequest::Release(link_id) => if link_id < MAX_SOCKETS {
                before.with_socket(link_id as int, SocketState::Closed)
            } else {
                before
            },
        }
    }
}

/// After any sequence of allocations and releases, no more slots are in use
/// than the pool has, and a further allocation fails exactly when all of
/// them are in use.
pub proof fn lemma_pool_is_bounded(state: AdapterState, requests: Seq<PoolRequest>)
    requires
        state.wf(),
    ensures
        pool_after(state, requests).wf(),
        in_use(pool_after(state, requests).sockets) <= MAX_SOCKETS,
        opened(pool_after(state, requests)).1 is Err <==> in_use(
            pool_after(state, requests).sockets,
        ) == MAX_SOCKETS,
    decreases requests.len(),
{
    if requests.len() > 0 {
        let before = pool_after(state, requests.drop_last());
        lemma_pool_is_bounded(state, requests.drop_last());
        lemma_opened(before);
    }
    lemma_in_use_bounded(pool_after(state, requests).sockets);
    lemma_opened(pool_after(state, requests));
}

/// The last step of the socket operation: the allocation.
pub open spec fn socket_allocate<'a>(state: AdapterState) -> (
    AdapterState,
    Step<'a, Result<Socket, Error>>,
) {
    let (next, result) = opened(state);
    (next.at(Phase::Idle), Step::Complete(result))
}

/// How the socket operation starts.
pub open spec fn socket_start<'a>(state: AdapterState) -> (
    AdapterState,
    Step<'a, Result<Socket, Error>>,
) {
    (state.at(Phase::SocketReconcile(Drain::Polling)), Step::Perform(Action::PollNotification))
}

/// Multiple connections are enabled before a slot is allocated: the command
/// is sent unless the mode was enabled before.
pub open spec fn multiple_connections_ensured<'a>(state: AdapterState) -> (
    AdapterState,
    Step<'a, Result<Socket, Error>>,
) {
    if state.multi_connections_enabled {
        socket_allocate(state)
    } else {
        (
            state.at(Phase::SocketMultiplex),
            Step::Perform(Action::Command(Command::MultipleConnections)),
        )
    }
}

/// One step of the socket operation: the notifications are reconciled,
/// multiple connections are enabled unless they were before, and a slot is
/// allocated.
pub open spec fn socket_step<'a>(state: AdapterState, event: Event) -> (
    AdapterState,
    Step<'a, Result<Socket, Error>>,
) {
    match (state.phase, event) {
        (Phase::SocketReconcile(drain), event) => {
            let (next, progress) = reconciled(state, drain, event);
            match progress {
                Reconciled::Pending(drain) => (
                    next.at(Phase::SocketReconcile(drain)),
                    Step::Perform(drain_request(drain)),
                ),
                Reconciled::Finished => multiple_connections_ensured(next),
                Reconciled::Unexpected => socket_start(state),
            }
        },
        (Phase::SocketMultiplex, Event::Reply(reply)) => match Intent::MultipleConnections.outcome(
            reply,
        ) {
            Ok(()) => socket_allocate(AdapterState { multi_connections_enabled: true, ..state }),
            Err(error) => (state.at(Phase::Idle), Step::Complete(Err(error))),
        },
        _ => socket_start(state),
    }
}

/// How a connect starts.
pub open spec fn connect_start<'a>(state: AdapterState) -> (
    AdapterState,
    Step<'a, Result<(), NbError<Error>>>,
) {
    (state.at(Phase::ConnectReconcile(Drain::Polling)), Step::Perform(Action::PollNotification))
}

/// The connect command is issued, and the record of a refused connect is
/// cleared before.
pub open spec fn connect_issue<'a>(state: AdapterState, link_id: usize, remote: SocketAddr) -> (
    AdapterState,
    Step<'a, Result<(), NbError<Error>>>,
) {
    (
        AdapterState { already_connected: false, phase: Phase::ConnectCommand, ..state },
        Step::Perform(Action::Command(Command::Connect { link_id, remote })),
    )
}

/// The passive receiving mode is enabled before a socket is connected: the
/// command is sent unless the mode was enabled before.
pub open spec fn passive_mode_ensured<'a>(
    state: AdapterState,
    link_id: usize,
    remote: SocketAddr,
) -> (AdapterState, Step<'a, Result<(), NbError<Error>>>) {
    if state.passive_mode_enabled {
        connect_issue(state, link_id, remote)
    } else {
        (
            state.at(Phase::ConnectPassiveMode),
            Step::Perform(Action::Command(Command::PassiveReceiving)),
        )
    }
}

/// The last step of a connect, once the notifications that followed the
/// command are reconciled.
///
/// If the module refused the connect since the socket is connected already,
/// a notification was missed: the slot is set to connected and the connect
/// succeeds, whatever the command returned. Else the command's error is
/// reported; a success without the notification that confirms it is an
/// error too. Every connect that succeeds, on either way, leaves the slot
/// connected and with no buffered bytes.
pub open spec fn connect_confirmed<'a>(
    state: AdapterState,
    link_id: usize,
    result: Result<(), Error>,
) -> (AdapterState, Step<'a, Result<(), NbError<Error>>>) {
    if state.already_connected {
        (
            state.with_socket(link_id as int, SocketState::Connected).with_available(
                link_id as int,
                0,
            ).at(Phase::Idle),
            Step::Complete(Ok(())),
        )
    } else {
        match result {
            Err(error) => (state.at(Phase::Idle), Step::Complete(Err(NbError::Other(error)))),
            Ok(()) => if state.sockets[link_id as int] != SocketState::Connected {
                (
                    state.at(Phase::Idle),
                    Step::Complete(Err(NbError::Other(Error::UnconfirmedSocketState))),
                )
            } else {
                (state.with_available(link_id as int, 0).at(Phase::Idle), Step::Complete(Ok(())))
            },
        }
    }
}

/// One step of a connect: the notifications are reconciled, a socket that
/// is connected is refused, the passive receiving mode is enabled unless it
/// was before, the connect command is sent, the notifications are reconciled
/// again, and the outcome is decided.
pub open spec fn connect_step<'a>(
    state: AdapterState,
    link_id: usize,
    remote: SocketAddr,
    event: Event,
) -> (AdapterState, Step<'a, Result<(), NbError<Error>>>) {
    match (state.phase, event) {
        (Phase::ConnectReconcile(drain), event) => {
            let (next, progress) = reconciled(state, drain, event);
            match progress {
                Reconciled::Pending(drain) => (
                    next.at(Phase::ConnectReconcile(drain)),
                    Step::Perform(drain_request(drain)),
                ),
                Reconciled::Finished => if next.sockets[link_id as int]
                    == SocketState::Connected {
                    (
                        next.at(Phase::Idle),
                        Step::Complete(Err(NbError::Other(Error::AlreadyConnected))),
                    )
                } else {
                    passive_mode_ensured(next, link_id, remote)
                },
                Reconciled::Unexpected => connect_start(state),
            }
        },
        (Phase::ConnectPassiveMode, Event::Reply(reply)) => match Intent::PassiveReceiving.outcome(
            reply,
        ) {
            Ok(()) => connect_issue(
                AdapterState { passive_mode_enabled: true, ..state },
                link_id,
                remote,
            ),
            Err(error) => (state.at(Phase::Idle), Step::Complete(Err(NbError::Other(error)))),
        },
        (Phase::ConnectCommand, Event::Reply(reply)) => (
            state.at(Phase::ConnectConfirm(Drain::Polling, Intent::Connect.outcome(reply))),
            Step::Perform(Action::PollNotification),
        ),
        (Phase::ConnectConfirm(drain, result), event) => {
            let (next, progress) = reconciled(state, drain, event);
            match progress {
                Reconciled::Pending(drain) => (
                    next.at(Phase::ConnectConfirm(drain, result)),
                    Step::Perform(drain_request(drain)),
                ),
                Reconciled::Finished => connect_confirmed(next, link_id, result),
                Reconciled::Unexpected => connect_start(state),
            }
        },
        _ => connect_start(state),
    }
}

/// One step of the connection query: the notifications are reconciled, and
/// the socket is connected if its slot is. The query never fails.
pub open spec fn is_connected_step<'a>(state: AdapterState, link_id: usize, event: Event) -> (
    AdapterState,
    Step<'a, Result<bool, Error>>,
) {
    let (next, progress) = match state.phase {
        Phase::IsConnectedReconcile(drain) => reconciled(state, drain, event),
        _ => (state, Reconciled::Unexpected),
    };
    match progress {
        Reconciled::Pending(drain) => (
            next.at(Phase::IsConnectedReconcile(drain)),
            Step::Perform(drain_request(drain)),
        ),
        Reconciled::Finished => (
            next.at(Phase::Idle),
            Step::Complete(Ok(next.sockets[link_id as int] == SocketState::Connected)),
        ),
        Reconciled::Unexpected => (
            state.at(Phase::IsConnectedReconcile(Drain::Polling)),
            Step::Perform(Action::PollNotification),
        ),
    }
}

/// How a close starts.
pub open spec fn close_start<'a>(state: AdapterState) -> (
    AdapterState,
    Step<'a, Result<(), Error>>,
) {
    (state.at(Phase::CloseReconcile(Drain::Polling)), Step::Perform(Action::PollNotification))
}

/// The result of a close whose command returned `result`: a success counts
/// only if a notification set the slot to closing.
pub open spec fn close_result(observed: SocketState, result: Result<(), Error>) -> Result<
    (),
    Error,
> {
    if observed != SocketState::Closing && result is Ok {
        Err(Error::UnconfirmedSocketState)
    } else {
        result
    }
}

/// One step of a close: the notifications are reconciled; a slot that was
/// never connected or that the remote side closed is closed without a
/// command; else the close command is sent, the notifications are
/// reconciled again, and the slot is closed whatever the outcome.
pub open spec fn close_step<'a>(state: AdapterState, link_id: usize, event: Event) -> (
    AdapterState,
    Step<'a, Result<(), Error>>,
) {
    match (state.phase, event) {
        (Phase::CloseReconcile(drain), event) => {
            let (next, progress) = reconciled(state, drain, event);
            match progress {
                Reconciled::Pending(drain) => (
                    next.at(Phase::CloseReconcile(drain)),
                    Step::Perform(drain_request(drain)),
                ),
                Reconciled::Finished => if next.sockets[link_id as int] == SocketState::Closing
                    || next.sockets[link_id as int] == SocketState::Open {
                    (
                        next.with_socket(link_id as int, SocketState::Closed).at(Phase::Idle),
                        Step::Complete(Ok(())),
                    )
                } else {
                    (
                        next.at(Phase::CloseCommand),
                        Step::Perform(Action::Command(Command::CloseSocket { link_id })),
                    )
                },
                Reconciled::Unexpected => close_start(state),
            }
        },
        (Phase::CloseCommand, Event::Reply(reply)) => (
            state.at(Phase::CloseConfirm(Drain::Polling, Intent::CloseSocket.outcome(reply))),
            Step::Perform(Action::PollNotification),
        ),
        (Phase::CloseConfirm(drain, result), event) => {
            let (next, progress) = reconciled(state, drain, event);
            match progress {
                Reconciled::Pending(drain) => (
                    next.at(Phase::CloseConfirm(drain, result)),
                    Step::Perform(drain_request(drain)),
                ),
                Reconciled::Finished => (
                    next.with_socket(link_id as int, SocketState::Closed).at(Phase::Idle),
                    Step::Complete(close_result(next.sockets[link_id as int], result)),
                ),
                Reconciled::Unexpected => close_start(state),
            }
        },
        _ => close_start(state),
    }
}

impl<const TX_SIZE: usize, const RX_SIZE: usize> Adapter<TX_SIZE, RX_SIZE> {
    /// Assigns a free link id. Returns an error in case no more free sockets
    /// are available.
    pub fn open_socket(&mut self) -> (r: Result<Socket, Error>)
        ensures
            (final(self)@, r) == opened(old(self)@),
            r is Err <==> forall|i: int|
                0 <= i < MAX_SOCKETS ==> old(self)@.sockets[i] != SocketState::Closed,
            r matches Ok(socket) ==> socket.wf() && is_first_closed(
                old(self)@.sockets,
                socket.link_id as int,
            ),
    {
        let mut link_id: usize = 0;
        while link_id < MAX_SOCKETS
            invariant
                link_id <= MAX_SOCKETS,
                *self == *old(self),
                forall|i: int| 0 <= i < link_id ==> self@.sockets[i] != SocketState::Closed,
            decreases MAX_SOCKETS - link_id,
        {
            if self.sockets[link_id] == SocketState::Closed {
                assert(is_first_closed(self@.sockets, link_id as int));
                self.sockets[link_id] = SocketState::Open;
                return Ok(Socket::new(link_id));
            }
            link_id = link_id + 1;
        }
        Err(Error::NoSocketAvailable)
    }

    /// Allocates a slot as the last step of the socket operation.
    fn allocate<'a>(&mut self) -> (step: Step<'a, Result<Socket, Error>>)
        ensures
            (final(self)@, step) == socket_allocate::<'a>(old(self)@),
    {
        let result = self.open_socket();
        self.phase = Phase::Idle;
        Step::Complete(result)
    }

    /// Enables multiple connections. The command is just sent once, and the
    /// slot is allocated at once where it was sent before.
    fn enable_multiple_connections<'a>(&mut self) -> (step: Step<'a, Result<Socket, Error>>)
        ensures
            (final(self)@, step) == multiple_connections_ensured::<'a>(old(self)@),
    {
        if self.multi_connections_enabled {
            return self.allocate();
        }
        self.phase = Phase::SocketMultiplex;
        Step::Perform(Action::Command(Command::MultipleConnections))
    }

    /// Opens and returns a new socket, step by step. Five parallel sockets
    /// are supported. If no socket is available
    /// [`Error::NoSocketAvailable`] is returned.
    ///
    /// On first call the module is configured to support multiple
    /// connections.
    pub fn socket<'a>(&mut self, event: Event) -> (step: Step<'a, Result<Socket, Error>>)
        ensures
            (final(self)@, step) == socket_step::<'a>(old(self)@, event),
    {
        match (self.phase, event) {
            (Phase::SocketReconcile(drain), event) => {
                match self.reconcile(drain, event) {
                    Reconciled::Pending(drain) => {
                        self.phase = Phase::SocketReconcile(drain);
                        Step::Perform(drain_action(drain))
                    },
                    Reconciled::Finished => self.enable_multiple_connections(),
                    Reconciled::Unexpected => {
                        self.phase = Phase::SocketReconcile(Drain::Polling);
                        Step::Perform(Action::PollNotification)
                    },
                }
            },
            (Phase::SocketMultiplex, Event::Reply(reply)) => {
                match Intent::MultipleConnections.send_command(reply) {
                    Ok(()) => {
                        self.multi_connections_enabled = true;
                        self.allocate()
                    },
                    Err(error) => {
                        self.phase = Phase::Idle;
                        Step::Complete(Err(error))
                    },
                }
            },
            _ => {
                self.phase = Phase::SocketReconcile(Drain::Polling);
                Step::Perform(Action::PollNotification)
            },
        }
    }

    /// Issues the connect command.
    fn issue_connect<'a>(&mut self, socket: &Socket, remote: SocketAddr) -> (step: Step<
        'a,
        Result<(), NbError<Error>>,
    >)
        ensures
            (final(self)@, step) == connect_issue::<'a>(old(self)@, socket.link_id, remote),
    {
        self.already_connected = false;
        self.phase = Phase::ConnectCommand;
        Step::Perform(Action::Command(Command::Connect { link_id: socket.link_id, remote }))
    }

    /// Enables the passive socket receiving mode. The command is just sent
    /// once, and the connect command is issued at once where it was sent
    /// before.
    fn enable_passive_receiving_mode<'a>(&mut self, socket: &Socket, remote: SocketAddr) -> (step:
        Step<'a, Result<(), NbError<Error>>>)
        ensures
            (final(self)@, step) == passive_mode_ensured::<'a>(
                old(self)@,
                socket.link_id,
                remote,
            ),
    {
        if self.passive_mode_enabled {
            return self.issue_connect(socket, remote);
        }
        self.phase = Phase::ConnectPassiveMode;
        Step::Perform(Action::Command(Command::PassiveReceiving))
    }

    /// Decides the outcome of a connect.
    fn confirm_connect<'a>(&mut self, socket: &Socket, result: Result<(), Error>) -> (step: Step<
        'a,
        Result<(), NbError<Error>>,
    >)
        requires
            socket.wf(),
        ensures
            (final(self)@, step) == connect_confirmed::<'a>(old(self)@, socket.link_id, result),
    {
        self.phase = Phase::Idle;
        // The module reported that the socket is connected already: a
        // notification of the connect was missed.
        if self.already_connected {
            self.sockets[socket.link_id] = SocketState::Connected;
            self.data_available[socket.link_id] = 0;
            return Step::Complete(Ok(()));
        }
        match result {
            Err(error) => Step::Complete(Err(NbError::Other(error))),
            Ok(()) => {
                if self.sockets[socket.link_id] != SocketState::Connected {
                    return Step::Complete(Err(NbError::Other(Error::UnconfirmedSocketState)));
                }
                self.data_available[socket.link_id] = 0;
                Step::Complete(Ok(()))
            },
        }
    }

    /// Opens a new TCP connection, step by step. Both IPv4 and IPv6 are
    /// supported. Returns [`Error::AlreadyConnected`] if socket is already
    /// connected.
    ///
    /// On first call the module is configured for passive socket receiving
    /// mode, so that received data is buffered on the module.
    pub fn connect<'a>(&mut self, socket: &Socket, remote: SocketAddr, event: Event) -> (step:
        Step<'a, Result<(), NbError<Error>>>)
        requires
            socket.wf(),
        ensures
            (final(self)@, step) == connect_step::<'a>(old(self)@, socket.link_id, remote, event),
            step matches Step::Complete(Ok(_)) ==> final(self)@.sockets[socket.link_id as int]
                == SocketState::Connected,
            step matches Step::Complete(Ok(_)) ==> final(self)@.data_available[socket.link_id as int]
                == 0,
    {
        match (self.phase, event) {
            (Phase::ConnectReconcile(drain), event) => {
                match self.reconcile(drain, event) {
                    Reconciled::Pending(drain) => {
                        self.phase = Phase::ConnectReconcile(drain);
                        Step::Perform(drain_action(drain))
                    },
                    Reconciled::Finished => {
                        if self.sockets[socket.link_id] == SocketState::Connected {
                            self.phase = Phase::Idle;
                            Step::Complete(Err(NbError::Other(Error::AlreadyConnected)))
                        } else {
                            self.enable_passive_receiving_mode(socket, remote)
                        }
                    },
                    Reconciled::Unexpected => {
                        self.phase = Phase::ConnectReconcile(Drain::Polling);
                        Step::Perform(Action::PollNotification)
                    },
                }
            },
            (Phase::ConnectPassiveMode, Event::Reply(reply)) => {
                match Intent::PassiveReceiving.send_command(reply) {
                    Ok(()) => {
                        self.passive_mode_enabled = true;
                        self.issue_connect(socket, remote)
                    },
                    Err(error) => {
                        self.phase = Phase::Idle;
                        Step::Complete(Err(NbError::Other(error)))
                    },
                }
            },
            (Phase::ConnectCommand, Event::Reply(reply)) => {
                let result = Intent::Connect.send_command(reply);
                self.phase = Phase::ConnectConfirm(Drain::Polling, result);
                Step::Perform(Action::PollNotification)
            },
            (Phase::ConnectConfirm(drain, result), event) => {
                match self.reconcile(drain, event) {
                    Reconciled::Pending(drain) => {
                        self.phase = Phase::ConnectConfirm(drain, result);
                        Step::Perform(drain_action(drain))
                    },
                    Reconciled::Finished => self.confirm_connect(socket, result),
                    Reconciled::Unexpected => {
                        self.phase = Phase::ConnectReconcile(Drain::Polling);
                        Step::Perform(Action::PollNotification)
                    },
                }
            },
            _ => {
                self.phase = Phase::ConnectReconcile(Drain::Polling);
                Step::Perform(Action::PollNotification)
            },
        }
    }

    /// Returns true if the socket is currently connected, step by step.
    /// Connection aborts by the remote side are taken into account. The
    /// result is never an error.
    pub fn is_connected<'a>(&mut self, socket: &Socket, event: Event) -> (step: Step<
        'a,
        Result<bool, Error>,
    >)
        requires
            socket.wf(),
        ensures
            (final(self)@, step) == is_connected_step::<'a>(old(self)@, socket.link_id, event),
    {
        let progress = match self.phase {
            Phase::IsConnectedReconcile(drain) => self.reconcile(drain, event),
            _ => Reconciled::Unexpected,
        };
        match progress {
            Reconciled::Pending(drain) => {
                self.phase = Phase::IsConnectedReconcile(drain);
                Step::Perform(drain_action(drain))
            },
            Reconciled::Finished => {
                self.phase = Phase::Idle;
                Step::Complete(Ok(self.sockets[socket.link_id] == SocketState::Connected))
            },
            Reconciled::Unexpected => {
                self.phase = Phase::IsConnectedReconcile(Drain::Polling);
                Step::Perform(Action::PollNotification)
            },
        }
    }

    /// Closes a socket, step by step.
    ///
    /// If the socket has already been closed by the remote side or is not
    /// connected, no command is sent to the module but only the internal
    /// status is set. In case of an error (which is returned) the socket is
    /// internally set to closed so that it is not lost and can be reused.
    pub fn close<'a>(&mut self, socket: &Socket, event: Event) -> (step: Step<
        'a,
        Result<(), Error>,
    >)
        requires
            socket.wf(),
        ensures
            (final(self)@, step) == close_step::<'a>(old(self)@, socket.link_id, event),
            step is Complete ==> final(self)@.sockets[socket.link_id as int]
                == SocketState::Closed,
    {
        match (self.phase, event) {
            (Phase::CloseReconcile(drain), event) => {
                match self.reconcile(drain, event) {
                    Reconciled::Pending(drain) => {
                        self.phase = Phase::CloseReconcile(drain);
                        Step::Perform(drain_action(drain))
                    },
                    Reconciled::Finished => {
                        // Socket is not connected yet or was already closed remotely
                        if self.sockets[socket.link_id] == SocketState::Closing
                            || self.sockets[socket.link_id] == SocketState::Open {
                            self.sockets[socket.link_id] = SocketState::Closed;
                            self.phase = Phase::Idle;
                            Step::Complete(Ok(()))
                        } else {
                            self.phase = Phase::CloseCommand;
                            Step::Perform(
                                Action::Command(Command::CloseSocket { link_id: socket.link_id }),
                            )
                        }
                    },
                    Reconciled::Unexpected => {
                        self.phase = Phase::CloseReconcile(Drain::Polling);
                        Step::Perform(Action::PollNotification)
                    },
                }
            },
            (Phase::CloseCommand, Event::Reply(reply)) => {
                let result = Intent::CloseSocket.send_command(reply);
                self.phase = Phase::CloseConfirm(Drain::Polling, result);
                Step::Perform(Action::PollNotification)
            },
            (Phase::CloseConfirm(drain, result), event) => {
                match self.reconcile(drain, event) {
                    Reconciled::Pending(drain) => {
                        self.phase = Phase::CloseConfirm(drain, result);
                        Step::Perform(drain_action(drain))
                    },
                    Reconciled::Finished => {
                        let mut result = result;
                        if self.sockets[socket.link_id] != SocketState::Closing && result.is_ok() {
                            result = Err(Error::UnconfirmedSocketState);
                        }
                        // Setting to Closed even on error. Otherwise the slot
                        // could not be reused, as the handle is given up.
                        self.sockets[socket.link_id] = SocketState::Closed;
                        self.phase = Phase::Idle;
                        Step::Complete(result)
                    },
                    Reconciled::Unexpected => {
                        self.phase = Phase::CloseReconcile(Drain::Polling);
                        Step::Perform(Action::PollNotification)
                    },
                }
            },
            _ => {
                self.phase = Phase::CloseReconcile(Drain::Polling);
                Step::Perform(Action::PollNotification)
            },
        }
    }
}

} // verus!
