//! Transmission of data in chunks, each of which the module confirms.
use crate::adapter::{
    drain_action, drain_request, reconciled, Adapter, AdapterState, Drain, Phase, Reconciled,
};
use crate::commands::{Action, Command, Event, Intent, Step, TimerState};
use crate::error::{AtError, Error, NbError};
use crate::stack::{Socket, SocketState};
use vstd::prelude::*;

verus! {

/// Whether data can be sent on a socket in the given state, and the error
/// if it cannot.
pub open spec fn connected_result(state: SocketState) -> Result<(), Error> {
    match state {
        SocketState::Closing => Err(Error::ClosingSocket),
        SocketState::Connected => Ok(()),
        _ => Err(Error::SocketUnconnected),
    }
}

/// Length of the chunk that starts at `offset`, of `total` bytes sent in
/// chunks of at most `chunk_size`.
pub open spec fn chunk_length(total: usize, offset: usize, chunk_size: usize) -> usize {
    if total - offset > chunk_size {
        chunk_size
    } else {
        (total - offset) as usize
    }
}

/// How a send starts.
pub open spec fn send_start<'a>(state: AdapterState) -> (
    AdapterState,
    Step<'a, Result<usize, NbError<Error>>>,
) {
    (state.at(Phase::SendReconcile(Drain::Polling)), Step::Perform(Action::PollNotification))
}

/// A send ends with the given error.
pub open spec fn send_failed<'a>(state: AdapterState, error: Error) -> (
    AdapterState,
    Step<'a, Result<usize, NbError<Error>>>,
) {
    (state.at(Phase::Idle), Step::Complete(Err(NbError::Other(error))))
}

/// The transport is reset, and the given error is reported after that.
pub open spec fn send_aborted<'a>(state: AdapterState, error: Error) -> (
    AdapterState,
    Step<'a, Result<usize, NbError<Error>>>,
) {
    (state.at(Phase::SendAbort(error)), Step::Perform(Action::ResetTransport))
}

/// The chunk at `offset` is announced; where no byte is left, the send is
/// complete with the total length.
pub open spec fn chunk_announced<'a>(
    state: AdapterState,
    link_id: usize,
    total: usize,
    offset: usize,
    chunk_size: usize,
) -> (AdapterState, Step<'a, Result<usize, NbError<Error>>>) {
    if offset >= total {
        (state.at(Phase::Idle), Step::Complete(Ok(total)))
    } else {
        (
            state.at(Phase::SendPrepare(offset)),
            Step::Perform(
                Action::Command(
                    Command::TransmissionPrepare {
                        link_id,
                        length: chunk_length(total, offset, chunk_size),
                    },
                ),
            ),
        )
    }
}

/// The decision after a reconciliation while the confirmation of the chunk
/// at `offset` is awaited.
///
/// A failure that the module signals resets the transport and ends the send.
/// A confirmation with a byte count other than the chunk's length ends it as
/// a partial send; any other confirmation leads to the next chunk. Without
/// either, the countdown is polled.
pub open spec fn chunk_confirmed<'a>(
    state: AdapterState,
    link_id: usize,
    total: usize,
    offset: usize,
    chunk_size: usize,
) -> (AdapterState, Step<'a, Result<usize, NbError<Error>>>) {
    let length = chunk_length(total, offset, chunk_size);
    match state.send_confirmed {
        Some(false) => send_aborted(state, Error::SendFailed(AtError::Error)),
        Some(true) => if state.recv_byte_count is Some && state.recv_byte_count->Some_0
            != length {
            send_failed(state, Error::PartialSend)
        } else {
            chunk_announced(state, link_id, total, (offset + length) as usize, chunk_size)
        },
        None => (state.at(Phase::SendTimer(offset)), Step::Perform(Action::PollTimer)),
    }
}

/// One step of the transmission of the chunk at `offset`, or `None` if the
/// event does not answer the pending request of a chunk.
///
/// The chunk is announced and the confirmation flags are cleared; the chunk
/// is transmitted; the countdown is started; then notifications are
/// reconciled and the countdown polled in turn, until the module confirms
/// the transmission or signals its failure, or the countdown elapses, which
/// resets the transport and ends the send as timed out.
pub open spec fn chunk_step<'a>(
    state: AdapterState,
    link_id: usize,
    total: usize,
    chunk_size: usize,
    event: Event,
) -> Option<(AdapterState, Step<'a, Result<usize, NbError<Error>>>)> {
    match (state.phase, event) {
        (Phase::SendPrepare(offset), Event::Reply(reply)) => if offset < total {
            Some(
                match Intent::TransmissionPrepare.outcome(reply) {
                    Ok(()) => (
                        AdapterState {
                            send_confirmed: None,
                            recv_byte_count: None,
                            phase: Phase::SendTransmit(offset),
                            ..state
                        },
                        Step::Perform(
                            Action::Command(
                                Command::Transmission {
                                    offset,
                                    length: chunk_length(total, offset, chunk_size),
                                },
                            ),
                        ),
                    ),
                    Err(error) => send_failed(state, error),
                },
            )
        } else {
            None
        },
        (Phase::SendTransmit(offset), Event::Reply(reply)) => if offset < total {
            Some(
                match Intent::Transmission.outcome(reply) {
                    Ok(()) => (
                        state.at(Phase::SendTimerStart(offset)),
                        Step::Perform(Action::StartTimer(state.send_timeout_ms)),
                    ),
                    Err(error) => send_failed(state, error),
                },
            )
        } else {
            None
        },
        (Phase::SendTimerStart(offset), Event::TimerStarted(started)) => if offset < total {
            Some(
                if started {
                    (
                        state.at(Phase::SendAwait(offset, Drain::Polling)),
                        Step::Perform(Action::PollNotification),
                    )
                } else {
                    send_failed(state, Error::TimerError)
                },
            )
        } else {
            None
        },
        (Phase::SendAwait(offset, drain), event) => if offset < total {
            let (next, progress) = reconciled(state, drain, event);
            match progress {
                Reconciled::Pending(drain) => Some(
                    (
                        next.at(Phase::SendAwait(offset, drain)),
                        Step::Perform(drain_request(drain)),
                    ),
                ),
                Reconciled::Finished => Some(
                    chunk_confirmed(next, link_id, total, offset, chunk_size),
                ),
                Reconciled::Unexpected => None,
            }
        } else {
            None
        },
        (Phase::SendTimer(offset), Event::Timer(timer)) => if offset < total {
            Some(
                match timer {
                    TimerState::Elapsed => send_aborted(
                        state,
                        Error::SendFailed(AtError::Timeout),
                    ),
                    TimerState::Failed => send_failed(state, Error::TimerError),
                    TimerState::Pending => (
                        state.at(Phase::SendAwait(offset, Drain::Polling)),
                        Step::Perform(Action::PollNotification),
                    ),
                },
            )
        } else {
            None
        },
        (Phase::SendAbort(error), Event::Acknowledged) => Some(send_failed(state, error)),
        _ => None,
    }
}

/// One step of a send of `total` bytes in chunks of at most `chunk_size`:
/// the notifications are reconciled, a socket that is not connected is
/// refused, and the chunks are transmitted one after the other. The result
/// is the total length, and only if every chunk was confirmed.
pub open spec fn send_step<'a>(
    state: AdapterState,
    link_id: usize,
    total: usize,
    chunk_size: usize,
    event: Event,
) -> (AdapterState, Step<'a, Result<usize, NbError<Error>>>) {
    match state.phase {
        Phase::SendReconcile(drain) => {
            let (next, progress) = reconciled(state, drain, event);
            match progress {
                Reconciled::Pending(drain) => (
                    next.at(Phase::SendReconcile(drain)),
                    Step::Perform(drain_request(drain)),
                ),
                Reconciled::Finished => match connected_result(next.sockets[link_id as int]) {
                    Err(error) => send_failed(next, error),
                    Ok(()) => chunk_announced(next, link_id, total, 0, chunk_size),
                },
                Reconciled::Unexpected => send_start(state),
            }
        },
        _ => match chunk_step(state, link_id, total, chunk_size, event) {
            Some(next) => next,
            None => send_start(state),
        },
    }
}

/// A send succeeds only with the total length, and only at the end of the
/// reconciliation that brought the confirmation of its last chunk; a send of
/// nothing succeeds at the end of its first reconciliation, on a connected
/// socket.
pub proof fn lemma_send_succeeds_on_confirmation(
    state: AdapterState,
    link_id: usize,
    total: usize,
    chunk_size: usize,
    event: Event,
)
    requires
        state.wf(),
        link_id < state.sockets.len(),
        chunk_size > 0,
    ensures
        send_step::<'static>(state, link_id, total, chunk_size, event).1 matches Step::Complete(
            Ok(sent),
        ) ==> {
            let next = send_step::<'static>(state, link_id, total, chunk_size, event).0;
            &&& sent == total
            &&& event is Acknowledged
            &&& match state.phase {
                Phase::SendReconcile(drain) => drain == Drain::Housekeeping && total == 0
                    && state.sockets[link_id as int] == SocketState::Connected,
                Phase::SendAwait(offset, drain) => drain == Drain::Housekeeping && offset < total
                    && offset + chunk_length(total, offset, chunk_size) == total
                    && next.send_confirmed == Some(true),
                _ => false,
            }
        },
{
}

/// A chunk is announced only at the end of the first reconciliation, which
/// announces the chunk at offset zero on a connected socket, or at the end of
/// the reconciliation that brought the confirmation of the chunk before it.
pub proof fn lemma_chunk_follows_confirmation(
    state: AdapterState,
    link_id: usize,
    total: usize,
    chunk_size: usize,
    event: Event,
)
    requires
        state.wf(),
        link_id < state.sockets.len(),
        chunk_size > 0,
    ensures
        send_step::<'static>(state, link_id, total, chunk_size, event).0.phase
            matches Phase::SendPrepare(announced) ==> {
            let next = send_step::<'static>(state, link_id, total, chunk_size, event).0;
            &&& announced < total
            &&& send_step::<'static>(state, link_id, total, chunk_size, event).1 == Step::<
                'static,
                Result<usize, NbError<Error>>,
            >::Perform(
                Action::Command(
                    Command::TransmissionPrepare {
                        link_id,
                        length: chunk_length(total, announced, chunk_size),
                    },
                ),
            )
            &&& match state.phase {
                Phase::SendReconcile(drain) => drain == Drain::Housekeeping && announced == 0
                    && state.sockets[link_id as int] == SocketState::Connected,
                Phase::SendAwait(offset, drain) => drain == Drain::Housekeeping && offset < total
                    && offset + chunk_length(total, offset, chunk_size) == announced
                    && next.send_confirmed == Some(true),
                _ => false,
            }
        },
{
}

impl<const TX_SIZE: usize, const RX_SIZE: usize> Adapter<TX_SIZE, RX_SIZE> {
    /// Asserts that the given socket is connected and returns otherwise the
    /// appropriate error
    pub fn assert_socket_connected(&self, socket: &Socket) -> (r: Result<(), NbError<Error>>)
        requires
            socket.wf(),
        ensures
            r == (match connected_result(self@.sockets[socket.link_id as int]) {
                Ok(()) => Ok::<(), NbError<Error>>(()),
                Err(error) => Err::<(), NbError<Error>>(NbError::Other(error)),
            }),
    {
        if self.sockets[socket.link_id] == SocketState::Closing {
            return Err(NbError::Other(Error::ClosingSocket));
        }
        if self.sockets[socket.link_id] != SocketState::Connected {
            return Err(NbError::Other(Error::SocketUnconnected));
        }
        Ok(())
    }

    /// Ends a send with the given error.
    fn fail_send<'a>(&mut self, error: Error) -> (step: Step<'a, Result<usize, NbError<Error>>>)
        ensures
            (final(self)@, step) == send_failed::<'a>(old(self)@, error),
    {
        self.phase = Phase::Idle;
        Step::Complete(Err(NbError::Other(error)))
    }

    /// Asks for a reset of the transport, after which the given error ends
    /// the send. Without the reset the transport would match no further
    /// response.
    fn abort_send<'a>(&mut self, error: Error) -> (step: Step<'a, Result<usize, NbError<Error>>>)
        ensures
            (final(self)@, step) == send_aborted::<'a>(old(self)@, error),
    {
        self.phase = Phase::SendAbort(error);
        Step::Perform(Action::ResetTransport)
    }

    /// Length of the chunk that starts at `offset`.
    fn chunk_size(total: usize, offset: usize) -> (length: usize)
        requires
            offset <= total,
        ensures
            length == chunk_length(total, offset, TX_SIZE),
    {
        if total - offset > TX_SIZE {
            TX_SIZE
        } else {
            total - offset
        }
    }

    /// Announces the chunk at `offset`, or completes the send.
    fn announce_chunk<'a>(&mut self, socket: &Socket, total: usize, offset: usize) -> (step: Step<
        'a,
        Result<usize, NbError<Error>>,
    >)
        ensures
            (final(self)@, step) == chunk_announced::<'a>(
                old(self)@,
                socket.link_id,
                total,
                offset,
                TX_SIZE,
            ),
    {
        if offset >= total {
            self.phase = Phase::Idle;
            return Step::Complete(Ok(total));
        }
        self.phase = Phase::SendPrepare(offset);
        Step::Perform(
            Action::Command(
                Command::TransmissionPrepare {
                    link_id: socket.link_id,
                    length: Self::chunk_size(total, offset),
                },
            ),
        )
    }

    /// Decides how the send goes on after a reconciliation while a
    /// confirmation is awaited.
    fn confirm_chunk<'a>(&mut self, socket: &Socket, total: usize, offset: usize) -> (step: Step<
        'a,
        Result<usize, NbError<Error>>,
    >)
        requires
            offset < total,
        ensures
            (final(self)@, step) == chunk_confirmed::<'a>(
                old(self)@,
                socket.link_id,
                total,
                offset,
                TX_SIZE,
            ),
    {
        let length: usize = Self::chunk_size(total, offset);
        match self.send_confirmed {
            // Transmission failed
            Some(false) => self.abort_send(Error::SendFailed(AtError::Error)),
            Some(true) => {
                // Byte count does not match
                if let Some(count) = self.recv_byte_count {
                    if count != length {
                        return self.fail_send(Error::PartialSend);
                    }
                }
                self.announce_chunk(socket, total, offset + length)
            },
            None => {
                self.phase = Phase::SendTimer(offset);
                Step::Perform(Action::PollTimer)
            },
        }
    }

    /// Sends a chunk, step by step. Returns `None` if the event does not
    /// answer the pending request of a chunk; nothing is changed then.
    pub fn send_chunk<'a>(&mut self, socket: &Socket, total: usize, event: Event) -> (r: Option<
        Step<'a, Result<usize, NbError<Error>>>,
    >)
        ensures
            (match chunk_step::<'a>(old(self)@, socket.link_id, total, TX_SIZE, event) {
                Some((next, step)) => final(self)@ == next && r == Some(step),
                None => final(self)@ == old(self)@ && r is None,
            }),
    {
        match (self.phase, event) {
            (Phase::SendPrepare(offset), Event::Reply(reply)) => {
                if offset >= total {
                    return None;
                }
                match Intent::TransmissionPrepare.send_command(reply) {
                    Ok(()) => {
                        self.send_confirmed = None;
                        self.recv_byte_count = None;
                        self.phase = Phase::SendTransmit(offset);
                        Some(
                            Step::Perform(
                                Action::Command(
                                    Command::Transmission {
                                        offset,
                                        length: Self::chunk_size(total, offset),
                                    },
                                ),
                            ),
                        )
                    },
                    Err(error) => Some(self.fail_send(error)),
                }
            },
            (Phase::SendTransmit(offset), Event::Reply(reply)) => {
                if offset >= total {
                    return None;
                }
                match Intent::Transmission.send_command(reply) {
                    Ok(()) => {
                        self.phase = Phase::SendTimerStart(offset);
                        Some(Step::Perform(Action::StartTimer(self.send_timeout_ms)))
                    },
                    Err(error) => Some(self.fail_send(error)),
                }
            },
            (Phase::SendTimerStart(offset), Event::TimerStarted(started)) => {
                if offset >= total {
                    return None;
                }
                if started {
                    self.phase = Phase::SendAwait(offset, Drain::Polling);
                    Some(Step::Perform(Action::PollNotification))
                } else {
                    Some(self.fail_send(Error::TimerError))
                }
            },
            (Phase::SendAwait(offset, drain), event) => {
                if offset >= total {
                    return None;
                }
                match self.reconcile(drain, event) {
                    Reconciled::Pending(drain) => {
                        self.phase = Phase::SendAwait(offset, drain);
                        Some(Step::Perform(drain_action(drain)))
                    },
                    Reconciled::Finished => Some(self.confirm_chunk(socket, total, offset)),
                    Reconciled::Unexpected => None,
                }
            },
            (Phase::SendTimer(offset), Event::Timer(timer)) => {
                if offset >= total {
                    return None;
                }
                match timer {
                    TimerState::Elapsed => Some(
                        self.abort_send(Error::SendFailed(AtError::Timeout)),
                    ),
                    TimerState::Failed => Some(self.fail_send(Error::TimerError)),
                    TimerState::Pending => {
                        self.phase = Phase::SendAwait(offset, Drain::Polling);
                        Some(Step::Perform(Action::PollNotification))
                    },
                }
            },
            (Phase::SendAbort(error), Event::Acknowledged) => Some(self.fail_send(error)),
            _ => None,
        }
    }

    /// Sends the given buffer and returns the length (in bytes) sent, step
    /// by step. The data is divided into smaller blocks, whose size is
    /// `TX_SIZE`. Each [`Command::Transmission`] names its block by offset
    /// and length within `buffer`.
    pub fn send<'a>(&mut self, socket: &Socket, buffer: &[u8], event: Event) -> (step: Step<
        'a,
        Result<usize, NbError<Error>>,
    >)
        requires
            socket.wf(),
            TX_SIZE > 0,
        ensures
            (final(self)@, step) == send_step::<'a>(
                old(self)@,
                socket.link_id,
                buffer@.len() as usize,
                TX_SIZE,
                event,
            ),
            step matches Step::Complete(Ok(sent)) ==> sent == buffer@.len(),
    {
        let total: usize = buffer.len();
        match self.phase {
            Phase::SendReconcile(drain) => {
                match self.reconcile(drain, event) {
                    Reconciled::Pending(drain) => {
                        self.phase = Phase::SendReconcile(drain);
                        Step::Perform(drain_action(drain))
                    },
                    Reconciled::Finished => {
                        match self.assert_socket_connected(socket) {
                            Err(NbError::Other(error)) => self.fail_send(error),
                            _ => self.announce_chunk(socket, total, 0),
                        }
                    },
                    Reconciled::Unexpected => {
                        self.phase = Phase::SendReconcile(Drain::Polling);
                        Step::Perform(Action::PollNotification)
                    },
                }
            },
            _ => {
                match self.send_chunk(socket, total, event) {
                    Some(step) => step,
                    None => {
                        self.phase = Phase::SendReconcile(Drain::Polling);
                        Step::Perform(Action::PollNotification)
                    },
                }
            },
        }
    }
}

} // verus!
