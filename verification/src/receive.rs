//! Reception of buffered data into a destination of the caller.
use crate::adapter::{
    drain_action, drain_request, reconciled, retrieved, Adapter, AdapterState, Drain, Phase,
    Reconciled, MAX_SOCKETS,
};
use crate::buffer::{Buffer, BufferState};
use crate::commands::{Action, Command, Event, Intent, Step};
use crate::error::{AtError, Error, NbError};
use crate::stack::Socket;
use crate::urc::URCMessages;
use vstd::prelude::*;

verus! {

/// How a receive starts.
pub open spec fn receive_start<'a>(state: AdapterState) -> (
    AdapterState,
    Step<'a, Result<usize, NbError<Error>>>,
) {
    (state.at(Phase::ReceiveReconcile(Drain::Polling)), Step::Perform(Action::PollNotification))
}

/// A receive ends with the given error.
pub open spec fn receive_failed<'a>(state: AdapterState, error: Error) -> (
    AdapterState,
    Step<'a, Result<usize, NbError<Error>>>,
) {
    (state.at(Phase::Idle), Step::Complete(Err(NbError::Other(error))))
}

/// While bytes are buffered for the slot and the destination has room, the
/// next chunk is requested; else the receive is complete with the number of
/// bytes written.
pub open spec fn receive_next<'a>(
    state: AdapterState,
    link_id: usize,
    buffer: BufferState,
    chunk_size: usize,
) -> (AdapterState, Step<'a, Result<usize, NbError<Error>>>) {
    if state.data_available[link_id as int] > 0 && !buffer.full() {
        (
            state.at(Phase::ReceiveCommand),
            Step::Perform(
                Action::Command(
                    Command::ReceiveData { link_id, length: buffer.next_length(chunk_size) },
                ),
            ),
        )
    } else {
        (state.at(Phase::Idle), Step::Complete(Ok(buffer.position)))
    }
}

/// The state after the data that a notification delivered was taken over:
/// the data is gone, and the slot's counter is reduced by its length.
pub open spec fn data_taken(state: AdapterState, link_id: usize, length: nat) -> AdapterState {
    AdapterState { data: None, ..state }.with_available(
        link_id as int,
        retrieved(state.data_available[link_id as int], length),
    )
}

/// Bytes that are announced for a slot whose counter is at zero, and then
/// retrieved in full, leave the counter at zero; and whatever the length that
/// is retrieved, the counter stays within zero and what it was.
pub proof fn lemma_counter_round_trip(
    state: AdapterState,
    link_id: usize,
    count: usize,
    length: nat,
)
    requires
        state.wf(),
        link_id < MAX_SOCKETS,
    ensures
        state.data_available[link_id as int] == 0 ==> data_taken(
            state.notified(URCMessages::DataAvailable(link_id, count)),
            link_id,
            count as nat,
        ).data_available[link_id as int] == 0,
        0 <= data_taken(state, link_id, length).data_available[link_id as int]
            <= state.data_available[link_id as int],
        length >= state.data_available[link_id as int] ==> data_taken(
            state,
            link_id,
            length,
        ).data_available[link_id as int] == 0,
{
}

/// The decision after the reconciliation that followed a request for data.
///
/// If no data was delivered, the receive fails. Else the data is taken over
/// and the counter reduced. Data that does not fit the destination ends the
/// receive with an overflow error and leaves the destination as it was;
/// data that fits is appended.
pub open spec fn data_received<'a>(
    state: AdapterState,
    link_id: usize,
    buffer: BufferState,
    chunk_size: usize,
) -> (AdapterState, BufferState, Step<'a, Result<usize, NbError<Error>>>) {
    match state.data {
        None => {
            let (next, step) = receive_failed(state, Error::ReceiveFailed(AtError::InvalidResponse));
            (next, buffer, step)
        },
        Some(bytes) => {
            let taken = data_taken(state, link_id, bytes.len());
            if bytes.len() > buffer.space() {
                let (next, step) = receive_failed(taken, Error::ReceiveOverflow);
                (next, buffer, step)
            } else {
                let filled = buffer.appended(bytes);
                let (next, step) = receive_next(taken, link_id, filled, chunk_size);
                (next, filled, step)
            }
        },
    }
}

/// One step of a receive: the notifications are reconciled; if no bytes are
/// buffered for the slot, the receive would block; else chunks are requested
/// and appended to the destination until it is full or no bytes are left.
pub open spec fn receive_step<'a>(
    state: AdapterState,
    link_id: usize,
    buffer: BufferState,
    chunk_size: usize,
    event: Event,
) -> (AdapterState, BufferState, Step<'a, Result<usize, NbError<Error>>>) {
    match (state.phase, event) {
        (Phase::ReceiveReconcile(drain), event) => {
            let (next, progress) = reconciled(state, drain, event);
            let (next, step) = match progress {
                Reconciled::Pending(drain) => (
                    next.at(Phase::ReceiveReconcile(drain)),
                    Step::Perform(drain_request(drain)),
                ),
                Reconciled::Finished => if next.data_available[link_id as int] == 0 {
                    (next.at(Phase::Idle), Step::Complete(Err(NbError::WouldBlock)))
                } else {
                    receive_next(next, link_id, buffer, chunk_size)
                },
                Reconciled::Unexpected => receive_start(state),
            };
            (next, buffer, step)
        },
        (Phase::ReceiveCommand, Event::Reply(reply)) => {
            let (next, step) = match Intent::ReceiveData.outcome(reply) {
                Ok(()) => (
                    state.at(Phase::ReceiveCollect(Drain::Polling)),
                    Step::Perform(Action::PollNotification),
                ),
                Err(error) => receive_failed(state, error),
            };
            (next, buffer, step)
        },
        (Phase::ReceiveCollect(drain), event) => {
            let (next, progress) = reconciled(state, drain, event);
            match progress {
                Reconciled::Pending(drain) => (
                    next.at(Phase::ReceiveCollect(drain)),
                    buffer,
                    Step::Perform(drain_request(drain)),
                ),
                Reconciled::Finished => data_received(next, link_id, buffer, chunk_size),
                Reconciled::Unexpected => {
                    let (next, step) = receive_start(state);
                    (next, buffer, step)
                },
            }
        },
        _ => {
            let (next, step) = receive_start(state);
            (next, buffer, step)
        },
    }
}

impl<const TX_SIZE: usize, const RX_SIZE: usize> Adapter<TX_SIZE, RX_SIZE> {
    /// Reduces the available data length mark by the given length
    pub fn reduce_data_available(&mut self, link_id: usize, length: usize)
        requires
            link_id < MAX_SOCKETS,
        ensures
            final(self)@ == old(self)@.with_available(
                link_id as int,
                retrieved(old(self)@.data_available[link_id as int], length as nat),
            ),
    {
        if self.data_available[link_id] < length {
            self.data_available[link_id] = 0;
            return ;
        }
        self.data_available[link_id] -= length;
    }

    /// Ends a receive with the given error.
    fn fail_receive<'a>(&mut self, error: Error) -> (step: Step<
        'a,
        Result<usize, NbError<Error>>,
    >)
        ensures
            (final(self)@, step) == receive_failed::<'a>(old(self)@, error),
    {
        self.phase = Phase::Idle;
        Step::Complete(Err(NbError::Other(error)))
    }

    /// Requests the next chunk, or completes the receive.
    fn request_data<'a, 'b>(&mut self, socket: &Socket, buffer: &Buffer<'b, RX_SIZE>) -> (step:
        Step<'a, Result<usize, NbError<Error>>>)
        requires
            socket.wf(),
            buffer@.wf(),
        ensures
            (final(self)@, step) == receive_next::<'a>(
                old(self)@,
                socket.link_id,
                buffer@,
                RX_SIZE,
            ),
    {
        if self.data_available[socket.link_id] > 0 && !buffer.is_full() {
            self.phase = Phase::ReceiveCommand;
            Step::Perform(
                Action::Command(
                    Command::ReceiveData {
                        link_id: socket.link_id,
                        length: buffer.get_next_length(),
                    },
                ),
            )
        } else {
            self.phase = Phase::Idle;
            Step::Complete(Ok(buffer.len()))
        }
    }

    /// Takes over the data that was delivered and appends it to the buffer.
    fn collect_data<'a, 'b>(&mut self, socket: &Socket, buffer: &mut Buffer<'b, RX_SIZE>) -> (step:
        Step<'a, Result<usize, NbError<Error>>>)
        requires
            socket.wf(),
            old(buffer)@.wf(),
        ensures
            final(buffer)@.wf(),
            final(final(buffer).buffer)@ == final(old(buffer).buffer)@,
            (final(self)@, final(buffer)@, step) == data_received::<'a>(
                old(self)@,
                socket.link_id,
                old(buffer)@,
                RX_SIZE,
            ),
    {
        let data = self.data.take();
        match data {
            None => self.fail_receive(Error::ReceiveFailed(AtError::InvalidResponse)),
            Some(bytes) => {
                self.reduce_data_available(socket.link_id, bytes.len());
                match buffer.append(bytes.as_slice()) {
                    Err(error) => self.fail_receive(error),
                    Ok(()) => self.request_data(socket, buffer),
                }
            },
        }
    }

    /// Receives data (if available) and writes it to the given buffer, step
    /// by step.
    ///
    /// The data is read in blocks, whose size is `RX_SIZE`. In any case, data
    /// is read until the buffer is completely filled or no further data is
    /// available. Without available data the result is
    /// [`NbError::WouldBlock`].
    pub fn receive<'a, 'b>(
        &mut self,
        socket: &Socket,
        buffer: &mut Buffer<'b, RX_SIZE>,
        event: Event,
    ) -> (step: Step<'a, Result<usize, NbError<Error>>>)
        requires
            socket.wf(),
            old(buffer)@.wf(),
        ensures
            final(buffer)@.wf(),
            final(buffer)@.capacity() == old(buffer)@.capacity(),
            final(final(buffer).buffer)@ == final(old(buffer).buffer)@,
            (final(self)@, final(buffer)@, step) == receive_step::<'a>(
                old(self)@,
                socket.link_id,
                old(buffer)@,
                RX_SIZE,
                event,
            ),
            step matches Step::Complete(Ok(length)) ==> length == final(buffer)@.position
                && length <= old(buffer)@.capacity(),
            step matches Step::Complete(Ok(_)) ==> final(buffer)@.full()
                || final(self)@.data_available[socket.link_id as int] == 0,
    {
        match (self.phase, event) {
            (Phase::ReceiveReconcile(drain), event) => {
                match self.reconcile(drain, event) {
                    Reconciled::Pending(drain) => {
                        self.phase = Phase::ReceiveReconcile(drain);
                        Step::Perform(drain_action(drain))
                    },
                    Reconciled::Finished => {
                        if self.data_available[socket.link_id] == 0 {
                            self.phase = Phase::Idle;
                            Step::Complete(Err(NbError::WouldBlock))
                        } else {
                            self.request_data(socket, buffer)
                        }
                    },
                    Reconciled::Unexpected => {
                        self.phase = Phase::ReceiveReconcile(Drain::Polling);
                        Step::Perform(Action::PollNotification)
                    },
                }
            },
            (Phase::ReceiveCommand, Event::Reply(reply)) => {
                match Intent::ReceiveData.send_command(reply) {
                    Ok(()) => {
                        self.phase = Phase::ReceiveCollect(Drain::Polling);
                        Step::Perform(Action::PollNotification)
                    },
                    Err(error) => self.fail_receive(error),
                }
            },
            (Phase::ReceiveCollect(drain), event) => {
                match self.reconcile(drain, event) {
                    Reconciled::Pending(drain) => {
                        self.phase = Phase::ReceiveCollect(drain);
                        Step::Perform(drain_action(drain))
                    },
                    Reconciled::Finished => self.collect_data(socket, buffer),
                    Reconciled::Unexpected => {
                        self.phase = Phase::ReceiveReconcile(Drain::Polling);
                        Step::Perform(Action::PollNotification)
                    },
                }
            },
            _ => {
                self.phase = Phase::ReceiveReconcile(Drain::Polling);
                Step::Perform(Action::PollNotification)
            },
        }
    }
}

} // verus!
