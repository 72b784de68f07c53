//! What every step of every operation keeps: the pool keeps its size, the
//! WIFI connection state follows the notifications alone, and the counters
//! of buffered bytes rise by notifications and fall by what a receive takes.
use crate::adapter::{
    join_step, process_urc_messages_step, reconciled, retrieved, AdapterState, Phase,
    MAX_SOCKETS,
};
use crate::buffer::BufferState;
use crate::commands::{Event, Step};
use crate::receive::receive_step;
use crate::stack::{
    close_step, connect_step, is_connected_step, lemma_opened, socket_step, SocketState,
};
use crate::transmit::{chunk_step, send_step};
use embedded_nal::SocketAddr;
use vstd::prelude::*;

verus! {

/// The state after the notification that the event brings, if it brings one.
pub open spec fn notified_by(state: AdapterState, event: Event) -> AdapterState {
    match event {
        Event::Notification(Some(message)) => state.notified(message),
        _ => state,
    }
}

/// The WIFI connection state of `next` is that of `state`, or what the
/// notification that the event brings made of it.
pub open spec fn connection_kept(state: AdapterState, next: AdapterState, event: Event) -> bool {
    let notified = notified_by(state, event);
    ||| next.joined == state.joined && next.ip_assigned == state.ip_assigned
    ||| next.joined == notified.joined && next.ip_assigned == notified.ip_assigned
}

/// The counter of the slot `link_id` in `next` is that of `state`, or what
/// the notification that the event brings made of it.
pub open spec fn counter_kept(
    state: AdapterState,
    next: AdapterState,
    event: Event,
    link_id: int,
) -> bool {
    ||| next.data_available[link_id] == state.data_available[link_id]
    ||| next.data_available[link_id] == notified_by(state, event).data_available[link_id]
}

/// The counters of all slots in `next` are kept.
pub open spec fn counters_kept(state: AdapterState, next: AdapterState, event: Event) -> bool {
    forall|i: int| 0 <= i < MAX_SOCKETS ==> counter_kept(state, next, event, i)
}

/// The counters of all slots but `link_id` in `next` are kept.
pub open spec fn other_counters_kept(
    state: AdapterState,
    next: AdapterState,
    event: Event,
    link_id: usize,
) -> bool {
    forall|i: int| 0 <= i < MAX_SOCKETS && i != link_id ==> counter_kept(state, next, event, i)
}

/// A step of a reconciliation on its own keeps the size of the pool, and
/// changes the connection state and the counters by notifications alone.
pub proof fn lemma_process_urc_messages_keeps(state: AdapterState, event: Event)
    requires
        state.wf(),
    ensures
        process_urc_messages_step::<'static>(state, event).0.wf(),
        connection_kept(state, process_urc_messages_step::<'static>(state, event).0, event),
        counters_kept(state, process_urc_messages_step::<'static>(state, event).0, event),
{
}

/// A step of a join keeps the size of the pool, and changes the connection
/// state and the counters by notifications alone.
pub proof fn lemma_join_keeps(state: AdapterState, ssid: &str, key: &str, event: Event)
    requires
        state.wf(),
    ensures
        join_step(state, ssid, key, event).0.wf(),
        connection_kept(state, join_step(state, ssid, key, event).0, event),
        counters_kept(state, join_step(state, ssid, key, event).0, event),
{
}

/// A step of the socket operation keeps the size of the pool, and changes
/// the connection state and the counters by notifications alone.
pub proof fn lemma_socket_keeps(state: AdapterState, event: Event)
    requires
        state.wf(),
    ensures
        socket_step::<'static>(state, event).0.wf(),
        connection_kept(state, socket_step::<'static>(state, event).0, event),
        counters_kept(state, socket_step::<'static>(state, event).0, event),
{
    lemma_opened(state);
    lemma_opened(notified_by(state, event));
    lemma_opened(AdapterState { multi_connections_enabled: true, ..state });
}

/// A step of a connect keeps the size of the pool and changes the connection
/// state by notifications alone. It keeps the counters of the other slots.
/// The counter of its own slot is kept by every step but the one that
/// completes the connect with success, be it confirmed by a notification or
/// recovered from a collision: that step leaves the slot connected and its
/// counter at zero.
pub proof fn lemma_connect_keeps(
    state: AdapterState,
    link_id: usize,
    remote: SocketAddr,
    event: Event,
)
    requires
        state.wf(),
        link_id < MAX_SOCKETS,
    ensures
        connect_step::<'static>(state, link_id, remote, event).0.wf(),
        connection_kept(state, connect_step::<'static>(state, link_id, remote, event).0, event),
        other_counters_kept(
            state,
            connect_step::<'static>(state, link_id, remote, event).0,
            event,
            link_id,
        ),
        ({
            let (next, step) = connect_step::<'static>(state, link_id, remote, event);
            if step matches Step::Complete(Ok(_)) {
                next.data_available[link_id as int] == 0 && next.sockets[link_id as int]
                    == SocketState::Connected
            } else {
                counter_kept(state, next, event, link_id as int)
            }
        }),
{
}

/// A step of the connection query keeps the size of the pool, and changes
/// the connection state and the counters by notifications alone.
pub proof fn lemma_is_connected_keeps(state: AdapterState, link_id: usize, event: Event)
    requires
        state.wf(),
        link_id < MAX_SOCKETS,
    ensures
        is_connected_step::<'static>(state, link_id, event).0.wf(),
        connection_kept(state, is_connected_step::<'static>(state, link_id, event).0, event),
        counters_kept(state, is_connected_step::<'static>(state, link_id, event).0, event),
{
}

/// A step of the transmission of a chunk keeps the size of the pool, and
/// changes the connection state and the counters by notifications alone.
pub proof fn lemma_chunk_keeps(
    state: AdapterState,
    link_id: usize,
    total: usize,
    chunk_size: usize,
    event: Event,
)
    requires
        state.wf(),
        link_id < MAX_SOCKETS,
    ensures
        chunk_step::<'static>(state, link_id, total, chunk_size, event) matches Some((next, _))
            ==> next.wf() && connection_kept(state, next, event) && counters_kept(
            state,
            next,
            event,
        ),
{
    match state.phase {
        Phase::SendPrepare(_) => {},
        Phase::SendTransmit(_) => {},
        Phase::SendTimerStart(_) => {},
        Phase::SendAwait(_, drain) => {
            let (base, progress) = reconciled(state, drain, event);
            assert(base.wf());
            assert(base == state || base == notified_by(state, event));
        },
        Phase::SendTimer(_) => {},
        Phase::SendAbort(_) => {},
        _ => {},
    }
}

/// A step of a send keeps the size of the pool, and changes the connection
/// state and the counters by notifications alone.
pub proof fn lemma_send_keeps(
    state: AdapterState,
    link_id: usize,
    total: usize,
    chunk_size: usize,
    event: Event,
)
    requires
        state.wf(),
        link_id < MAX_SOCKETS,
    ensures
        send_step::<'static>(state, link_id, total, chunk_size, event).0.wf(),
        connection_kept(
            state,
            send_step::<'static>(state, link_id, total, chunk_size, event).0,
            event,
        ),
        counters_kept(
            state,
            send_step::<'static>(state, link_id, total, chunk_size, event).0,
            event,
        ),
{
    match state.phase {
        Phase::SendReconcile(drain) => {
            let (base, progress) = reconciled(state, drain, event);
            assert(base.wf());
            assert(base == state || base == notified_by(state, event));
        },
        _ => {
            lemma_chunk_keeps(state, link_id, total, chunk_size, event);
        },
    }
}

/// A step of a receive keeps the size of the pool and changes the connection
/// state by notifications alone. It keeps the counters of the other slots,
/// and that of its own slot unless it takes over data, which lowers the
/// counter by the length of the data, and to zero where that is more than
/// was counted.
pub proof fn lemma_receive_keeps(
    state: AdapterState,
    link_id: usize,
    buffer: BufferState,
    chunk_size: usize,
    event: Event,
)
    requires
        state.wf(),
        link_id < MAX_SOCKETS,
    ensures
        receive_step::<'static>(state, link_id, buffer, chunk_size, event).0.wf(),
        connection_kept(
            state,
            receive_step::<'static>(state, link_id, buffer, chunk_size, event).0,
            event,
        ),
        other_counters_kept(
            state,
            receive_step::<'static>(state, link_id, buffer, chunk_size, event).0,
            event,
            link_id,
        ),
        ({
            let next = receive_step::<'static>(state, link_id, buffer, chunk_size, event).0;
            counter_kept(state, next, event, link_id as int) || (state.data matches Some(bytes)
                && next.data_available[link_id as int] == retrieved(
                state.data_available[link_id as int],
                bytes.len(),
            ))
        }),
{
}

/// A step of a close keeps the size of the pool, and changes the connection
/// state and the counters by notifications alone.
pub proof fn lemma_close_keeps(state: AdapterState, link_id: usize, event: Event)
    requires
        state.wf(),
        link_id < MAX_SOCKETS,
    ensures
        close_step::<'static>(state, link_id, event).0.wf(),
        connection_kept(state, close_step::<'static>(state, link_id, event).0, event),
        counters_kept(state, close_step::<'static>(state, link_id, event).0, event),
{
}

} // verus!
