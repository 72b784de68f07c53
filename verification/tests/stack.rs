use embedded_nal::{Ipv4Addr, Ipv6Addr, SocketAddr, SocketAddrV4, SocketAddrV6};
use esp_at_nal::adapter::{Adapter, Drain, Phase};
use esp_at_nal::commands::{Action, Command, Event, Step};
use esp_at_nal::error::{AtError, CommandFailure, Error, NbError};
use esp_at_nal::stack::{Socket, SocketState};
use esp_at_nal::urc::URCMessages;

type TestAdapter = Adapter<256, 64>;

fn remote() -> SocketAddr {
    SocketAddr::V4(SocketAddrV4::new(Ipv4Addr::new(10, 0, 0, 1), 21))
}

/// Answers the polls of one reconciliation pass with the given
/// notifications and returns the step that follows the pass.
fn reconciled<T: core::fmt::Debug>(
    adapter: &mut TestAdapter,
    operation: fn(&mut TestAdapter, Event) -> Step<'static, T>,
    first: Step<'static, T>,
    notifications: Vec<URCMessages>,
) -> Step<'static, T> {
    let mut pending = notifications.into_iter();
    let mut step = first;
    loop {
        match step {
            Step::Perform(Action::PollNotification) => {
                step = operation(adapter, Event::Notification(pending.next()));
            }
            Step::Perform(Action::Housekeeping) => {
                assert!(pending.next().is_none());
                return operation(adapter, Event::Acknowledged);
            }
            other => panic!("unexpected step {:?}", other),
        }
    }
}

fn socket_step(adapter: &mut TestAdapter, event: Event) -> Step<'static, Result<Socket, Error>> {
    adapter.socket(event)
}

/// Runs the socket operation on a module that accepts every command.
fn open(adapter: &mut TestAdapter) -> Result<Socket, Error> {
    let first = adapter.socket(Event::Start);
    let mut step = reconciled(adapter, socket_step, first, vec![]);
    if step == Step::Perform(Action::Command(Command::MultipleConnections)) {
        step = adapter.socket(Event::Reply(Ok(())));
    }
    match step {
        Step::Complete(result) => result,
        other => panic!("unexpected step {:?}", other),
    }
}

fn connect_two(adapter: &mut TestAdapter, event: Event) -> Step<'static, Result<(), NbError<Error>>> {
    adapter.connect(&Socket::new(2), remote(), event)
}

fn close_two(adapter: &mut TestAdapter, event: Event) -> Step<'static, Result<(), Error>> {
    adapter.close(&Socket::new(2), event)
}

fn is_connected_two(adapter: &mut TestAdapter, event: Event) -> Step<'static, Result<bool, Error>> {
    adapter.is_connected(&Socket::new(2), event)
}

#[test]
fn socket_handle_names_its_slot() {
    assert_eq!(Socket::new(3).link_id, 3);
    assert_eq!(Socket::new(0), Socket { link_id: 0 });
}

#[test]
fn first_socket_enables_multiple_connections() {
    let mut adapter = TestAdapter::new();
    assert_eq!(adapter.socket(Event::Start), Step::Perform(Action::PollNotification));
    assert_eq!(adapter.socket(Event::Notification(None)), Step::Perform(Action::Housekeeping));
    assert_eq!(
        adapter.socket(Event::Acknowledged),
        Step::Perform(Action::Command(Command::MultipleConnections))
    );
    assert_eq!(adapter.phase, Phase::SocketMultiplex);
    assert!(!adapter.multi_connections_enabled);
    assert_eq!(adapter.socket(Event::Reply(Ok(()))), Step::Complete(Ok(Socket::new(0))));
    assert!(adapter.multi_connections_enabled);
    assert_eq!(adapter.sockets[0], SocketState::Open);
    assert_eq!(adapter.phase, Phase::Idle);
}

#[test]
fn multiple_connections_are_enabled_once() {
    let mut adapter = TestAdapter::new();
    assert_eq!(open(&mut adapter), Ok(Socket::new(0)));
    adapter.socket(Event::Start);
    adapter.socket(Event::Notification(None));
    assert_eq!(adapter.socket(Event::Acknowledged), Step::Complete(Ok(Socket::new(1))));
    assert_eq!(adapter.sockets[1], SocketState::Open);
}

#[test]
fn socket_fails_if_multiple_connections_cannot_be_enabled() {
    let mut adapter = TestAdapter::new();
    adapter.socket(Event::Start);
    adapter.socket(Event::Notification(None));
    adapter.socket(Event::Acknowledged);
    assert_eq!(
        adapter.socket(Event::Reply(Err(CommandFailure::Other(AtError::Timeout)))),
        Step::Complete(Err(Error::EnablingMultiConnectionsFailed(AtError::Timeout)))
    );
    assert!(!adapter.multi_connections_enabled);
    assert_eq!(adapter.sockets, [SocketState::Closed; 5]);
    adapter.socket(Event::Start);
    adapter.socket(Event::Notification(None));
    adapter.socket(Event::Acknowledged);
    assert_eq!(
        adapter.socket(Event::Reply(Err(CommandFailure::WouldBlock))),
        Step::Complete(Err(Error::UnexpectedWouldBlock))
    );
    assert_eq!(adapter.sockets, [SocketState::Closed; 5]);
}

#[test]
fn pool_hands_out_five_sockets_and_no_more() {
    let mut adapter = TestAdapter::new();
    for link_id in 0..5 {
        assert_eq!(open(&mut adapter), Ok(Socket::new(link_id)));
    }
    assert_eq!(adapter.sockets, [SocketState::Open; 5]);
    assert_eq!(open(&mut adapter), Err(Error::NoSocketAvailable));
    assert_eq!(adapter.open_socket(), Err(Error::NoSocketAvailable));
    assert_eq!(adapter.sockets, [SocketState::Open; 5]);
}

#[test]
fn open_socket_takes_the_first_closed_slot() {
    let mut adapter = TestAdapter::new();
    adapter.sockets = [
        SocketState::Connected,
        SocketState::Closing,
        SocketState::Closed,
        SocketState::Open,
        SocketState::Closed,
    ];
    assert_eq!(adapter.open_socket(), Ok(Socket::new(2)));
    assert_eq!(adapter.open_socket(), Ok(Socket::new(4)));
    assert_eq!(adapter.open_socket(), Err(Error::NoSocketAvailable));
    assert_eq!(
        adapter.sockets,
        [
            SocketState::Connected,
            SocketState::Closing,
            SocketState::Open,
            SocketState::Open,
            SocketState::Open
        ]
    );
}

#[test]
fn closed_slot_is_handed_out_again() {
    let mut adapter = TestAdapter::new();
    for _ in 0..5 {
        open(&mut adapter).unwrap();
    }
    let first = adapter.close(&Socket::new(2), Event::Start);
    let step = reconciled(&mut adapter, close_two, first, vec![]);
    assert_eq!(step, Step::Complete(Ok(())));
    assert_eq!(adapter.sockets[2], SocketState::Closed);
    assert_eq!(open(&mut adapter), Ok(Socket::new(2)));
    assert_eq!(open(&mut adapter), Err(Error::NoSocketAvailable));
}

#[test]
fn slot_closed_by_a_notification_is_not_handed_out() {
    let mut adapter = TestAdapter::new();
    adapter.multi_connections_enabled = true;
    let first = adapter.socket(Event::Start);
    let step = reconciled(&mut adapter, socket_step, first, vec![URCMessages::SocketClosed(0)]);
    assert_eq!(step, Step::Complete(Ok(Socket::new(1))));
    assert_eq!(adapter.sockets[0], SocketState::Closing);
}

#[test]
fn connect_is_confirmed_by_a_notification() {
    let mut adapter = TestAdapter::new();
    adapter.sockets[2] = SocketState::Open;
    adapter.data_available[2] = 99;
    assert_eq!(connect_two(&mut adapter, Event::Start), Step::Perform(Action::PollNotification));
    assert_eq!(
        connect_two(&mut adapter, Event::Notification(None)),
        Step::Perform(Action::Housekeeping)
    );
    assert_eq!(
        connect_two(&mut adapter, Event::Acknowledged),
        Step::Perform(Action::Command(Command::PassiveReceiving))
    );
    assert_eq!(
        connect_two(&mut adapter, Event::Reply(Ok(()))),
        Step::Perform(Action::Command(Command::Connect { link_id: 2, remote: remote() }))
    );
    assert!(adapter.passive_mode_enabled);
    assert_eq!(adapter.phase, Phase::ConnectCommand);
    assert_eq!(
        connect_two(&mut adapter, Event::Reply(Ok(()))),
        Step::Perform(Action::PollNotification)
    );
    assert_eq!(adapter.phase, Phase::ConnectConfirm(Drain::Polling, Ok(())));
    assert_eq!(
        connect_two(&mut adapter, Event::Notification(Some(URCMessages::SocketConnected(2)))),
        Step::Perform(Action::PollNotification)
    );
    assert_eq!(
        connect_two(&mut adapter, Event::Notification(None)),
        Step::Perform(Action::Housekeeping)
    );
    assert_eq!(connect_two(&mut adapter, Event::Acknowledged), Step::Complete(Ok(())));
    assert_eq!(adapter.sockets[2], SocketState::Connected);
    assert_eq!(adapter.data_available[2], 0);
    assert_eq!(adapter.phase, Phase::Idle);
}

#[test]
fn connect_takes_an_ipv6_remote() {
    let mut adapter = TestAdapter::new();
    adapter.passive_mode_enabled = true;
    adapter.sockets[0] = SocketState::Open;
    let remote = SocketAddr::V6(SocketAddrV6::new(
        Ipv6Addr::new(0x2001, 0xdb8, 0, 0, 0, 0, 0, 1),
        8080,
        0,
        0,
    ));
    let socket = Socket::new(0);
    adapter.connect(&socket, remote, Event::Start);
    adapter.connect(&socket, remote, Event::Notification(None));
    assert_eq!(
        adapter.connect(&socket, remote, Event::Acknowledged),
        Step::Perform(Action::Command(Command::Connect { link_id: 0, remote }))
    );
}

#[test]
fn passive_mode_is_enabled_once() {
    let mut adapter = TestAdapter::new();
    adapter.passive_mode_enabled = true;
    let first = connect_two(&mut adapter, Event::Start);
    let step = reconciled(&mut adapter, connect_two, first, vec![]);
    assert_eq!(
        step,
        Step::Perform(Action::Command(Command::Connect { link_id: 2, remote: remote() }))
    );
}

#[test]
fn connect_fails_if_passive_mode_cannot_be_enabled() {
    let mut adapter = TestAdapter::new();
    let first = connect_two(&mut adapter, Event::Start);
    let step = reconciled(&mut adapter, connect_two, first, vec![]);
    assert_eq!(step, Step::Perform(Action::Command(Command::PassiveReceiving)));
    assert_eq!(
        connect_two(&mut adapter, Event::Reply(Err(CommandFailure::Other(AtError::Error)))),
        Step::Complete(Err(NbError::Other(Error::EnablingPassiveSocketModeFailed(AtError::Error))))
    );
    assert!(!adapter.passive_mode_enabled);
    assert_eq!(adapter.phase, Phase::Idle);
}

#[test]
fn connect_refuses_a_connected_socket() {
    let mut adapter = TestAdapter::new();
    adapter.sockets[2] = SocketState::Connected;
    let first = connect_two(&mut adapter, Event::Start);
    let step = reconciled(&mut adapter, connect_two, first, vec![]);
    assert_eq!(step, Step::Complete(Err(NbError::Other(Error::AlreadyConnected))));
    assert_eq!(adapter.sockets[2], SocketState::Connected);
}

#[test]
fn connect_refuses_a_socket_that_a_pending_notification_connects() {
    let mut adapter = TestAdapter::new();
    adapter.sockets[2] = SocketState::Open;
    let first = connect_two(&mut adapter, Event::Start);
    let step =
        reconciled(&mut adapter, connect_two, first, vec![URCMessages::SocketConnected(2)]);
    assert_eq!(step, Step::Complete(Err(NbError::Other(Error::AlreadyConnected))));
}

#[test]
fn connect_recovers_from_a_missed_notification() {
    let mut adapter = TestAdapter::new();
    adapter.passive_mode_enabled = true;
    adapter.sockets[2] = SocketState::Open;
    adapter.data_available[2] = 12;
    let first = connect_two(&mut adapter, Event::Start);
    reconciled(&mut adapter, connect_two, first, vec![]);
    let first = connect_two(&mut adapter, Event::Reply(Err(CommandFailure::Other(AtError::Error))));
    assert_eq!(adapter.phase, Phase::ConnectConfirm(Drain::Polling, Err(Error::ConnectError(AtError::Error))));
    let step = reconciled(&mut adapter, connect_two, first, vec![URCMessages::AlreadyConnected]);
    assert_eq!(step, Step::Complete(Ok(())));
    assert_eq!(adapter.sockets[2], SocketState::Connected);
    assert_eq!(adapter.data_available[2], 0);
    assert_eq!(adapter.phase, Phase::Idle);
}

#[test]
fn collision_of_an_earlier_connect_is_forgotten() {
    let mut adapter = TestAdapter::new();
    adapter.passive_mode_enabled = true;
    adapter.already_connected = true;
    adapter.sockets[2] = SocketState::Open;
    let first = connect_two(&mut adapter, Event::Start);
    reconciled(&mut adapter, connect_two, first, vec![]);
    assert!(!adapter.already_connected);
    let first = connect_two(&mut adapter, Event::Reply(Err(CommandFailure::Other(AtError::Error))));
    let step = reconciled(&mut adapter, connect_two, first, vec![]);
    assert_eq!(step, Step::Complete(Err(NbError::Other(Error::ConnectError(AtError::Error)))));
    assert_eq!(adapter.sockets[2], SocketState::Open);
}

#[test]
fn connect_without_confirmation_is_an_error() {
    let mut adapter = TestAdapter::new();
    adapter.passive_mode_enabled = true;
    adapter.sockets[2] = SocketState::Open;
    let first = connect_two(&mut adapter, Event::Start);
    reconciled(&mut adapter, connect_two, first, vec![]);
    let first = connect_two(&mut adapter, Event::Reply(Ok(())));
    let step = reconciled(&mut adapter, connect_two, first, vec![URCMessages::SocketConnected(3)]);
    assert_eq!(step, Step::Complete(Err(NbError::Other(Error::UnconfirmedSocketState))));
    assert_eq!(adapter.sockets[2], SocketState::Open);
    assert_eq!(adapter.sockets[3], SocketState::Connected);
}

#[test]
fn connect_reports_a_transport_that_would_block() {
    let mut adapter = TestAdapter::new();
    adapter.passive_mode_enabled = true;
    let first = connect_two(&mut adapter, Event::Start);
    reconciled(&mut adapter, connect_two, first, vec![]);
    let first = connect_two(&mut adapter, Event::Reply(Err(CommandFailure::WouldBlock)));
    let step = reconciled(&mut adapter, connect_two, first, vec![URCMessages::SocketConnected(2)]);
    assert_eq!(step, Step::Complete(Err(NbError::Other(Error::UnexpectedWouldBlock))));
}

#[test]
fn is_connected_follows_the_notifications() {
    let mut adapter = TestAdapter::new();
    let first = is_connected_two(&mut adapter, Event::Start);
    let step = reconciled(&mut adapter, is_connected_two, first, vec![]);
    assert_eq!(step, Step::Complete(Ok(false)));
    let first = is_connected_two(&mut adapter, Event::Start);
    let step =
        reconciled(&mut adapter, is_connected_two, first, vec![URCMessages::SocketConnected(2)]);
    assert_eq!(step, Step::Complete(Ok(true)));
    let first = is_connected_two(&mut adapter, Event::Start);
    let step =
        reconciled(&mut adapter, is_connected_two, first, vec![URCMessages::SocketClosed(2)]);
    assert_eq!(step, Step::Complete(Ok(false)));
    assert_eq!(adapter.phase, Phase::Idle);
}

#[test]
fn close_of_an_open_socket_needs_no_command() {
    let mut adapter = TestAdapter::new();
    adapter.sockets[2] = SocketState::Open;
    assert_eq!(close_two(&mut adapter, Event::Start), Step::Perform(Action::PollNotification));
    assert_eq!(
        close_two(&mut adapter, Event::Notification(None)),
        Step::Perform(Action::Housekeeping)
    );
    assert_eq!(close_two(&mut adapter, Event::Acknowledged), Step::Complete(Ok(())));
    assert_eq!(adapter.sockets[2], SocketState::Closed);
    assert_eq!(adapter.phase, Phase::Idle);
}

#[test]
fn close_of_a_remotely_closed_socket_needs_no_command() {
    let mut adapter = TestAdapter::new();
    adapter.sockets[2] = SocketState::Connected;
    let first = close_two(&mut adapter, Event::Start);
    let step = reconciled(&mut adapter, close_two, first, vec![URCMessages::SocketClosed(2)]);
    assert_eq!(step, Step::Complete(Ok(())));
    assert_eq!(adapter.sockets[2], SocketState::Closed);
}

#[test]
fn close_of_a_connected_socket_is_confirmed() {
    let mut adapter = TestAdapter::new();
    adapter.sockets[2] = SocketState::Connected;
    let first = close_two(&mut adapter, Event::Start);
    let step = reconciled(&mut adapter, close_two, first, vec![]);
    assert_eq!(step, Step::Perform(Action::Command(Command::CloseSocket { link_id: 2 })));
    let first = close_two(&mut adapter, Event::Reply(Ok(())));
    assert_eq!(adapter.phase, Phase::CloseConfirm(Drain::Polling, Ok(())));
    let step = reconciled(&mut adapter, close_two, first, vec![URCMessages::SocketClosed(2)]);
    assert_eq!(step, Step::Complete(Ok(())));
    assert_eq!(adapter.sockets[2], SocketState::Closed);
    assert_eq!(adapter.phase, Phase::Idle);
}

#[test]
fn close_without_confirmation_is_an_error_and_closes() {
    let mut adapter = TestAdapter::new();
    adapter.sockets[2] = SocketState::Connected;
    let first = close_two(&mut adapter, Event::Start);
    reconciled(&mut adapter, close_two, first, vec![]);
    let first = close_two(&mut adapter, Event::Reply(Ok(())));
    let step = reconciled(&mut adapter, close_two, first, vec![]);
    assert_eq!(step, Step::Complete(Err(Error::UnconfirmedSocketState)));
    assert_eq!(adapter.sockets[2], SocketState::Closed);
}

#[test]
fn close_that_fails_closes_all_the_same() {
    let mut adapter = TestAdapter::new();
    adapter.sockets[2] = SocketState::Connected;
    let first = close_two(&mut adapter, Event::Start);
    reconciled(&mut adapter, close_two, first, vec![]);
    let first = close_two(&mut adapter, Event::Reply(Err(CommandFailure::Other(AtError::Timeout))));
    let step = reconciled(&mut adapter, close_two, first, vec![]);
    assert_eq!(step, Step::Complete(Err(Error::CloseError(AtError::Timeout))));
    assert_eq!(adapter.sockets[2], SocketState::Closed);
    let first = close_two(&mut adapter, Event::Start);
    reconciled(&mut adapter, close_two, first, vec![]);
    let first = close_two(&mut adapter, Event::Reply(Err(CommandFailure::WouldBlock)));
    let step = reconciled(&mut adapter, close_two, first, vec![URCMessages::SocketClosed(2)]);
    assert_eq!(step, Step::Complete(Err(Error::UnexpectedWouldBlock)));
    assert_eq!(adapter.sockets[2], SocketState::Closed);
}

#[test]
fn close_twice_leaves_the_slot_closed() {
    let mut adapter = TestAdapter::new();
    adapter.sockets[2] = SocketState::Open;
    let first = close_two(&mut adapter, Event::Start);
    assert_eq!(reconciled(&mut adapter, close_two, first, vec![]), Step::Complete(Ok(())));
    assert_eq!(adapter.sockets[2], SocketState::Closed);
    let first = close_two(&mut adapter, Event::Start);
    let step = reconciled(&mut adapter, close_two, first, vec![]);
    assert_eq!(step, Step::Perform(Action::Command(Command::CloseSocket { link_id: 2 })));
    let first = close_two(&mut adapter, Event::Reply(Err(CommandFailure::Other(AtError::Error))));
    let step = reconciled(&mut adapter, close_two, first, vec![]);
    assert_eq!(step, Step::Complete(Err(Error::CloseError(AtError::Error))));
    assert_eq!(adapter.sockets[2], SocketState::Closed);
}
