use esp_at_nal::adapter::{Adapter, Drain, Phase};
use esp_at_nal::buffer::Buffer;
use esp_at_nal::commands::{Action, Command, Event, Step};
use esp_at_nal::error::{AtError, CommandFailure, Error, NbError};
use esp_at_nal::stack::Socket;
use esp_at_nal::urc::URCMessages;

type TestAdapter = Adapter<256, 4>;
type ReceiveStep = Step<'static, Result<usize, NbError<Error>>>;

fn receive(adapter: &mut TestAdapter, buffer: &mut Buffer<'_, 4>, event: Event) -> ReceiveStep {
    adapter.receive(&Socket::new(3), buffer, event)
}

/// Answers the polls of one reconciliation pass with the given
/// notifications and returns the step that follows the pass.
fn reconciled(
    adapter: &mut TestAdapter,
    buffer: &mut Buffer<'_, 4>,
    first: ReceiveStep,
    notifications: Vec<URCMessages>,
) -> ReceiveStep {
    let mut pending = notifications.into_iter();
    let mut step = first;
    loop {
        match step {
            Step::Perform(Action::PollNotification) => {
                step = receive(adapter, buffer, Event::Notification(pending.next()));
            }
            Step::Perform(Action::Housekeeping) => {
                assert!(pending.next().is_none());
                return receive(adapter, buffer, Event::Acknowledged);
            }
            other => panic!("unexpected step {:?}", other),
        }
    }
}

/// Starts a receive and returns the step after the first reconciliation.
fn started(
    adapter: &mut TestAdapter,
    buffer: &mut Buffer<'_, 4>,
    notifications: Vec<URCMessages>,
) -> ReceiveStep {
    let first = receive(adapter, buffer, Event::Start);
    reconciled(adapter, buffer, first, notifications)
}

/// Answers the request for `length` bytes with the given data.
fn delivered(
    adapter: &mut TestAdapter,
    buffer: &mut Buffer<'_, 4>,
    requested: ReceiveStep,
    length: usize,
    data: &[u8],
) -> ReceiveStep {
    assert_eq!(
        requested,
        Step::Perform(Action::Command(Command::ReceiveData { link_id: 3, length }))
    );
    let first = receive(adapter, buffer, Event::Reply(Ok(())));
    assert_eq!(adapter.phase, Phase::ReceiveCollect(Drain::Polling));
    reconciled(adapter, buffer, first, vec![URCMessages::Data(data.to_vec())])
}

#[test]
fn receive_without_data_would_block() {
    let mut adapter = TestAdapter::new();
    let mut destination = [0u8; 8];
    let mut buffer = Buffer::new(&mut destination);
    assert_eq!(
        receive(&mut adapter, &mut buffer, Event::Start),
        Step::Perform(Action::PollNotification)
    );
    assert_eq!(
        receive(&mut adapter, &mut buffer, Event::Notification(None)),
        Step::Perform(Action::Housekeeping)
    );
    assert_eq!(
        receive(&mut adapter, &mut buffer, Event::Acknowledged),
        Step::Complete(Err(NbError::WouldBlock))
    );
    assert_eq!(adapter.phase, Phase::Idle);
    assert_eq!(buffer.len(), 0);
}

#[test]
fn data_of_another_socket_does_not_count() {
    let mut adapter = TestAdapter::new();
    let mut destination = [0u8; 8];
    let mut buffer = Buffer::new(&mut destination);
    let step = started(&mut adapter, &mut buffer, vec![URCMessages::DataAvailable(2, 5)]);
    assert_eq!(step, Step::Complete(Err(NbError::WouldBlock)));
    assert_eq!(adapter.data_available, [0, 0, 5, 0, 0]);
}

#[test]
fn receive_reads_until_no_data_is_left() {
    let mut adapter = TestAdapter::new();
    let mut destination = [0u8; 16];
    {
        let mut buffer = Buffer::new(&mut destination);
        let step = started(&mut adapter, &mut buffer, vec![URCMessages::DataAvailable(3, 6)]);
        let step = delivered(&mut adapter, &mut buffer, step, 4, b"nice");
        assert_eq!(adapter.data_available[3], 2);
        assert_eq!(adapter.data, None);
        let step = delivered(&mut adapter, &mut buffer, step, 4, b"!!");
        assert_eq!(step, Step::Complete(Ok(6)));
        assert_eq!(buffer.len(), 6);
    }
    assert_eq!(adapter.data_available[3], 0);
    assert_eq!(adapter.phase, Phase::Idle);
    assert_eq!(&destination[..6], b"nice!!");
    assert_eq!(&destination[6..], &[0u8; 10]);
}

#[test]
fn receive_reads_until_the_destination_is_full() {
    let mut adapter = TestAdapter::new();
    let mut destination = [0u8; 6];
    {
        let mut buffer = Buffer::new(&mut destination);
        let step = started(&mut adapter, &mut buffer, vec![URCMessages::DataAvailable(3, 20)]);
        let step = delivered(&mut adapter, &mut buffer, step, 4, &[1, 2, 3, 4]);
        let step = delivered(&mut adapter, &mut buffer, step, 2, &[5, 6]);
        assert_eq!(step, Step::Complete(Ok(6)));
    }
    assert_eq!(adapter.data_available[3], 14);
    assert_eq!(destination, [1, 2, 3, 4, 5, 6]);
}

#[test]
fn more_data_than_room_is_an_overflow() {
    let mut adapter = TestAdapter::new();
    let mut destination = [0u8; 6];
    {
        let mut buffer = Buffer::new(&mut destination);
        let step = started(&mut adapter, &mut buffer, vec![URCMessages::DataAvailable(3, 20)]);
        let step = delivered(&mut adapter, &mut buffer, step, 4, &[1, 2, 3, 4]);
        let step = delivered(&mut adapter, &mut buffer, step, 2, &[5, 6, 7]);
        assert_eq!(step, Step::Complete(Err(NbError::Other(Error::ReceiveOverflow))));
        assert_eq!(buffer.len(), 4);
    }
    assert_eq!(adapter.data_available[3], 13);
    assert_eq!(adapter.phase, Phase::Idle);
    assert_eq!(destination, [1, 2, 3, 4, 0, 0]);
}

#[test]
fn announcement_of_more_than_is_delivered_is_no_harm() {
    let mut adapter = TestAdapter::new();
    let mut destination = [0u8; 3];
    {
        let mut buffer = Buffer::new(&mut destination);
        let step = started(&mut adapter, &mut buffer, vec![URCMessages::DataAvailable(3, 1000)]);
        let step = delivered(&mut adapter, &mut buffer, step, 3, &[9, 9, 9, 9, 9, 9, 9, 9]);
        assert_eq!(step, Step::Complete(Err(NbError::Other(Error::ReceiveOverflow))));
        assert_eq!(buffer.len(), 0);
    }
    assert_eq!(destination, [0, 0, 0]);
}

#[test]
fn request_without_delivery_fails() {
    let mut adapter = TestAdapter::new();
    let mut destination = [0u8; 8];
    let mut buffer = Buffer::new(&mut destination);
    let step = started(&mut adapter, &mut buffer, vec![URCMessages::DataAvailable(3, 5)]);
    assert_eq!(
        step,
        Step::Perform(Action::Command(Command::ReceiveData { link_id: 3, length: 4 }))
    );
    let first = receive(&mut adapter, &mut buffer, Event::Reply(Ok(())));
    let step = reconciled(&mut adapter, &mut buffer, first, vec![]);
    assert_eq!(
        step,
        Step::Complete(Err(NbError::Other(Error::ReceiveFailed(AtError::InvalidResponse))))
    );
    assert_eq!(adapter.data_available[3], 5);
    assert_eq!(adapter.phase, Phase::Idle);
}

#[test]
fn request_that_fails_ends_the_receive() {
    let mut adapter = TestAdapter::new();
    let mut destination = [0u8; 8];
    let mut buffer = Buffer::new(&mut destination);
    started(&mut adapter, &mut buffer, vec![URCMessages::DataAvailable(3, 5)]);
    assert_eq!(
        receive(
            &mut adapter,
            &mut buffer,
            Event::Reply(Err(CommandFailure::Other(AtError::Timeout)))
        ),
        Step::Complete(Err(NbError::Other(Error::ReceiveFailed(AtError::Timeout))))
    );
    started(&mut adapter, &mut buffer, vec![]);
    assert_eq!(
        receive(&mut adapter, &mut buffer, Event::Reply(Err(CommandFailure::WouldBlock))),
        Step::Complete(Err(NbError::Other(Error::UnexpectedWouldBlock)))
    );
    assert_eq!(adapter.phase, Phase::Idle);
}

#[test]
fn delivery_of_more_than_counted_leaves_the_counter_at_zero() {
    let mut adapter = TestAdapter::new();
    let mut destination = [0u8; 8];
    let mut buffer = Buffer::new(&mut destination);
    let step = started(&mut adapter, &mut buffer, vec![URCMessages::DataAvailable(3, 2)]);
    let step = delivered(&mut adapter, &mut buffer, step, 4, &[1, 2, 3]);
    assert_eq!(step, Step::Complete(Ok(3)));
    assert_eq!(adapter.data_available[3], 0);
}

#[test]
fn destination_without_room_receives_nothing() {
    let mut adapter = TestAdapter::new();
    let mut destination: [u8; 0] = [];
    let mut buffer = Buffer::new(&mut destination);
    let step = started(&mut adapter, &mut buffer, vec![URCMessages::DataAvailable(3, 5)]);
    assert_eq!(step, Step::Complete(Ok(0)));
    assert_eq!(adapter.data_available[3], 5);
}

#[test]
fn data_that_arrives_later_is_announced_while_receiving() {
    let mut adapter = TestAdapter::new();
    let mut destination = [0u8; 8];
    {
        let mut buffer = Buffer::new(&mut destination);
        let step = started(&mut adapter, &mut buffer, vec![URCMessages::DataAvailable(3, 2)]);
        assert_eq!(
            step,
            Step::Perform(Action::Command(Command::ReceiveData { link_id: 3, length: 4 }))
        );
        let first = receive(&mut adapter, &mut buffer, Event::Reply(Ok(())));
        let step = reconciled(
            &mut adapter,
            &mut buffer,
            first,
            vec![URCMessages::Data(vec![1, 2]), URCMessages::DataAvailable(3, 3)],
        );
        let step = delivered(&mut adapter, &mut buffer, step, 4, &[3, 4, 5]);
        assert_eq!(step, Step::Complete(Ok(5)));
    }
    assert_eq!(&destination[..5], &[1, 2, 3, 4, 5]);
    assert_eq!(adapter.data_available[3], 0);
}
