use method_taskifier::task_channel::{ChannelCore, RecvError, RecvPoll, SendError, TryRecvError};

#[derive(Debug, Clone, Copy, PartialEq, Eq)]
struct Task(usize);

#[test]
fn new_channel_is_empty_with_one_sender_and_one_receiver() {
    let (core, _receiver) = ChannelCore::<Task>::new();
    assert_eq!(core.len(), 0);
    assert_eq!(core.sender_count(), 1);
    assert_eq!(core.receiver_count(), 1);
    assert_eq!(core.version(), 0);
}

#[test]
fn tasks_come_out_in_sending_order() {
    let (mut core, receiver) = ChannelCore::new();
    assert_eq!(core.send(Task(1)), Ok(()));
    assert_eq!(core.send(Task(2)), Ok(()));
    assert_eq!(core.send(Task(3)), Ok(()));
    assert_eq!(core.try_recv(&receiver), Ok(Task(1)));
    assert_eq!(core.try_pop(), Ok(Task(2)));
    assert_eq!(core.try_recv(&receiver), Ok(Task(3)));
    assert_eq!(core.try_recv(&receiver), Err(TryRecvError::Empty));
}

#[test]
fn send_and_pop_advance_the_change_counter() {
    let (mut core, _receiver) = ChannelCore::new();
    core.send(Task(5)).unwrap();
    assert_eq!(core.version(), 1);
    assert_eq!(core.try_pop(), Ok(Task(5)));
    assert_eq!(core.version(), 2);
    assert_eq!(core.try_pop(), Err(TryRecvError::Empty));
    assert_eq!(core.version(), 2);
}

#[test]
fn try_recv_without_a_change_does_not_look_at_the_queue() {
    let (mut core, receiver) = ChannelCore::<Task>::new();
    assert_eq!(core.try_recv(&receiver), Err(TryRecvError::Empty));
    core.remove_sender();
    // the sender's departure is a change, so the queue is examined
    assert_eq!(core.try_recv(&receiver), Err(TryRecvError::Disconnected));
}

#[test]
fn try_pop_reports_disconnected_without_senders() {
    let (mut core, _receiver) = ChannelCore::new();
    core.send(Task(1)).unwrap();
    core.remove_sender();
    assert_eq!(core.sender_count(), 0);
    assert_eq!(core.try_pop(), Ok(Task(1)));
    assert_eq!(core.try_pop(), Err(TryRecvError::Disconnected));
    assert_eq!(core.try_pop(), Err(TryRecvError::Disconnected));
}

#[test]
fn send_fails_without_receivers() {
    let (mut core, receiver) = ChannelCore::new();
    core.remove_receiver(&receiver);
    assert_eq!(core.receiver_count(), 0);
    assert_eq!(core.send(Task(9)), Err(SendError::Disconnected));
    assert_eq!(core.len(), 0);
}

#[test]
fn last_receiver_discards_queued_tasks() {
    let (mut core, receiver) = ChannelCore::new();
    let second = core.add_receiver(&receiver);
    core.send(Task(1)).unwrap();
    core.send(Task(2)).unwrap();
    core.remove_receiver(&second);
    assert_eq!(core.len(), 2);
    let version = core.version();
    core.remove_receiver(&receiver);
    assert_eq!(core.len(), 0);
    assert_eq!(core.version(), version + 1);
    assert_eq!(core.receiver_count(), 0);
}

#[test]
fn sender_clone_and_drop_adjust_the_count() {
    let (mut core, _receiver) = ChannelCore::<Task>::new();
    core.add_sender();
    core.add_sender();
    assert_eq!(core.sender_count(), 3);
    core.remove_sender();
    assert_eq!(core.sender_count(), 2);
}

#[test]
fn waiting_receiver_is_pending_until_something_changes() {
    let (mut core, receiver) = ChannelCore::<Task>::new();
    assert!(matches!(core.recv_poll(&receiver), RecvPoll::Pending));
    core.send(Task(4)).unwrap();
    match core.recv_poll(&receiver) {
        RecvPoll::Ready(Ok(task)) => assert_eq!(task, Task(4)),
        _ => panic!("the queued task was not delivered"),
    }
    // the pop itself was a change: the next wake-up finds an empty queue
    assert!(matches!(core.recv_poll(&receiver), RecvPoll::Pending));
    assert!(matches!(core.recv_poll(&receiver), RecvPoll::Pending));
}

#[test]
fn waiting_receiver_learns_that_the_last_sender_left() {
    let (mut core, receiver) = ChannelCore::<Task>::new();
    assert!(matches!(core.recv_poll(&receiver), RecvPoll::Pending));
    core.remove_sender();
    assert!(matches!(core.recv_poll(&receiver), RecvPoll::Ready(Err(RecvError::Disconnected))));
}

/// One task, several workers, then the sender leaves: exactly one worker gets
/// the task and every worker then learns that the channel is disconnected.
#[test]
fn one_task_reaches_exactly_one_of_many_workers() {
    let (mut core, first) = ChannelCore::new();
    let mut receivers = Vec::new();
    for _ in 0..9 {
        let c = core.add_receiver(&first);
        receivers.push(c);
    }
    receivers.push(first);
    core.send(Task(7)).unwrap();
    core.remove_sender();

    let mut received = Vec::new();
    let mut finished = vec![false; receivers.len()];
    // round-robin wake-ups until every worker has seen the disconnection
    for _round in 0..10 {
        for (i, receiver) in receivers.iter().enumerate() {
            if finished[i] {
                continue;
            }
            match core.recv_poll(receiver) {
                RecvPoll::Ready(Ok(task)) => received.push(task),
                RecvPoll::Ready(Err(RecvError::Disconnected)) => finished[i] = true,
                RecvPoll::Pending => {}
            }
        }
    }
    assert_eq!(received, vec![Task(7)]);
    assert!(finished.iter().all(|f| *f));
}

#[test]
fn receiver_clone_and_drop_keep_the_queue() {
    let (mut core, receiver) = ChannelCore::new();
    core.send(Task(1)).unwrap();
    let clone = core.add_receiver(&receiver);
    assert_eq!(core.receiver_count(), 2);
    core.remove_receiver(&clone);
    assert_eq!(core.receiver_count(), 1);
    assert_eq!(core.len(), 1);
    assert_eq!(core.try_recv(&receiver), Ok(Task(1)));
}

#[test]
fn cloned_receiver_starts_at_the_same_position() {
    let (mut core, receiver) = ChannelCore::<Task>::new();
    core.send(Task(1)).unwrap();
    assert!(matches!(core.recv_poll(&receiver), RecvPoll::Ready(Ok(Task(1)))));
    assert!(matches!(core.recv_poll(&receiver), RecvPoll::Pending));
    let clone = core.add_receiver(&receiver);
    // both have acted on every change so far
    assert!(matches!(core.recv_poll(&clone), RecvPoll::Pending));
    core.send(Task(2)).unwrap();
    assert!(matches!(core.recv_poll(&clone), RecvPoll::Ready(Ok(Task(2)))));
    assert!(matches!(core.recv_poll(&receiver), RecvPoll::Pending));
}

#[test]
fn try_recv_returns_sent_tasks_then_empty_then_disconnected() {
    let (mut core, receiver) = ChannelCore::new();
    for i in 0..5 {
        assert_eq!(core.send(Task(i)), Ok(()));
    }
    for i in 0..5 {
        assert_eq!(core.try_recv(&receiver), Ok(Task(i)));
    }
    assert_eq!(core.try_recv(&receiver), Err(TryRecvError::Empty));
    core.remove_sender();
    assert_eq!(core.try_recv(&receiver), Err(TryRecvError::Disconnected));
}

#[test]
fn removed_receiver_identifiers_are_dead() {
    let (mut core, first) = ChannelCore::<Task>::new();
    let second = core.add_receiver(&first);
    assert!(core.is_live(&second));
    core.remove_receiver(&second);
    assert!(!core.is_live(&second));
    assert_eq!(core.receiver_count(), 1);
    // removing it again changes nothing
    core.remove_receiver(&second);
    assert_eq!(core.receiver_count(), 1);
    assert!(core.is_live(&first));
}

#[test]
fn freed_receiver_slots_are_reused() {
    let (mut core, first) = ChannelCore::<Task>::new();
    let second = core.add_receiver(&first);
    core.remove_receiver(&second);
    assert!(!core.is_live(&second));
    let third = core.add_receiver(&first);
    // the new receiver took the freed slot
    assert!(core.is_live(&second));
    assert!(core.is_live(&third));
    assert_eq!(core.receiver_count(), 2);
}
