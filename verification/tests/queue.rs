use multi_agent_engine::message::Queue;
use multi_agent_engine::Error;

#[test]
fn sends_then_single_receive_returns_in_order() {
    let (sender, receiver) = Queue::<u32>::channel();
    sender.send(1);
    sender.send(2);
    sender.send(3);
    let batch = receiver.receive().unwrap();
    assert_eq!(batch, vec![1, 2, 3]);
}

#[test]
fn interleaved_cloned_senders_preserve_per_sender_order() {
    let (first, receiver) = Queue::<u32>::channel();
    let second = first.clone();
    first.send(10);
    second.send(20);
    first.send(11);
    second.send(21);
    let batch = receiver.receive().unwrap();
    assert_eq!(batch.len(), 4);
    let pos = |v: u32| batch.iter().position(|m| *m == v).unwrap();
    assert!(pos(10) < pos(11));
    assert!(pos(20) < pos(21));
}

#[test]
fn cloned_handles_share_the_same_transport() {
    let queue = Queue::<u32>::new();
    let sender_a = queue.sender();
    let sender_b = queue.sender();
    let receiver_a = queue.receiver();
    let receiver_b = queue.receiver();
    sender_a.send(5);
    sender_b.send(6);
    let batch = receiver_b.receive().unwrap();
    assert_eq!(batch, vec![5, 6]);
    sender_b.send(7);
    let batch = receiver_a.receive().unwrap();
    assert_eq!(batch, vec![7]);
}

#[test]
fn receive_is_a_batch_drain_and_does_not_replay() {
    let (sender, receiver) = Queue::<u32>::channel();
    sender.send(1);
    sender.send(2);
    assert_eq!(receiver.receive().unwrap(), vec![1, 2]);
    sender.send(3);
    assert_eq!(receiver.receive().unwrap(), vec![3]);
}

#[test]
fn receive_after_all_senders_dropped_is_disconnected() {
    let (sender, receiver) = Queue::<u8>::channel();
    drop(sender);
    assert_eq!(receiver.receive(), Err(Error::Disconnected));
}

#[test]
fn buffered_messages_still_arrive_before_disconnection() {
    let (sender, receiver) = Queue::<u8>::channel();
    sender.send(9);
    drop(sender);
    assert_eq!(receiver.receive().unwrap(), vec![9]);
    assert_eq!(receiver.receive(), Err(Error::Disconnected));
}

#[test]
fn dropping_the_queue_disconnects_its_receivers() {
    let queue = Queue::<u32>::new();
    let receiver = queue.receiver();
    drop(queue);
    assert_eq!(receiver.receive(), Err(Error::Disconnected));
}

#[test]
fn successive_receives_partition_the_sent_sequence() {
    let (sender, receiver) = Queue::<String>::channel();
    let mut sent: Vec<String> = Vec::new();
    let mut observed: Vec<String> = Vec::new();

    sender.send(String::from("Hello"));
    sent.push(String::from("Hello"));
    observed.extend(receiver.receive().unwrap());

    for i in 0..5u32 {
        let data = format!("data-{}", i);
        sender.send(data.clone());
        sent.push(data);
    }
    observed.extend(receiver.receive().unwrap());

    sender.send(String::from("Bye"));
    sent.push(String::from("Bye"));
    observed.extend(receiver.receive().unwrap());

    assert_eq!(observed, sent);
}
