use lossy_channel::unsync::mpsc::Shared;
use lossy_channel::{Async, Item};

type Chan = Shared<i32, u32>;

#[test]
fn send_recv() {
    let mut ch = Chan::new(1);
    assert!(matches!(ch.start_send(42), Ok(None)));
    assert_eq!(ch.poll(0), Async::Ready(Some(Item::Next(42))));
    ch.drop_sender();
    assert_eq!(ch.poll(0), Async::Ready(None));
}

#[test]
fn rx_notready() {
    let mut ch = Chan::new(1);
    assert_eq!(ch.poll(0), Async::NotReady);
}

#[test]
fn rx_end() {
    let mut ch = Chan::new(1);
    ch.drop_sender();
    assert_eq!(ch.poll(0), Async::Ready(None));
}

#[test]
fn tx_err() {
    let mut ch = Chan::new(1);
    ch.drop_receiver();
    assert!(ch.start_send(2).is_err());
}

#[test]
fn recv_unpark() {
    let mut ch = Chan::new(1);
    ch.add_sender();
    let mut got = Vec::new();
    assert_eq!(ch.poll(7), Async::NotReady);
    match ch.start_send(1) {
        Ok(Some(task)) => assert_eq!(task, 7),
        _ => panic!("the suspended receiver was not handed back"),
    }
    match ch.poll(8) {
        Async::Ready(Some(item)) => got.push(item.into_inner()),
        other => panic!("unexpected poll result {:?}", other),
    }
    assert_eq!(ch.poll(9), Async::NotReady);
    ch.drop_sender();
    match ch.start_send(2) {
        Ok(Some(task)) => assert_eq!(task, 9),
        _ => panic!("the suspended receiver was not handed back"),
    }
    ch.drop_sender();
    loop {
        match ch.poll(10) {
            Async::Ready(Some(item)) => got.push(item.into_inner()),
            Async::Ready(None) => break,
            Async::NotReady => panic!("no sender is left"),
        }
    }
    assert_eq!(got, vec![1, 2]);
}

#[test]
fn capacity_one_read_then_pending() {
    let mut ch = Chan::new(1);
    assert!(ch.start_send(42).is_ok());
    assert_eq!(ch.poll(1), Async::Ready(Some(Item::Next(42))));
    assert_eq!(ch.poll(2), Async::NotReady);
}

#[test]
fn capacity_one_end_of_stream_repeats() {
    let mut ch = Chan::new(1);
    ch.drop_sender();
    for _ in 0..3 {
        assert_eq!(ch.poll(0), Async::Ready(None));
    }
}

#[test]
fn capacity_one_overrun() {
    let mut ch = Chan::new(1);
    assert!(ch.start_send(1).is_ok());
    assert!(ch.start_send(2).is_ok());
    assert_eq!(ch.len(), 1);
    assert_eq!(ch.poll(0), Async::Ready(Some(Item::Overrun(2))));
    assert_eq!(ch.poll(0), Async::NotReady);
}

#[test]
fn fill_to_capacity_reads_all_plain() {
    let mut ch = Chan::new(4);
    for v in 10..14 {
        assert!(matches!(ch.start_send(v), Ok(None)));
    }
    for v in 10..14 {
        assert_eq!(ch.poll(0), Async::Ready(Some(Item::Next(v))));
    }
    assert_eq!(ch.poll(0), Async::NotReady);
}

#[test]
fn overflow_keeps_newest_and_tags_first() {
    let mut ch = Chan::new(3);
    for v in 1..8 {
        assert!(ch.start_send(v).is_ok());
    }
    assert_eq!(ch.len(), 3);
    assert_eq!(ch.poll(0), Async::Ready(Some(Item::Overrun(5))));
    assert_eq!(ch.poll(0), Async::Ready(Some(Item::Next(6))));
    assert_eq!(ch.poll(0), Async::Ready(Some(Item::Next(7))));
    assert_eq!(ch.poll(0), Async::NotReady);
}

#[test]
fn overrun_flag_cleared_after_one_read() {
    let mut ch = Chan::new(2);
    for v in 1..4 {
        assert!(ch.start_send(v).is_ok());
    }
    assert_eq!(ch.poll(0), Async::Ready(Some(Item::Overrun(2))));
    assert!(ch.start_send(4).is_ok());
    assert_eq!(ch.poll(0), Async::Ready(Some(Item::Next(3))));
    assert_eq!(ch.poll(0), Async::Ready(Some(Item::Next(4))));
}

#[test]
fn send_after_receiver_gone_returns_value() {
    let mut ch = Chan::new(2);
    assert!(ch.start_send(5).is_ok());
    ch.drop_receiver();
    assert_eq!(ch.len(), 0);
    match ch.start_send(99) {
        Err(e) => {
            assert_eq!(e.description(), "send failed because receiver is gone");
            assert_eq!(e.into_inner(), 99);
        }
        Ok(_) => panic!("send to a closed channel succeeded"),
    }
}

#[test]
fn second_poll_replaces_wake_handle_and_wakes_once() {
    let mut ch = Chan::new(2);
    assert_eq!(ch.poll(1), Async::NotReady);
    assert_eq!(ch.poll(2), Async::NotReady);
    assert!(matches!(ch.start_send(1), Ok(Some(2))));
    assert!(matches!(ch.start_send(2), Ok(None)));
}

#[test]
fn draining_after_senders_gone() {
    let mut ch = Chan::new(3);
    ch.add_sender();
    assert_eq!(ch.sender_count(), 2);
    assert!(ch.start_send(1).is_ok());
    assert!(ch.start_send(2).is_ok());
    ch.drop_sender();
    ch.drop_sender();
    assert_eq!(ch.sender_count(), 0);
    assert_eq!(ch.poll(0), Async::Ready(Some(Item::Next(1))));
    assert_eq!(ch.poll(0), Async::Ready(Some(Item::Next(2))));
    assert_eq!(ch.poll(0), Async::Ready(None));
    assert_eq!(ch.poll(0), Async::Ready(None));
}

#[test]
fn item_into_inner_ignores_tag() {
    assert_eq!(Item::Next(3).into_inner(), 3);
    assert_eq!(Item::Overrun(4).into_inner(), 4);
}
