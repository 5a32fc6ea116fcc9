use mpsc::{unbounded, Reciever, SendErr, Sender};

#[test]
fn ping_pong() {
    let (mut tx, mut rx) = unbounded();
    tx.send(42);
    assert_eq!(rx.recv(), Some(42));
}

#[test]
fn closed_tx() {
    let (tx, mut rx) = unbounded::<()>();
    drop(tx);
    assert_eq!(rx.recv(), None);
}

#[test]
fn closed_rx() {
    let (mut tx, rx) = unbounded();
    drop(rx);
    tx.send(42);
}

#[test]
fn send_reports_success() {
    let (tx, mut rx) = unbounded();
    assert_eq!(tx.send(7u8), Ok(()));
    assert_eq!(rx.recv(), Some(7u8));
}

#[test]
fn value_sent_before_the_producer_left_is_delivered() {
    let (tx, mut rx) = unbounded();
    assert_eq!(tx.send(5), Ok(()));
    drop(tx);
    assert_eq!(rx.recv(), Some(5));
    assert_eq!(rx.recv(), None);
}

#[test]
fn the_end_is_final() {
    let (tx, mut rx) = unbounded::<i32>();
    drop(tx);
    assert_eq!(rx.recv(), None);
    assert_eq!(rx.recv(), None);
    assert_eq!(rx.recv(), None);
    assert_eq!(rx.buffered(), 0);
}

#[test]
fn send_without_consumer_hands_the_value_back() {
    let (tx, rx) = unbounded();
    drop(rx);
    assert_eq!(tx.send(42), Err(42));
    assert_eq!(tx.send(43), Err(43));
}

#[test]
fn every_producer_is_refused_once_the_consumer_is_gone() {
    let (tx, rx) = unbounded();
    let other = tx.clone();
    assert_eq!(tx.send(String::from("kept")), Ok(()));
    drop(rx);
    assert_eq!(tx.send(String::from("a")), Err(String::from("a")));
    assert_eq!(other.send(String::from("b")), Err(String::from("b")));
    let late = other.clone();
    assert_eq!(late.send(String::from("c")), Err(String::from("c")));
}

#[test]
fn values_come_out_in_the_order_they_went_in() {
    let (tx, mut rx) = unbounded();
    for i in 0..10 {
        assert_eq!(tx.send(i), Ok(()));
    }
    for i in 0..10 {
        assert_eq!(rx.recv(), Some(i));
    }
}

#[test]
fn first_value_brings_the_rest_of_the_queue_along() {
    let (tx, mut rx) = unbounded();
    assert_eq!(rx.buffered(), 0);
    for i in 1..=4 {
        assert_eq!(tx.send(i), Ok(()));
    }
    assert_eq!(rx.buffered(), 0);
    assert_eq!(rx.recv(), Some(1));
    assert_eq!(rx.buffered(), 3);
    assert_eq!(tx.send(5), Ok(()));
    assert_eq!(rx.recv(), Some(2));
    assert_eq!(rx.buffered(), 2);
    assert_eq!(rx.recv(), Some(3));
    assert_eq!(rx.recv(), Some(4));
    assert_eq!(rx.buffered(), 0);
    assert_eq!(rx.recv(), Some(5));
    assert_eq!(rx.buffered(), 0);
    drop(tx);
    assert_eq!(rx.recv(), None);
}

#[test]
fn buffered_values_outlive_the_producers() {
    let (tx, mut rx) = unbounded();
    for i in 0..3 {
        assert_eq!(tx.send(i), Ok(()));
    }
    assert_eq!(rx.recv(), Some(0));
    drop(tx);
    assert_eq!(rx.buffered(), 2);
    assert_eq!(rx.recv(), Some(1));
    assert_eq!(rx.recv(), Some(2));
    assert_eq!(rx.recv(), None);
}

#[test]
fn a_duplicate_keeps_the_channel_open() {
    let (tx, mut rx) = unbounded();
    let second = tx.clone();
    drop(tx);
    assert_eq!(second.send(1), Ok(()));
    assert_eq!(rx.recv(), Some(1));
    let third = second.clone();
    drop(second);
    assert_eq!(third.send(2), Ok(()));
    drop(third);
    assert_eq!(rx.recv(), Some(2));
    assert_eq!(rx.recv(), None);
}

#[test]
fn the_channel_ends_with_its_last_producer() {
    let (tx, mut rx) = unbounded::<u32>();
    let producers: Vec<Sender<u32>> = (0..5).map(|_| tx.clone()).collect();
    drop(tx);
    for (i, p) in producers.into_iter().enumerate() {
        assert_eq!(p.send(i as u32), Ok(()));
        assert_eq!(rx.recv(), Some(i as u32));
    }
    assert_eq!(rx.recv(), None);
}

#[test]
fn two_producers_keep_their_own_order() {
    let (tx, mut rx) = unbounded();
    let other = tx.clone();
    for i in 0..1000u32 {
        assert_eq!(tx.send((0u8, i)), Ok(()));
        assert_eq!(other.send((1u8, i)), Ok(()));
        if i % 7 == 0 {
            assert_eq!(other.send((1u8, 1000 + i)), Ok(()));
        }
    }
    drop(tx);
    drop(other);
    let mut from_first = Vec::new();
    let mut from_second = Vec::new();
    let mut total = 0;
    while let Some((who, what)) = rx.recv() {
        total += 1;
        if who == 0 {
            from_first.push(what);
        } else {
            from_second.push(what);
        }
    }
    let mut expected_second = Vec::new();
    for i in 0..1000u32 {
        expected_second.push(i);
        if i % 7 == 0 {
            expected_second.push(1000 + i);
        }
    }
    assert_eq!(total, 1000 + expected_second.len());
    assert_eq!(from_first, (0..1000u32).collect::<Vec<u32>>());
    assert_eq!(from_second, expected_second);
}

#[test]
fn a_burst_from_three_producers_comes_out_whole() {
    let (tx, mut rx) = unbounded();
    let producers = vec![tx.clone(), tx.clone(), tx];
    let mut sent = Vec::new();
    for round in 0..50u64 {
        for (k, p) in producers.iter().enumerate() {
            let v = round * 3 + k as u64;
            assert_eq!(p.send(v), Ok(()));
            sent.push(v);
        }
    }
    let mut got = Vec::new();
    for _ in 0..sent.len() {
        got.push(rx.recv().unwrap());
    }
    assert_eq!(rx.buffered(), 0);
    assert_eq!(got, sent);
    got.sort();
    sent.sort();
    assert_eq!(got, sent);
}

#[test]
fn sends_and_receives_may_alternate() {
    let (tx, mut rx) = unbounded();
    let mut next_in = 0u32;
    let mut next_out = 0u32;
    for round in 1..20u32 {
        for _ in 0..round {
            assert_eq!(tx.send(next_in), Ok(()));
            next_in += 1;
        }
        for _ in 0..(round / 2 + 1) {
            assert_eq!(rx.recv(), Some(next_out));
            next_out += 1;
        }
    }
    drop(tx);
    while let Some(v) = rx.recv() {
        assert_eq!(v, next_out);
        next_out += 1;
    }
    assert_eq!(next_out, next_in);
}

#[test]
fn values_are_moved_not_copied() {
    let (tx, mut rx) = unbounded();
    assert_eq!(tx.send(vec![1, 2, 3]), Ok(()));
    assert_eq!(tx.send(Vec::new()), Ok(()));
    assert_eq!(rx.recv(), Some(vec![1, 2, 3]));
    assert_eq!(rx.recv(), Some(Vec::new()));
}

#[test]
fn channels_do_not_mix() {
    let (tx_a, mut rx_a) = unbounded();
    let (tx_b, mut rx_b) = unbounded();
    assert_eq!(tx_a.send('a'), Ok(()));
    assert_eq!(tx_b.send('b'), Ok(()));
    drop(tx_a);
    assert_eq!(rx_b.recv(), Some('b'));
    assert_eq!(rx_a.recv(), Some('a'));
    assert_eq!(rx_a.recv(), None);
    assert_eq!(tx_b.send('c'), Ok(()));
    assert_eq!(rx_b.recv(), Some('c'));
}

#[test]
fn endpoints_can_be_named_by_their_types() {
    let (tx, mut rx): (Sender<i64>, Reciever<i64>) = unbounded();
    assert_eq!(tx.send(-1), Ok(()));
    assert_eq!(rx.recv(), Some(-1));
}

#[test]
fn send_err_carries_the_value() {
    let SendErr(v) = SendErr(42);
    assert_eq!(v, 42);
    let e = SendErr(String::from("undelivered"));
    assert_eq!(e.0, "undelivered");
}

#[test]
fn queued_values_go_with_the_consumer() {
    let witness = std::sync::Arc::new(0u8);
    let (tx, rx) = unbounded();
    assert!(tx.send(std::sync::Arc::clone(&witness)).is_ok());
    assert_eq!(std::sync::Arc::strong_count(&witness), 2);
    drop(rx);
    assert_eq!(std::sync::Arc::strong_count(&witness), 1);
    drop(tx);
    assert_eq!(std::sync::Arc::strong_count(&witness), 1);
}

#[test]
fn buffered_and_queued_values_go_with_the_consumer() {
    let witness = std::sync::Arc::new(String::from("seen"));
    let (tx, mut rx) = unbounded();
    let other = tx.clone();
    for _ in 0..3 {
        assert!(tx.send(std::sync::Arc::clone(&witness)).is_ok());
    }
    let first = rx.recv();
    assert!(first.is_some());
    assert_eq!(rx.buffered(), 2);
    for _ in 0..2 {
        assert!(other.send(std::sync::Arc::clone(&witness)).is_ok());
    }
    // One with the caller, one in `first`, two buffered, two queued.
    assert_eq!(std::sync::Arc::strong_count(&witness), 6);
    drop(rx);
    assert_eq!(std::sync::Arc::strong_count(&witness), 2);
    drop(first);
    assert_eq!(std::sync::Arc::strong_count(&witness), 1);
    // What is refused afterwards comes back and is not kept either.
    let back = tx.send(std::sync::Arc::clone(&witness));
    assert!(back.is_err());
    drop(back);
    assert_eq!(std::sync::Arc::strong_count(&witness), 1);
}

#[test]
fn values_without_a_consumer_do_not_wait_for_the_producers() {
    let witness = std::sync::Arc::new(());
    let (tx, rx) = unbounded();
    let producers = vec![tx.clone(), tx.clone()];
    for p in producers.iter() {
        assert!(p.send(std::sync::Arc::clone(&witness)).is_ok());
    }
    assert_eq!(std::sync::Arc::strong_count(&witness), 3);
    drop(rx);
    assert_eq!(std::sync::Arc::strong_count(&witness), 1);
    drop(producers);
    drop(tx);
    assert_eq!(std::sync::Arc::strong_count(&witness), 1);
}
