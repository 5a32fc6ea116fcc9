use mpsc::Critical;
use std::collections::VecDeque;

#[test]
fn a_new_state_is_open_and_empty() {
    let st = Critical::<u8>::new();
    assert_eq!(st.len(), 0);
    assert_eq!(st.senders(), 1);
    assert!(!st.is_closed());
    assert!(st.must_wait());
}

#[test]
fn push_queues_behind_what_is_there() {
    let mut st = Critical::new();
    assert_eq!(st.push(10), Ok(()));
    assert_eq!(st.push(20), Ok(()));
    assert_eq!(st.len(), 2);
    assert!(!st.must_wait());
    let mut local = VecDeque::new();
    assert_eq!(st.take(&mut local), Some(10));
    assert_eq!(local.pop_back(), Some(20));
    assert_eq!(local.pop_back(), None);
}

#[test]
fn push_on_a_closed_state_hands_the_value_back() {
    let mut st = Critical::new();
    assert_eq!(st.push(1), Ok(()));
    st.close();
    assert!(st.is_closed());
    assert_eq!(st.push(2), Err(2));
    assert_eq!(st.len(), 1);
    assert_eq!(st.senders(), 1);
}

#[test]
fn take_exchanges_the_rest_for_the_buffer() {
    let mut st = Critical::new();
    for i in 1..=3 {
        assert_eq!(st.push(i), Ok(()));
    }
    let mut local = VecDeque::new();
    assert_eq!(st.take(&mut local), Some(1));
    assert_eq!(st.len(), 0);
    assert_eq!(local.len(), 2);
    assert_eq!(local.back(), Some(&2));
    assert_eq!(local.front(), Some(&3));
}

#[test]
fn take_hands_a_full_buffer_to_the_queue() {
    let mut st = Critical::new();
    assert_eq!(st.push(1), Ok(()));
    assert_eq!(st.push(2), Ok(()));
    let mut local = VecDeque::new();
    local.push_front(8);
    local.push_front(9);
    assert_eq!(st.take(&mut local), Some(1));
    assert_eq!(local.len(), 1);
    assert_eq!(local.pop_back(), Some(2));
    assert_eq!(st.len(), 2);
    assert_eq!(st.take(&mut local), Some(8));
    assert_eq!(local.pop_back(), Some(9));
    assert_eq!(st.len(), 0);
}

#[test]
fn take_from_an_empty_queue_changes_nothing() {
    let mut st = Critical::<i32>::new();
    let mut local = VecDeque::new();
    local.push_front(7);
    assert_eq!(st.take(&mut local), None);
    assert_eq!(local.len(), 1);
    assert_eq!(local.pop_back(), Some(7));
    assert_eq!(st.len(), 0);
    assert!(!st.is_closed());
    assert_eq!(st.senders(), 1);
}

#[test]
fn the_last_producer_closes_and_wakes() {
    let mut st = Critical::<u8>::new();
    assert!(st.release_sender());
    assert!(st.is_closed());
    assert_eq!(st.senders(), 0);
    assert!(!st.must_wait());
}

#[test]
fn an_earlier_producer_neither_closes_nor_wakes() {
    let mut st = Critical::<u8>::new();
    st.add_sender();
    st.add_sender();
    assert_eq!(st.senders(), 3);
    assert!(!st.release_sender());
    assert_eq!(st.senders(), 2);
    assert!(!st.is_closed());
    assert!(!st.release_sender());
    assert_eq!(st.senders(), 1);
    assert!(!st.is_closed());
    assert!(st.release_sender());
    assert_eq!(st.senders(), 0);
    assert!(st.is_closed());
}

#[test]
fn a_closed_state_does_no_more_counting_down() {
    let mut st = Critical::<u8>::new();
    st.add_sender();
    st.close();
    assert!(!st.release_sender());
    assert_eq!(st.senders(), 2);
    assert!(!st.release_sender());
    assert_eq!(st.senders(), 2);
    assert!(st.is_closed());
    let mut gone = Critical::<u8>::new();
    assert!(gone.release_sender());
    assert!(!gone.release_sender());
    assert_eq!(gone.senders(), 0);
}

#[test]
fn a_closed_state_still_counts_up() {
    let mut st = Critical::<u8>::new();
    st.close();
    st.add_sender();
    assert_eq!(st.senders(), 2);
    assert!(st.is_closed());
}

#[test]
fn close_keeps_what_is_queued() {
    let mut st = Critical::new();
    assert_eq!(st.push('x'), Ok(()));
    st.close();
    st.close();
    assert!(st.is_closed());
    assert_eq!(st.len(), 1);
    assert!(!st.must_wait());
    let mut local = VecDeque::new();
    assert_eq!(st.take(&mut local), Some('x'));
    assert_eq!(st.take(&mut local), None);
    assert!(!st.must_wait());
}

#[test]
fn waiting_ends_with_a_value_or_with_the_end() {
    let mut with_value = Critical::new();
    assert!(with_value.must_wait());
    assert_eq!(with_value.push(0), Ok(()));
    assert!(!with_value.must_wait());
    let mut ended = Critical::<i32>::new();
    assert!(ended.must_wait());
    assert!(ended.release_sender());
    assert!(!ended.must_wait());
}

#[test]
fn sent_less_received_is_what_is_in_the_channel() {
    let mut st = Critical::new();
    let mut local = VecDeque::new();
    let mut sent = 0usize;
    let mut received = 0usize;
    for round in 0..30u32 {
        for i in 0..(round % 4) {
            assert_eq!(st.push(round * 10 + i), Ok(()));
            sent += 1;
        }
        if round % 3 == 0 {
            let got = match local.pop_back() {
                Some(v) => Some(v),
                None => st.take(&mut local),
            };
            if got.is_some() {
                received += 1;
            }
        }
        assert_eq!(sent - received, st.len() + local.len());
    }
}

#[test]
fn shut_closes_and_hands_out_the_queue() {
    let mut st = Critical::new();
    for i in 1..=3 {
        assert_eq!(st.push(i), Ok(()));
    }
    st.add_sender();
    let mut rest = st.shut();
    assert!(st.is_closed());
    assert_eq!(st.len(), 0);
    assert_eq!(st.senders(), 2);
    assert!(!st.must_wait());
    assert_eq!(rest.pop_back(), Some(1));
    assert_eq!(rest.pop_back(), Some(2));
    assert_eq!(rest.pop_back(), Some(3));
    assert_eq!(rest.pop_back(), None);
    assert_eq!(st.push(4), Err(4));
    assert_eq!(st.len(), 0);
    let mut local = VecDeque::new();
    assert_eq!(st.take(&mut local), None);
}

#[test]
fn shut_of_an_empty_or_closed_state() {
    let mut st = Critical::<u8>::new();
    let rest = st.shut();
    assert!(rest.is_empty());
    assert!(st.is_closed());
    assert_eq!(st.senders(), 1);
    let again = st.shut();
    assert!(again.is_empty());
    assert!(st.is_closed());
    assert!(!st.release_sender());
    assert_eq!(st.senders(), 1);
}
