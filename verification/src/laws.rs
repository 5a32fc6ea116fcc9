//! What holds of every run of a channel.
use vstd::prelude::*;
use crate::history::{offered, producers_only, requests, Channel, Event};
use crate::model::Core;

verus! {

/// Every event that can happen keeps the invariant of the channel.
pub proof fn lemma_step_keeps_inv<T>(c: Channel<T>, e: Event<T>)
    requires
        c.inv(),
        c.enabled(e),
    ensures
        c.step(e).inv(),
{
}

/// A run is made of its events up to any point and the events from there on.
pub proof fn lemma_run_splits<T>(c: Channel<T>, a: Seq<Event<T>>, b: Seq<Event<T>>)
    ensures
        c.after(a + b) == c.after(a).after(b),
        c.admits(a + b) == (c.admits(a) && c.after(a).admits(b)),
        c.sent(a + b) == c.sent(a) + c.after(a).sent(b),
        c.received(a + b) == c.received(a) + c.after(a).received(b),
    decreases b.len(),
{
    if b.len() == 0 {
        assert(a + b =~= a);
        assert(c.sent(a) + c.after(a).sent(b) =~= c.sent(a));
        assert(c.received(a) + c.after(a).received(b) =~= c.received(a));
    } else {
        assert((a + b).drop_last() =~= a + b.drop_last());
        assert((a + b).last() == b.last());
        lemma_run_splits(c, a, b.drop_last());
        let s = c.after(a).after(b.drop_last());
        if s.accepted(b.last()) is Some {
            assert(c.sent(a + b) =~= c.sent(a) + c.after(a).sent(b));
        }
        if s.delivered(b.last()) is Some {
            assert(c.received(a + b) =~= c.received(a) + c.after(a).received(b));
        }
    }
}

/// The events of a run up to its `k`-th, followed by the `k`-th, are the
/// events up to the next one.
proof fn lemma_prefix<T>(c: Channel<T>, events: Seq<Event<T>>, k: int)
    requires
        c.admits(events),
        0 <= k < events.len(),
    ensures
        c.admits(events.take(k)),
        c.admits(events.take(k + 1)),
        c.after(events.take(k)).enabled(events[k]),
        c.after(events.take(k + 1)) == c.after(events.take(k)).step(events[k]),
{
    let a = events.take(k + 1);
    let b = events.skip(k + 1);
    assert(events =~= a + b);
    lemma_run_splits(c, a, b);
    assert(a.drop_last() =~= events.take(k));
    assert(a.last() == events[k]);
}

/// The invariant of the channel holds at every moment of a run.
pub proof fn law_invariant<T>(c: Channel<T>, events: Seq<Event<T>>)
    requires
        c.inv(),
        c.admits(events),
    ensures
        c.after(events).inv(),
    decreases events.len(),
{
    if events.len() > 0 {
        law_invariant(c, events.drop_last());
        lemma_step_keeps_inv(c.after(events.drop_last()), events.last());
    }
}

/// A new channel satisfies the invariant, and with it every channel that a
/// run can lead to.
pub proof fn law_invariant_from_start<T>(events: Seq<Event<T>>)
    requires
        Channel::<T>::fresh().admits(events),
    ensures
        Channel::<T>::fresh().after(events).inv(),
{
    law_invariant(Channel::<T>::fresh(), events);
}

/// A channel is closed exactly when its consumer is gone or its producer
/// count has come down to zero.
pub proof fn law_closed_means<T>(c: Channel<T>)
    requires
        c.inv(),
    ensures
        c.core.done <==> !c.consumer || c.core.senders == 0,
{
}

/// A closed channel stays closed, whatever happens.
pub proof fn law_closed_for_good<T>(c: Channel<T>, events: Seq<Event<T>>)
    requires
        c.core.done,
    ensures
        c.after(events).core.done,
    decreases events.len(),
{
    if events.len() > 0 {
        law_closed_for_good(c, events.drop_last());
    }
}

/// A consumer that is there at the end of a run was there all along.
proof fn lemma_consumer_was_there<T>(c: Channel<T>, events: Seq<Event<T>>)
    requires
        c.after(events).consumer,
    ensures
        c.consumer,
        events.len() > 0 ==> c.after(events.drop_last()).consumer,
    decreases events.len(),
{
    if events.len() > 0 {
        lemma_consumer_was_there(c, events.drop_last());
    }
}

/// Delivery in order, each value once. As long as the consumer is there, the
/// values that the channel has taken in are, in the order in which it took
/// them in, the values that the consumer has got, in the order in which it got
/// them, followed by the values that are still in the channel, in the order in
/// which it will get them. So no value is lost, none comes twice, and none
/// overtakes another.
pub proof fn law_ordered_delivery<T>(c: Channel<T>, events: Seq<Event<T>>)
    requires
        c.admits(events),
        c.after(events).consumer,
    ensures
        c.resident() + c.sent(events) == c.received(events) + c.after(events).resident(),
    decreases events.len(),
{
    if events.len() == 0 {
        assert(c.resident() + c.sent(events) =~= c.received(events) + c.after(events).resident());
    } else {
        let before = events.drop_last();
        let e = events.last();
        let s = c.after(before);
        lemma_consumer_was_there(c, events);
        law_ordered_delivery(c, before);
        let sent_step: Seq<T> = match s.accepted(e) {
            Some(v) => seq![v],
            None => Seq::empty(),
        };
        let got_step: Seq<T> = match s.delivered(e) {
            Some(v) => seq![v],
            None => Seq::empty(),
        };
        assert(c.sent(events) =~= c.sent(before) + sent_step);
        assert(c.received(events) =~= c.received(before) + got_step);
        assert(s.resident() + sent_step =~= got_step + s.step(e).resident());
        assert(c.resident() + c.sent(events) =~= (c.resident() + c.sent(before)) + sent_step);
        assert(c.received(events) + c.after(events).resident() =~= c.received(before) + (got_step
            + s.step(e).resident()));
        assert((c.received(before) + s.resident()) + sent_step =~= c.received(before) + (
        s.resident() + sent_step));
    }
}

/// The same for a new channel, which starts empty: what was sent is what was
/// received, followed by what is still in the channel.
pub proof fn law_ordered_delivery_from_start<T>(events: Seq<Event<T>>)
    requires
        Channel::<T>::fresh().admits(events),
        Channel::<T>::fresh().after(events).consumer,
    ensures
        Channel::<T>::fresh().sent(events) == Channel::<T>::fresh().received(events)
            + Channel::<T>::fresh().after(events).resident(),
        Channel::<T>::fresh().received(events).is_prefix_of(Channel::<T>::fresh().sent(events)),
{
    let c = Channel::<T>::fresh();
    law_ordered_delivery(c, events);
    assert(c.resident() + c.sent(events) =~= c.sent(events));
}

/// Order within every part of the traffic. Pick the values by any mark `of`,
/// such as the producer that sent them, where the values say so: the marked
/// values that the consumer has got are, in their order, the first of the
/// marked values that the channel took in, in theirs.
pub proof fn law_order_per_producer<T>(events: Seq<Event<T>>, of: spec_fn(T) -> bool)
    requires
        Channel::<T>::fresh().admits(events),
        Channel::<T>::fresh().after(events).consumer,
    ensures
        Channel::<T>::fresh().received(events).filter(of).is_prefix_of(
            Channel::<T>::fresh().sent(events).filter(of),
        ),
{
    let c = Channel::<T>::fresh();
    law_ordered_delivery_from_start(events);
    c.received(events).lemma_filter_monotone(c.sent(events), of);
}

/// Conservation. As long as the consumer is there, the number of values that
/// the channel has taken in, less the number that the consumer has got, is
/// the number of values in the shared queue and the consumer's buffer
/// together.
pub proof fn law_conservation<T>(events: Seq<Event<T>>)
    requires
        Channel::<T>::fresh().admits(events),
        Channel::<T>::fresh().after(events).consumer,
    ensures
        Channel::<T>::fresh().sent(events).len() - Channel::<T>::fresh().received(events).len()
            == Channel::<T>::fresh().after(events).core.queue.len() + Channel::<T>::fresh().after(
            events,
        ).local.len(),
{
    law_ordered_delivery_from_start(events);
}

/// What is left of a channel without producers and without values.
spec fn drained<T>(c: Channel<T>) -> bool {
    c.inv() && c.producers == 0 && c.resident().len() == 0
}

proof fn lemma_drained_stays<T>(c: Channel<T>, events: Seq<Event<T>>)
    requires
        drained(c),
        c.admits(events),
    ensures
        drained(c.after(events)),
    decreases events.len(),
{
    if events.len() > 0 {
        lemma_drained_stays(c, events.drop_last());
    }
}

/// The end is final. Once the last producer is gone and neither the shared
/// queue nor the consumer's buffer holds a value, every request of the
/// consumer, however much later, is answered at once and with `None`.
pub proof fn law_end_is_final<T>(c: Channel<T>, events: Seq<Event<T>>, k: int)
    requires
        c.inv(),
        c.producers == 0,
        c.core.queue.len() == 0,
        c.local.len() == 0,
        c.admits(events),
        0 <= k < events.len(),
        events[k] is Recv,
    ensures
        !c.after(events.take(k)).blocks(events[k]),
        c.after(events.take(k)).delivered(events[k]) is None,
        c.after(events.take(k + 1)) == c.after(events.take(k)),
{
    lemma_prefix(c, events, k);
    lemma_drained_stays(c, events.take(k));
}

/// Values go with the consumer. The disposal of the consumer closes the
/// channel and leaves no value in it: what was in the consumer's buffer and
/// what was in the shared queue are dropped, none of it is delivered or kept.
pub proof fn law_disposal_empties<T>(c: Channel<T>)
    requires
        c.consumer,
    ensures
        c.delivered(Event::DropConsumer) is None,
        c.step(Event::DropConsumer).core.done,
        c.step(Event::DropConsumer).core.queue == Seq::<T>::empty(),
        c.step(Event::DropConsumer).local == Seq::<T>::empty(),
        c.step(Event::DropConsumer).resident() == Seq::<T>::empty(),
{
    assert(c.step(Event::DropConsumer).resident() =~= Seq::<T>::empty());
}

proof fn lemma_deserted_stays<T>(c: Channel<T>, events: Seq<Event<T>>)
    requires
        c.inv(),
        !c.consumer,
        c.admits(events),
    ensures
        c.after(events).inv(),
        !c.after(events).consumer,
        c.after(events).resident() == Seq::<T>::empty(),
        c.sent(events) == Seq::<T>::empty(),
        c.received(events) == Seq::<T>::empty(),
    decreases events.len(),
{
    if events.len() > 0 {
        lemma_deserted_stays(c, events.drop_last());
    }
    assert(c.after(events).resident() =~= Seq::<T>::empty());
}

/// Nobody listens, nothing is taken. Once the consumer is gone, every value
/// that a producer offers, however much later, is refused, and the channel
/// stays empty: nothing is queued and nothing is received.
pub proof fn law_no_consumer_refuses<T>(c: Channel<T>, events: Seq<Event<T>>, k: int)
    requires
        c.inv(),
        !c.consumer,
        c.admits(events),
        0 <= k < events.len(),
        events[k] is Send,
    ensures
        c.after(events.take(k)).accepted(events[k]) is None,
        c.after(events.take(k + 1)).core.queue == Seq::<T>::empty(),
        c.after(events).core.queue == Seq::<T>::empty(),
        c.sent(events) == Seq::<T>::empty(),
        c.received(events) == Seq::<T>::empty(),
{
    lemma_prefix(c, events, k);
    lemma_deserted_stays(c, events.take(k));
    lemma_deserted_stays(c, events.take(k + 1));
    lemma_deserted_stays(c, events);
    assert(c.after(events.take(k + 1)).core.queue =~= c.after(events.take(k + 1)).resident());
    assert(c.after(events).core.queue =~= c.after(events).resident());
}

/// A closed channel takes nothing in: a value that is offered to it is
/// refused and leaves it as it was.
pub proof fn law_closed_takes_nothing<T>(c: Channel<T>, v: T)
    requires
        c.core.done,
    ensures
        c.accepted(Event::Send(v)) is None,
        c.step(Event::Send(v)) == c,
{
}

/// While the consumer is there, nothing is refused: a producer that exists
/// finds the channel open.
pub proof fn law_consumer_accepts<T>(c: Channel<T>, v: T)
    requires
        c.inv(),
        c.consumer,
        c.enabled(Event::Send(v)),
    ensures
        c.accepted(Event::Send(v)) == Some(v),
{
}

/// One value, there and back. A new channel takes in `x`, and the consumer
/// gets `x` at once. The next request sleeps while the producer is there, and
/// is answered with `None` once the producer is gone.
pub proof fn law_round_trip<T>(x: T)
    ensures
        ({
            let c0 = Channel::<T>::fresh();
            let c1 = c0.step(Event::Send(x));
            let c2 = c1.step(Event::Recv);
            let c3 = c2.step(Event::DropProducer);
            &&& c0.accepted(Event::Send(x)) == Some(x)
            &&& !c1.blocks(Event::Recv)
            &&& c1.delivered(Event::Recv) == Some(x)
            &&& c2.blocks(Event::Recv)
            &&& c2.step(Event::Recv) == c2
            &&& !c3.blocks(Event::Recv)
            &&& c3.delivered(Event::Recv) is None
        }),
{
    let c0 = Channel::<T>::fresh();
    let c1 = c0.step(Event::Send(x));
    assert(c1.core.queue =~= seq![x]);
    let c2 = c1.step(Event::Recv);
    assert(c2.core.queue =~= Seq::<T>::empty());
    assert(c2.local =~= Seq::<T>::empty());
}

/// A notification finds work. The two events after which the consumer is
/// woken, a value taken in and the disposal of the last producer, leave a
/// state on which the consumer does not go back to sleep.
pub proof fn law_woken_for_a_reason<T>(core: Core<T>, v: T)
    ensures
        core.accepts() ==> !core.push(v).must_wait(),
        core.last_sender() ==> !core.release_sender().must_wait(),
{
}

/// While only producers act, every value that is offered is taken in and
/// none is handed out.
proof fn lemma_producers_only<T>(events: Seq<Event<T>>)
    requires
        Channel::<T>::fresh().admits(events),
        producers_only(events),
    ensures
        Channel::<T>::fresh().after(events).consumer,
        Channel::<T>::fresh().after(events).inv(),
        Channel::<T>::fresh().sent(events) == offered(events),
        Channel::<T>::fresh().received(events) == Seq::<T>::empty(),
    decreases events.len(),
{
    if events.len() > 0 {
        let before = events.drop_last();
        assert(producers_only(before)) by {
            assert forall|i: int| 0 <= i < before.len() implies !(#[trigger] before[i] is Recv)
                && !(before[i] is DropConsumer) by {
                assert(before[i] == events[i]);
            }
        }
        lemma_producers_only(before);
        assert(!(events[events.len() - 1] is Recv) && !(events[events.len() - 1] is DropConsumer));
        lemma_step_keeps_inv(Channel::<T>::fresh().after(before), events.last());
    }
}

/// What is in the channel can be had. A consumer that asks `n` times of a
/// channel with at least `n` values in it gets the first `n` of them, in their
/// order and without sleeping, whether the channel is open or closed; the
/// others stay, in their order.
pub proof fn law_backlog_is_delivered<T>(c: Channel<T>, n: nat)
    requires
        c.consumer,
        n <= c.resident().len(),
    ensures
        c.admits(requests(n)),
        c.after(requests::<T>(n)).consumer,
        c.received(requests(n)) == c.resident().take(n as int),
        c.after(requests::<T>(n)).resident() == c.resident().skip(n as int),
        forall|k: int| 0 <= k < n ==> !(#[trigger] c.after(requests::<T>(n).take(k))).blocks(Event::Recv),
    decreases n,
{
    let all = requests::<T>(n);
    if n == 0 {
        assert(c.received(all) =~= c.resident().take(0));
        assert(c.after(all).resident() =~= c.resident().skip(0));
    } else {
        let m = (n - 1) as nat;
        let before = requests::<T>(m);
        assert(all.drop_last() =~= before);
        assert(all.last() == Event::<T>::Recv);
        law_backlog_is_delivered(c, m);
        let s = c.after(before);
        assert(s.resident().len() > 0);
        assert(s.resident().first() == c.resident()[m as int]);
        assert(s.delivered(Event::Recv) == Some(c.resident()[m as int]));
        assert(c.received(all) =~= c.resident().take(n as int));
        assert(s.step(Event::Recv).resident() =~= s.resident().drop_first());
        assert(c.after(all).resident() =~= c.resident().skip(n as int));
        assert forall|k: int| 0 <= k < n implies !(#[trigger] c.after(all.take(k))).blocks(
            Event::Recv,
        ) by {
            if k < m {
                assert(all.take(k) =~= before.take(k));
            } else {
                assert(all.take(k) =~= before);
            }
        }
    }
}

/// A burst comes out as it went in. Let any number of producers, duplicated
/// and disposed of as they please, send to a new channel, and let the
/// consumer then ask as many times as values were offered. Then every value
/// was taken in, no request sleeps, and the consumer gets the values that were
/// offered, in the order in which the channel took them in; as collections,
/// what was sent and what was received are the same.
pub proof fn law_burst<T>(sends: Seq<Event<T>>)
    requires
        Channel::<T>::fresh().admits(sends),
        producers_only(sends),
    ensures
        ({
            let n = offered(sends).len();
            let run = sends + requests::<T>(n);
            let c = Channel::<T>::fresh();
            &&& c.admits(run)
            &&& c.sent(run) == offered(sends)
            &&& c.received(run) == offered(sends)
            &&& c.received(run).to_multiset() == offered(sends).to_multiset()
            &&& c.after(run).resident().len() == 0
            &&& forall|k: int|
                0 <= k < n ==> !(#[trigger] c.after(sends + requests::<T>(n).take(k))).blocks(
                    Event::Recv,
                )
        }),
{
    let n = offered(sends).len();
    let asks = requests::<T>(n);
    let run = sends + asks;
    let c = Channel::<T>::fresh();
    let s = c.after(sends);
    lemma_producers_only(sends);
    law_ordered_delivery_from_start(sends);
    assert(s.resident() =~= offered(sends));
    law_backlog_is_delivered(s, n);
    lemma_run_splits(c, sends, asks);
    assert(s.resident().take(n as int) =~= offered(sends));
    assert(c.received(run) =~= offered(sends));
    law_ordered_delivery_from_start(run);
    assert(c.sent(run) =~= offered(sends)) by {
        law_ordered_delivery(s, asks);
        assert(s.resident().skip(n as int) =~= Seq::<T>::empty());
        assert(s.sent(asks) =~= Seq::<T>::empty());
    }
    assert forall|k: int| 0 <= k < n implies !(#[trigger] c.after(sends + asks.take(k))).blocks(
        Event::Recv,
    ) by {
        lemma_run_splits(c, sends, asks.take(k));
    }
}

} // verus!
