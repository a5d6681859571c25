//! How the printer daemon groups the events it decodes into the batches it
//! sends to the animation frontend: a receipt is everything up to and
//! including its cut, while a drawer pulse goes out at once on its own.

use crate::event::{events_view, Event, EventModel};
use vstd::prelude::*;

verus! {

/// The batches sent, and the events of the receipt still being composed.
pub struct Routed {
    pub batches: Seq<Seq<EventModel>>,
    pub pending: Seq<EventModel>,
}

/// Route `events`, in order, given the events of the receipt in progress.
pub open spec fn route(pending: Seq<EventModel>, events: Seq<EventModel>) -> Routed
    decreases events.len(),
{
    if events.len() == 0 {
        Routed { batches: Seq::empty(), pending }
    } else {
        let rest = events.drop_first();
        match events[0] {
            EventModel::Pulse => {
                let r = route(pending, rest);
                Routed { batches: seq![seq![EventModel::Pulse]] + r.batches, pending: r.pending }
            },
            EventModel::Cut => {
                let r = route(Seq::empty(), rest);
                Routed { batches: seq![pending.push(EventModel::Cut)] + r.batches, pending: r.pending }
            },
            e => route(pending.push(e), rest),
        }
    }
}

/// The models of a list of event batches.
pub open spec fn batches_view(batches: Seq<Vec<Event>>) -> Seq<Seq<EventModel>> {
    batches.map_values(|b: Vec<Event>| events_view(b@))
}

/// Route newly decoded events: drawer kicks are independent of receipt
/// output and must reach the frontend even when no cut ever follows, so each
/// is a batch of its own; a cut closes the receipt in progress, which becomes
/// a batch; every other event joins the receipt in progress. Returns the
/// batches to publish, in order.
pub fn route_events(pending: &mut Vec<Event>, events: Vec<Event>) -> (batches: Vec<Vec<Event>>)
    ensures
        batches_view(batches@) == route(events_view(old(pending)@), events_view(events@)).batches,
        events_view(final(pending)@) == route(events_view(old(pending)@), events_view(events@)).pending,
{
    let ghost total = route(events_view(pending@), events_view(events@));
    let mut events = events;
    let mut batches: Vec<Vec<Event>> = Vec::new();
    while events.len() > 0
        invariant
            total.batches == batches_view(batches@) + route(
                events_view(pending@),
                events_view(events@),
            ).batches,
            total.pending == route(events_view(pending@), events_view(events@)).pending,
        decreases events@.len(),
    {
        let ghost before = events@;
        let ghost pv = events_view(pending@);
        let ghost bv = batches_view(batches@);
        let ghost ev = events_view(before);
        let event = events.remove(0);
        assert(events_view(events@) =~= ev.drop_first());
        let ghost tail = route(pv, ev.drop_first());
        match event {
            Event::Pulse => {
                let mut batch: Vec<Event> = Vec::new();
                batch.push(Event::Pulse);
                assert(events_view(batch@) =~= seq![EventModel::Pulse]);
                batches.push(batch);
                proof {
                    assert(batches_view(batches@) =~= bv.push(seq![EventModel::Pulse]));
                    assert(bv.push(seq![EventModel::Pulse]) + tail.batches =~= bv + (seq![
                        seq![EventModel::Pulse],
                    ] + tail.batches));
                }
            },
            Event::Cut => {
                pending.push(Event::Cut);
                let mut batch: Vec<Event> = Vec::new();
                std::mem::swap(&mut batch, pending);
                batches.push(batch);
                proof {
                    let tail2 = route(Seq::empty(), ev.drop_first());
                    assert(events_view(pending@) =~= Seq::empty());
                    assert(events_view(batch@) =~= pv.push(EventModel::Cut));
                    assert(batches_view(batches@) =~= bv.push(pv.push(EventModel::Cut)));
                    assert(bv.push(pv.push(EventModel::Cut)) + tail2.batches =~= bv + (seq![
                        pv.push(EventModel::Cut),
                    ] + tail2.batches));
                }
            },
            other => {
                pending.push(other);
                proof {
                    assert(events_view(pending@) =~= pv.push(ev[0]));
                }
            },
        }
    }
    batches
}

/// The subscribers that stay after a batch went out: those it reached, in
/// their order. `delivered[i]` says whether it reached subscriber `i`.
pub open spec fn delivered_only<T>(subs: Seq<T>, delivered: Seq<bool>) -> Seq<T>
    decreases subs.len(),
{
    if subs.len() == 0 {
        Seq::empty()
    } else {
        let rest = delivered_only(subs.drop_first(), delivered.drop_first());
        if delivered[0] {
            seq![subs[0]] + rest
        } else {
            rest
        }
    }
}

/// Forget the subscribers whose connection has gone: after a batch was sent
/// to each subscriber, `delivered[i]` telling whether it reached subscriber
/// `i`, keep exactly those it reached, in their order.
pub fn retain_delivered<T>(subs: &mut Vec<T>, delivered: &[bool])
    requires
        delivered@.len() == old(subs)@.len(),
    ensures
        final(subs)@ == delivered_only(old(subs)@, delivered@),
{
    let mut rest: Vec<T> = Vec::new();
    std::mem::swap(&mut rest, subs);
    let ghost all = rest@;
    let mut i: usize = 0;
    assert(delivered@.skip(0) =~= delivered@);
    assert(all.skip(0) =~= all);
    assert(subs@ + delivered_only(all, delivered@) =~= delivered_only(all, delivered@));
    while rest.len() > 0
        invariant
            i + rest@.len() == all.len(),
            delivered@.len() == all.len(),
            rest@ == all.skip(i as int),
            delivered_only(all, delivered@) == subs@ + delivered_only(
                rest@,
                delivered@.skip(i as int),
            ),
        decreases rest@.len(),
    {
        let ghost before = rest@;
        let ghost kept = subs@;
        let ghost d = delivered@.skip(i as int);
        let item = rest.remove(0);
        assert(rest@ =~= before.drop_first());
        assert(d.drop_first() =~= delivered@.skip(i + 1));
        assert(rest@ =~= all.skip(i + 1));
        if delivered[i] {
            subs.push(item);
            assert(subs@ + delivered_only(rest@, d.drop_first()) =~= kept + (seq![item]
                + delivered_only(rest@, d.drop_first())));
        }
        i += 1;
    }
    proof {
        assert(subs@ + Seq::<T>::empty() =~= subs@);
    }
}

/// The events in order, with the drawer pulses left out.
pub open spec fn without_pulses(evs: Seq<EventModel>) -> Seq<EventModel>
    decreases evs.len(),
{
    if evs.len() == 0 {
        Seq::empty()
    } else {
        (if evs[0] is Pulse {
            Seq::empty()
        } else {
            seq![evs[0]]
        }) + without_pulses(evs.drop_first())
    }
}

/// The number of drawer pulses among the events.
pub open spec fn pulse_count(evs: Seq<EventModel>) -> nat
    decreases evs.len(),
{
    if evs.len() == 0 {
        0
    } else {
        (if evs[0] is Pulse {
            1nat
        } else {
            0nat
        }) + pulse_count(evs.drop_first())
    }
}

/// The batches that are receipts, joined in order; the batches that are a
/// lone drawer pulse are left out.
pub open spec fn receipt_events(batches: Seq<Seq<EventModel>>) -> Seq<EventModel>
    decreases batches.len(),
{
    if batches.len() == 0 {
        Seq::empty()
    } else {
        (if batches[0] == seq![EventModel::Pulse] {
            Seq::empty()
        } else {
            batches[0]
        }) + receipt_events(batches.drop_first())
    }
}

/// The number of batches that are a lone drawer pulse.
pub open spec fn pulse_batches(batches: Seq<Seq<EventModel>>) -> nat
    decreases batches.len(),
{
    if batches.len() == 0 {
        0
    } else {
        (if batches[0] == seq![EventModel::Pulse] {
            1nat
        } else {
            0nat
        }) + pulse_batches(batches.drop_first())
    }
}

/// Routing loses no event and invents none: each batch is either a lone
/// drawer pulse or a receipt that ends with its cut; there is one pulse batch
/// per pulse routed; and the receipts, joined, followed by the receipt still
/// in progress, are exactly the receipt in progress before followed by the
/// routed events without their pulses.
pub proof fn law_routing_keeps_every_event(pending: Seq<EventModel>, events: Seq<EventModel>)
    ensures
        ({
            let r = route(pending, events);
            &&& receipt_events(r.batches) + r.pending == pending + without_pulses(events)
            &&& pulse_batches(r.batches) == pulse_count(events)
            &&& forall|i: int|
                0 <= i < r.batches.len() ==> #[trigger] r.batches[i] == seq![EventModel::Pulse]
                    || (r.batches[i].len() > 0 && r.batches[i].last() == EventModel::Cut)
        }),
    decreases events.len(),
{
    if events.len() == 0 {
        assert(pending + without_pulses(events) =~= pending);
        assert(Seq::<EventModel>::empty() + pending =~= pending);
    } else {
        let rest = events.drop_first();
        match events[0] {
            EventModel::Pulse => {
                law_routing_keeps_every_event(pending, rest);
                let r = route(pending, rest);
                let batches = seq![seq![EventModel::Pulse]] + r.batches;
                assert(batches.drop_first() =~= r.batches);
                assert(Seq::<EventModel>::empty() + receipt_events(r.batches) =~= receipt_events(
                    r.batches,
                ));
                assert(Seq::<EventModel>::empty() + without_pulses(rest) =~= without_pulses(rest));
                assert forall|i: int|
                    0 <= i < batches.len() implies #[trigger] batches[i] == seq![EventModel::Pulse]
                    || (batches[i].len() > 0 && batches[i].last() == EventModel::Cut) by {
                    if i > 0 {
                        assert(batches[i] == r.batches[i - 1]);
                    }
                }
            },
            EventModel::Cut => {
                law_routing_keeps_every_event(Seq::empty(), rest);
                let r = route(Seq::empty(), rest);
                let receipt = pending.push(EventModel::Cut);
                let batches = seq![receipt] + r.batches;
                assert(batches.drop_first() =~= r.batches);
                assert(receipt.last() == EventModel::Cut);
                assert(receipt != seq![EventModel::Pulse]) by {
                    if receipt == seq![EventModel::Pulse] {
                        assert(receipt.last() == EventModel::Pulse);
                    }
                }
                assert(Seq::<EventModel>::empty() + without_pulses(rest) =~= without_pulses(rest));
                assert(receipt + receipt_events(r.batches) + r.pending =~= pending + (seq![
                    EventModel::Cut,
                ] + without_pulses(rest)));
                assert forall|i: int|
                    0 <= i < batches.len() implies #[trigger] batches[i] == seq![EventModel::Pulse]
                    || (batches[i].len() > 0 && batches[i].last() == EventModel::Cut) by {
                    if i > 0 {
                        assert(batches[i] == r.batches[i - 1]);
                    }
                }
            },
            e => {
                law_routing_keeps_every_event(pending.push(e), rest);
                assert(pending.push(e) + without_pulses(rest) =~= pending + (seq![e] + without_pulses(
                    rest,
                )));
            },
        }
    }
}

} // verus!
