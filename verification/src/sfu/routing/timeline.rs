//! What holds of whole runs of packets on their way from a publisher through
//! a router and a subscriber to a destination.

use vstd::prelude::*;
use crate::sfu::routing::layer::LayerView;
use crate::sfu::routing::packet::{restamped, with_timestamp, Packet, RtpPacket};
use crate::sfu::routing::router::{timestamp_delta, timestamp_distance};
use crate::sfu::routing::subscriber::{sequence_successor, timestamp_sum, SubscriberState};

verus! {

/// State of a subscriber after `packets` have been offered to it one by one.
pub open spec fn state_after(state: SubscriberState, packets: Seq<Packet>) -> SubscriberState
    decreases packets.len(),
{
    if packets.len() == 0 {
        state
    } else {
        state_after(state, packets.drop_last()).after(packets.last())
    }
}

/// What a subscriber writes to its destination, in order, when `packets` are
/// offered to it one by one.
pub open spec fn forwarded(state: SubscriberState, packets: Seq<Packet>) -> Seq<RtpPacket>
    decreases packets.len(),
{
    if packets.len() == 0 {
        Seq::empty()
    } else {
        let before = forwarded(state, packets.drop_last());
        match state_after(state, packets.drop_last()).output(packets.last()) {
            Some(out) => before.push(out),
            None => before,
        }
    }
}

/// The packets of `layer` among `packets`, in order.
pub open spec fn of_layer(packets: Seq<Packet>, layer: LayerView) -> Seq<Packet>
    decreases packets.len(),
{
    if packets.len() == 0 {
        Seq::empty()
    } else if packets.last().layer@ == layer {
        of_layer(packets.drop_last(), layer).push(packets.last())
    } else {
        of_layer(packets.drop_last(), layer)
    }
}

/// Whether `packets` are what a reader of `layer` broadcasts for the source
/// packets `rtps`, with a receiver attached throughout, when the last
/// timestamp that the reader saw before them, if it saw any, was `last`.
pub open spec fn is_broadcast_of(
    packets: Seq<Packet>,
    layer: LayerView,
    last: Option<u32>,
    rtps: Seq<RtpPacket>,
) -> bool {
    &&& packets.len() == rtps.len()
    &&& forall|i: int|
        0 <= i < rtps.len() ==> (#[trigger] packets[i]).layer@ == layer && packets[i].rtp
            == with_timestamp(
            rtps[i],
            timestamp_delta(
                if i == 0 {
                    last
                } else {
                    Some(rtps[i - 1].header.timestamp)
                },
                rtps[i].header.timestamp,
            ),
        )
}

/// The timestamp from which the distances of a run of broadcast packets are
/// counted: the last one that the reader saw before the run, or that of the
/// first packet of the run if the reader saw none.
pub open spec fn timeline_origin(last: Option<u32>, rtps: Seq<RtpPacket>) -> u32 {
    match last {
        Some(earlier) => earlier,
        None => rtps[0].header.timestamp,
    }
}

/// The sequence number `steps` after `start` on the 16-bit counter.
pub open spec fn sequence_plus(start: u16, steps: int) -> u16 {
    ((start + steps) % 0x1_0000) as u16
}

proof fn lemma_sequence_plus_successor(start: u16, steps: int)
    requires
        steps >= 0,
    ensures
        sequence_successor(sequence_plus(start, steps)) == sequence_plus(start, steps + 1),
{
}

proof fn lemma_forwarded_counts(state: SubscriberState, packets: Seq<Packet>)
    ensures
        forwarded(state, packets).len() <= packets.len(),
        state_after(state, packets).sequence == sequence_plus(
            state.sequence,
            forwarded(state, packets).len() as int,
        ),
        forall|k: int|
            0 <= k < forwarded(state, packets).len() ==> (#[trigger] forwarded(
                state,
                packets,
            )[k]).header.sequence_number == sequence_plus(state.sequence, k),
    decreases packets.len(),
{
    if packets.len() > 0 {
        let head = packets.drop_last();
        lemma_forwarded_counts(state, head);
        lemma_sequence_plus_successor(state.sequence, forwarded(state, head).len() as int);
    }
}

/// Sequence numbers count up from zero. Whatever packets a new subscriber is
/// offered, of whatever layers and with whatever numbers of their own, the
/// packet it writes in place `k` carries the sequence number `k`, taken on
/// the 16-bit counter.
pub proof fn law_sequence_numbers_count_up(packets: Seq<Packet>, k: int)
    requires
        0 <= k < forwarded(SubscriberState::fresh(), packets).len(),
    ensures
        forwarded(SubscriberState::fresh(), packets)[k].header.sequence_number == k % 0x1_0000,
{
    lemma_forwarded_counts(SubscriberState::fresh(), packets);
}

proof fn lemma_nothing_offered(state: SubscriberState, packets: Seq<Packet>, layer: LayerView)
    requires
        packets.len() == 0,
    ensures
        state_after(state, packets) == state,
        forwarded(state, packets).len() == 0,
        of_layer(packets, layer).len() == 0,
{
}

proof fn lemma_locked_after_first(state: SubscriberState, packets: Seq<Packet>, layer: LayerView)
    requires
        state.lock == Some(layer) || (state.lock is None && packets.len() > 0
            && packets[0].layer@ == layer),
    ensures
        packets.len() > 0 ==> state_after(state, packets).lock == Some(layer),
        packets.len() == 0 ==> state_after(state, packets) == state,
    decreases packets.len(),
{
    if packets.len() > 1 {
        let head = packets.drop_last();
        assert(head[0] == packets[0]);
        lemma_locked_after_first(state, head, layer);
    } else if packets.len() == 1 {
        lemma_nothing_offered(state, packets.drop_last(), layer);
        assert(packets.last() == packets[0]);
    } else {
        lemma_nothing_offered(state, packets, layer);
    }
}

proof fn lemma_other_layers_leave_no_trace(
    state: SubscriberState,
    packets: Seq<Packet>,
    layer: LayerView,
)
    requires
        state.lock == Some(layer) || (state.lock is None && packets.len() > 0
            && packets[0].layer@ == layer),
    ensures
        state_after(state, packets) == state_after(state, of_layer(packets, layer)),
        forwarded(state, packets) == forwarded(state, of_layer(packets, layer)),
    decreases packets.len(),
{
    if packets.len() > 1 {
        let head = packets.drop_last();
        assert(head[0] == packets[0]);
        lemma_other_layers_leave_no_trace(state, head, layer);
        lemma_locked_after_first(state, head, layer);
        if packets.last().layer@ == layer {
            let kept = of_layer(head, layer).push(packets.last());
            assert(kept.drop_last() =~= of_layer(head, layer));
            assert(kept.last() == packets.last());
        }
    } else if packets.len() == 0 {
        lemma_nothing_offered(state, packets, layer);
        lemma_nothing_offered(state, of_layer(packets, layer), layer);
    } else {
        let head = packets.drop_last();
        lemma_nothing_offered(state, head, layer);
        lemma_nothing_offered(state, of_layer(head, layer), layer);
        assert(packets.last() == packets[0]);
        if state.lock is None {
            let kept = of_layer(head, layer).push(packets.last());
            assert(kept.drop_last() =~= of_layer(head, layer));
            assert(kept.last() == packets.last());
        } else if packets.last().layer@ == layer {
            let kept = of_layer(head, layer).push(packets.last());
            assert(kept.drop_last() =~= of_layer(head, layer));
            assert(kept.last() == packets.last());
        }
    }
}

proof fn lemma_one_layer(state: SubscriberState, packets: Seq<Packet>, layer: LayerView)
    requires
        state.accepts(layer),
        forall|i: int| 0 <= i < packets.len() ==> (#[trigger] packets[i]).layer@ == layer,
    ensures
        forwarded(state, packets).len() == packets.len(),
        state_after(state, packets).accepts(layer),
        forall|k: int|
            0 <= k < packets.len() ==> #[trigger] forwarded(state, packets)[k] == restamped(
                packets[k].rtp,
                state_after(state, packets.take(k + 1)).timestamp,
                sequence_plus(state.sequence, k),
            ),
    decreases packets.len(),
{
    if packets.len() > 0 {
        let head = packets.drop_last();
        let n = head.len() as int;
        lemma_one_layer(state, head, layer);
        lemma_forwarded_counts(state, head);
        assert(packets.take(n + 1) =~= packets);
        assert forall|k: int| 0 <= k < packets.len() implies #[trigger] forwarded(
            state,
            packets,
        )[k] == restamped(
            packets[k].rtp,
            state_after(state, packets.take(k + 1)).timestamp,
            sequence_plus(state.sequence, k),
        ) by {
            if k < n {
                assert(head.take(k + 1) =~= packets.take(k + 1));
                assert(forwarded(state, packets)[k] == forwarded(state, head)[k]);
                assert(head[k] == packets[k]);
            }
        }
    }
}

proof fn lemma_of_layer_is_of_layer(packets: Seq<Packet>, layer: LayerView)
    ensures
        of_layer(packets, layer).len() <= packets.len(),
        forall|i: int|
            0 <= i < of_layer(packets, layer).len() ==> (#[trigger] of_layer(
                packets,
                layer,
            )[i]).layer@ == layer,
        packets.len() > 0 && packets[0].layer@ == layer ==> of_layer(packets, layer).len() > 0,
    decreases packets.len(),
{
    if packets.len() > 0 {
        let head = packets.drop_last();
        lemma_of_layer_is_of_layer(head, layer);
        if head.len() > 0 {
            assert(head[0] == packets[0]);
        }
    }
}

/// Every packet of the subscriber's layer goes out exactly once, in the order
/// in which it came; packets of other layers leave no trace. A new subscriber
/// keeps to the layer of the first packet offered: it writes as many packets
/// as were offered of that layer, and the one in place `k` is the `k`-th of
/// them, with the timestamp that the subscriber has reached with it and the
/// sequence number `k`.
pub proof fn law_each_packet_of_the_layer_goes_out_once(packets: Seq<Packet>, k: int)
    requires
        packets.len() > 0,
        0 <= k < of_layer(packets, packets[0].layer@).len(),
    ensures
        forwarded(SubscriberState::fresh(), packets).len() == of_layer(
            packets,
            packets[0].layer@,
        ).len(),
        forwarded(SubscriberState::fresh(), packets) == forwarded(
            SubscriberState::fresh(),
            of_layer(packets, packets[0].layer@),
        ),
        forwarded(SubscriberState::fresh(), packets)[k] == restamped(
            of_layer(packets, packets[0].layer@)[k].rtp,
            state_after(
                SubscriberState::fresh(),
                of_layer(packets, packets[0].layer@).take(k + 1),
            ).timestamp,
            sequence_plus(0, k),
        ),
{
    let layer = packets[0].layer@;
    let fresh = SubscriberState::fresh();
    lemma_other_layers_leave_no_trace(fresh, packets, layer);
    lemma_of_layer_is_of_layer(packets, layer);
    let kept = of_layer(packets, layer);
    lemma_one_layer(fresh, kept, layer);
    assert(forwarded(fresh, packets)[k] == restamped(
        kept[k].rtp,
        state_after(fresh, kept.take(k + 1)).timestamp,
        sequence_plus(fresh.sequence, k),
    ));
}

proof fn lemma_timeline_of_broadcast(
    packets: Seq<Packet>,
    layer: LayerView,
    last: Option<u32>,
    rtps: Seq<RtpPacket>,
    n: int,
)
    requires
        is_broadcast_of(packets, layer, last, rtps),
        0 < n <= rtps.len(),
    ensures
        state_after(SubscriberState::fresh(), packets.take(n)).timestamp == timestamp_distance(
            timeline_origin(last, rtps),
            rtps[n - 1].header.timestamp,
        ),
        state_after(SubscriberState::fresh(), packets.take(n)).lock == Some(layer),
    decreases n,
{
    let fresh = SubscriberState::fresh();
    let run = packets.take(n);
    assert(run.drop_last() =~= packets.take(n - 1));
    assert(run.last() == packets[n - 1]);
    if n > 1 {
        lemma_timeline_of_broadcast(packets, layer, last, rtps, n - 1);
        assert(packets[n - 1].rtp.header.timestamp == timestamp_distance(
            rtps[n - 2].header.timestamp,
            rtps[n - 1].header.timestamp,
        ));
    } else {
        lemma_nothing_offered(fresh, packets.take(0), layer);
        assert(packets[0].rtp.header.timestamp == timestamp_delta(
            last,
            rtps[0].header.timestamp,
        ));
    }
}

/// Distances and running sums undo each other. Let a reader broadcast the
/// source packets `rtps` of one layer, and let a new subscriber be offered
/// just what was broadcast. Then the subscriber writes one packet for each
/// source packet, in order; the packet in place `k` is the source packet
/// with the sequence number `k` on the 16-bit counter, and with its
/// timestamp replaced by its distance on the 32-bit clock from the origin of
/// the run: from the first source packet if the reader had seen nothing
/// before, else from the last packet that it had seen.
pub proof fn law_timeline_round_trip(
    packets: Seq<Packet>,
    layer: LayerView,
    last: Option<u32>,
    rtps: Seq<RtpPacket>,
)
    requires
        is_broadcast_of(packets, layer, last, rtps),
    ensures
        forwarded(SubscriberState::fresh(), packets).len() == rtps.len(),
        forall|k: int|
            0 <= k < rtps.len() ==> #[trigger] forwarded(SubscriberState::fresh(), packets)[k]
                == restamped(
                rtps[k],
                timestamp_distance(timeline_origin(last, rtps), rtps[k].header.timestamp),
                sequence_plus(0, k),
            ),
{
    let fresh = SubscriberState::fresh();
    lemma_one_layer(fresh, packets, layer);
    assert forall|k: int| 0 <= k < rtps.len() implies #[trigger] forwarded(fresh, packets)[k]
        == restamped(
        rtps[k],
        timestamp_distance(timeline_origin(last, rtps), rtps[k].header.timestamp),
        sequence_plus(0, k),
    ) by {
        lemma_timeline_of_broadcast(packets, layer, last, rtps, k + 1);
    }
}

/// The relative timing of the source is kept. Under the conditions of
/// [`law_timeline_round_trip`], any two packets written are as far apart on
/// the 32-bit clock as the source packets they came from, whenever the
/// subscriber started to listen. Where the source timestamps never go back
/// and the reader had seen nothing before, the timestamps written are the
/// plain differences from the first source timestamp and never go back
/// either.
pub proof fn law_relative_timing_is_kept(
    packets: Seq<Packet>,
    layer: LayerView,
    last: Option<u32>,
    rtps: Seq<RtpPacket>,
)
    requires
        is_broadcast_of(packets, layer, last, rtps),
    ensures
        forall|i: int, j: int|
            0 <= i <= j < rtps.len() ==> timestamp_distance(
                forwarded(SubscriberState::fresh(), packets)[i].header.timestamp,
                forwarded(SubscriberState::fresh(), packets)[j].header.timestamp,
            ) == timestamp_distance(rtps[i].header.timestamp, rtps[j].header.timestamp),
        last is None && (forall|i: int, j: int|
            0 <= i <= j < rtps.len() ==> rtps[i].header.timestamp <= rtps[j].header.timestamp)
            ==> (forall|k: int|
            0 <= k < rtps.len() ==> (#[trigger] forwarded(
                SubscriberState::fresh(),
                packets,
            )[k]).header.timestamp == rtps[k].header.timestamp - rtps[0].header.timestamp)
            && (forall|i: int, j: int|
            0 <= i <= j < rtps.len() ==> forwarded(
                SubscriberState::fresh(),
                packets,
            )[i].header.timestamp <= forwarded(SubscriberState::fresh(), packets)[j].header.timestamp),
{
    law_timeline_round_trip(packets, layer, last, rtps);
}

} // verus!
