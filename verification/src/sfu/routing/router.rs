//! The ingestion point of one published track.

use vstd::prelude::*;
use crate::sfu::routing::layer::{layer_of_rid, Layer, LayerView};
use crate::sfu::routing::packet::{with_timestamp, Packet, RtpPacket};
use crate::sfu::routing::subscriber::{
    MediaTrackSubscriber,
    MediaTrackSubscriberEvent,
    SubscriberState,
};
use crate::sfu::routing::track::TrackRemote;

verus! {

/// Why a router could not do what was asked.
#[derive(Clone, Copy, Debug, PartialEq, Eq, Structural)]
pub enum RoutingError {
    /// No layer has been added to the router yet.
    NoTrack,
}

/// Request to the publisher for a key frame.
#[derive(Clone, Copy, Debug, PartialEq, Eq, Structural)]
pub struct PictureLossIndication {
    pub sender_ssrc: u32,
    pub media_ssrc: u32,
}

/// Distance on the 32-bit RTP clock from `earlier` to `later`.
pub open spec fn timestamp_distance(earlier: u32, later: u32) -> u32 {
    if later >= earlier {
        (later - earlier) as u32
    } else {
        (later - earlier + 0x1_0000_0000) as u32
    }
}

/// The distance that a packet is sent with: zero for the first packet of a
/// layer, else the distance from the packet before it.
pub open spec fn timestamp_delta(last: Option<u32>, timestamp: u32) -> u32 {
    match last {
        Some(earlier) => timestamp_distance(earlier, timestamp),
        None => 0,
    }
}

/// Reads one layer of a published track: it replaces each packet's timestamp
/// by the distance to the packet before it and tags the packet with the layer.
#[derive(Debug)]
pub struct LayerReader {
    layer: Layer,
    last_timestamp: Option<u32>,
}

impl LayerReader {
    /// The layer that this reader tags its packets with.
    pub closed spec fn layer_spec(&self) -> LayerView {
        self.layer@
    }

    /// Timestamp of the last packet read, if any.
    pub closed spec fn last_spec(&self) -> Option<u32> {
        self.last_timestamp
    }

    /// Reader for the source with restriction identifier `rid`, before its
    /// first packet.
    pub fn new(rid: &str) -> (reader: LayerReader)
        ensures
            reader.layer_spec() == layer_of_rid(rid@),
            reader.last_spec() is None,
    {
        LayerReader { layer: Layer::from(rid), last_timestamp: None }
    }

    /// The layer that this reader tags its packets with.
    pub fn layer(&self) -> (layer: &Layer)
        ensures
            layer@ == self.layer_spec(),
    {
        &self.layer
    }

    /// Timestamp of the last packet read, if any.
    pub fn last_timestamp(&self) -> (last: Option<u32>)
        ensures
            last == self.last_spec(),
    {
        self.last_timestamp
    }

    /// Takes one packet read from the source. The packet's timestamp is
    /// remembered in any case. With no receiver attached nothing is sent;
    /// otherwise the packet goes to the broadcast, tagged with the layer and
    /// with its timestamp replaced by the distance to the packet before it.
    pub fn read(&mut self, rtp: RtpPacket, receivers: usize) -> (out: Option<Packet>)
        ensures
            final(self).layer_spec() == old(self).layer_spec(),
            final(self).last_spec() == Some(rtp.header.timestamp),
            receivers == 0 ==> out is None,
            receivers > 0 ==> out is Some && out.unwrap().layer@ == old(self).layer_spec()
                && out.unwrap().rtp == with_timestamp(
                rtp,
                timestamp_delta(old(self).last_spec(), rtp.header.timestamp),
            ),
    {
        let delta = match self.last_timestamp {
            Some(earlier) => rtp.header.timestamp.wrapping_sub(earlier),
            None => 0,
        };
        self.last_timestamp = Some(rtp.header.timestamp);
        if receivers > 0 {
            let mut out = rtp;
            out.header.timestamp = delta;
            Some(Packet { layer: self.layer.clone(), rtp: out })
        } else {
            None
        }
    }
}

/// One layer of a router and the source that feeds it.
#[derive(Debug)]
pub struct LayerSource {
    pub layer: Layer,
    pub track: TrackRemote,
}

/// Index of the first entry of `sources` for `layer`, or the length of
/// `sources` if there is none.
pub open spec fn layer_position(sources: Seq<LayerSource>, layer: LayerView) -> int
    decreases sources.len(),
{
    if sources.len() == 0 {
        0
    } else if sources[0].layer@ == layer {
        0
    } else {
        1 + layer_position(sources.drop_first(), layer)
    }
}

/// Whether no layer occurs twice in `sources`.
pub open spec fn layers_distinct(sources: Seq<LayerSource>) -> bool {
    forall|i: int, j: int|
        0 <= i < j < sources.len() ==> sources[i].layer@ != sources[j].layer@
}

/// Whether `after` is `before` once `track` has become the source of `layer`:
/// an entry for the layer is replaced where it stands, a new layer goes to the
/// end.
pub open spec fn layer_added(
    before: Seq<LayerSource>,
    after: Seq<LayerSource>,
    layer: LayerView,
    track: TrackRemote,
) -> bool {
    let at = layer_position(before, layer);
    if at < before.len() {
        after == before.update(at, LayerSource { layer: before[at].layer, track })
    } else {
        &&& after.len() == before.len() + 1
        &&& after.drop_last() == before
        &&& after.last().layer@ == layer
        &&& after.last().track == track
    }
}

/// [`layer_position`] finds the first entry for the layer: the position lies
/// within the sources or just behind them, no entry before it is for the
/// layer, and the entry at it, if there is one, is.
pub proof fn lemma_layer_position(sources: Seq<LayerSource>, layer: LayerView)
    ensures
        0 <= layer_position(sources, layer) <= sources.len(),
        layer_position(sources, layer) < sources.len() ==> sources[layer_position(
            sources,
            layer,
        )].layer@ == layer,
        forall|i: int| 0 <= i < layer_position(sources, layer) ==> sources[i].layer@ != layer,
    decreases sources.len(),
{
    if sources.len() > 0 && sources[0].layer@ != layer {
        let rest = sources.drop_first();
        lemma_layer_position(rest, layer);
        assert forall|i: int| 0 <= i < layer_position(sources, layer) implies sources[i].layer@
            != layer by {
            if i > 0 {
                assert(sources[i] == rest[i - 1]);
            }
        }
    }
}

/// Receives the packets of one published track, in all its layers, and hands
/// out the subscribers that carry the track to other participants.
#[derive(Debug)]
pub struct MediaTrackRouter {
    id: String,
    ssrc: u32,
    track_remotes: Vec<LayerSource>,
}

impl MediaTrackRouter {
    /// Id of the published track, in specifications.
    pub closed spec fn id_spec(&self) -> Seq<char> {
        self.id@
    }

    /// Synchronization source of the published media, in specifications.
    pub closed spec fn ssrc_spec(&self) -> u32 {
        self.ssrc
    }

    /// The layers added so far, each with its source, in the order in which
    /// the layers first came.
    pub closed spec fn sources(&self) -> Seq<LayerSource> {
        self.track_remotes@
    }

    /// No layer is held twice.
    pub open spec fn wf(&self) -> bool {
        layers_distinct(self.sources())
    }

    /// Router for the track `tid`, whose media has the synchronization source
    /// `ssrc`; it has no layer yet.
    pub fn new(ssrc: u32, tid: String) -> (router: MediaTrackRouter)
        ensures
            router.wf(),
            router.id_spec() == tid@,
            router.ssrc_spec() == ssrc,
            router.sources().len() == 0,
    {
        MediaTrackRouter { id: tid, ssrc, track_remotes: Vec::new() }
    }

    /// Id of the published track.
    pub fn id(&self) -> (id: &String)
        ensures
            id@ == self.id_spec(),
    {
        &self.id
    }

    /// Synchronization source of the published media.
    pub fn ssrc(&self) -> (ssrc: u32)
        ensures
            ssrc == self.ssrc_spec(),
    {
        self.ssrc
    }

    /// Number of layers added so far.
    pub fn layer_count(&self) -> (count: usize)
        ensures
            count == self.sources().len(),
    {
        self.track_remotes.len()
    }

    /// Makes `track_remote` the source of the layer that its restriction
    /// identifier names, and returns the reader for its packets. A layer that
    /// the router already has gets the new source and keeps its place.
    pub fn add_layer(&mut self, track_remote: TrackRemote) -> (reader: LayerReader)
        requires
            old(self).wf(),
        ensures
            final(self).wf(),
            final(self).id_spec() == old(self).id_spec(),
            final(self).ssrc_spec() == old(self).ssrc_spec(),
            reader.layer_spec() == layer_of_rid(track_remote.rid@),
            reader.last_spec() is None,
            layer_added(
                old(self).sources(),
                final(self).sources(),
                layer_of_rid(track_remote.rid@),
                track_remote,
            ),
    {
        let reader = LayerReader::new(track_remote.rid.as_str());
        let layer = Layer::from(track_remote.rid.as_str());
        let ghost before = self.track_remotes@;
        proof {
            lemma_layer_position(before, layer@);
        }
        let mut i: usize = 0;
        while i < self.track_remotes.len()
            invariant
                self.track_remotes@ == before,
                old(self).track_remotes@ == before,
                layers_distinct(before),
                i <= before.len(),
                forall|k: int| 0 <= k < i ==> before[k].layer@ != layer@,
                self.id == old(self).id,
                self.ssrc == old(self).ssrc,
                layer@ == layer_of_rid(track_remote.rid@),
                reader.layer_spec() == layer@,
                reader.last_spec() is None,
            decreases before.len() - i,
        {
            if self.track_remotes[i].layer == layer {
                proof {
                    lemma_position_is(before, layer@, i as int);
                }
                let entry = self.track_remotes.remove(i);
                let kept = LayerSource { layer: entry.layer, track: track_remote };
                self.track_remotes.insert(i, kept);
                assert(self.track_remotes@ =~= before.update(
                    i as int,
                    LayerSource { layer: before[i as int].layer, track: track_remote },
                ));
                assert(layers_distinct(self.track_remotes@)) by {
                    assert forall|a: int, b: int|
                        0 <= a < b < self.track_remotes@.len() implies self.track_remotes@[a].layer@
                        != self.track_remotes@[b].layer@ by {
                        assert(self.track_remotes@[a].layer@ == before[a].layer@);
                        assert(self.track_remotes@[b].layer@ == before[b].layer@);
                    }
                }
                return reader;
            }
            i += 1;
        }
        proof {
            lemma_position_is(before, layer@, before.len() as int);
        }
        self.track_remotes.push(LayerSource { layer, track: track_remote });
        assert(self.track_remotes@.drop_last() =~= before);
        reader
    }

    /// A new subscriber for this track, bound to the layer that was added
    /// first. There is none while the router has no layer.
    pub fn add_subscriber(&self) -> (made: Result<MediaTrackSubscriber, RoutingError>)
        ensures
            self.sources().len() == 0 <==> made == Err::<MediaTrackSubscriber, RoutingError>(
                RoutingError::NoTrack,
            ),
            self.sources().len() > 0 <==> made is Ok,
            made is Ok ==> made.unwrap()@ == SubscriberState::fresh()
                && made.unwrap().track_spec().mirrors(&self.sources()[0].track)
                && made.unwrap().router_spec() == self.id_spec(),
    {
        if self.track_remotes.len() == 0 {
            Err(RoutingError::NoTrack)
        } else {
            Ok(MediaTrackSubscriber::new(&self.track_remotes[0].track, self.id.clone()))
        }
    }

    /// Turns one feedback event of a subscriber into the packet that goes
    /// upstream to the publisher: one picture loss indication for this
    /// router's media, from sender zero.
    pub fn upstream_feedback(&self, event: MediaTrackSubscriberEvent) -> (pli:
        PictureLossIndication)
        ensures
            pli == (PictureLossIndication { sender_ssrc: 0, media_ssrc: self.ssrc_spec() }),
    {
        match event {
            MediaTrackSubscriberEvent::PictureLossIndication => PictureLossIndication {
                sender_ssrc: 0,
                media_ssrc: self.ssrc,
            },
        }
    }
}

proof fn lemma_position_is(sources: Seq<LayerSource>, layer: LayerView, at: int)
    requires
        0 <= at <= sources.len(),
        forall|k: int| 0 <= k < at ==> sources[k].layer@ != layer,
        at < sources.len() ==> sources[at].layer@ == layer,
    ensures
        layer_position(sources, layer) == at,
    decreases sources.len(),
{
    if sources.len() > 0 && at > 0 {
        let rest = sources.drop_first();
        assert(sources[0].layer@ != layer);
        assert forall|k: int| 0 <= k < at - 1 implies rest[k].layer@ != layer by {
            assert(rest[k] == sources[k + 1]);
        }
        lemma_position_is(rest, layer, at - 1);
    }
}

} // verus!
