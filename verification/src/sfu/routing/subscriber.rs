//! The sink that carries one published track to one destination.

use vstd::prelude::*;
use crate::sfu::routing::layer::{Layer, LayerView};
use crate::sfu::routing::packet::{restamped, Packet, RtpPacket};
use crate::sfu::routing::track::{TrackLocal, TrackRemote};

verus! {

/// Feedback that a subscriber passes up to the router it reads from.
#[derive(Clone, Copy, Debug, PartialEq, Eq, Structural)]
pub enum MediaTrackSubscriberEvent {
    /// The destination lost a picture and asks for a key frame.
    PictureLossIndication,
}

/// How the destination took one written packet.
#[derive(Clone, Copy, Debug, PartialEq, Eq, Structural)]
pub enum WriteOutcome {
    /// The packet went out.
    Written,
    /// The destination's connection is closed.
    ClosedPipe,
    /// The write failed for another reason.
    Failed,
}

/// Why the broadcast handed a subscriber no packet.
#[derive(Clone, Copy, Debug, PartialEq, Eq, Structural)]
pub enum ReceiveError {
    /// The subscriber fell behind and the given number of packets were
    /// dropped for it.
    Lagged(u64),
    /// The router is gone.
    Closed,
}

/// Kind of an RTCP packet, from its header.
#[derive(Clone, Copy, Debug, PartialEq, Eq, Structural)]
pub enum RtcpPacketType {
    Unsupported,
    SenderReport,
    ReceiverReport,
    SourceDescription,
    Goodbye,
    ApplicationDefined,
    TransportSpecificFeedback,
    PayloadSpecificFeedback,
    ExtendedReport,
}

/// Header of an RTCP packet that a destination sent back.
#[derive(Clone, Copy, Debug, PartialEq, Eq, Structural)]
pub struct RtcpHeader {
    pub padding: bool,
    /// Reception report count or feedback message type, by packet type.
    pub count: u8,
    pub packet_type: RtcpPacketType,
    pub length: u16,
}

/// Feedback message type of a picture loss indication.
pub const FORMAT_PLI: u8 = 1;

/// Whether a header announces a picture loss indication.
pub open spec fn is_picture_loss(header: RtcpHeader) -> bool {
    header.packet_type == RtcpPacketType::PayloadSpecificFeedback && header.count == FORMAT_PLI
}

/// Number of picture loss indications among `headers`.
pub open spec fn picture_loss_count(headers: Seq<RtcpHeader>) -> nat
    decreases headers.len(),
{
    if headers.len() == 0 {
        0
    } else {
        picture_loss_count(headers.drop_last()) + if is_picture_loss(headers.last()) {
            1nat
        } else {
            0nat
        }
    }
}

/// Sum of two timestamps on the 32-bit RTP clock.
pub open spec fn timestamp_sum(a: u32, b: u32) -> u32 {
    if a + b > u32::MAX {
        (a + b - 0x1_0000_0000) as u32
    } else {
        (a + b) as u32
    }
}

/// Successor of a sequence number on the 16-bit RTP counter.
pub open spec fn sequence_successor(n: u16) -> u16 {
    if n == u16::MAX {
        0
    } else {
        (n + 1) as u16
    }
}

/// What a subscriber remembers between packets.
pub struct SubscriberState {
    /// The layer that the subscriber forwards, once it has seen a packet.
    pub lock: Option<LayerView>,
    /// Timestamp of the last packet sent out.
    pub timestamp: u32,
    /// Sequence number that the next packet sent out will carry.
    pub sequence: u16,
}

impl SubscriberState {
    /// State of a subscriber that has seen no packet.
    pub open spec fn fresh() -> SubscriberState {
        SubscriberState { lock: None, timestamp: 0, sequence: 0 }
    }

    /// Whether a packet of `layer` is forwarded: the first packet seen always
    /// is, later ones when they are of the first one's layer.
    pub open spec fn accepts(self, layer: LayerView) -> bool {
        self.lock is None || self.lock == Some(layer)
    }

    /// State after `packet` has been offered.
    pub open spec fn after(self, packet: Packet) -> SubscriberState {
        if self.accepts(packet.layer@) {
            SubscriberState {
                lock: Some(packet.layer@),
                timestamp: timestamp_sum(self.timestamp, packet.rtp.header.timestamp),
                sequence: sequence_successor(self.sequence),
            }
        } else {
            self
        }
    }

    /// What goes out to the destination when `packet` is offered.
    pub open spec fn output(self, packet: Packet) -> Option<RtpPacket> {
        if self.accepts(packet.layer@) {
            Some(
                restamped(
                    packet.rtp,
                    timestamp_sum(self.timestamp, packet.rtp.header.timestamp),
                    self.sequence,
                ),
            )
        } else {
            None
        }
    }
}

/// Adapts the shared broadcast of one router to one destination: it keeps to
/// the layer of the first packet it sees, turns timestamp distances back into
/// a running timestamp, and numbers what it sends.
#[derive(Debug)]
pub struct MediaTrackSubscriber {
    router: String,
    track: TrackLocal,
    current_layer: Option<Layer>,
    curr_timestamp: u32,
    sequence_number: u16,
}

impl View for MediaTrackSubscriber {
    type V = SubscriberState;

    closed spec fn view(&self) -> SubscriberState {
        SubscriberState {
            lock: match self.current_layer {
                Some(layer) => Some(layer@),
                None => None,
            },
            timestamp: self.curr_timestamp,
            sequence: self.sequence_number,
        }
    }
}

impl MediaTrackSubscriber {
    /// The outgoing track, in specifications.
    pub closed spec fn track_spec(&self) -> TrackLocal {
        self.track
    }

    /// Id of the router whose broadcast this subscriber reads and to which
    /// its feedback goes, in specifications.
    pub closed spec fn router_spec(&self) -> Seq<char> {
        self.router@
    }

    /// Subscriber to the router `router`, with a new outgoing track that
    /// repeats the codec capability, id and stream id of `remote`.
    pub fn new(remote: &TrackRemote, router: String) -> (subscriber: MediaTrackSubscriber)
        ensures
            subscriber@ == SubscriberState::fresh(),
            subscriber.track_spec().mirrors(remote),
            subscriber.router_spec() == router@,
    {
        MediaTrackSubscriber {
            router,
            track: TrackLocal::new(remote),
            current_layer: None,
            curr_timestamp: 0,
            sequence_number: 0,
        }
    }

    /// Id of the router whose broadcast this subscriber reads and to which
    /// its feedback goes.
    pub fn router_id(&self) -> (id: &String)
        ensures
            id@ == self.router_spec(),
    {
        &self.router
    }

    /// The outgoing track.
    pub fn track(&self) -> (track: &TrackLocal)
        ensures
            *track == self.track_spec(),
    {
        &self.track
    }

    /// The layer that this subscriber forwards, once it has seen a packet.
    pub fn current_layer(&self) -> (layer: Option<&Layer>)
        ensures
            match layer {
                Some(l) => self@.lock == Some(l@),
                None => self@.lock is None,
            },
    {
        match &self.current_layer {
            Some(layer) => Some(layer),
            None => None,
        }
    }

    /// Timestamp of the last packet sent out.
    pub fn curr_timestamp(&self) -> (timestamp: u32)
        ensures
            timestamp == self@.timestamp,
    {
        self.curr_timestamp
    }

    /// Sequence number that the next packet sent out will carry.
    pub fn next_sequence_number(&self) -> (sequence: u16)
        ensures
            sequence == self@.sequence,
    {
        self.sequence_number
    }

    /// Takes one packet from the broadcast and returns what is to be written
    /// to the destination, if anything. A packet of a layer other than the
    /// first one seen is dropped and changes nothing. Any other packet goes
    /// out with the running timestamp, advanced by the distance it carries,
    /// and with the next sequence number.
    pub fn forward(&mut self, packet: Packet) -> (out: Option<RtpPacket>)
        ensures
            final(self)@ == old(self)@.after(packet),
            out == old(self)@.output(packet),
            final(self).track_spec() == old(self).track_spec(),
            final(self).router_spec() == old(self).router_spec(),
    {
        let accepted = match &self.current_layer {
            Some(layer) => *layer == packet.layer,
            None => true,
        };
        if !accepted {
            return None;
        }
        let Packet { layer, rtp } = packet;
        if self.current_layer.is_none() {
            self.current_layer = Some(layer);
        }
        let timestamp = self.curr_timestamp.wrapping_add(rtp.header.timestamp);
        let sequence_number = self.sequence_number;
        self.curr_timestamp = timestamp;
        self.sequence_number = sequence_number.wrapping_add(1);
        let mut out = rtp;
        out.header.timestamp = timestamp;
        out.header.sequence_number = sequence_number;
        Some(out)
    }

    /// Whether forwarding goes on after a write: it ends when the
    /// destination's connection is closed, and only then.
    pub fn continues_after(&self, outcome: WriteOutcome) -> (go_on: bool)
        ensures
            go_on == (outcome != WriteOutcome::ClosedPipe),
    {
        match outcome {
            WriteOutcome::ClosedPipe => false,
            _ => true,
        }
    }

    /// Whether forwarding goes on after the broadcast handed over no packet:
    /// a subscriber that fell behind has lost packets and goes on with the
    /// next one, a subscriber whose router is gone stops.
    pub fn continues_without(&self, error: ReceiveError) -> (go_on: bool)
        ensures
            go_on == (error is Lagged),
    {
        match error {
            ReceiveError::Lagged(_) => true,
            ReceiveError::Closed => false,
        }
    }

    /// Reads the feedback of the destination: one event for each picture loss
    /// indication among `headers`, nothing for any other packet.
    pub fn rtcp_events(headers: &Vec<RtcpHeader>) -> (events: Vec<MediaTrackSubscriberEvent>)
        ensures
            events@.len() == picture_loss_count(headers@),
            forall|i: int|
                0 <= i < events@.len() ==> events@[i]
                    == MediaTrackSubscriberEvent::PictureLossIndication,
    {
        let mut events: Vec<MediaTrackSubscriberEvent> = Vec::new();
        let mut i: usize = 0;
        while i < headers.len()
            invariant
                i <= headers@.len(),
                events@.len() == picture_loss_count(headers@.take(i as int)),
                forall|k: int|
                    0 <= k < events@.len() ==> events@[k]
                        == MediaTrackSubscriberEvent::PictureLossIndication,
            decreases headers@.len() - i,
        {
            let header = headers[i];
            proof {
                assert(headers@.take(i + 1).drop_last() =~= headers@.take(i as int));
                assert(headers@.take(i + 1).last() == header);
            }
            match header.packet_type {
                RtcpPacketType::PayloadSpecificFeedback => {
                    if header.count == FORMAT_PLI {
                        events.push(MediaTrackSubscriberEvent::PictureLossIndication);
                    }
                },
                _ => {},
            }
            i += 1;
        }
        assert(headers@.take(i as int) =~= headers@);
        events
    }
}

} // verus!
