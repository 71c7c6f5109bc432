//! Payloads of the signaling methods.

use vstd::prelude::*;
use crate::proto::json::{
    decimal,
    json_kind,
    json_member,
    json_string,
    json_string_text,
    json_unsigned,
    json_with_member,
    kind_of,
    member,
    string_of,
    string_text,
    unsigned_of,
    unsigned_text,
    with_member,
    JsonKind,
};

verus! {

/// Role of a session description in an offer/answer exchange.
#[derive(Clone, Copy, Debug, PartialEq, Eq, Structural)]
pub enum SdpType {
    Unspecified,
    Offer,
    Pranswer,
    Answer,
    Rollback,
}

/// A session description as the transport engine produces and consumes it.
/// The text is carried along, never read.
#[derive(Debug, PartialEq, Eq)]
pub struct SessionDescription {
    pub sdp_type: SdpType,
    pub sdp: String,
}

impl Clone for SessionDescription {
    fn clone(&self) -> (copy: SessionDescription)
        ensures
            copy == *self,
    {
        SessionDescription { sdp_type: self.sdp_type, sdp: self.sdp.clone() }
    }
}

/// Payload of `join`: the room to enter and the publisher's first offer.
#[derive(Debug, PartialEq, Eq)]
pub struct JoinMsg {
    pub sid: String,
    pub offer: SessionDescription,
}

/// Payload of `offer` and `answer`: one session description.
#[derive(Debug, PartialEq, Eq)]
pub struct NegotiateMsg {
    pub desc: SessionDescription,
}

/// An ICE candidate in the form the transport engine takes.
#[derive(Debug, PartialEq, Eq)]
pub struct IceCandidateInit {
    pub candidate: String,
    pub sdp_mid: Option<String>,
    pub sdp_mline_index: Option<u16>,
    pub username_fragment: Option<String>,
}

/// An ICE candidate in the form it has on the wire.
#[derive(Debug, PartialEq, Eq)]
pub struct TrickleCandidate {
    pub candidate: String,
    pub sdp_mid: Option<String>,
    pub sdp_mline_index: u32,
}

/// Payload of `trickle`: a candidate and the connection it belongs to.
#[derive(Debug, PartialEq, Eq)]
pub struct TrickleNotification {
    pub target: u32,
    pub candidate: TrickleCandidate,
}

/// Low sixteen bits of a media line index.
pub open spec fn mline_index_low(index: u32) -> u16 {
    (index % 0x1_0000) as u16
}

impl TrickleCandidate {
    /// Wire form of a candidate that the transport engine gathered.
    pub fn from(t: IceCandidateInit) -> (wire: TrickleCandidate)
        requires
            t.sdp_mline_index.is_some(),
        ensures
            wire.candidate == t.candidate,
            wire.sdp_mid == t.sdp_mid,
            wire.sdp_mline_index == t.sdp_mline_index.unwrap(),
    {
        let index: u16 = t.sdp_mline_index.unwrap();
        TrickleCandidate {
            candidate: t.candidate,
            sdp_mid: t.sdp_mid,
            sdp_mline_index: index as u32,
        }
    }
}

impl IceCandidateInit {
    /// Transport form of a candidate received from the wire. The media line
    /// index keeps its low sixteen bits; no username fragment is set.
    pub fn from(t: TrickleCandidate) -> (init: IceCandidateInit)
        ensures
            init.candidate == t.candidate,
            init.sdp_mid == t.sdp_mid,
            init.sdp_mline_index == Some(mline_index_low(t.sdp_mline_index)),
            init.username_fragment.is_none(),
    {
        let low: u32 = t.sdp_mline_index % 0x1_0000;
        IceCandidateInit {
            candidate: t.candidate,
            sdp_mid: t.sdp_mid,
            sdp_mline_index: Some(low as u16),
            username_fragment: None,
        }
    }
}

/// Payload of `presence_set` and `presence`: participant metadata as JSON
/// text, with the revision it was published under.
#[derive(Debug, PartialEq, Eq)]
pub struct Presence {
    pub revision: u64,
    pub meta: String,
}

/// The string member `key` of the JSON object `text`, if it has one.
pub open spec fn json_string_member(text: Seq<char>, key: Seq<char>) -> Option<Seq<char>> {
    match json_member(text, key) {
        Some(found) => json_string(found),
        None => None,
    }
}

/// The member `key` of the JSON object `text` as a whole number of 32 bits
/// without sign, if it has such a member.
pub open spec fn json_u32_member(text: Seq<char>, key: Seq<char>) -> Option<u32> {
    match json_member(text, key) {
        Some(found) => match json_unsigned(found) {
            Some(n) => if n <= u32::MAX {
                Some(n as u32)
            } else {
                None
            },
            None => None,
        },
        None => None,
    }
}

fn string_member(text: &str, key: &str) -> (value: Option<String>)
    ensures
        value.deep_view() == json_string_member(text@, key@),
{
    match member(text, key) {
        Some(found) => string_of(found.as_str()),
        None => None,
    }
}

fn u32_member(text: &str, key: &str) -> (value: Option<u32>)
    ensures
        value == json_u32_member(text@, key@),
{
    match member(text, key) {
        Some(found) => match unsigned_of(found.as_str()) {
            Some(n) => if n <= 0xffff_ffff {
                Some(n as u32)
            } else {
                None
            },
            None => None,
        },
        None => None,
    }
}

fn named(name: &String, literal: &str) -> (same: bool)
    ensures
        same == (name@ == literal@),
{
    let literal = literal.to_owned();
    *name == literal
}

impl SdpType {
    /// The name of the type on the wire.
    pub open spec fn name(self) -> Seq<char> {
        match self {
            SdpType::Unspecified => "Unspecified"@,
            SdpType::Offer => "offer"@,
            SdpType::Pranswer => "pranswer"@,
            SdpType::Answer => "answer"@,
            SdpType::Rollback => "rollback"@,
        }
    }

    /// The type that goes by `name` on the wire, if there is one.
    pub open spec fn named(name: Seq<char>) -> Option<SdpType> {
        if name == "Unspecified"@ {
            Some(SdpType::Unspecified)
        } else if name == "offer"@ {
            Some(SdpType::Offer)
        } else if name == "pranswer"@ {
            Some(SdpType::Pranswer)
        } else if name == "answer"@ {
            Some(SdpType::Answer)
        } else if name == "rollback"@ {
            Some(SdpType::Rollback)
        } else {
            None
        }
    }

    /// Reads the type from its name on the wire.
    pub fn from_name(name: &String) -> (sdp_type: Option<SdpType>)
        ensures
            sdp_type == SdpType::named(name@),
    {
        if named(name, "Unspecified") {
            Some(SdpType::Unspecified)
        } else if named(name, "offer") {
            Some(SdpType::Offer)
        } else if named(name, "pranswer") {
            Some(SdpType::Pranswer)
        } else if named(name, "answer") {
            Some(SdpType::Answer)
        } else if named(name, "rollback") {
            Some(SdpType::Rollback)
        } else {
            None
        }
    }

    /// The name of the type on the wire.
    pub fn to_name(self) -> (name: String)
        ensures
            name@ == self.name(),
    {
        match self {
            SdpType::Unspecified => "Unspecified".to_owned(),
            SdpType::Offer => "offer".to_owned(),
            SdpType::Pranswer => "pranswer".to_owned(),
            SdpType::Answer => "answer".to_owned(),
            SdpType::Rollback => "rollback".to_owned(),
        }
    }
}

/// Mathematical value of a [`SessionDescription`].
pub struct SessionDescriptionView {
    pub sdp_type: SdpType,
    pub sdp: Seq<char>,
}

impl View for SessionDescription {
    type V = SessionDescriptionView;

    open spec fn view(&self) -> SessionDescriptionView {
        SessionDescriptionView { sdp_type: self.sdp_type, sdp: self.sdp@ }
    }
}

/// The session description that the JSON text `text` holds: an object with
/// the type's name under `type` and the description under `sdp`, both
/// strings.
pub open spec fn parsed_description(text: Seq<char>) -> Option<SessionDescriptionView> {
    match json_string_member(text, "type"@) {
        Some(name) => match SdpType::named(name) {
            Some(sdp_type) => match json_string_member(text, "sdp"@) {
                Some(sdp) => Some(SessionDescriptionView { sdp_type, sdp }),
                None => None,
            },
            None => None,
        },
        None => None,
    }
}

/// The JSON text that a session description is written as.
pub open spec fn description_text(description: SessionDescriptionView) -> Seq<char> {
    json_with_member(
        json_with_member("{}"@, "type"@, json_string_text(description.sdp_type.name())),
        "sdp"@,
        json_string_text(description.sdp),
    )
}

impl SessionDescription {
    /// Reads a session description from JSON text.
    pub fn from_json(text: &str) -> (description: Option<SessionDescription>)
        ensures
            match description {
                Some(description) => parsed_description(text@) == Some(description@),
                None => parsed_description(text@) is None,
            },
    {
        let name = match string_member(text, "type") {
            Some(name) => name,
            None => {
                return None;
            },
        };
        let sdp_type = match SdpType::from_name(&name) {
            Some(sdp_type) => sdp_type,
            None => {
                return None;
            },
        };
        match string_member(text, "sdp") {
            Some(sdp) => Some(SessionDescription { sdp_type, sdp }),
            None => None,
        }
    }

    /// Writes the session description as JSON text.
    pub fn to_json(&self) -> (text: String)
        ensures
            text@ == description_text(self@),
    {
        let name = self.sdp_type.to_name();
        let name_text = string_text(name.as_str());
        let with_type = with_member("{}", "type", name_text.as_str());
        let sdp_text = string_text(self.sdp.as_str());
        with_member(with_type.as_str(), "sdp", sdp_text.as_str())
    }
}

/// Mathematical value of a [`JoinMsg`].
pub struct JoinMsgView {
    pub sid: Seq<char>,
    pub offer: SessionDescriptionView,
}

impl View for JoinMsg {
    type V = JoinMsgView;

    open spec fn view(&self) -> JoinMsgView {
        JoinMsgView { sid: self.sid@, offer: self.offer@ }
    }
}

/// The payload of `join` that the parameters `params` hold: the room as a
/// string under `sid` and the offer under `offer`.
pub open spec fn parsed_join(params: Seq<char>) -> Option<JoinMsgView> {
    match json_string_member(params, "sid"@) {
        Some(sid) => match json_member(params, "offer"@) {
            Some(offer) => match parsed_description(offer) {
                Some(offer) => Some(JoinMsgView { sid, offer }),
                None => None,
            },
            None => None,
        },
        None => None,
    }
}

impl JoinMsg {
    /// Reads the payload of `join` from the parameters of the call.
    pub fn from_params(params: &str) -> (join: Option<JoinMsg>)
        ensures
            match join {
                Some(join) => parsed_join(params@) == Some(join@),
                None => parsed_join(params@) is None,
            },
    {
        let sid = match string_member(params, "sid") {
            Some(sid) => sid,
            None => {
                return None;
            },
        };
        let offer = match member(params, "offer") {
            Some(offer) => offer,
            None => {
                return None;
            },
        };
        match SessionDescription::from_json(offer.as_str()) {
            Some(offer) => Some(JoinMsg { sid, offer }),
            None => None,
        }
    }
}

/// Mathematical value of a [`NegotiateMsg`].
pub struct NegotiateMsgView {
    pub desc: SessionDescriptionView,
}

impl View for NegotiateMsg {
    type V = NegotiateMsgView;

    open spec fn view(&self) -> NegotiateMsgView {
        NegotiateMsgView { desc: self.desc@ }
    }
}

/// The payload of `offer` or `answer` that the parameters `params` hold: the
/// description under `desc`.
pub open spec fn parsed_negotiate(params: Seq<char>) -> Option<NegotiateMsgView> {
    match json_member(params, "desc"@) {
        Some(desc) => match parsed_description(desc) {
            Some(desc) => Some(NegotiateMsgView { desc }),
            None => None,
        },
        None => None,
    }
}

impl NegotiateMsg {
    /// Reads the payload of `offer` or `answer` from the parameters of the
    /// call.
    pub fn from_params(params: &str) -> (negotiate: Option<NegotiateMsg>)
        ensures
            match negotiate {
                Some(negotiate) => parsed_negotiate(params@) == Some(negotiate@),
                None => parsed_negotiate(params@) is None,
            },
    {
        let desc = match member(params, "desc") {
            Some(desc) => desc,
            None => {
                return None;
            },
        };
        match SessionDescription::from_json(desc.as_str()) {
            Some(desc) => Some(NegotiateMsg { desc }),
            None => None,
        }
    }
}

/// Mathematical value of a [`TrickleCandidate`].
pub struct TrickleCandidateView {
    pub candidate: Seq<char>,
    pub sdp_mid: Option<Seq<char>>,
    pub sdp_mline_index: u32,
}

impl View for TrickleCandidate {
    type V = TrickleCandidateView;

    open spec fn view(&self) -> TrickleCandidateView {
        TrickleCandidateView {
            candidate: self.candidate@,
            sdp_mid: self.sdp_mid.deep_view(),
            sdp_mline_index: self.sdp_mline_index,
        }
    }
}

/// The media identification that the candidate object `text` holds under
/// `sdpMid`: none where the member is missing or null, the string where it is
/// one. The outer option tells whether the member is well formed.
pub open spec fn parsed_sdp_mid(text: Seq<char>) -> Option<Option<Seq<char>>> {
    match json_member(text, "sdpMid"@) {
        Some(mid) => if json_kind(mid) == Some(JsonKind::Null) {
            Some(None)
        } else {
            match json_string(mid) {
                Some(mid) => Some(Some(mid)),
                None => None,
            }
        },
        None => Some(None),
    }
}

/// The candidate that the JSON text `text` holds: the candidate line as a
/// string under `candidate`, the media identification under `sdpMid`, and
/// the media line index under `sdpMLineIndex`.
pub open spec fn parsed_candidate(text: Seq<char>) -> Option<TrickleCandidateView> {
    match json_string_member(text, "candidate"@) {
        Some(candidate) => match parsed_sdp_mid(text) {
            Some(sdp_mid) => match json_u32_member(text, "sdpMLineIndex"@) {
                Some(sdp_mline_index) => Some(
                    TrickleCandidateView { candidate, sdp_mid, sdp_mline_index },
                ),
                None => None,
            },
            None => None,
        },
        None => None,
    }
}

/// The JSON text that a candidate is written as; a missing media
/// identification is written as null.
pub open spec fn candidate_text(candidate: TrickleCandidateView) -> Seq<char> {
    json_with_member(
        json_with_member(
            json_with_member("{}"@, "candidate"@, json_string_text(candidate.candidate)),
            "sdpMid"@,
            match candidate.sdp_mid {
                Some(mid) => json_string_text(mid),
                None => "null"@,
            },
        ),
        "sdpMLineIndex"@,
        decimal(candidate.sdp_mline_index as int),
    )
}

impl TrickleCandidate {
    /// Reads a candidate from JSON text.
    pub fn from_json(text: &str) -> (candidate: Option<TrickleCandidate>)
        ensures
            match candidate {
                Some(candidate) => parsed_candidate(text@) == Some(candidate@),
                None => parsed_candidate(text@) is None,
            },
    {
        let candidate = match string_member(text, "candidate") {
            Some(candidate) => candidate,
            None => {
                return None;
            },
        };
        let sdp_mid = match member(text, "sdpMid") {
            Some(mid) => match kind_of(mid.as_str()) {
                Some(JsonKind::Null) => None,
                _ => match string_of(mid.as_str()) {
                    Some(mid) => Some(mid),
                    None => {
                        return None;
                    },
                },
            },
            None => None,
        };
        match u32_member(text, "sdpMLineIndex") {
            Some(sdp_mline_index) => Some(TrickleCandidate { candidate, sdp_mid, sdp_mline_index }),
            None => None,
        }
    }

    /// Writes the candidate as JSON text.
    pub fn to_json(&self) -> (text: String)
        ensures
            text@ == candidate_text(self@),
    {
        let line = string_text(self.candidate.as_str());
        let with_line = with_member("{}", "candidate", line.as_str());
        let mid = match &self.sdp_mid {
            Some(mid) => string_text(mid.as_str()),
            None => "null".to_owned(),
        };
        let with_mid = with_member(with_line.as_str(), "sdpMid", mid.as_str());
        let index = unsigned_text(self.sdp_mline_index as u64);
        with_member(with_mid.as_str(), "sdpMLineIndex", index.as_str())
    }
}

/// Mathematical value of a [`TrickleNotification`].
pub struct TrickleNotificationView {
    pub target: u32,
    pub candidate: TrickleCandidateView,
}

impl View for TrickleNotification {
    type V = TrickleNotificationView;

    open spec fn view(&self) -> TrickleNotificationView {
        TrickleNotificationView { target: self.target, candidate: self.candidate@ }
    }
}

/// The payload of `trickle` that the parameters `params` hold: the
/// connection under `target` and the candidate under `candidate`.
pub open spec fn parsed_trickle(params: Seq<char>) -> Option<TrickleNotificationView> {
    match json_u32_member(params, "target"@) {
        Some(target) => match json_member(params, "candidate"@) {
            Some(candidate) => match parsed_candidate(candidate) {
                Some(candidate) => Some(TrickleNotificationView { target, candidate }),
                None => None,
            },
            None => None,
        },
        None => None,
    }
}

/// The parameters that a payload of `trickle` is written as.
pub open spec fn trickle_text(trickle: TrickleNotificationView) -> Seq<char> {
    json_with_member(
        json_with_member("{}"@, "target"@, decimal(trickle.target as int)),
        "candidate"@,
        candidate_text(trickle.candidate),
    )
}

impl TrickleNotification {
    /// Reads the payload of `trickle` from the parameters of the call.
    pub fn from_params(params: &str) -> (trickle: Option<TrickleNotification>)
        ensures
            match trickle {
                Some(trickle) => parsed_trickle(params@) == Some(trickle@),
                None => parsed_trickle(params@) is None,
            },
    {
        let target = match u32_member(params, "target") {
            Some(target) => target,
            None => {
                return None;
            },
        };
        let candidate = match member(params, "candidate") {
            Some(candidate) => candidate,
            None => {
                return None;
            },
        };
        match TrickleCandidate::from_json(candidate.as_str()) {
            Some(candidate) => Some(TrickleNotification { target, candidate }),
            None => None,
        }
    }

    /// Writes the payload of `trickle` as the parameters of the call.
    pub fn to_params(&self) -> (params: String)
        ensures
            params@ == trickle_text(self@),
    {
        let target = unsigned_text(self.target as u64);
        let with_target = with_member("{}", "target", target.as_str());
        let candidate = self.candidate.to_json();
        with_member(with_target.as_str(), "candidate", candidate.as_str())
    }
}

/// Mathematical value of a [`Presence`].
pub struct PresenceView {
    pub revision: u64,
    pub meta: Seq<char>,
}

impl View for Presence {
    type V = PresenceView;

    open spec fn view(&self) -> PresenceView {
        PresenceView { revision: self.revision, meta: self.meta@ }
    }
}

/// The parameters that a payload of `presence` is written as.
pub open spec fn presence_text(presence: PresenceView) -> Seq<char> {
    json_with_member(
        json_with_member("{}"@, "revision"@, decimal(presence.revision as int)),
        "meta"@,
        presence.meta,
    )
}

impl Presence {
    /// The payload of `presence_set`: the parameters of the call are the
    /// metadata, and no revision is known yet.
    pub fn from_params(params: &str) -> (presence: Presence)
        ensures
            presence@ == (PresenceView { revision: 0, meta: params@ }),
    {
        Presence { revision: 0, meta: params.to_owned() }
    }

    /// Writes the payload of `presence` as the parameters of the call.
    pub fn to_params(&self) -> (params: String)
        ensures
            params@ == presence_text(self@),
    {
        let revision = unsigned_text(self.revision);
        let with_revision = with_member("{}", "revision", revision.as_str());
        with_member(with_revision.as_str(), "meta", self.meta.as_str())
    }
}

} // verus!
