//! Typed signaling events and their place among the frames.

use vstd::prelude::*;
use crate::proto::json::{json_string_text, string_text};
use crate::proto::jsonrpc;
use crate::proto::signal::{
    description_text,
    parsed_join,
    parsed_negotiate,
    parsed_trickle,
    presence_text,
    trickle_text,
    JoinMsg,
    JoinMsgView,
    NegotiateMsg,
    NegotiateMsgView,
    Presence,
    PresenceView,
    SessionDescription,
    SessionDescriptionView,
    TrickleNotification,
    TrickleNotificationView,
};

verus! {

/// One step of the signaling conversation with a client. An event that
/// expects an answer carries the id of the request, under which the answer is
/// sent back.
#[derive(Debug, PartialEq, Eq)]
pub enum Event {
    /// The client asks to enter a room and brings its publisher offer.
    JoinRequest(jsonrpc::Id, JoinMsg),
    /// The client renegotiates what it publishes.
    PublisherOffer(jsonrpc::Id, NegotiateMsg),
    /// The server renegotiates what the client receives.
    SubscriberOffer(SessionDescription),
    /// The client answers a subscriber offer.
    SubscriberAnswer(NegotiateMsg),
    /// One side found an ICE candidate.
    TrickleIce(TrickleNotification),
    /// Participant metadata: what a client sets about itself, or what the
    /// room holds.
    Presence(Presence),
}

/// Mathematical value of an [`Event`].
pub enum EventView {
    JoinRequest(jsonrpc::IdView, JoinMsgView),
    PublisherOffer(jsonrpc::IdView, NegotiateMsgView),
    SubscriberOffer(SessionDescriptionView),
    SubscriberAnswer(NegotiateMsgView),
    TrickleIce(TrickleNotificationView),
    Presence(PresenceView),
}

impl View for Event {
    type V = EventView;

    open spec fn view(&self) -> EventView {
        match self {
            Event::JoinRequest(id, join) => EventView::JoinRequest(id@, join@),
            Event::PublisherOffer(id, offer) => EventView::PublisherOffer(id@, offer@),
            Event::SubscriberOffer(offer) => EventView::SubscriberOffer(offer@),
            Event::SubscriberAnswer(answer) => EventView::SubscriberAnswer(answer@),
            Event::TrickleIce(trickle) => EventView::TrickleIce(trickle@),
            Event::Presence(presence) => EventView::Presence(presence@),
        }
    }
}

/// Mathematical value of an event that may be missing.
pub open spec fn event_view(event: Option<Event>) -> Option<EventView> {
    match event {
        Some(event) => Some(event@),
        None => None,
    }
}

/// The methods that a client may call.
#[derive(Clone, Copy, Debug, PartialEq, Eq, Structural)]
pub enum Method {
    /// Request `join`.
    Join,
    /// Request `offer`.
    Offer,
    /// Notification `presence_set`; it is taken as a request too.
    PresenceSet,
    /// Notification `trickle`.
    Trickle,
    /// Notification `answer`.
    Answer,
}

/// The method that an inbound message calls, if it is one that the server
/// knows: `join` and `offer` come as requests, `trickle` and `answer` as
/// notifications, `presence_set` as either. Anything else, a response
/// included, calls none.
pub open spec fn method_of(message: jsonrpc::EventView) -> Option<Method> {
    match message {
        jsonrpc::EventView::Request(request) => if request.method == "join"@ {
            Some(Method::Join)
        } else if request.method == "offer"@ {
            Some(Method::Offer)
        } else if request.method == "presence_set"@ {
            Some(Method::PresenceSet)
        } else {
            None
        },
        jsonrpc::EventView::Notification(notification) => if notification.method == "trickle"@ {
            Some(Method::Trickle)
        } else if notification.method == "answer"@ {
            Some(Method::Answer)
        } else if notification.method == "presence_set"@ {
            Some(Method::PresenceSet)
        } else {
            None
        },
        jsonrpc::EventView::Response(_) => None,
    }
}

/// Whether a call of `method` is answered with a response.
pub open spec fn expects_reply(method: Method) -> bool {
    method is Join || method is Offer
}

/// The event that an inbound message stands for. A message that calls no
/// known method, or whose parameters are not what the method takes, stands
/// for none.
pub open spec fn inbound_event(message: jsonrpc::EventView) -> Option<EventView> {
    match message {
        jsonrpc::EventView::Request(request) => match method_of(message) {
            Some(Method::Join) => match parsed_join(request.params) {
                Some(join) => Some(EventView::JoinRequest(request.id, join)),
                None => None,
            },
            Some(Method::Offer) => match parsed_negotiate(request.params) {
                Some(offer) => Some(EventView::PublisherOffer(request.id, offer)),
                None => None,
            },
            Some(Method::PresenceSet) => Some(
                EventView::Presence(PresenceView { revision: 0, meta: request.params }),
            ),
            _ => None,
        },
        jsonrpc::EventView::Notification(notification) => match method_of(message) {
            Some(Method::Trickle) => match parsed_trickle(notification.params) {
                Some(trickle) => Some(EventView::TrickleIce(trickle)),
                None => None,
            },
            Some(Method::Answer) => match parsed_negotiate(notification.params) {
                Some(answer) => Some(EventView::SubscriberAnswer(answer)),
                None => None,
            },
            Some(Method::PresenceSet) => Some(
                EventView::Presence(PresenceView { revision: 0, meta: notification.params }),
            ),
            _ => None,
        },
        jsonrpc::EventView::Response(_) => None,
    }
}

/// The notification that carries an event to the client, if it is an event
/// that the server sends: a candidate goes out as `trickle`, a subscriber
/// offer as `offer`, presence as `presence`.
pub open spec fn outbound_message(event: EventView) -> Option<jsonrpc::EventView> {
    match event {
        EventView::TrickleIce(trickle) => Some(
            jsonrpc::EventView::Notification(
                jsonrpc::NotificationView { method: "trickle"@, params: trickle_text(trickle) },
            ),
        ),
        EventView::SubscriberOffer(offer) => Some(
            jsonrpc::EventView::Notification(
                jsonrpc::NotificationView { method: "offer"@, params: description_text(offer) },
            ),
        ),
        EventView::Presence(presence) => Some(
            jsonrpc::EventView::Notification(
                jsonrpc::NotificationView { method: "presence"@, params: presence_text(presence) },
            ),
        ),
        _ => None,
    }
}

fn named(method: &String, name: &str) -> (same: bool)
    ensures
        same == (method@ == name@),
{
    let name = name.to_owned();
    *method == name
}

/// Tells which method an inbound message calls. A message that calls none is
/// to be dropped without an answer.
pub fn inbound_method(message: &jsonrpc::Event) -> (method: Option<Method>)
    ensures
        method == method_of(message@),
{
    match message {
        jsonrpc::Event::Request(request) => {
            if named(&request.method, "join") {
                Some(Method::Join)
            } else if named(&request.method, "offer") {
                Some(Method::Offer)
            } else if named(&request.method, "presence_set") {
                Some(Method::PresenceSet)
            } else {
                None
            }
        },
        jsonrpc::Event::Notification(notification) => {
            if named(&notification.method, "trickle") {
                Some(Method::Trickle)
            } else if named(&notification.method, "answer") {
                Some(Method::Answer)
            } else if named(&notification.method, "presence_set") {
                Some(Method::PresenceSet)
            } else {
                None
            }
        },
        jsonrpc::Event::Response(_) => None,
    }
}

/// Tells whether a call of `method` is answered with a response.
pub fn reply_expected(method: Method) -> (expected: bool)
    ensures
        expected == expects_reply(method),
{
    match method {
        Method::Join => true,
        Method::Offer => true,
        _ => false,
    }
}

/// Turns an inbound message into the event it stands for. A message that
/// stands for none is to be dropped without an answer; the connection goes
/// on.
pub fn inbound(message: jsonrpc::Event) -> (event: Option<Event>)
    ensures
        event_view(event) == inbound_event(message@),
{
    let method = inbound_method(&message);
    match message {
        jsonrpc::Event::Request(request) => match method {
            Some(Method::Join) => match JoinMsg::from_params(request.params.as_str()) {
                Some(join) => Some(Event::JoinRequest(request.id, join)),
                None => None,
            },
            Some(Method::Offer) => match NegotiateMsg::from_params(request.params.as_str()) {
                Some(offer) => Some(Event::PublisherOffer(request.id, offer)),
                None => None,
            },
            Some(Method::PresenceSet) => Some(
                Event::Presence(Presence { revision: 0, meta: request.params }),
            ),
            _ => None,
        },
        jsonrpc::Event::Notification(notification) => match method {
            Some(Method::Trickle) => match TrickleNotification::from_params(
                notification.params.as_str(),
            ) {
                Some(trickle) => Some(Event::TrickleIce(trickle)),
                None => None,
            },
            Some(Method::Answer) => match NegotiateMsg::from_params(
                notification.params.as_str(),
            ) {
                Some(answer) => Some(Event::SubscriberAnswer(answer)),
                None => None,
            },
            Some(Method::PresenceSet) => Some(
                Event::Presence(Presence { revision: 0, meta: notification.params }),
            ),
            _ => None,
        },
        jsonrpc::Event::Response(_) => None,
    }
}

/// Turns an event into the notification that carries it to the client. An
/// event that the server does not send gives nothing.
pub fn outbound(event: &Event) -> (message: Option<jsonrpc::Event>)
    ensures
        jsonrpc::event_view(message) == outbound_message(event@),
{
    match event {
        Event::TrickleIce(trickle) => Some(
            jsonrpc::Event::Notification(
                jsonrpc::Notification {
                    method: "trickle".to_owned(),
                    params: trickle.to_params(),
                },
            ),
        ),
        Event::SubscriberOffer(offer) => Some(
            jsonrpc::Event::Notification(
                jsonrpc::Notification { method: "offer".to_owned(), params: offer.to_json() },
            ),
        ),
        Event::Presence(presence) => Some(
            jsonrpc::Event::Notification(
                jsonrpc::Notification {
                    method: "presence".to_owned(),
                    params: presence.to_params(),
                },
            ),
        ),
        _ => None,
    }
}

/// The response that answers the request `id` with the session description
/// `answer`.
pub fn reply(id: jsonrpc::Id, answer: &SessionDescription) -> (message: jsonrpc::Event)
    ensures
        message@ == jsonrpc::EventView::Response(
            jsonrpc::ResponseView {
                id: id@,
                result: Some(description_text(answer@)),
                error: None,
            },
        ),
{
    jsonrpc::Event::Response(
        jsonrpc::Response { id, result: Some(answer.to_json()), error: None },
    )
}

/// The response that tells the client that its request `id` has failed, with
/// `reason` as the error. Only that exchange has failed; the connection goes
/// on.
pub fn reply_error(id: jsonrpc::Id, reason: &str) -> (message: jsonrpc::Event)
    ensures
        message@ == jsonrpc::EventView::Response(
            jsonrpc::ResponseView {
                id: id@,
                result: None,
                error: Some(json_string_text(reason@)),
            },
        ),
{
    jsonrpc::Event::Response(
        jsonrpc::Response { id, result: None, error: Some(string_text(reason)) },
    )
}

} // verus!
