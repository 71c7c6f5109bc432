//! Frames of the signaling connection.
//!
//! A frame is one JSON object. Three kinds of message share the connection:
//! a request carries an id, a method and parameters; a response carries the id
//! of the request it answers; a notification carries a method and parameters
//! and no id.

use vstd::prelude::*;
use crate::proto::json::{
    decimal,
    integer_of,
    integer_text,
    json_integer,
    json_kind,
    json_member,
    json_string,
    json_string_text,
    json_with_member,
    kind_of,
    member,
    string_of,
    string_text,
    with_member,
    JsonKind,
};

verus! {

/// Correlates a response with its request.
#[derive(Debug, PartialEq, Eq)]
pub enum Id {
    Uuid(String),
    Int(i32),
}

/// A call that expects a response. `params` is the parameter object as JSON
/// text.
#[derive(Debug, PartialEq, Eq)]
pub struct Request {
    pub id: Id,
    pub method: String,
    pub params: String,
}

/// The answer to a request. `result` is an object, `error` any value, both
/// as JSON text.
#[derive(Debug, PartialEq, Eq)]
pub struct Response {
    pub id: Id,
    pub result: Option<String>,
    pub error: Option<String>,
}

/// A call that expects no response. `params` is the parameter object as JSON
/// text.
#[derive(Debug, PartialEq, Eq)]
pub struct Notification {
    pub method: String,
    pub params: String,
}

/// One message of the signaling connection.
#[derive(Debug, PartialEq, Eq)]
pub enum Event {
    Request(Request),
    Response(Response),
    Notification(Notification),
}

/// The `id` member of a frame.
#[derive(Debug, PartialEq, Eq)]
pub enum IdMember {
    /// The frame has no such member.
    Missing,
    /// The member is a string.
    Text(String),
    /// The member is a whole number.
    Integer(i64),
    /// The member is any other value.
    Other,
}

/// The `result` member of a frame.
#[derive(Debug, PartialEq, Eq)]
pub enum ResultMember {
    /// The frame has no such member, or it is null.
    Missing,
    /// The member is an object, given as JSON text.
    Object(String),
    /// The member is any other value.
    Other,
}

/// The members of a frame that tell what message it is.
#[derive(Debug, PartialEq, Eq)]
pub struct Frame {
    /// The protocol version tag, if the frame has one.
    pub jsonrpc: Option<String>,
    pub id: IdMember,
    /// The `method` member, if the frame has one and it is a string.
    pub method: Option<String>,
    /// The `params` member as JSON text, if the frame has one and it is an
    /// object.
    pub params: Option<String>,
    pub result: ResultMember,
    /// The `error` member as JSON text, if the frame has one and it is not
    /// null.
    pub error: Option<String>,
}

/// Mathematical value of an [`Id`].
pub enum IdView {
    Uuid(Seq<char>),
    Int(i32),
}

/// Mathematical value of a [`Request`].
pub struct RequestView {
    pub id: IdView,
    pub method: Seq<char>,
    pub params: Seq<char>,
}

/// Mathematical value of a [`Response`].
pub struct ResponseView {
    pub id: IdView,
    pub result: Option<Seq<char>>,
    pub error: Option<Seq<char>>,
}

/// Mathematical value of a [`Notification`].
pub struct NotificationView {
    pub method: Seq<char>,
    pub params: Seq<char>,
}

/// Mathematical value of an [`Event`].
pub enum EventView {
    Request(RequestView),
    Response(ResponseView),
    Notification(NotificationView),
}

/// Mathematical value of an [`IdMember`].
pub enum IdMemberView {
    Missing,
    Text(Seq<char>),
    Integer(i64),
    Other,
}

/// Mathematical value of a [`ResultMember`].
pub enum ResultMemberView {
    Missing,
    Object(Seq<char>),
    Other,
}

/// Mathematical value of a [`Frame`].
pub struct FrameView {
    pub jsonrpc: Option<Seq<char>>,
    pub id: IdMemberView,
    pub method: Option<Seq<char>>,
    pub params: Option<Seq<char>>,
    pub result: ResultMemberView,
    pub error: Option<Seq<char>>,
}

impl View for Id {
    type V = IdView;

    open spec fn view(&self) -> IdView {
        match self {
            Id::Uuid(text) => IdView::Uuid(text@),
            Id::Int(n) => IdView::Int(*n),
        }
    }
}

impl View for Request {
    type V = RequestView;

    open spec fn view(&self) -> RequestView {
        RequestView { id: self.id@, method: self.method@, params: self.params@ }
    }
}

impl View for Response {
    type V = ResponseView;

    open spec fn view(&self) -> ResponseView {
        ResponseView {
            id: self.id@,
            result: self.result.deep_view(),
            error: self.error.deep_view(),
        }
    }
}

impl View for Notification {
    type V = NotificationView;

    open spec fn view(&self) -> NotificationView {
        NotificationView { method: self.method@, params: self.params@ }
    }
}

impl View for Event {
    type V = EventView;

    open spec fn view(&self) -> EventView {
        match self {
            Event::Request(request) => EventView::Request(request@),
            Event::Response(response) => EventView::Response(response@),
            Event::Notification(notification) => EventView::Notification(notification@),
        }
    }
}

impl View for IdMember {
    type V = IdMemberView;

    open spec fn view(&self) -> IdMemberView {
        match self {
            IdMember::Missing => IdMemberView::Missing,
            IdMember::Text(text) => IdMemberView::Text(text@),
            IdMember::Integer(n) => IdMemberView::Integer(*n),
            IdMember::Other => IdMemberView::Other,
        }
    }
}

impl View for ResultMember {
    type V = ResultMemberView;

    open spec fn view(&self) -> ResultMemberView {
        match self {
            ResultMember::Missing => ResultMemberView::Missing,
            ResultMember::Object(object) => ResultMemberView::Object(object@),
            ResultMember::Other => ResultMemberView::Other,
        }
    }
}

impl View for Frame {
    type V = FrameView;

    open spec fn view(&self) -> FrameView {
        FrameView {
            jsonrpc: self.jsonrpc.deep_view(),
            id: self.id@,
            method: self.method.deep_view(),
            params: self.params.deep_view(),
            result: self.result@,
            error: self.error.deep_view(),
        }
    }
}

/// Mathematical value of a message that may be missing.
pub open spec fn event_view(event: Option<Event>) -> Option<EventView> {
    match event {
        Some(event) => Some(event@),
        None => None,
    }
}

/// The id that an `id` member stands for: a string, or a whole number that
/// fits 32 bits.
pub open spec fn id_of(member: IdMemberView) -> Option<IdView> {
    match member {
        IdMemberView::Text(text) => Some(IdView::Uuid(text)),
        IdMemberView::Integer(n) => if i32::MIN <= n <= i32::MAX {
            Some(IdView::Int(n as i32))
        } else {
            None
        },
        _ => None,
    }
}

/// The message that a frame holds. The shapes are tried in the order request,
/// response, notification, so that a frame with a usable id is never taken
/// for a notification and a frame without one never for anything else.
pub open spec fn decoded(frame: FrameView) -> Option<EventView> {
    let id = id_of(frame.id);
    if id is Some && frame.method is Some && frame.params is Some {
        Some(
            EventView::Request(
                RequestView {
                    id: id.unwrap(),
                    method: frame.method.unwrap(),
                    params: frame.params.unwrap(),
                },
            ),
        )
    } else if id is Some && !(frame.result is Other) {
        Some(
            EventView::Response(
                ResponseView {
                    id: id.unwrap(),
                    result: match frame.result {
                        ResultMemberView::Object(object) => Some(object),
                        _ => None,
                    },
                    error: frame.error,
                },
            ),
        )
    } else if frame.method is Some && frame.params is Some {
        Some(
            EventView::Notification(
                NotificationView { method: frame.method.unwrap(), params: frame.params.unwrap() },
            ),
        )
    } else {
        None
    }
}

/// The `id` member that an id is written as.
pub open spec fn member_of(id: IdView) -> IdMemberView {
    match id {
        IdView::Uuid(text) => IdMemberView::Text(text),
        IdView::Int(n) => IdMemberView::Integer(n as i64),
    }
}

/// The frame that a message is written as: the members of the message, no
/// others, and the version tag `2.0`.
pub open spec fn encoded(event: EventView) -> FrameView {
    match event {
        EventView::Request(request) => FrameView {
            jsonrpc: Some("2.0"@),
            id: member_of(request.id),
            method: Some(request.method),
            params: Some(request.params),
            result: ResultMemberView::Missing,
            error: None,
        },
        EventView::Response(response) => FrameView {
            jsonrpc: Some("2.0"@),
            id: member_of(response.id),
            method: None,
            params: None,
            result: match response.result {
                Some(object) => ResultMemberView::Object(object),
                None => ResultMemberView::Missing,
            },
            error: response.error,
        },
        EventView::Notification(notification) => FrameView {
            jsonrpc: Some("2.0"@),
            id: IdMemberView::Missing,
            method: Some(notification.method),
            params: Some(notification.params),
            result: ResultMemberView::Missing,
            error: None,
        },
    }
}

/// The members of the frame that the JSON text `text` holds. A text that is
/// no JSON object has no members.
pub open spec fn parsed_frame(text: Seq<char>) -> FrameView {
    FrameView {
        jsonrpc: match json_member(text, "jsonrpc"@) {
            Some(tag) => json_string(tag),
            None => None,
        },
        id: match json_member(text, "id"@) {
            Some(id) => match json_string(id) {
                Some(text) => IdMemberView::Text(text),
                None => match json_integer(id) {
                    Some(n) => IdMemberView::Integer(n),
                    None => IdMemberView::Other,
                },
            },
            None => IdMemberView::Missing,
        },
        method: match json_member(text, "method"@) {
            Some(method) => json_string(method),
            None => None,
        },
        params: match json_member(text, "params"@) {
            Some(params) => if json_kind(params) == Some(JsonKind::Object) {
                Some(params)
            } else {
                None
            },
            None => None,
        },
        result: match json_member(text, "result"@) {
            Some(result) => if json_kind(result) == Some(JsonKind::Null) {
                ResultMemberView::Missing
            } else if json_kind(result) == Some(JsonKind::Object) {
                ResultMemberView::Object(result)
            } else {
                ResultMemberView::Other
            },
            None => ResultMemberView::Missing,
        },
        error: match json_member(text, "error"@) {
            Some(error) => if json_kind(error) == Some(JsonKind::Null) {
                None
            } else {
                Some(error)
            },
            None => None,
        },
    }
}

/// `object` with the member `key` set to `value`, if there is a value.
pub open spec fn with_optional(object: Seq<char>, key: Seq<char>, value: Option<Seq<char>>) -> Seq<
    char,
> {
    match value {
        Some(value) => json_with_member(object, key, value),
        None => object,
    }
}

/// The text that a frame is written as: one JSON object with the members
/// that the frame has.
pub open spec fn frame_text(frame: FrameView) -> Seq<char> {
    let with_id = with_optional(
        "{}"@,
        "id"@,
        match frame.id {
            IdMemberView::Text(text) => Some(json_string_text(text)),
            IdMemberView::Integer(n) => Some(decimal(n as int)),
            _ => None,
        },
    );
    let with_method = with_optional(
        with_id,
        "method"@,
        match frame.method {
            Some(method) => Some(json_string_text(method)),
            None => None,
        },
    );
    let with_params = with_optional(with_method, "params"@, frame.params);
    let with_result = with_optional(
        with_params,
        "result"@,
        match frame.result {
            ResultMemberView::Object(object) => Some(object),
            _ => None,
        },
    );
    let with_error = with_optional(with_result, "error"@, frame.error);
    with_optional(
        with_error,
        "jsonrpc"@,
        match frame.jsonrpc {
            Some(tag) => Some(json_string_text(tag)),
            None => None,
        },
    )
}

fn id_from(member: IdMember) -> (id: Option<Id>)
    ensures
        match id {
            Some(id) => id_of(member@) == Some(id@),
            None => id_of(member@) is None,
        },
{
    match member {
        IdMember::Text(text) => Some(Id::Uuid(text)),
        IdMember::Integer(n) => {
            if -0x8000_0000 <= n && n <= 0x7fff_ffff {
                Some(Id::Int(n as i32))
            } else {
                None
            }
        },
        _ => None,
    }
}

fn member_from(id: Id) -> (member: IdMember)
    ensures
        member@ == member_of(id@),
{
    match id {
        Id::Uuid(text) => IdMember::Text(text),
        Id::Int(n) => IdMember::Integer(n as i64),
    }
}

/// Reads the message that a frame holds; a frame that is none of the three
/// kinds gives nothing.
pub fn decode(frame: Frame) -> (event: Option<Event>)
    ensures
        event_view(event) == decoded(frame@),
{
    let Frame { jsonrpc: _, id, method, params, result, error } = frame;
    match id_from(id) {
        Some(id) => match (method, params) {
            (Some(method), Some(params)) => Some(Event::Request(Request { id, method, params })),
            _ => match result {
                ResultMember::Other => None,
                ResultMember::Object(object) => Some(
                    Event::Response(Response { id, result: Some(object), error }),
                ),
                ResultMember::Missing => Some(
                    Event::Response(Response { id, result: None, error }),
                ),
            },
        },
        None => match (method, params) {
            (Some(method), Some(params)) => Some(
                Event::Notification(Notification { method, params }),
            ),
            _ => None,
        },
    }
}

/// Writes a message as a frame, tagged with the protocol version.
pub fn encode(event: Event) -> (frame: Frame)
    ensures
        frame@ == encoded(event@),
{
    let version = "2.0".to_owned();
    match event {
        Event::Request(request) => Frame {
            jsonrpc: Some(version),
            id: member_from(request.id),
            method: Some(request.method),
            params: Some(request.params),
            result: ResultMember::Missing,
            error: None,
        },
        Event::Response(response) => Frame {
            jsonrpc: Some(version),
            id: member_from(response.id),
            method: None,
            params: None,
            result: match response.result {
                Some(object) => ResultMember::Object(object),
                None => ResultMember::Missing,
            },
            error: response.error,
        },
        Event::Notification(notification) => Frame {
            jsonrpc: Some(version),
            id: IdMember::Missing,
            method: Some(notification.method),
            params: Some(notification.params),
            result: ResultMember::Missing,
            error: None,
        },
    }
}

fn string_member(text: &str, key: &str) -> (value: Option<String>)
    ensures
        value.deep_view() == match json_member(text@, key@) {
            Some(found) => json_string(found),
            None => None,
        },
{
    match member(text, key) {
        Some(found) => string_of(found.as_str()),
        None => None,
    }
}

/// Picks from a JSON text the members that tell what message it is.
pub fn frame_of(text: &str) -> (frame: Frame)
    ensures
        frame@ == parsed_frame(text@),
{
    let id = match member(text, "id") {
        Some(id) => match string_of(id.as_str()) {
            Some(text) => IdMember::Text(text),
            None => match integer_of(id.as_str()) {
                Some(n) => IdMember::Integer(n),
                None => IdMember::Other,
            },
        },
        None => IdMember::Missing,
    };
    let params = match member(text, "params") {
        Some(params) => match kind_of(params.as_str()) {
            Some(JsonKind::Object) => Some(params),
            _ => None,
        },
        None => None,
    };
    let result = match member(text, "result") {
        Some(result) => match kind_of(result.as_str()) {
            Some(JsonKind::Null) => ResultMember::Missing,
            Some(JsonKind::Object) => ResultMember::Object(result),
            _ => ResultMember::Other,
        },
        None => ResultMember::Missing,
    };
    let error = match member(text, "error") {
        Some(error) => match kind_of(error.as_str()) {
            Some(JsonKind::Null) => None,
            _ => Some(error),
        },
        None => None,
    };
    Frame {
        jsonrpc: string_member(text, "jsonrpc"),
        id,
        method: string_member(text, "method"),
        params,
        result,
        error,
    }
}

fn with_text(object: String, key: &str, value: &Option<String>) -> (text: String)
    ensures
        text@ == with_optional(object@, key@, value.deep_view()),
{
    match value {
        Some(value) => with_member(object.as_str(), key, value.as_str()),
        None => object,
    }
}

fn with_string(object: String, key: &str, value: &Option<String>) -> (text: String)
    ensures
        text@ == with_optional(
            object@,
            key@,
            match value.deep_view() {
                Some(value) => Some(json_string_text(value)),
                None => None,
            },
        ),
{
    match value {
        Some(value) => {
            let encoded = string_text(value.as_str());
            with_member(object.as_str(), key, encoded.as_str())
        },
        None => object,
    }
}

/// Writes the members of a frame as one JSON object.
pub fn text_of(frame: &Frame) -> (text: String)
    ensures
        text@ == frame_text(frame@),
{
    let empty = "{}".to_owned();
    let with_id = match &frame.id {
        IdMember::Text(text) => {
            let encoded = string_text(text.as_str());
            with_member(empty.as_str(), "id", encoded.as_str())
        },
        IdMember::Integer(n) => {
            let numeral = integer_text(*n);
            with_member(empty.as_str(), "id", numeral.as_str())
        },
        _ => empty,
    };
    let with_method = with_string(with_id, "method", &frame.method);
    let with_params = with_text(with_method, "params", &frame.params);
    let with_result = match &frame.result {
        ResultMember::Object(object) => with_member(
            with_params.as_str(),
            "result",
            object.as_str(),
        ),
        _ => with_params,
    };
    let with_error = with_text(with_result, "error", &frame.error);
    with_string(with_error, "jsonrpc", &frame.jsonrpc)
}

/// Reads a message from the text of a frame. A text that holds none of the
/// three kinds of message gives nothing.
pub fn from_text(text: &str) -> (event: Option<Event>)
    ensures
        event_view(event) == decoded(parsed_frame(text@)),
{
    decode(frame_of(text))
}

/// Writes a message as the text of a frame.
pub fn to_text(event: Event) -> (text: String)
    ensures
        text@ == frame_text(encoded(event@)),
{
    let frame = encode(event);
    text_of(&frame)
}

/// Every message can be read back from the frame it was written as.
pub proof fn law_decode_inverts_encode(event: EventView)
    ensures
        decoded(encoded(event)) == Some(event),
{
}

/// The id tells the kinds apart: a frame is read as a notification only if
/// it has no usable id, and as a request or a response only if it has one.
pub proof fn law_id_separates_kinds(frame: FrameView)
    ensures
        decoded(frame) is Some ==> (decoded(frame).unwrap() is Notification <==> id_of(frame.id)
            is None),
{
}

} // verus!
