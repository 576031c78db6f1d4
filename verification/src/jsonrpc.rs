//! The JSON-RPC 2.0 subset spoken with the MCSMP peer: request documents
//! and the classification of inbound messages.

use vstd::prelude::*;

use crate::error::{is_configuration_with, is_protocol_with, Error, RemoteData, RemoteError, RequestId};
use crate::json::{
    as_i64_spec, as_str_spec, as_u64_spec, get_spec, json_of_text, lemma_object_members,
    members_view, parse_json_text, push_member, JsonData, JsonNumber, JsonValue,
};
use crate::text::{push_str, str_eq};

verus! {

/// A server-to-client JSON-RPC message.
#[derive(Debug)]
pub enum Inbound {
    /// The answer to request `id`: its result, or the remote error.
    Response { id: RequestId, result: Result<JsonValue, Error> },
    /// A notification.
    Notification { method: String, params: Option<JsonValue> },
}

/// The content of an inbound message.
pub enum InboundData {
    Response { id: u64, result: Result<JsonData, RemoteData> },
    Notification { method: Seq<char>, params: Option<JsonData> },
}

pub open spec fn opt_json_view(v: Option<JsonValue>) -> Option<JsonData> {
    match v {
        Some(j) => Some(j@),
        None => None,
    }
}

/// `i` holds the content `d`.
pub open spec fn inbound_matches(i: Inbound, d: InboundData) -> bool {
    match (i, d) {
        (Inbound::Response { id, result }, InboundData::Response { id: did, result: dr }) => {
            &&& id.id() == did
            &&& match (result, dr) {
                (Ok(v), Ok(dv)) => v@ == dv,
                (Err(Error::Remote(re)), Err(rd)) => re@ == rd,
                _ => false,
            }
        },
        (
            Inbound::Notification { method, params },
            InboundData::Notification { method: dm, params: dp },
        ) => method@ == dm && opt_json_view(params) == dp,
        _ => false,
    }
}

/// The request document: `jsonrpc`, `id`, `method`, then `params` when
/// present.
pub open spec fn request_json(id: u64, method: Seq<char>, params: Option<JsonData>) -> JsonData {
    JsonData::Object(
        seq![
            ("jsonrpc"@, JsonData::Str("2.0"@)),
            ("id"@, JsonData::Number(JsonNumber::PosInt(id))),
            ("method"@, JsonData::Str(method)),
        ] + match params {
            Some(p) => seq![("params"@, p)],
            None => Seq::empty(),
        },
    )
}

/// Builds the JSON-RPC 2.0 request document for a call; an empty method
/// name is a configuration error.
pub fn build_request(id: RequestId, method: &str, params: Option<JsonValue>) -> (r: Result<
    JsonValue,
    Error,
>)
    ensures
        match r {
            Ok(doc) => method@.len() > 0 && doc@ == request_json(id.id(), method@, opt_json_view(params)),
            Err(e) => method@.len() == 0 && is_configuration_with(
                e,
                "JSON-RPC method must not be empty"@,
            ),
        },
{
    if method.is_empty() {
        return Err(Error::Configuration("JSON-RPC method must not be empty".to_owned()));
    }
    let mut members: Vec<(String, JsonValue)> = Vec::new();
    push_member(&mut members, "jsonrpc", JsonValue::String("2.0".to_owned()));
    push_member(&mut members, "id", JsonValue::Number(JsonNumber::PosInt(id.get())));
    push_member(&mut members, "method", JsonValue::String(method.to_owned()));
    let ghost p = opt_json_view(params);
    if let Some(p) = params {
        push_member(&mut members, "params", p);
    }
    let r = JsonValue::Object(members);
    proof {
        lemma_object_members(r);
        assert(members_view(r->Object_0@) =~= request_json(id.id(), method@, p)->Object_0);
    }
    Ok(r)
}

/// The message of a version check: `None` when `jsonrpc` is `"2.0"`.
pub open spec fn version_problem(v: JsonData) -> Option<Seq<char>> {
    match get_spec(v, "jsonrpc"@) {
        Some(JsonData::Str(s)) => if s == "2.0"@ {
            None
        } else {
            Some("unsupported JSON-RPC version `"@ + s + "`; expected `2.0`"@)
        },
        _ => Some("missing string `jsonrpc` member"@),
    }
}

/// A remote error object: integer `code`, string `message`, optional
/// `data`.
pub open spec fn remote_spec(e: JsonData) -> Result<RemoteData, Seq<char>> {
    if !(e is Object) {
        Err("JSON-RPC `error` member must be an object"@)
    } else {
        match get_spec(e, "code"@) {
            Some(c) => match as_i64_spec(c) {
                Some(code) => match get_spec(e, "message"@) {
                    Some(m) => match as_str_spec(m) {
                        Some(message) => Ok(RemoteData { code, message, data: get_spec(e, "data"@) }),
                        None => Err("JSON-RPC error `message` must be a string"@),
                    },
                    None => Err("JSON-RPC error `message` must be a string"@),
                },
                None => Err("JSON-RPC error `code` must be an integer"@),
            },
            None => Err("JSON-RPC error `code` must be an integer"@),
        }
    }
}

/// A response: a non-zero unsigned `id` and exactly one of `result` and
/// `error`.
pub open spec fn response_spec(v: JsonData) -> Result<InboundData, Seq<char>> {
    match get_spec(v, "id"@) {
        Some(i) => match as_u64_spec(i) {
            Some(id) => if id == 0 {
                Err("response `id` must be a non-zero unsigned integer"@)
            } else {
                match (get_spec(v, "result"@), get_spec(v, "error"@)) {
                    (Some(r), None) => Ok(InboundData::Response { id, result: Ok(r) }),
                    (None, Some(e)) => match remote_spec(e) {
                        Ok(re) => Ok(InboundData::Response { id, result: Err(re) }),
                        Err(m) => Err(m),
                    },
                    (Some(_), Some(_)) => Err(
                        "JSON-RPC response must contain exactly one of `result` or `error`"@,
                    ),
                    (None, None) => Err("JSON-RPC response contains neither `result` nor `error`"@),
                }
            },
            None => Err("response `id` must be a non-zero unsigned integer"@),
        },
        None => Err("response `id` must be a non-zero unsigned integer"@),
    }
}

/// A notification: a non-empty string `method` and `params` that is an
/// object, an array or `null` when present.
pub open spec fn notification_spec(v: JsonData) -> Result<InboundData, Seq<char>> {
    match get_spec(v, "method"@) {
        Some(JsonData::Str(method)) => if method.len() == 0 {
            Err("notification `method` must be a non-empty string"@)
        } else {
            match get_spec(v, "params"@) {
                Some(p) => if p is Array || p is Object || p is Null {
                    Ok(InboundData::Notification { method, params: Some(p) })
                } else {
                    Err("JSON-RPC notification `params` must be an object, array, or null"@)
                },
                None => Ok(InboundData::Notification { method, params: None }),
            }
        },
        _ => Err("notification `method` must be a non-empty string"@),
    }
}

/// The classification of an inbound document: a response, a notification,
/// or the protocol violation it commits.
pub open spec fn inbound_spec(v: JsonData) -> Result<InboundData, Seq<char>> {
    if !(v is Object) {
        Err("inbound JSON-RPC message must be an object"@)
    } else {
        match version_problem(v) {
            Some(m) => Err(m),
            None => {
                let has_id = get_spec(v, "id"@) is Some;
                let has_method = get_spec(v, "method"@) is Some;
                if has_id && !has_method {
                    response_spec(v)
                } else if !has_id && has_method {
                    notification_spec(v)
                } else if has_id && has_method {
                    Err("server requests are unsupported; expected a response or notification"@)
                } else {
                    Err("inbound JSON-RPC object contains neither `id` nor `method`"@)
                }
            },
        }
    }
}

fn protocol(message: &str) -> (e: Error)
    ensures
        is_protocol_with(e, message@),
{
    Error::Protocol(message.to_owned())
}

fn check_version(value: &JsonValue) -> (r: Result<(), Error>)
    requires
        value@ is Object,
    ensures
        match r {
            Ok(()) => version_problem(value@) is None,
            Err(e) => version_problem(value@) matches Some(m) && is_protocol_with(e, m),
        },
{
    match value.get("jsonrpc") {
        Some(JsonValue::String(s)) => {
            if str_eq(s.as_str(), "2.0") {
                Ok(())
            } else {
                let mut m = String::new();
                push_str(&mut m, "unsupported JSON-RPC version `");
                push_str(&mut m, s.as_str());
                push_str(&mut m, "`; expected `2.0`");
                Err(Error::Protocol(m))
            }
        },
        _ => Err(protocol("missing string `jsonrpc` member")),
    }
}

/// Reads a remote error object.
pub fn parse_remote_error(value: &JsonValue) -> (r: Result<RemoteError, Error>)
    ensures
        match r {
            Ok(re) => remote_spec(value@) == Ok::<RemoteData, Seq<char>>(re@),
            Err(e) => remote_spec(value@) matches Err(m) && is_protocol_with(e, m),
        },
{
    if !value.is_object() {
        return Err(protocol("JSON-RPC `error` member must be an object"));
    }
    let code = match value.get("code") {
        Some(c) => match c.as_i64() {
            Some(code) => code,
            None => return Err(protocol("JSON-RPC error `code` must be an integer")),
        },
        None => return Err(protocol("JSON-RPC error `code` must be an integer")),
    };
    let message = match value.get("message") {
        Some(m) => match m.as_str() {
            Some(t) => t.to_owned(),
            None => return Err(protocol("JSON-RPC error `message` must be a string")),
        },
        None => return Err(protocol("JSON-RPC error `message` must be a string")),
    };
    let data = match value.get("data") {
        Some(d) => Some(d.clone()),
        None => None,
    };
    Ok(RemoteError { code, message, data })
}

/// Reads a response identifier: a non-zero unsigned integer.
pub fn parse_request_id(value: &JsonValue) -> (r: Result<RequestId, Error>)
    ensures
        match r {
            Ok(id) => as_u64_spec(value@) == Some(id.id()) && id.id() != 0,
            Err(e) => (as_u64_spec(value@) is None || as_u64_spec(value@) == Some(0u64))
                && is_protocol_with(e, "response `id` must be a non-zero unsigned integer"@),
        },
{
    match value.as_u64() {
        Some(id) => if id != 0 {
            Ok(RequestId::new(id))
        } else {
            Err(protocol("response `id` must be a non-zero unsigned integer"))
        },
        None => Err(protocol("response `id` must be a non-zero unsigned integer")),
    }
}

fn parse_response(value: &JsonValue) -> (r: Result<Inbound, Error>)
    requires
        value@ is Object,
    ensures
        match r {
            Ok(i) => response_spec(value@) matches Ok(d) && inbound_matches(i, d),
            Err(e) => response_spec(value@) matches Err(m) && is_protocol_with(e, m),
        },
{
    let id = match value.get("id") {
        Some(i) => match parse_request_id(i) {
            Ok(id) => id,
            Err(e) => return Err(e),
        },
        None => return Err(protocol("response `id` must be a non-zero unsigned integer")),
    };
    match (value.get("result"), value.get("error")) {
        (Some(result), None) => Ok(Inbound::Response { id, result: Ok(result.clone()) }),
        (None, Some(error)) => match parse_remote_error(error) {
            Ok(re) => Ok(Inbound::Response { id, result: Err(Error::Remote(re)) }),
            Err(e) => Err(e),
        },
        (Some(_), Some(_)) => Err(
            protocol("JSON-RPC response must contain exactly one of `result` or `error`"),
        ),
        (None, None) => Err(protocol("JSON-RPC response contains neither `result` nor `error`")),
    }
}

fn parse_notification(value: &JsonValue) -> (r: Result<Inbound, Error>)
    requires
        value@ is Object,
    ensures
        match r {
            Ok(i) => notification_spec(value@) matches Ok(d) && inbound_matches(i, d),
            Err(e) => notification_spec(value@) matches Err(m) && is_protocol_with(e, m),
        },
{
    let method = match value.get("method") {
        Some(JsonValue::String(m)) => if m.as_str().is_empty() {
            return Err(protocol("notification `method` must be a non-empty string"));
        } else {
            m.clone()
        },
        _ => return Err(protocol("notification `method` must be a non-empty string")),
    };
    match value.get("params") {
        Some(p) => {
            if !p.is_array() && !p.is_object() && !p.is_null() {
                return Err(
                    protocol("JSON-RPC notification `params` must be an object, array, or null"),
                );
            }
            Ok(Inbound::Notification { method, params: Some(p.clone()) })
        },
        None => Ok(Inbound::Notification { method, params: None }),
    }
}

/// Classifies an inbound JSON document as a response or a notification,
/// or reports the protocol violation it commits.
pub fn classify_inbound(value: &JsonValue) -> (r: Result<Inbound, Error>)
    ensures
        match r {
            Ok(i) => inbound_spec(value@) matches Ok(d) && inbound_matches(i, d),
            Err(e) => inbound_spec(value@) matches Err(m) && is_protocol_with(e, m),
        },
{
    if !value.is_object() {
        return Err(protocol("inbound JSON-RPC message must be an object"));
    }
    if let Err(e) = check_version(value) {
        return Err(e);
    }
    let has_id = value.get("id").is_some();
    let has_method = value.get("method").is_some();
    if has_id && !has_method {
        parse_response(value)
    } else if !has_id && has_method {
        parse_notification(value)
    } else if has_id && has_method {
        Err(protocol("server requests are unsupported; expected a response or notification"))
    } else {
        Err(protocol("inbound JSON-RPC object contains neither `id` nor `method`"))
    }
}

/// The protocol error for inbound text that is not JSON; `detail`
/// describes the syntax error.
pub fn malformed_text(detail: &str) -> (e: Error)
    ensures
        is_protocol_with(e, "invalid JSON received from peer: "@ + detail@),
{
    let mut m = String::new();
    push_str(&mut m, "invalid JSON received from peer: ");
    push_str(&mut m, detail);
    Error::Protocol(m)
}

/// The classification of an inbound text frame: the text is read as JSON
/// (a syntax error is reported by its message), then classified.
pub open spec fn inbound_text_spec(text: Seq<char>) -> Result<InboundData, Seq<char>> {
    match json_of_text(text) {
        Ok(v) => inbound_spec(v),
        Err(d) => Err("invalid JSON received from peer: "@ + d),
    }
}

/// Parses and classifies an inbound JSON-RPC text frame.
pub fn parse_inbound(text: &str) -> (r: Result<Inbound, Error>)
    ensures
        match r {
            Ok(i) => inbound_text_spec(text@) matches Ok(d) && inbound_matches(i, d),
            Err(e) => inbound_text_spec(text@) matches Err(m) && is_protocol_with(e, m),
        },
{
    match parse_json_text(text) {
        Ok(value) => classify_inbound(&value),
        Err(detail) => Err(malformed_text(detail.as_str())),
    }
}

/// A notification keeps its parameters: an inbound JSON-RPC 2.0 object
/// with a non-empty string `method`, no `id`, and `params` that is an
/// array, an object or `null` is a notification of that method carrying
/// those very parameters; one with `params` of any other shape is refused;
/// one without `params` is a notification without parameters.
pub proof fn lemma_notification_keeps_params(v: JsonData, method: Seq<char>)
    requires
        v is Object,
        get_spec(v, "jsonrpc"@) == Some(JsonData::Str("2.0"@)),
        get_spec(v, "id"@) is None,
        get_spec(v, "method"@) == Some(JsonData::Str(method)),
        method.len() > 0,
    ensures
        match get_spec(v, "params"@) {
            Some(p) => if p is Array || p is Object || p is Null {
                inbound_spec(v) == Ok::<InboundData, Seq<char>>(InboundData::Notification { method, params: Some(p) })
            } else {
                inbound_spec(v) is Err
            },
            None => inbound_spec(v) == Ok::<InboundData, Seq<char>>(InboundData::Notification { method, params: None }),
        },
{
}

} // verus!
