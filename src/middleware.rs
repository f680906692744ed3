//! The interception stage: the request phase, the response phase, and the
//! error that ends a call.
use crate::envelope::{envelope_msg, envelope_text, request_mark, response_mark, RequestMessage, ResponseMessage};
use crate::text::{utf8_bytes, utf8_text};
use std::rc::Rc;
use vstd::prelude::*;
use vstd::utf8::{decode_utf8, encode_utf8, encode_utf8_decode_utf8, valid_utf8};

verus! {

/// The JSON media type, the one content type the request phase rewrites.
pub open spec fn json_media_type() -> Seq<char> {
    "application/json"@
}

/// The message of the envelope that body bytes hold, if they are UTF-8 text
/// that is an envelope.
pub open spec fn body_msg(body: Seq<u8>) -> Option<Seq<char>> {
    if valid_utf8(body) {
        envelope_msg(decode_utf8(body))
    } else {
        None
    }
}

/// The bytes of the envelope that carries `msg`.
pub open spec fn envelope_bytes(msg: Seq<char>) -> Seq<u8> {
    encode_utf8(envelope_text(msg))
}

/// Whether a content type is exactly the JSON media type.
pub fn is_json_media_type(content_type: &str) -> (r: bool)
    ensures
        r == (content_type@ == json_media_type()),
{
    content_type.to_owned() == "application/json".to_owned()
}

/// The body that the inner handler receives: the envelope with the request
/// mark appended to its message where the request is JSON and holds an
/// envelope, else the original bytes.
pub open spec fn request_body_after(content_type: Seq<char>, body: Seq<u8>) -> Seq<u8> {
    if content_type == json_media_type() {
        match body_msg(body) {
            Some(m) => envelope_bytes(m + request_mark()),
            None => body,
        }
    } else {
        body
    }
}

/// What the response phase makes of the inner handler's response.
#[derive(Debug, PartialEq, Eq)]
pub enum ResponseOutcome {
    /// The response goes to the client as the inner handler produced it.
    Unchanged,
    /// A new JSON response with this status and body replaces it.
    Rewritten { status: u16, body: Vec<u8> },
}

/// The one error of the stage: the response had a content type but its body
/// was no envelope. It ends the call.
#[derive(Clone, Copy, Debug, PartialEq, Eq, Structural)]
pub struct MiddleWareError;

impl MiddleWareError {
    /// The status of the error response: internal server error.
    pub fn status_code(&self) -> (r: u16)
        ensures
            r == 500,
    {
        500
    }

    /// The text of the error response's body.
    pub fn message(&self) -> (r: String)
        ensures
            r@ == "MiddleWareError"@,
    {
        "MiddleWareError".to_owned()
    }
}

/// Makes the stage around an inner service.
pub struct ReqAppenderMiddlewareBuilder;

impl ReqAppenderMiddlewareBuilder {
    /// Wraps `service` in the stage.
    pub fn new_transform<S>(&self, service: S) -> (r: ReqAppenderMiddlewareExecutor<S>)
        ensures
            r.service() == service,
    {
        ReqAppenderMiddlewareExecutor { next_service: Rc::new(service) }
    }
}

/// The stage around one inner service. It holds nothing that a call changes,
/// so one value serves every call.
pub struct ReqAppenderMiddlewareExecutor<S> {
    next_service: Rc<S>,
}

impl<S> ReqAppenderMiddlewareExecutor<S> {
    /// The inner service.
    pub closed spec fn service(&self) -> S {
        *self.next_service
    }

    /// The inner service, shared.
    pub fn next_service(&self) -> (r: &Rc<S>)
        ensures
            **r == self.service(),
    {
        &self.next_service
    }

    /// The request phase: the body to hand the inner service. A body that is
    /// not JSON, not UTF-8 or no envelope goes on unchanged.
    pub fn process_request(&self, content_type: &str, body: Vec<u8>) -> (r: Vec<u8>)
        ensures
            r@ == request_body_after(content_type@, body@),
    {
        if !is_json_media_type(content_type) {
            return body;
        }
        match utf8_text(&body) {
            Some(text) => match RequestMessage::from_json(text.as_str()) {
                Some(mut message) => {
                    message.mark_modified();
                    utf8_bytes(&message.to_json())
                },
                None => body,
            },
            None => body,
        }
    }

    /// The response phase. Without a content type the response goes on
    /// unchanged; with one, its body must be an envelope, which comes back
    /// with the response mark appended, else the call fails.
    pub fn process_response(&self, has_content_type: bool, status: u16, body: Vec<u8>) -> (r: Result<ResponseOutcome, MiddleWareError>)
        ensures
            !has_content_type ==> r matches Ok(ResponseOutcome::Unchanged),
            has_content_type ==> (r is Err <==> body_msg(body@) is None),
            has_content_type ==> match body_msg(body@) {
                Some(m) => r matches Ok(ResponseOutcome::Rewritten { status: s, body: b })
                    && s == status && b@ == envelope_bytes(m + response_mark()),
                None => r is Err,
            },
    {
        if !has_content_type {
            return Ok(ResponseOutcome::Unchanged);
        }
        match utf8_text(&body) {
            Some(text) => match ResponseMessage::from_json(text.as_str()) {
                Some(mut message) => {
                    message.mark_modified();
                    Ok(ResponseOutcome::Rewritten { status, body: utf8_bytes(&message.to_json()) })
                },
                None => Err(MiddleWareError),
            },
            None => Err(MiddleWareError),
        }
    }
}

/// The inner handler: answers with the message it received.
pub fn do_it(data: RequestMessage) -> (r: ResponseMessage)
    ensures
        r.msg@ == data.msg@,
{
    ResponseMessage { msg: data.msg }
}

} // verus!
