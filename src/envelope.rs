//! The envelope: a JSON object with exactly one member, `msg`, a string.
use crate::json::{json_string_literal, json_string_members, pair_views, parse_string_members, quote_json_string};
use vstd::prelude::*;
use vstd::string::StringExecFns;

verus! {

/// What the request phase appends to the message.
pub open spec fn request_mark() -> Seq<char> {
    ". I modified the request."@
}

/// What the response phase appends to the message.
pub open spec fn response_mark() -> Seq<char> {
    ". I modified the response."@
}

/// The message of an envelope given by its string members: there must be
/// exactly one, and its key must be `msg`.
pub open spec fn msg_of_members(members: Option<Seq<(Seq<char>, Seq<char>)>>) -> Option<Seq<char>> {
    match members {
        Some(ms) => if ms.len() == 1 && ms[0].0 == "msg"@ {
            Some(ms[0].1)
        } else {
            None
        },
        None => None,
    }
}

/// The message of the envelope that a JSON text holds; `None` where the text
/// is no envelope (not JSON, not an object, a missing, extra or non-string
/// member).
pub open spec fn envelope_msg(text: Seq<char>) -> Option<Seq<char>> {
    msg_of_members(json_string_members(text))
}

/// An envelope written around a JSON string literal.
pub open spec fn framed(literal: Seq<char>) -> Seq<char> {
    "{\"msg\":"@ + literal + "}"@
}

/// The JSON text of the envelope that carries `msg`.
pub open spec fn envelope_text(msg: Seq<char>) -> Seq<char> {
    framed(json_string_literal(msg))
}

/// The message of an envelope, from the string members of a JSON object.
pub fn msg_from_members(members: &Vec<(String, String)>) -> (r: Option<String>)
    ensures
        r is Some <==> msg_of_members(Some(pair_views(members@))) is Some,
        r matches Some(m) ==> msg_of_members(Some(pair_views(members@))) == Some(m@),
{
    let key = "msg".to_owned();
    if members.len() == 1 && members[0].0 == key {
        Some(members[0].1.clone())
    } else {
        None
    }
}

/// Writes the envelope around a JSON string literal.
pub fn frame_envelope(literal: &String) -> (r: String)
    ensures
        r@ == framed(literal@),
{
    let mut r = "{\"msg\":".to_owned();
    r.append(literal.as_str());
    r.append("}");
    r
}

/// Reads an envelope from JSON text and returns its message.
pub fn decode_msg(text: &str) -> (r: Option<String>)
    ensures
        r is Some <==> envelope_msg(text@) is Some,
        r matches Some(m) ==> envelope_msg(text@) == Some(m@),
{
    match parse_string_members(text) {
        Some(members) => msg_from_members(&members),
        None => None,
    }
}

/// Writes the envelope that carries `msg` as JSON text.
pub fn encode_msg(msg: &String) -> (r: String)
    ensures
        r@ == envelope_text(msg@),
{
    let literal = quote_json_string(msg.as_str());
    frame_envelope(&literal)
}


/// The envelope as the request phase reads it.
pub struct RequestMessage {
    pub msg: String,
}

impl RequestMessage {
    /// The envelope with the given message.
    pub fn new(msg: String) -> (r: RequestMessage)
        ensures
            r.msg@ == msg@,
    {
        RequestMessage { msg }
    }

    /// Reads the envelope from JSON text; `None` where the text is no envelope.
    pub fn from_json(text: &str) -> (r: Option<RequestMessage>)
        ensures
            r is Some <==> envelope_msg(text@) is Some,
            r matches Some(m) ==> envelope_msg(text@) == Some(m.msg@),
    {
        match decode_msg(text) {
            Some(msg) => Some(RequestMessage { msg }),
            None => None,
        }
    }

    /// Reads the envelope from the string members of a JSON object.
    pub fn from_members(members: &Vec<(String, String)>) -> (r: Option<RequestMessage>)
        ensures
            r is Some <==> msg_of_members(Some(pair_views(members@))) is Some,
            r matches Some(m) ==> msg_of_members(Some(pair_views(members@))) == Some(m.msg@),
    {
        match msg_from_members(members) {
            Some(msg) => Some(RequestMessage { msg }),
            None => None,
        }
    }

    /// The JSON text of the envelope.
    pub fn to_json(&self) -> (r: String)
        ensures
            r@ == envelope_text(self.msg@),
    {
        encode_msg(&self.msg)
    }

    /// Appends the request phase's mark to the message.
    pub fn mark_modified(&mut self)
        ensures
            final(self).msg@ == old(self).msg@ + request_mark(),
    {
        self.msg.append(". I modified the request.");
    }
}

/// The envelope as the response phase reads it.
pub struct ResponseMessage {
    pub msg: String,
}

impl ResponseMessage {
    /// The envelope with the given message.
    pub fn new(msg: String) -> (r: ResponseMessage)
        ensures
            r.msg@ == msg@,
    {
        ResponseMessage { msg }
    }

    /// Reads the envelope from JSON text; `None` where the text is no envelope.
    pub fn from_json(text: &str) -> (r: Option<ResponseMessage>)
        ensures
            r is Some <==> envelope_msg(text@) is Some,
            r matches Some(m) ==> envelope_msg(text@) == Some(m.msg@),
    {
        match decode_msg(text) {
            Some(msg) => Some(ResponseMessage { msg }),
            None => None,
        }
    }

    /// Reads the envelope from the string members of a JSON object.
    pub fn from_members(members: &Vec<(String, String)>) -> (r: Option<ResponseMessage>)
        ensures
            r is Some <==> msg_of_members(Some(pair_views(members@))) is Some,
            r matches Some(m) ==> msg_of_members(Some(pair_views(members@))) == Some(m.msg@),
    {
        match msg_from_members(members) {
            Some(msg) => Some(ResponseMessage { msg }),
            None => None,
        }
    }

    /// The JSON text of the envelope.
    pub fn to_json(&self) -> (r: String)
        ensures
            r@ == envelope_text(self.msg@),
    {
        encode_msg(&self.msg)
    }

    /// Appends the response phase's mark to the message.
    pub fn mark_modified(&mut self)
        ensures
            final(self).msg@ == old(self).msg@ + response_mark(),
    {
        self.msg.append(". I modified the response.");
    }
}

} // verus!
