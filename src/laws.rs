//! What holds of the stage over all inputs.
use crate::envelope::{envelope_text, request_mark, response_mark};
use crate::middleware::{body_msg, envelope_bytes, json_media_type, request_body_after};
use vstd::prelude::*;
use vstd::utf8::{decode_utf8, encode_utf8_decode_utf8, encode_utf8_valid_utf8, valid_utf8};

verus! {

/// A JSON request whose body is an envelope with message `s` reaches the
/// inner handler as the envelope with message `s` followed by the request
/// mark: the bytes are well-formed UTF-8 and read back as that envelope's
/// text.
pub proof fn lemma_request_envelope_marked(content_type: Seq<char>, body: Seq<u8>, s: Seq<char>)
    requires
        content_type == json_media_type(),
        body_msg(body) == Some(s),
    ensures
        request_body_after(content_type, body) == envelope_bytes(s + request_mark()),
        valid_utf8(request_body_after(content_type, body)),
        decode_utf8(request_body_after(content_type, body)) == envelope_text(s + request_mark()),
{
    encode_utf8_valid_utf8(envelope_text(s + request_mark()));
    encode_utf8_decode_utf8(envelope_text(s + request_mark()));
}

/// The rewritten response body that carries `s` followed by the response
/// mark is well-formed UTF-8 and reads back as that envelope's text.
pub proof fn lemma_response_envelope_marked(s: Seq<char>)
    ensures
        valid_utf8(envelope_bytes(s + response_mark())),
        decode_utf8(envelope_bytes(s + response_mark())) == envelope_text(s + response_mark()),
{
    encode_utf8_valid_utf8(envelope_text(s + response_mark()));
    encode_utf8_decode_utf8(envelope_text(s + response_mark()));
}

/// A request whose content type is not the JSON media type reaches the inner
/// handler byte for byte as it came.
pub proof fn lemma_non_json_request_unchanged(content_type: Seq<char>, body: Seq<u8>)
    requires
        content_type != json_media_type(),
    ensures
        request_body_after(content_type, body) == body,
{
}

/// A request body that is not UTF-8 or not an envelope reaches the inner
/// handler byte for byte as it came, whatever its content type.
pub proof fn lemma_malformed_request_unchanged(content_type: Seq<char>, body: Seq<u8>)
    requires
        body_msg(body) is None,
    ensures
        request_body_after(content_type, body) == body,
{
}

/// What one pass through the stage and the echoing handler makes of a
/// message: the request mark, then the response mark.
pub open spec fn pipeline_msg(s: Seq<char>) -> Seq<char> {
    s + request_mark() + response_mark()
}

/// Two passes append both marks twice, and so differ from one pass: the
/// stage is not idempotent.
pub proof fn lemma_pipeline_twice(s: Seq<char>)
    ensures
        pipeline_msg(pipeline_msg(s)) == s + request_mark() + response_mark() + request_mark() + response_mark(),
        pipeline_msg(pipeline_msg(s)) != pipeline_msg(s),
{
    assert(pipeline_msg(pipeline_msg(s)).len() > pipeline_msg(s).len()) by {
        reveal_strlit(". I modified the request.");
    }
}

} // verus!
