use req_appender::envelope::{frame_envelope, msg_from_members, RequestMessage, ResponseMessage};
use req_appender::middleware::{
    do_it, is_json_media_type, MiddleWareError, ReqAppenderMiddlewareBuilder,
    ReqAppenderMiddlewareExecutor, ResponseOutcome,
};
use req_appender::text::{utf8_bytes, utf8_text};

const JSON: &str = "application/json";

fn stage() -> ReqAppenderMiddlewareExecutor<()> {
    ReqAppenderMiddlewareBuilder.new_transform(())
}

/// The inner handler as the server runs it: read the envelope, echo it.
fn echo(body: &[u8]) -> Vec<u8> {
    let text = String::from_utf8(body.to_vec()).unwrap();
    let request = RequestMessage::from_json(&text).unwrap();
    do_it(request).to_json().into_bytes()
}

fn rewritten(status: u16, body: &str) -> Result<ResponseOutcome, MiddleWareError> {
    Ok(ResponseOutcome::Rewritten { status, body: body.as_bytes().to_vec() })
}

#[test]
fn scenario_json_envelope_round() {
    let s = stage();
    let seen = s.process_request(JSON, br#"{"msg":"hi"}"#.to_vec());
    assert_eq!(seen, br#"{"msg":"hi. I modified the request."}"#.to_vec());
    let reply = s.process_response(true, 200, echo(&seen));
    assert_eq!(reply, rewritten(200, r#"{"msg":"hi. I modified the request.. I modified the response."}"#));
}

#[test]
fn scenario_not_json_body_passes_through() {
    let s = stage();
    let seen = s.process_request(JSON, b"not json".to_vec());
    assert_eq!(seen, b"not json".to_vec());
    assert_eq!(s.process_response(false, 200, seen.clone()), Ok(ResponseOutcome::Unchanged));
    assert_eq!(s.process_response(true, 200, seen), Err(MiddleWareError));
}

#[test]
fn scenario_text_plain_request_untouched() {
    let s = stage();
    let seen = s.process_request("text/plain", br#"{"msg":"x"}"#.to_vec());
    assert_eq!(seen, br#"{"msg":"x"}"#.to_vec());
    assert_eq!(s.process_response(false, 200, seen.clone()), Ok(ResponseOutcome::Unchanged));
    assert_eq!(s.process_response(true, 200, seen), rewritten(200, r#"{"msg":"x. I modified the response."}"#));
}

#[test]
fn request_of_any_json_envelope_is_marked() {
    let s = stage();
    let seen = s.process_request(JSON, br#"{ "msg" : "a \"quoted\" word" }"#.to_vec());
    let text = String::from_utf8(seen).unwrap();
    let m = RequestMessage::from_json(&text).unwrap();
    assert_eq!(m.msg, "a \"quoted\" word. I modified the request.");
}

#[test]
fn response_keeps_status_and_marks_message() {
    let s = stage();
    let reply = s.process_response(true, 201, br#"{"msg":"ok"}"#.to_vec());
    assert_eq!(reply, rewritten(201, r#"{"msg":"ok. I modified the response."}"#));
}

#[test]
fn response_without_content_type_is_untouched() {
    let s = stage();
    assert_eq!(s.process_response(false, 404, vec![0xff, 0xfe]), Ok(ResponseOutcome::Unchanged));
    assert_eq!(s.process_response(false, 200, br#"{"msg":"m"}"#.to_vec()), Ok(ResponseOutcome::Unchanged));
}

#[test]
fn malformed_request_bodies_pass_through() {
    let s = stage();
    let cases: Vec<Vec<u8>> = vec![
        vec![0xff, 0xfe, 0x7b],
        br#"{"msg":"hi""#.to_vec(),
        br#"{"msg":5}"#.to_vec(),
        br#"{"msg":"hi","extra":"x"}"#.to_vec(),
        br#"{"other":"x"}"#.to_vec(),
        br#"{}"#.to_vec(),
        br#"["msg","hi"]"#.to_vec(),
        b"".to_vec(),
    ];
    for body in cases {
        assert_eq!(s.process_request(JSON, body.clone()), body);
    }
}

#[test]
fn malformed_response_bodies_fail() {
    let s = stage();
    let cases: Vec<Vec<u8>> = vec![
        vec![0xff, 0xfe, 0x7b],
        b"not json".to_vec(),
        br#"{"msg":5}"#.to_vec(),
        br#"{"msg":"hi","extra":"x"}"#.to_vec(),
        br#"{}"#.to_vec(),
    ];
    for body in cases {
        assert_eq!(s.process_response(true, 200, body), Err(MiddleWareError));
    }
}

#[test]
fn json_with_parameters_is_not_the_json_media_type() {
    assert!(is_json_media_type("application/json"));
    assert!(!is_json_media_type("application/json; charset=utf-8"));
    assert!(!is_json_media_type(""));
    let s = stage();
    let body = br#"{"msg":"x"}"#.to_vec();
    assert_eq!(s.process_request("application/json; charset=utf-8", body.clone()), body);
}

#[test]
fn two_passes_append_two_pairs_of_marks() {
    let s = stage();
    let mut body = br#"{"msg":"hi"}"#.to_vec();
    for _ in 0..2 {
        let seen = s.process_request(JSON, body);
        match s.process_response(true, 200, echo(&seen)) {
            Ok(ResponseOutcome::Rewritten { body: b, .. }) => body = b,
            other => panic!("unexpected outcome {:?}", other),
        }
    }
    let m = ResponseMessage::from_json(&String::from_utf8(body).unwrap()).unwrap();
    assert_eq!(
        m.msg,
        "hi. I modified the request.. I modified the response.. I modified the request.. I modified the response."
    );
}

#[test]
fn error_response_is_internal_server_error() {
    assert_eq!(MiddleWareError.status_code(), 500);
    assert_eq!(MiddleWareError.message(), "MiddleWareError");
}

#[test]
fn envelope_encoding_escapes_the_message() {
    let m = ResponseMessage::new("say \"hi\"\n".to_string());
    assert_eq!(m.to_json(), r#"{"msg":"say \"hi\"\n"}"#);
    let r = RequestMessage::new("plain".to_string());
    assert_eq!(r.to_json(), r#"{"msg":"plain"}"#);
}

#[test]
fn envelope_decoding_is_strict() {
    assert_eq!(RequestMessage::from_json(r#"{"msg":"a"}"#).map(|m| m.msg), Some("a".to_string()));
    assert!(RequestMessage::from_json(r#"{"msg":"a","b":"c"}"#).is_none());
    assert!(ResponseMessage::from_json(r#"{"msg":null}"#).is_none());
    assert!(ResponseMessage::from_json("\"msg\"").is_none());
}

#[test]
fn members_give_the_message_only_when_alone() {
    let one = vec![("msg".to_string(), "v".to_string())];
    assert_eq!(msg_from_members(&one), Some("v".to_string()));
    let two = vec![("a".to_string(), "b".to_string()), ("msg".to_string(), "v".to_string())];
    assert_eq!(msg_from_members(&two), None);
    let other = vec![("msgs".to_string(), "v".to_string())];
    assert_eq!(msg_from_members(&other), None);
    assert_eq!(msg_from_members(&vec![]), None);
    assert!(ResponseMessage::from_members(&one).is_some());
    assert!(RequestMessage::from_members(&two).is_none());
}

#[test]
fn framing_wraps_a_literal() {
    assert_eq!(frame_envelope(&"\"z\"".to_string()), r#"{"msg":"z"}"#);
}

#[test]
fn marks_are_appended() {
    let mut q = RequestMessage::new("a".to_string());
    q.mark_modified();
    assert_eq!(q.msg, "a. I modified the request.");
    let mut p = ResponseMessage::new(String::new());
    p.mark_modified();
    assert_eq!(p.msg, ". I modified the response.");
}

#[test]
fn echo_handler_keeps_the_message() {
    let r = do_it(RequestMessage::new("same".to_string()));
    assert_eq!(r.msg, "same");
}

#[test]
fn utf8_conversions() {
    assert_eq!(utf8_text(&"é".as_bytes().to_vec()), Some("é".to_string()));
    assert_eq!(utf8_text(&vec![0xc3]), None);
    assert_eq!(utf8_bytes(&"é".to_string()), vec![0xc3, 0xa9]);
}

#[test]
fn builder_keeps_the_service() {
    let s = ReqAppenderMiddlewareBuilder.new_transform(7u32);
    assert_eq!(**s.next_service(), 7);
}
