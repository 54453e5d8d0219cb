use zabbixbot::text::contains_text;
use zabbixbot::transport::{classify_response, CallError, ResponseEnvelope, RpcFault, Session};

#[test]
fn http_500_is_a_transport_error_with_status_and_body() {
    let env: Option<ResponseEnvelope<String>> = None;
    let r = classify_response(500, "boom".to_string(), env);
    let e = r.unwrap_err();
    assert_eq!(e, CallError::Http { status: 500, body: "boom".to_string() });
    assert!(e.is_transport());
}

#[test]
fn envelope_without_result_or_error_is_a_protocol_error() {
    let env: ResponseEnvelope<String> = ResponseEnvelope { result: None, error: None };
    let r = classify_response(200, "{\"jsonrpc\":\"2.0\",\"id\":1}".to_string(), Some(env));
    let e = r.unwrap_err();
    assert_eq!(e, CallError::Protocol);
    assert!(!e.is_transport());
}

#[test]
fn undecodable_body_is_a_transport_error() {
    let env: Option<ResponseEnvelope<String>> = None;
    let r = classify_response(200, "not json".to_string(), env);
    assert_eq!(r, Err(CallError::Malformed { body: "not json".to_string() }));
}

#[test]
fn error_object_is_an_rpc_error() {
    let fault = RpcFault { code: -32602, message: "Invalid params.".to_string(), data: None };
    let env: ResponseEnvelope<String> = ResponseEnvelope { result: Some("x".to_string()), error: Some(fault.clone()) };
    let r = classify_response(200, String::new(), Some(env));
    assert_eq!(r, Err(CallError::Rpc(fault)));
}

#[test]
fn result_is_returned() {
    let env = ResponseEnvelope { result: Some(42u64), error: None };
    assert_eq!(classify_response(204, String::new(), Some(env)), Ok(42));
}

#[test]
fn header_carries_token_once_logged_in() {
    let mut s = Session::new("http://example/api".to_string());
    assert!(!s.is_authenticated());
    let h = s.request_header("user.login");
    assert_eq!(h.jsonrpc, "2.0");
    assert_eq!(h.method, "user.login");
    assert_eq!(h.id, 1);
    assert_eq!(h.auth, None);
    s.authenticate("tok".to_string());
    assert!(s.is_authenticated());
    let h = s.request_header("user.get");
    assert_eq!(h.auth, Some("tok".to_string()));
    assert_eq!(s.url, "http://example/api");
}

#[test]
fn substring_search() {
    assert!(contains_text("Invalid params.", "Invalid params"));
    assert!(contains_text("abc", ""));
    assert!(contains_text("abc", "c"));
    assert!(!contains_text("ab", "abc"));
    assert!(!contains_text("invalid params", "Invalid params"));
}
