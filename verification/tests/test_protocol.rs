//! The wire protocol: framing, routing, the auth gate, and the JSON bodies.

use clash_verge_service_ipc::auth::ipc_request_context_to_auth_context;
use clash_verge_service_ipc::client::client_request;
use clash_verge_service_ipc::command::{route, IpcCommand, Method};
use clash_verge_service_ipc::http::{
    content_length, encode_response, find_head_end, header_value, parse_request,
};
use clash_verge_service_ipc::json::{json_response_logs, json_response_null, json_response_string};
use clash_verge_service_ipc::text::parse_u64_dec;
use clash_verge_service_ipc::{AuthStatus, Response, IPC_AUTH_EXPECT, VERSION};

#[test]
fn route_table_matches_every_verb() {
    let verbs = [
        IpcCommand::Magic,
        IpcCommand::GetVersion,
        IpcCommand::GetClashLogs,
        IpcCommand::StartClash,
        IpcCommand::StopClash,
        IpcCommand::UpdateWriter,
    ];
    for cmd in verbs {
        assert_eq!(route(cmd.method(), cmd.as_ref()), Some(cmd));
    }
    assert_eq!(route(Method::Get, "/unknown"), None);
    assert_eq!(route(Method::Post, "/version"), None);
    assert_eq!(route(Method::Get, "/clash/start"), None);
    assert_eq!(route(Method::Delete, "/writer"), None);
}

#[test]
fn verb_paths_and_methods() {
    assert_eq!(IpcCommand::Magic.as_ref(), "/magic");
    assert_eq!(IpcCommand::GetVersion.as_ref(), "/version");
    assert_eq!(IpcCommand::GetClashLogs.as_ref(), "/clash/logs");
    assert_eq!(IpcCommand::StartClash.as_ref(), "/clash/start");
    assert_eq!(IpcCommand::StopClash.as_ref(), "/clash/stop");
    assert_eq!(IpcCommand::UpdateWriter.as_ref(), "/writer");
    assert_eq!(IpcCommand::StartClash.method(), Method::Post);
    assert_eq!(IpcCommand::StopClash.method(), Method::Delete);
    assert_eq!(IpcCommand::UpdateWriter.method(), Method::Put);
}

#[test]
fn auth_accepts_only_the_exact_secret() {
    let good = IPC_AUTH_EXPECT.as_bytes().to_vec();
    assert_eq!(
        ipc_request_context_to_auth_context(Some(&good)),
        Ok(AuthStatus::Authorized)
    );
    let mut bad = IPC_AUTH_EXPECT.as_bytes().to_vec();
    bad[0] ^= 1;
    assert_eq!(ipc_request_context_to_auth_context(Some(&bad)), Err(401));
    let truncated = IPC_AUTH_EXPECT.as_bytes()[..10].to_vec();
    assert_eq!(ipc_request_context_to_auth_context(Some(&truncated)), Err(401));
    assert_eq!(ipc_request_context_to_auth_context(None), Err(401));
}

#[test]
fn parse_request_accepts_a_well_formed_frame() {
    let frame = b"GET /version HTTP/1.1\r\nX-IPC-Magic: token\r\nAccept: */*\r\n\r\n";
    let end = find_head_end(frame).expect("head should end");
    assert_eq!(end, frame.len());
    let head = parse_request(frame).expect("frame should parse");
    assert_eq!(head.method, Method::Get);
    assert_eq!(head.path, b"/version".to_vec());
    assert_eq!(head.headers.len(), 2);
    assert_eq!(head.headers[0].name, b"X-IPC-Magic".to_vec());
    assert_eq!(head.headers[0].value, b"token".to_vec());
    let v = header_value(&head.headers, "X-IPC-Magic").expect("header present");
    assert_eq!(v, &b"token".to_vec());
    assert_eq!(header_value(&head.headers, "Content-Length"), None);
    assert_eq!(content_length(&head.headers), Some(0));
}

#[test]
fn parse_request_rejects_malformed_frames() {
    assert!(parse_request(b"FETCH /x HTTP/1.1\r\n\r\n").is_none());
    assert!(parse_request(b"GET /x HTTP/1.0\r\n\r\n").is_none());
    assert!(parse_request(b"GET  HTTP/1.1\r\n\r\n").is_none());
    assert!(parse_request(b"GET /x HTTP/1.1\r\nno-colon-here\r\n\r\n").is_none());
    assert!(parse_request(b"GET /x HTTP/1.1\r\n: empty-name\r\n\r\n").is_none());
    assert!(parse_request(b"GET /x HTTP/1.1\r\n\r\ntrailing").is_none());
    assert!(parse_request(b"GET /x HTTP/1.1").is_none());
}

#[test]
fn header_values_are_trimmed_of_leading_spaces() {
    let frame = b"PUT /writer HTTP/1.1\r\nContent-Length:   42\r\n\r\n";
    let head = parse_request(frame).expect("frame should parse");
    assert_eq!(head.headers[0].value, b"42".to_vec());
    assert_eq!(content_length(&head.headers), Some(42));
}

#[test]
fn content_length_rejects_a_malformed_announcement() {
    let frame = b"PUT /writer HTTP/1.1\r\nContent-Length: 12a\r\n\r\n";
    let head = parse_request(frame).expect("frame should parse");
    assert_eq!(content_length(&head.headers), None);
}

#[test]
fn decimal_numerals_parse_exactly() {
    assert_eq!(parse_u64_dec(b"0"), Some(0));
    assert_eq!(parse_u64_dec(b"10485760"), Some(10485760));
    assert_eq!(parse_u64_dec(b"18446744073709551615"), Some(u64::MAX));
    assert_eq!(parse_u64_dec(b"18446744073709551616"), None);
    assert_eq!(parse_u64_dec(b""), None);
    assert_eq!(parse_u64_dec(b"-1"), None);
    assert_eq!(parse_u64_dec(b"1 2"), None);
}

#[test]
fn response_frame_is_exact() {
    let r = encode_response(200, "text/plain", b"hi");
    assert_eq!(
        r,
        b"HTTP/1.1 200 OK\r\nContent-Type: text/plain\r\nContent-Length: 2\r\n\r\nhi".to_vec()
    );
    let r = encode_response(503, "application/json", b"{}");
    assert_eq!(
        r,
        b"HTTP/1.1 503 Service Unavailable\r\nContent-Type: application/json\r\nContent-Length: 2\r\n\r\n{}"
            .to_vec()
    );
    let r = encode_response(401, "text/plain", b"");
    assert_eq!(
        r,
        b"HTTP/1.1 401 Unauthorized\r\nContent-Type: text/plain\r\nContent-Length: 0\r\n\r\n"
            .to_vec()
    );
}

#[test]
fn json_bodies_are_exact() {
    assert_eq!(
        json_response_null(0, "Success"),
        br#"{"code":0,"message":"Success","data":null}"#.to_vec()
    );
    assert_eq!(
        json_response_string(0, "Success", VERSION),
        format!(r#"{{"code":0,"message":"Success","data":"{}"}}"#, VERSION).into_bytes()
    );
    let logs = vec!["one".to_string(), "two".to_string()];
    assert_eq!(
        json_response_logs(0, "Success", &logs),
        br#"{"code":0,"message":"Success","data":["one","two"]}"#.to_vec()
    );
    let empty: Vec<String> = Vec::new();
    assert_eq!(
        json_response_logs(0, "Success", &empty),
        br#"{"code":0,"message":"Success","data":[]}"#.to_vec()
    );
}

#[test]
fn json_strings_are_escaped() {
    let body = json_response_string(1, "m", "a\"b\\c\nd");
    assert_eq!(
        body,
        br#"{"code":1,"message":"m","data":"a\"b\\c\u000ad"}"#.to_vec()
    );
}

#[test]
fn json_bodies_parse_with_a_real_json_parser() {
    let logs = vec!["line \"quoted\"".to_string(), "päth/ü".to_string()];
    let body = json_response_logs(0, "Success", &logs);
    let v: serde_json::Value = serde_json::from_slice(&body).expect("valid JSON");
    assert_eq!(v["code"], 0);
    assert_eq!(v["message"], "Success");
    assert_eq!(v["data"][0], "line \"quoted\"");
    assert_eq!(v["data"][1], "päth/ü");
}

#[test]
fn client_frame_parses_back_to_its_verb() {
    let body = br#"{"directory":"./logs","max_log_size":10485760,"max_log_files":8}"#;
    let frame = client_request(IpcCommand::UpdateWriter, body);
    let end = find_head_end(&frame).expect("head should end");
    let head = parse_request(&frame[..end]).expect("head should parse");
    assert_eq!(head.method, Method::Put);
    let path = std::str::from_utf8(&head.path).unwrap();
    assert_eq!(route(head.method, path), Some(IpcCommand::UpdateWriter));
    let magic = header_value(&head.headers, "X-IPC-Magic").expect("auth header present");
    assert_eq!(
        ipc_request_context_to_auth_context(Some(magic)),
        Ok(AuthStatus::Authorized)
    );
    assert_eq!(content_length(&head.headers), Some(body.len() as u64));
    assert_eq!(&frame[end..], &body[..]);
}

#[test]
fn response_envelope_round_trips_through_its_json_form() {
    let r: Response<String> = Response {
        code: 0,
        message: "Success".to_string(),
        data: Some(VERSION.to_string()),
    };
    // the version handler's body is the serialized form of this envelope
    let body = json_response_string(r.code, &r.message, r.data.as_deref().unwrap());
    let v: serde_json::Value = serde_json::from_slice(&body).unwrap();
    assert_eq!(v["code"], r.code);
    assert_eq!(v["message"], r.message.as_str());
    assert_eq!(v["data"], r.data.as_deref().unwrap());
}

#[test]
fn client_frame_without_body_is_exact() {
    let frame = client_request(IpcCommand::GetVersion, b"");
    let expected = format!(
        "GET /version HTTP/1.1\r\nX-IPC-Magic: {}\r\nContent-Length: 0\r\n\r\n",
        IPC_AUTH_EXPECT
    );
    assert_eq!(frame, expected.into_bytes());
}
