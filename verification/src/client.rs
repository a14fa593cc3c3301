//! The client side of the wire protocol: connection tuning and the exact
//! frame a client sends for each verb. The shell owns the connection; the
//! frame on it is built here.

use crate::command::IpcCommand;
use crate::http::{
    encode_request, spec_encode_request, spec_headers_view, HeaderField,
};
use crate::text::{push_u64_dec, spec_dec_digits};
use crate::IPC_AUTH_EXPECT;
use vstd::prelude::*;
use vstd::slice::slice_to_vec;
use vstd::string::StringSliceAdditionalSpecFns;

verus! {

/// Connection tuning of the client: all times in milliseconds.
pub struct IpcConfig {
    pub default_timeout: u64,
    pub max_retries: usize,
    pub retry_delay: u64,
}

impl core::default::Default for IpcConfig {
    /// A 50 ms timeout, six retries, 125 ms apart.
    fn default() -> (r: Self)
        ensures
            r.default_timeout == 50,
            r.max_retries == 6,
            r.retry_delay == 125,
    {
        IpcConfig { default_timeout: 50, max_retries: 6, retry_delay: 125 }
    }
}

/// The headers a client sends: the shared secret, the content type when a
/// body is present, and the body's length.
pub open spec fn spec_client_headers(body: Seq<u8>) -> Seq<(Seq<u8>, Seq<u8>)> {
    if body.len() == 0 {
        seq![
            ("X-IPC-Magic".spec_bytes(), IPC_AUTH_EXPECT.spec_bytes()),
            ("Content-Length".spec_bytes(), spec_dec_digits(body.len() as int)),
        ]
    } else {
        seq![
            ("X-IPC-Magic".spec_bytes(), IPC_AUTH_EXPECT.spec_bytes()),
            ("Content-Type".spec_bytes(), "application/json".spec_bytes()),
            ("Content-Length".spec_bytes(), spec_dec_digits(body.len() as int)),
        ]
    }
}

/// The whole frame a client sends for a verb.
pub open spec fn spec_client_request(cmd: IpcCommand, body: Seq<u8>) -> Seq<u8> {
    spec_encode_request(
        cmd.spec_method(),
        vstd::utf8::encode_utf8(cmd.spec_path()),
        spec_client_headers(body),
        body,
    )
}

fn header_field(name: &str, value: &str) -> (r: HeaderField)
    ensures
        r@ == (name.spec_bytes(), value.spec_bytes()),
{
    HeaderField { name: slice_to_vec(name.as_bytes()), value: slice_to_vec(value.as_bytes()) }
}

/// Serialize the frame for a verb: its own method and path, the auth header,
/// and the JSON body if any.
pub fn client_request(cmd: IpcCommand, body: &[u8]) -> (r: Vec<u8>)
    ensures
        r@ == spec_client_request(cmd, body@),
{
    let mut headers: Vec<HeaderField> = Vec::new();
    headers.push(header_field("X-IPC-Magic", IPC_AUTH_EXPECT));
    if body.len() > 0 {
        headers.push(header_field("Content-Type", "application/json"));
    }
    let mut length: Vec<u8> = Vec::new();
    push_u64_dec(&mut length, body.len() as u64);
    headers.push(
        HeaderField { name: slice_to_vec("Content-Length".as_bytes()), value: length },
    );
    proof {
        assert(spec_headers_view(headers@) =~= spec_client_headers(body@));
    }
    let path = cmd.as_ref();
    encode_request(cmd.method(), path, &headers, body)
}

/// What the server reads back from a client frame is exactly the verb's own
/// method, path and headers: the frame splits into a head and the body, the
/// head parses to the verb's method, path and the client headers, and the
/// auth header among them carries the shared secret, so the frame passes the
/// auth gate.
pub proof fn lemma_client_request_parses(cmd: IpcCommand, body: Seq<u8>)
    ensures
        spec_client_request(cmd, body) =~= spec_encode_request(
            cmd.spec_method(),
            vstd::utf8::encode_utf8(cmd.spec_path()),
            spec_client_headers(body),
            Seq::empty(),
        ) + body,
        crate::http::spec_parse_request(
            spec_encode_request(
                cmd.spec_method(),
                vstd::utf8::encode_utf8(cmd.spec_path()),
                spec_client_headers(body),
                Seq::empty(),
            ),
        ) == Some(
            crate::http::RequestHeadV {
                method: cmd.spec_method(),
                path: vstd::utf8::encode_utf8(cmd.spec_path()),
                headers: spec_client_headers(body),
            },
        ),
        crate::http::spec_header_lookup(spec_client_headers(body), "X-IPC-Magic".spec_bytes())
            == Some(IPC_AUTH_EXPECT.spec_bytes()),
{
    let path = vstd::utf8::encode_utf8(cmd.spec_path());
    reveal_strlit("/version");
    reveal_strlit("/clash/logs");
    reveal_strlit("/clash/start");
    reveal_strlit("/clash/stop");
    reveal_strlit("/writer");
    reveal_strlit("/magic");
    reveal_strlit("X-IPC-Magic");
    reveal_strlit("Content-Type");
    reveal_strlit("Content-Length");
    reveal_strlit("application/json");
    reveal_strlit(
        r#"Like as the waves make towards the pebbl'd shore, So do our minutes hasten to their end;"#,
    );
    assert(vstd::utf8::is_ascii_chars("/version"@));
    assert(vstd::utf8::is_ascii_chars("/clash/logs"@));
    assert(vstd::utf8::is_ascii_chars("/clash/start"@));
    assert(vstd::utf8::is_ascii_chars("/clash/stop"@));
    assert(vstd::utf8::is_ascii_chars("/writer"@));
    assert(vstd::utf8::is_ascii_chars("/magic"@));
    assert(vstd::utf8::is_ascii_chars("X-IPC-Magic"@));
    assert(vstd::utf8::is_ascii_chars("Content-Type"@));
    assert(vstd::utf8::is_ascii_chars("Content-Length"@));
    assert(vstd::utf8::is_ascii_chars("application/json"@));
    assert(vstd::utf8::is_ascii_chars(IPC_AUTH_EXPECT@));
    vstd::string::is_ascii_spec_bytes("/version");
    vstd::string::is_ascii_spec_bytes("/clash/logs");
    vstd::string::is_ascii_spec_bytes("/clash/start");
    vstd::string::is_ascii_spec_bytes("/clash/stop");
    vstd::string::is_ascii_spec_bytes("/writer");
    vstd::string::is_ascii_spec_bytes("/magic");
    vstd::string::is_ascii_spec_bytes("X-IPC-Magic");
    vstd::string::is_ascii_spec_bytes("Content-Type");
    vstd::string::is_ascii_spec_bytes("Content-Length");
    vstd::string::is_ascii_spec_bytes("application/json");
    vstd::string::is_ascii_spec_bytes(IPC_AUTH_EXPECT);
    match cmd {
        IpcCommand::GetVersion => {
            assert(crate::http::spec_path_wf(path));
        },
        IpcCommand::GetClashLogs => {
            assert(crate::http::spec_path_wf(path));
        },
        IpcCommand::StartClash => {
            assert(crate::http::spec_path_wf(path));
        },
        IpcCommand::StopClash => {
            assert(crate::http::spec_path_wf(path));
        },
        IpcCommand::UpdateWriter => {
            assert(crate::http::spec_path_wf(path));
        },
        IpcCommand::Magic => {
            assert(crate::http::spec_path_wf(path));
        },
    }
    crate::text::lemma_dec_digits_are_digits(body.len() as int);
    let hs = spec_client_headers(body);
    assert(crate::http::spec_header_wf(("X-IPC-Magic".spec_bytes(), IPC_AUTH_EXPECT.spec_bytes())));
    assert(crate::http::spec_header_wf(
        ("Content-Type".spec_bytes(), "application/json".spec_bytes()),
    ));
    assert(crate::http::spec_header_wf(
        ("Content-Length".spec_bytes(), spec_dec_digits(body.len() as int)),
    ));
    assert(crate::http::spec_headers_wf(hs));
    crate::http::lemma_parse_inverts_encode(cmd.spec_method(), path, hs, body);
    assert(crate::http::spec_header_lookup(hs, "X-IPC-Magic".spec_bytes()) == Some(
        IPC_AUTH_EXPECT.spec_bytes(),
    ));
}

} // verus!
