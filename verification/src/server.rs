//! The request handlers behind the route table, with the auth gate in front
//! of every one of them.
//!
//! Each handler takes plain values — the parsed `X-IPC-Magic` header and, for
//! the two verbs with bodies, the decoded body — and returns the response
//! plan the shell serializes. An unauthorized request is answered 401 and
//! changes nothing. The two verbs that need outside work (a spawn, a writer
//! build) answer in two steps: the first step updates the state and says what
//! the shell must do, the second step commits the reported outcome.

use crate::auth::ipc_request_context_to_auth_context;
use crate::http::{encode_response, spec_encode_response};
use crate::json::{
    json_response_logs, json_response_null, json_response_string, spec_json_response_null,
    spec_json_response_string, spec_json_response_string_list, spec_strings_bytes,
};
use crate::manager::{model, spec_commit_start, spec_stop, CoreManager, StartOutcome};
use crate::structure::{ClashConfig, WriterConfig};
use crate::{IPC_AUTH_EXPECT, VERSION};
use vstd::prelude::*;
use vstd::string::{StrSliceExecFns, StringExecFns, StringSliceAdditionalSpecFns};

verus! {

/// What a request lets through the auth gate: the header must be present and
/// equal to the shared secret byte for byte.
pub open spec fn spec_magic_authorized(magic: Option<&Vec<u8>>) -> bool {
    match magic {
        Some(v) => v@ == IPC_AUTH_EXPECT.spec_bytes(),
        None => false,
    }
}

/// A response, ready to serialize: the status, the content type, the body.
pub struct HttpResponsePlan {
    pub status: u16,
    pub content_type: &'static str,
    pub body: Vec<u8>,
}

impl HttpResponsePlan {
    /// The response frame on the wire.
    pub fn encode(&self) -> (r: Vec<u8>)
        ensures
            r@ == spec_encode_response(self.status, self.content_type.spec_bytes(), self.body@),
    {
        encode_response(self.status, self.content_type, self.body.as_slice())
    }
}

/// The refusal every handler gives an unauthorized request.
fn unauthorized_plan() -> (r: HttpResponsePlan)
    ensures
        r.status == 401,
        r.body@ == Seq::<u8>::empty(),
        r.content_type@ == "text/plain"@,
{
    HttpResponsePlan { status: 401, content_type: "text/plain", body: Vec::new() }
}

/// The answer to a route the table does not know.
pub fn not_found_plan() -> (r: HttpResponsePlan)
    ensures
        r.status == 404,
        r.body@ == Seq::<u8>::empty(),
        r.content_type@ == "text/plain"@,
{
    HttpResponsePlan { status: 404, content_type: "text/plain", body: Vec::new() }
}

/// The liveness probe: authorized requests get the fixed literal.
pub fn handle_magic(magic: Option<&Vec<u8>>) -> (r: HttpResponsePlan)
    ensures
        spec_magic_authorized(magic) ==> r.status == 200 && r.body@ == "Tunglies!".spec_bytes()
            && r.content_type@ == "text/plain"@,
        !spec_magic_authorized(magic) ==> r.status == 401 && r.body@ == Seq::<u8>::empty(),
{
    match ipc_request_context_to_auth_context(magic) {
        Ok(_) => HttpResponsePlan {
            status: 200,
            content_type: "text/plain",
            body: "Tunglies!".as_bytes_vec(),
        },
        Err(_) => unauthorized_plan(),
    }
}

/// The build version, as `Response<string>` with code 0.
pub fn handle_get_version(magic: Option<&Vec<u8>>) -> (r: HttpResponsePlan)
    ensures
        spec_magic_authorized(magic) ==> r.status == 200 && r.body@ == spec_json_response_string(
            0,
            "Success".spec_bytes(),
            VERSION.spec_bytes(),
        ) && r.content_type@ == "application/json"@,
        !spec_magic_authorized(magic) ==> r.status == 401 && r.body@ == Seq::<u8>::empty(),
{
    match ipc_request_context_to_auth_context(magic) {
        Ok(_) => HttpResponsePlan {
            status: 200,
            content_type: "application/json",
            body: json_response_string(0, "Success", VERSION),
        },
        Err(_) => unauthorized_plan(),
    }
}

/// A point-in-time snapshot of the log ring, as `Response<sequence<string>>`.
/// The supervisor is read, never changed.
pub fn handle_get_clash_logs(m: &CoreManager, magic: Option<&Vec<u8>>) -> (r: HttpResponsePlan)
    ensures
        spec_magic_authorized(magic) ==> r.status == 200 && r.body@
            == spec_json_response_string_list(
            0,
            "Success".spec_bytes(),
            spec_strings_bytes(m.logger@),
        ) && r.content_type@ == "application/json"@,
        !spec_magic_authorized(magic) ==> r.status == 401 && r.body@ == Seq::<u8>::empty(),
{
    match ipc_request_context_to_auth_context(magic) {
        Ok(_) => {
            let logs = m.logger.get_logs();
            proof {
                assert(logs@.map_values(|s: String| s@) =~= m.logger@);
            }
            HttpResponsePlan {
                status: 200,
                content_type: "application/json",
                body: json_response_logs(0, "Success", &logs),
            }
        },
        Err(_) => unauthorized_plan(),
    }
}

/// Stop the child. The returned process id, if any, is the child the shell
/// must kill and reap. Stop is idempotent and always succeeds; an
/// unauthorized request changes nothing.
pub fn handle_stop_clash(m: &mut CoreManager, magic: Option<&Vec<u8>>) -> (r: (
    Option<u64>,
    HttpResponsePlan,
))
    ensures
        spec_magic_authorized(magic) ==> model(*final(m)) =~= spec_stop(model(*old(m))) && r.0
            == old(m).running_child && final(m).wf() && r.1.status == 200 && r.1.body@
            == spec_json_response_null(0, "Core stopped successfully".spec_bytes()) && r.1.content_type@
            == "application/json"@,
        !spec_magic_authorized(magic) ==> *final(m) == *old(m) && r.0 is None && r.1.status == 401
            && r.1.body@ == Seq::<u8>::empty(),
{
    match ipc_request_context_to_auth_context(magic) {
        Ok(_) => {
            let killed = m.stop_core();
            let plan = HttpResponsePlan {
                status: 200,
                content_type: "application/json",
                body: json_response_null(0, "Core stopped successfully"),
            };
            (killed, plan)
        },
        Err(_) => (None, unauthorized_plan()),
    }
}

/// The first step of a start: what the shell must do before anything is
/// spawned.
pub enum StartDecision {
    /// The request was refused; answer with this response and do nothing.
    Reject(HttpResponsePlan),
    /// Kill and reap `kill` if present, build the writer from
    /// `config.log_config`, spawn `config.core_config`, and report the
    /// outcome to [`finish_start_clash`].
    Proceed { kill: Option<u64>, config: ClashConfig },
}

/// Begin a start: gate the request, reject a malformed body, and otherwise
/// perform the internal stop — the previous child is delivered for killing
/// before the new one is spawned.
pub fn handle_start_clash(m: &mut CoreManager, magic: Option<&Vec<u8>>, body: Result<
    ClashConfig,
    String,
>) -> (r: StartDecision)
    ensures
        !spec_magic_authorized(magic) ==> *final(m) == *old(m) && (r matches StartDecision::Reject(
            p,
        ) && p.status == 401 && p.body@ == Seq::<u8>::empty()),
        spec_magic_authorized(magic) ==> (body matches Err(e) ==> *final(m) == *old(m) && (
        r matches StartDecision::Reject(p) && p.status == 400 && p.body@ == vstd::utf8::encode_utf8(
            "Invalid JSON: "@ + e@,
        ))),
        spec_magic_authorized(magic) ==> (body matches Ok(c) ==> model(*final(m)) =~= spec_stop(
            model(*old(m)),
        ) && final(m).wf() && (r matches StartDecision::Proceed { kill, config } && kill == old(
            m,
        ).running_child && config == c)),
{
    match ipc_request_context_to_auth_context(magic) {
        Ok(_) => {
            match body {
                Ok(config) => {
                    let kill = m.stop_core();
                    StartDecision::Proceed { kill, config }
                },
                Err(e) => {
                    let msg = "Invalid JSON: ".to_owned().concat(e.as_str());
                    StartDecision::Reject(
                        HttpResponsePlan {
                            status: 400,
                            content_type: "text/plain",
                            body: msg.as_str().as_bytes_vec(),
                        },
                    )
                },
            }
        },
        Err(_) => StartDecision::Reject(unauthorized_plan()),
    }
}

/// Commit a start with what the shell's attempt reported: success installs
/// the new child and answers 200; any failure leaves the supervisor idle and
/// answers 503 with code 1.
pub fn finish_start_clash(m: &mut CoreManager, config: &ClashConfig, outcome: StartOutcome) -> (r:
    HttpResponsePlan)
    requires
        old(m).running_child is None,
    ensures
        model(*final(m)) =~= spec_commit_start(model(*old(m)), *config, outcome),
        final(m).wf() == old(m).wf(),
        r.content_type@ == "application/json"@,
        outcome is Spawned ==> r.status == 200 && r.body@ == spec_json_response_null(
            0,
            "Core started successfully".spec_bytes(),
        ),
        (match outcome {
            StartOutcome::WriterFailed(e) => r.status == 503 && r.body@ == spec_json_response_null(
                1,
                vstd::utf8::encode_utf8("Failed to start core: "@ + e@),
            ),
            StartOutcome::SpawnFailed(e) => r.status == 503 && r.body@ == spec_json_response_null(
                1,
                vstd::utf8::encode_utf8("Failed to start core: "@ + e@),
            ),
            StartOutcome::Spawned(_) => true,
        }),
{
    match m.start_core(config, outcome) {
        Ok(()) => HttpResponsePlan {
            status: 200,
            content_type: "application/json",
            body: json_response_null(0, "Core started successfully"),
        },
        Err(e) => {
            let msg = "Failed to start core: ".to_owned().concat(e.as_str());
            HttpResponsePlan {
                status: 503,
                content_type: "application/json",
                body: json_response_null(1, msg.as_str()),
            }
        },
    }
}

/// The first step of a writer update.
pub enum UpdateDecision {
    /// The request was refused; answer with this response and do nothing.
    Reject(HttpResponsePlan),
    /// Build a writer from `config` and report the outcome to
    /// [`finish_update_writer`].
    Proceed { config: WriterConfig },
}

/// Begin a writer update: gate the request and reject a malformed body.
/// Nothing changes until the shell reports its build outcome.
pub fn handle_update_writer(m: &mut CoreManager, magic: Option<&Vec<u8>>, body: Result<
    WriterConfig,
    String,
>) -> (r: UpdateDecision)
    ensures
        *final(m) == *old(m),
        !spec_magic_authorized(magic) ==> (r matches UpdateDecision::Reject(p) && p.status == 401
            && p.body@ == Seq::<u8>::empty()),
        spec_magic_authorized(magic) ==> (body matches Err(e) ==> (r
            matches UpdateDecision::Reject(p) && p.status == 400 && p.body@
            == vstd::utf8::encode_utf8("Invalid JSON: "@ + e@))),
        spec_magic_authorized(magic) ==> (body matches Ok(c) ==> (r
            matches UpdateDecision::Proceed { config } && config == c)),
{
    match ipc_request_context_to_auth_context(magic) {
        Ok(_) => {
            match body {
                Ok(config) => UpdateDecision::Proceed { config },
                Err(e) => {
                    let msg = "Invalid JSON: ".to_owned().concat(e.as_str());
                    UpdateDecision::Reject(
                        HttpResponsePlan {
                            status: 400,
                            content_type: "text/plain",
                            body: msg.as_str().as_bytes_vec(),
                        },
                    )
                },
            }
        },
        Err(_) => UpdateDecision::Reject(unauthorized_plan()),
    }
}

/// Commit a writer update with what the shell's build attempt reported: a
/// built writer replaces the current one at once; a failed build leaves the
/// slot untouched and answers 503 with code 1.
pub fn finish_update_writer(m: &mut CoreManager, config: &WriterConfig, built: Result<
    (),
    String,
>) -> (r: HttpResponsePlan)
    ensures
        final(m).writer.current == crate::logger::spec_writer_update(
            old(m).writer.current,
            *config,
            built is Ok,
        ),
        final(m).running_child == old(m).running_child,
        final(m).logger == old(m).logger,
        r.content_type@ == "application/json"@,
        built is Ok ==> r.status == 200 && r.body@ == spec_json_response_null(
            0,
            "Writer updated successfully".spec_bytes(),
        ),
        built matches Err(e) ==> r.status == 503 && r.body@ == spec_json_response_null(
            1,
            vstd::utf8::encode_utf8("Failed to update writer: "@ + e@),
        ),
{
    match m.update_writer(config, built) {
        Ok(()) => HttpResponsePlan {
            status: 200,
            content_type: "application/json",
            body: json_response_null(0, "Writer updated successfully"),
        },
        Err(e) => {
            let msg = "Failed to update writer: ".to_owned().concat(e.as_str());
            HttpResponsePlan {
                status: 503,
                content_type: "application/json",
                body: json_response_null(1, msg.as_str()),
            }
        },
    }
}

} // verus!
