//! The auth gate: every request carries the `X-IPC-Magic` header, whose value
//! must equal the compile-time shared secret byte for byte. Filesystem
//! permissions on the endpoint are the primary access control; this header is
//! a defense-in-depth identity check, not a cryptographic scheme.

use crate::text::bytes_eq;
use crate::IPC_AUTH_EXPECT;
use vstd::prelude::*;
use vstd::string::StringSliceAdditionalSpecFns;

verus! {

#[derive(Debug, PartialEq, Eq, Structural)]
pub enum AuthStatus {
    Authorized,
}

/// A request is authorized exactly when its `X-IPC-Magic` header is present
/// and its value equals the shared secret byte for byte.
pub open spec fn spec_authorized(magic_header: Option<Seq<u8>>) -> bool {
    magic_header == Some(IPC_AUTH_EXPECT.spec_bytes())
}

/// Check the parsed `X-IPC-Magic` header value against the shared secret.
/// A missing or mismatched value is refused with status 401, before any
/// handler runs.
pub fn ipc_request_context_to_auth_context(magic_header: Option<&Vec<u8>>) -> (r: Result<
    AuthStatus,
    u16,
>)
    ensures
        r is Ok <==> spec_authorized(
            match magic_header {
                Some(v) => Some(v@),
                None => None,
            },
        ),
        r is Ok ==> r == Ok::<AuthStatus, u16>(AuthStatus::Authorized),
        r is Err ==> r == Err::<AuthStatus, u16>(401u16),
{
    match magic_header {
        Some(token) => {
            if bytes_eq(token.as_slice(), IPC_AUTH_EXPECT.as_bytes()) {
                Ok(AuthStatus::Authorized)
            } else {
                Err(401)
            }
        },
        None => Err(401),
    }
}

} // verus!
