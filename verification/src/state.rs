//! The listener lifecycle: bind, serve, orderly shutdown. At most one live
//! listener exists per process, and whenever the listener is down the on-disk
//! endpoint does not exist.

use vstd::prelude::*;

verus! {

/// Exit code of an orderly shutdown.
pub const EXIT_OK: u8 = 0;

/// Exit code when the listener could not be bound.
pub const EXIT_BIND_FAILURE: u8 = 1;

/// Exit code on a malformed environment.
pub const EXIT_BAD_ENV: u8 = 2;

/// The listener's abstract state: whether the serve loop is up, and whether
/// the endpoint path exists on disk.
pub struct IpcState {
    pub serving: bool,
    pub endpoint_exists: bool,
}

/// What an orderly shutdown leaves behind: no listener, no endpoint file.
pub open spec fn spec_shutdown(s: IpcState) -> IpcState {
    IpcState { serving: false, endpoint_exists: false }
}

/// What a bind attempt leaves: a serving listener with the endpoint on disk,
/// or nothing.
pub open spec fn spec_commit_bind(s: IpcState, bind_ok: bool) -> IpcState {
    if bind_ok {
        IpcState { serving: true, endpoint_exists: true }
    } else {
        s
    }
}

impl IpcState {
    /// The state at process start; a stale endpoint file may be left over
    /// from an unorderly exit.
    pub fn new(stale_endpoint: bool) -> (r: IpcState)
        ensures
            !r.serving,
            r.endpoint_exists == stale_endpoint,
    {
        IpcState { serving: false, endpoint_exists: stale_endpoint }
    }

    /// Before the bind: any stale endpoint file is removed. The result says
    /// whether the shell has a file to unlink.
    pub fn begin_run_ipc_server(&mut self) -> (cleanup: bool)
        requires
            !old(self).serving,
        ensures
            !final(self).serving,
            !final(self).endpoint_exists,
            cleanup == old(self).endpoint_exists,
    {
        let cleanup = self.endpoint_exists;
        self.endpoint_exists = false;
        cleanup
    }

    /// Commit the shell's bind attempt. A bound listener is serving and owns
    /// the endpoint; a failed bind leaves nothing and the daemon exits with
    /// [`EXIT_BIND_FAILURE`].
    pub fn finish_run_ipc_server(&mut self, bind_ok: bool) -> (r: Result<(), u8>)
        requires
            !old(self).serving,
            !old(self).endpoint_exists,
        ensures
            *final(self) == spec_commit_bind(*old(self), bind_ok),
            r is Ok <==> bind_ok,
            r matches Err(code) ==> code == EXIT_BIND_FAILURE,
    {
        if bind_ok {
            self.serving = true;
            self.endpoint_exists = true;
            Ok(())
        } else {
            Err(EXIT_BIND_FAILURE)
        }
    }

    /// Orderly shutdown: stop accepting, close the listener, unlink the
    /// endpoint. The result says whether the shell has a file to unlink.
    /// Stopping an already-stopped listener succeeds the same way.
    pub fn stop_ipc_server(&mut self) -> (cleanup: bool)
        ensures
            *final(self) == spec_shutdown(*old(self)),
            cleanup == old(self).endpoint_exists,
    {
        self.serving = false;
        let cleanup = self.endpoint_exists;
        self.endpoint_exists = false;
        cleanup
    }
}

/// After an orderly shutdown the endpoint path does not exist, and a
/// subsequent bind on the same path is allowed and succeeds when the shell's
/// bind does.
pub proof fn lemma_shutdown_cleans_endpoint(s: IpcState)
    ensures
        !spec_shutdown(s).endpoint_exists,
        !spec_shutdown(s).serving,
        spec_commit_bind(spec_shutdown(s), true).serving,
        spec_commit_bind(spec_shutdown(s), true).endpoint_exists,
{
}

/// Shutdown is idempotent: a second shutdown changes nothing.
pub proof fn lemma_shutdown_idempotent(s: IpcState)
    ensures
        spec_shutdown(spec_shutdown(s)) == spec_shutdown(s),
{
}

} // verus!
