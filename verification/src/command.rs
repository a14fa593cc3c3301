//! The closed set of request verbs and the route table that maps a parsed
//! `(method, path)` pair to one of them.

use crate::text::str_eq;
use vstd::prelude::*;

verus! {

/// The request methods the service understands.
#[derive(Debug, Clone, Copy, PartialEq, Eq, Structural)]
pub enum Method {
    Get,
    Post,
    Put,
    Delete,
}

/// The verbs of the service, each a fixed method and path.
#[derive(Debug, Clone, Copy, PartialEq, Eq, Structural)]
pub enum IpcCommand {
    GetVersion,
    GetClashLogs,
    StartClash,
    StopClash,
    UpdateWriter,
    Magic,
}

impl IpcCommand {
    pub open spec fn spec_path(self) -> Seq<char> {
        match self {
            IpcCommand::GetVersion => "/version"@,
            IpcCommand::GetClashLogs => "/clash/logs"@,
            IpcCommand::StartClash => "/clash/start"@,
            IpcCommand::StopClash => "/clash/stop"@,
            IpcCommand::UpdateWriter => "/writer"@,
            IpcCommand::Magic => "/magic"@,
        }
    }

    pub open spec fn spec_method(self) -> Method {
        match self {
            IpcCommand::GetVersion => Method::Get,
            IpcCommand::GetClashLogs => Method::Get,
            IpcCommand::StartClash => Method::Post,
            IpcCommand::StopClash => Method::Delete,
            IpcCommand::UpdateWriter => Method::Put,
            IpcCommand::Magic => Method::Get,
        }
    }

    /// The request path of this verb.
    pub fn as_ref(&self) -> (s: &'static str)
        ensures
            s@ == self.spec_path(),
    {
        match self {
            IpcCommand::GetVersion => "/version",
            IpcCommand::GetClashLogs => "/clash/logs",
            IpcCommand::StartClash => "/clash/start",
            IpcCommand::StopClash => "/clash/stop",
            IpcCommand::UpdateWriter => "/writer",
            IpcCommand::Magic => "/magic",
        }
    }

    /// The request method of this verb.
    pub fn method(&self) -> (m: Method)
        ensures
            m == self.spec_method(),
    {
        match self {
            IpcCommand::GetVersion => Method::Get,
            IpcCommand::GetClashLogs => Method::Get,
            IpcCommand::StartClash => Method::Post,
            IpcCommand::StopClash => Method::Delete,
            IpcCommand::UpdateWriter => Method::Put,
            IpcCommand::Magic => Method::Get,
        }
    }
}

/// The route table: which verb a `(method, path)` pair names, if any.
pub open spec fn spec_route(method: Method, path: Seq<char>) -> Option<IpcCommand> {
    if method == Method::Get && path == "/magic"@ {
        Some(IpcCommand::Magic)
    } else if method == Method::Get && path == "/version"@ {
        Some(IpcCommand::GetVersion)
    } else if method == Method::Get && path == "/clash/logs"@ {
        Some(IpcCommand::GetClashLogs)
    } else if method == Method::Post && path == "/clash/start"@ {
        Some(IpcCommand::StartClash)
    } else if method == Method::Delete && path == "/clash/stop"@ {
        Some(IpcCommand::StopClash)
    } else if method == Method::Put && path == "/writer"@ {
        Some(IpcCommand::UpdateWriter)
    } else {
        None
    }
}

/// Dispatch a `(method, path)` pair. `None` is an unknown route.
pub fn route(method: Method, path: &str) -> (r: Option<IpcCommand>)
    ensures
        r == spec_route(method, path@),
{
    match method {
        Method::Get => {
            if str_eq(path, "/magic") {
                Some(IpcCommand::Magic)
            } else if str_eq(path, "/version") {
                Some(IpcCommand::GetVersion)
            } else if str_eq(path, "/clash/logs") {
                Some(IpcCommand::GetClashLogs)
            } else {
                None
            }
        },
        Method::Post => {
            if str_eq(path, "/clash/start") {
                Some(IpcCommand::StartClash)
            } else {
                None
            }
        },
        Method::Delete => {
            if str_eq(path, "/clash/stop") {
                Some(IpcCommand::StopClash)
            } else {
                None
            }
        },
        Method::Put => {
            if str_eq(path, "/writer") {
                Some(IpcCommand::UpdateWriter)
            } else {
                None
            }
        },
    }
}

/// The route table inverts each verb's own method and path: what a client
/// sends for a verb is dispatched back to exactly that verb.
pub proof fn lemma_route_own_path(cmd: IpcCommand)
    ensures
        spec_route(cmd.spec_method(), cmd.spec_path()) == Some(cmd),
{
    reveal_strlit("/version");
    reveal_strlit("/clash/logs");
    reveal_strlit("/clash/start");
    reveal_strlit("/clash/stop");
    reveal_strlit("/writer");
    reveal_strlit("/magic");
    assert("/version"@.len() == 8);
    assert("/clash/logs"@.len() == 11);
    assert("/clash/start"@.len() == 12);
    assert("/clash/stop"@.len() == 11);
    assert("/writer"@.len() == 7);
    assert("/magic"@.len() == 6);
}

} // verus!
