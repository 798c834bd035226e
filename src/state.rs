//! The two values that startup publishes to the user interface: the port the
//! backend listens on and the path of its log file.
use vstd::prelude::*;
use vstd::string::StringExecFns;

verus! {

/// The port handed to the backend; `0` until startup has chosen one.
pub struct BackendPort(pub u16);

/// The backend's log file path; `None` until startup has resolved it.
pub struct BackendLog(pub Option<String>);

/// What the log accessor reports for a log path: the path, or `"unknown"`.
pub open spec fn log_text(log: Option<Seq<char>>) -> Seq<char> {
    match log {
        Some(p) => p,
        None => "unknown"@,
    }
}

impl BackendPort {
    /// The state before startup.
    pub fn new() -> (r: BackendPort)
        ensures
            r.0 == 0,
    {
        BackendPort(0)
    }

    /// Publishes the chosen port.
    pub fn record(&mut self, port: u16)
        ensures
            final(self).0 == port,
    {
        self.0 = port;
    }
}

impl BackendLog {
    /// The state before startup.
    pub fn new() -> (r: BackendLog)
        ensures
            r.0 is None,
    {
        BackendLog(None)
    }

    /// Publishes the resolved log path.
    pub fn record(&mut self, path: String)
        ensures
            final(self).0 == Some(path),
    {
        self.0 = Some(path);
    }

    /// The published log path, if any, as a sequence of characters.
    pub open spec fn path(&self) -> Option<Seq<char>> {
        match self.0 {
            Some(s) => Some(s@),
            None => None,
        }
    }
}

/// The port the backend was started with, or `0` before startup.
pub fn get_backend_port(state: &BackendPort) -> (r: u16)
    ensures
        r == state.0,
{
    state.0
}

/// The backend's log path, or `"unknown"` before startup.
pub fn get_backend_log(state: &BackendLog) -> (r: String)
    ensures
        r@ == log_text(state.path()),
{
    match &state.0 {
        Some(p) => p.clone(),
        None => String::from_str("unknown"),
    }
}

} // verus!
