//! Request middleware of the HTTP interface: its state, not its plumbing.
use vstd::prelude::*;

verus! {

/// Logs how long each request took.
pub struct LogTime;

impl LogTime {
    pub fn new() -> (r: LogTime) {
        LogTime {}
    }
}

/// The wrapped service of `LogTime`.
pub struct LogTimeMiddleware<S> {
    pub service: S,
}

impl<S> LogTimeMiddleware<S> {
    pub fn new(service: S) -> (r: LogTimeMiddleware<S>)
        ensures
            r.service == service,
    {
        LogTimeMiddleware { service }
    }
}

} // verus!
