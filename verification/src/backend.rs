//! The storage backend's front: what a write of entries is answered with.

use vstd::prelude::*;
use vstd::string::*;

verus! {

/// The record of one backend operation.
#[derive(Clone, Copy, Debug, PartialEq, Eq)]
pub struct BackendAuditEvent {
    time_start: (),
    time_end: (),
}

impl BackendAuditEvent {
    /// The record of an operation whose times are not taken.
    pub closed spec fn blank() -> Self {
        BackendAuditEvent { time_start: (), time_end: () }
    }

    pub fn new() -> (event: Self)
        ensures
            event == Self::blank(),
    {
        BackendAuditEvent { time_start: (), time_end: () }
    }
}

/// The kinds of store.
#[derive(Clone, Copy, Debug, PartialEq, Eq, Structural)]
pub enum BackendType {
    Memory,
    SQLite,
}

/// Why the backend refused an operation.
#[derive(Clone, Copy, Debug, PartialEq, Eq, Structural)]
pub enum BackendError {
    EmptyRequest,
}

/// The backend of one store, known by the path of its database.
#[derive(Clone, Debug)]
pub struct Backend {
    path: String,
}

impl Backend {
    /// The path of the database.
    pub closed spec fn location(&self) -> Seq<char> {
        self.path@
    }

    /// A backend for the database at `path`.
    pub fn new(path: &str) -> (backend: Self)
        ensures
            backend.location() == path@,
    {
        Backend { path: String::from_str(path) }
    }

    /// Takes a batch of serialised entries for writing. An empty batch is
    /// refused; any other is accepted and answered with its audit record.
    /// The backend itself is left as it was.
    pub fn create(&mut self, entries: Vec<String>) -> (result: Result<
        BackendAuditEvent,
        BackendError,
    >)
        ensures
            final(self).location() == old(self).location(),
            entries@.len() == 0 ==> result == Err::<BackendAuditEvent, BackendError>(
                BackendError::EmptyRequest,
            ),
            entries@.len() > 0 ==> result == Ok::<BackendAuditEvent, BackendError>(
                BackendAuditEvent::blank(),
            ),
    {
        let be_audit = BackendAuditEvent::new();
        if entries.len() == 0 {
            return Err(BackendError::EmptyRequest);
        }
        Ok(be_audit)
    }

    pub fn search() {
    }

    pub fn modify() {
    }

    pub fn delete() {
    }
}

} // verus!
