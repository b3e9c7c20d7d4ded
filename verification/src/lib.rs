//! Interactive file ingestion for a desktop application shell.
//!
//! One operation is offered: open the host's native "choose file" dialog,
//! resolve the selection to a filesystem path, read the whole file into
//! memory, and hand the bytes back to the interface layer as an opaque
//! binary response. Every fallible step — the user dismissing the dialog,
//! a handle that resolves to no usable path, a failing read — settles into
//! a typed, recoverable outcome; nothing aborts the process.
//!
//! The library holds the decision logic as a small per-invocation state
//! machine ([`ingest`]): the host shell performs the requested actions
//! (show the dialog, read the file) and reports each result back as an
//! event. No state survives an invocation.

pub mod ingest;
pub mod response;
