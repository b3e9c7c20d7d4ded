//! The per-invocation ingestion state machine.
//!
//! One invocation is strictly linear: show the dialog, and if it yields a
//! usable path, read that file; then settle into a terminal state — the
//! file's bytes as a [`BinaryResponse`], or a typed [`IngestError`]. The
//! host shell drives the machine: it performs each requested
//! [`IngestAction`] (blocking dialog, filesystem read) and hands the result
//! back as an [`IngestEvent`]. Each invocation begins fresh with [`start`];
//! no value is carried from one invocation to the next.

use vstd::prelude::*;

use crate::response::BinaryResponse;

verus! {

/// What the native file-selection dialog produced, as the host shell hands
/// it over once the dialog closes.
pub enum SelectionOutcome {
    /// The user picked a file and its handle resolved to this path.
    Selected { path: String },
    /// The dialog yielded a handle, but it could not be converted to a
    /// usable filesystem path.
    PathUnresolvable,
    /// The user dismissed the dialog without choosing a file.
    Dismissed,
}

/// Why an ingestion settled without a payload. Every fault is an ordinary
/// value for the interface layer to display; none aborts the process.
#[derive(Debug, PartialEq, Eq)]
pub enum IngestError {
    /// The dialog was dismissed with no file chosen.
    NoSelection,
    /// The dialog's handle could not be resolved to a usable path.
    PathResolution,
    /// Reading the selected file failed. `path` identifies the file that
    /// could not be read; `reason` carries the host's description of the
    /// fault (missing file, permissions, I/O error).
    ReadFailure { path: String, reason: String },
}

/// The state of one invocation. `AwaitingSelection` and `Reading` are live;
/// `Done` and `Failed` are terminal and carry the settled result.
pub enum IngestState {
    /// The dialog is up (or about to be shown); no selection yet.
    AwaitingSelection,
    /// A path was selected; its contents are being read.
    Reading { path: String },
    /// The file was read whole; the payload is ready for the caller.
    Done { response: BinaryResponse },
    /// The operation settled on a fault.
    Failed { error: IngestError },
}

/// What the host shell reports back after carrying out an action.
pub enum IngestEvent {
    /// The dialog closed, with its outcome.
    DialogClosed { outcome: SelectionOutcome },
    /// The filesystem read finished: the file's bytes, or the reason the
    /// read failed.
    ReadFinished { result: Result<Vec<u8>, String> },
}

/// What the driver must do next on the host's behalf.
pub enum IngestAction {
    /// Display the native file-selection dialog, blocking until it closes,
    /// then report `DialogClosed`.
    ShowDialog,
    /// Read the whole file at `path` into memory, then report
    /// `ReadFinished`.
    ReadFile { path: String },
    /// Nothing remains: the state is terminal.
    Finish,
}

/// A state with no outgoing transition: the invocation's result is settled.
pub open spec fn is_terminal(s: IngestState) -> bool {
    s is Done || s is Failed
}

/// The event a driver may hand to [`step`] in state `s`: the report of the
/// one action that was requested there.
pub open spec fn event_fits(s: IngestState, e: IngestEvent) -> bool {
    match s {
        IngestState::AwaitingSelection => e is DialogClosed,
        IngestState::Reading { .. } => e is ReadFinished,
        IngestState::Done { .. } => false,
        IngestState::Failed { .. } => false,
    }
}

/// The settled result of one invocation, abstracted to mathematical
/// values: the payload's bytes, or the fault.
pub ghost enum IngestModel {
    /// The selected file was read whole; these are its bytes.
    Done { bytes: Seq<u8> },
    /// The dialog was dismissed with no file chosen.
    NoSelection,
    /// The dialog's handle resolved to no usable path.
    PathResolution,
    /// The read of the file at `path` failed for `reason`.
    ReadFailure { path: Seq<char>, reason: Seq<char> },
}

/// The fault an error value denotes.
pub open spec fn error_model(e: IngestError) -> IngestModel {
    match e {
        IngestError::NoSelection => IngestModel::NoSelection,
        IngestError::PathResolution => IngestModel::PathResolution,
        IngestError::ReadFailure { path, reason } => IngestModel::ReadFailure {
            path: path@,
            reason: reason@,
        },
    }
}

/// The result a terminal state denotes; `None` for the two live states.
pub open spec fn state_model(s: IngestState) -> Option<IngestModel> {
    match s {
        IngestState::AwaitingSelection => None,
        IngestState::Reading { .. } => None,
        IngestState::Done { response } => Some(IngestModel::Done { bytes: response@ }),
        IngestState::Failed { error } => Some(error_model(error)),
    }
}

/// What a whole invocation settles to, as a function of its own two events
/// alone: the dialog's outcome and — relevant only when a path was
/// selected — the result of the read.
pub open spec fn ingest_model(
    outcome: SelectionOutcome,
    read: Result<Vec<u8>, String>,
) -> IngestModel {
    match outcome {
        SelectionOutcome::Selected { path } => match read {
            Ok(bytes) => IngestModel::Done { bytes: bytes@ },
            Err(reason) => IngestModel::ReadFailure { path: path@, reason: reason@ },
        },
        SelectionOutcome::PathUnresolvable => IngestModel::PathResolution,
        SelectionOutcome::Dismissed => IngestModel::NoSelection,
    }
}

/// Begins a fresh invocation. `start` takes nothing and consults nothing:
/// every invocation opens in `AwaitingSelection` with the dialog still to
/// be shown, whatever any earlier invocation did.
pub fn start() -> (r: (IngestState, IngestAction))
    ensures
        r.0 is AwaitingSelection,
        r.1 is ShowDialog,
{
    (IngestState::AwaitingSelection, IngestAction::ShowDialog)
}

/// Advances one invocation by one event and says what to do next.
///
/// The contract settles every case. A usable path moves the machine to
/// `Reading` and asks for that file's contents; a dismissal or an
/// unresolvable handle settles on the matching typed fault; a finished
/// read settles on the file's bytes, or on a `ReadFailure` that identifies
/// the path. A terminal state always comes with `Finish`, and what it
/// denotes is exactly what [`ingest_model`] assigns to the invocation's
/// own events.
pub fn step(state: IngestState, event: IngestEvent) -> (r: (IngestState, IngestAction))
    requires
        event_fits(state, event),
    ensures
        is_terminal(r.0) <==> r.1 is Finish,
        event matches IngestEvent::DialogClosed {
            outcome: SelectionOutcome::Selected { path },
        } ==> r.0 matches IngestState::Reading { path: p } && p == path && (r.1 matches
        IngestAction::ReadFile { path: q } && q == path),
        event matches IngestEvent::DialogClosed { outcome: SelectionOutcome::Dismissed } ==> (
        r.0 matches IngestState::Failed { error: IngestError::NoSelection }) && state_model(r.0)
            == Some(IngestModel::NoSelection),
        event matches IngestEvent::DialogClosed { outcome: SelectionOutcome::PathUnresolvable }
            ==> (r.0 matches IngestState::Failed { error: IngestError::PathResolution })
            && state_model(r.0) == Some(IngestModel::PathResolution),
        event matches IngestEvent::ReadFinished { result } ==> state matches IngestState::Reading {
            path,
        } && state_model(r.0) == Some(ingest_model(SelectionOutcome::Selected { path }, result)),
        event matches IngestEvent::ReadFinished { result: Ok(bytes) } ==> r.0 matches
        IngestState::Done { response } && response@ == bytes@,
        event matches IngestEvent::ReadFinished { result: Err(reason) } ==> state matches
        IngestState::Reading { path } && (r.0 matches IngestState::Failed {
            error: IngestError::ReadFailure { path: p, reason: m },
        } && p == path && m == reason),
{
    match (state, event) {
        (IngestState::AwaitingSelection, IngestEvent::DialogClosed { outcome }) => match outcome {
            SelectionOutcome::Selected { path } => {
                let read_path = path.clone();
                (IngestState::Reading { path }, IngestAction::ReadFile { path: read_path })
            },
            SelectionOutcome::PathUnresolvable => (
                IngestState::Failed { error: IngestError::PathResolution },
                IngestAction::Finish,
            ),
            SelectionOutcome::Dismissed => (
                IngestState::Failed { error: IngestError::NoSelection },
                IngestAction::Finish,
            ),
        },
        (IngestState::Reading { path }, IngestEvent::ReadFinished { result }) => match result {
            Ok(bytes) => (
                IngestState::Done { response: BinaryResponse::new(bytes) },
                IngestAction::Finish,
            ),
            Err(reason) => (
                IngestState::Failed { error: IngestError::ReadFailure { path, reason } },
                IngestAction::Finish,
            ),
        },
        _ => vstd::pervasive::unreached(),
    }
}

/// Read integrity: when the dialog yields a path and the read hands back a
/// byte buffer, the invocation settles on exactly that buffer — same
/// length, same bytes, no truncation and no transformation.
pub proof fn lemma_read_integrity(path: String, bytes: Vec<u8>)
    ensures
        ingest_model(SelectionOutcome::Selected { path }, Ok(bytes)) matches IngestModel::Done {
            bytes: b,
        } && b == bytes@ && b.len() == bytes@.len(),
{
}

/// Cancellation is recoverable: a dismissed dialog settles on the
/// `NoSelection` outcome — an ordinary value handed to the caller,
/// whatever any read would have returned — never an abort.
pub proof fn lemma_cancellation_recoverable(read: Result<Vec<u8>, String>)
    ensures
        ingest_model(SelectionOutcome::Dismissed, read) == IngestModel::NoSelection,
{
}

/// A failed read settles on a fault that identifies the selected path and
/// carries the host's reason, exactly.
pub proof fn lemma_read_failure_identifies_path(path: String, reason: String)
    ensures
        ingest_model(SelectionOutcome::Selected { path }, Err(reason)) matches
        IngestModel::ReadFailure { path: p, reason: m } && p == path@ && m == reason@,
{
}

/// No state is retained across invocations: what an invocation settles to
/// is a function of its own two events alone. The first invocation's
/// events stand here beside the second's so that both conclusions can be
/// read together: each invocation's payload is the bytes its own read
/// produced, and two successful invocations whose reads produced
/// different bytes settle on different payloads — no byte of the first
/// enters the second.
pub proof fn lemma_no_retained_state(
    first_outcome: SelectionOutcome,
    first_read: Result<Vec<u8>, String>,
    second_outcome: SelectionOutcome,
    second_read: Result<Vec<u8>, String>,
)
    ensures
        first_read matches Ok(bytes) ==> (first_outcome is Selected ==> (ingest_model(
            first_outcome,
            first_read,
        ) matches IngestModel::Done { bytes: b } && b == bytes@)),
        second_read matches Ok(bytes) ==> (second_outcome is Selected ==> (ingest_model(
            second_outcome,
            second_read,
        ) matches IngestModel::Done { bytes: b } && b == bytes@)),
        first_read matches Ok(one) ==> (second_read matches Ok(two) ==> (first_outcome is Selected
            && second_outcome is Selected && one@ != two@ ==> ingest_model(
            first_outcome,
            first_read,
        ) != ingest_model(second_outcome, second_read))),
{
}

} // verus!
