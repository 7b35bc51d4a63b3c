//! The shared cells of a Wombo instance and the checks made on them.
//!
//! Each cell is a lock shared between the instance, its clones and the event loop thread.
//! What a cell holds can change between any two calls, so the functions that read a cell
//! state nothing of what they read; the decisions made on what was read are stated exactly.
use vstd::prelude::*;

use crate::error::{ErrorView, WomboError, WomboErrorKind};
use crate::outside::{current_thread_id, is_uuid_v4_text, lock_read, lock_replace, uuid_v4_text};
use futures::sync::mpsc::UnboundedSender;
use futures::sync::oneshot::Sender as OneshotSender;
use parking_lot::RwLock;
use std::sync::Arc;

verus! {

/// Sends a cancel message to the event loop thread.
pub type CancelSender = UnboundedSender<bool>;

/// Sends an exit message from the event loop thread.
pub type ExitSender<T> = OneshotSender<Option<T>>;

/// Sender used to interrupt a future.
pub type InterruptSender = UnboundedSender<bool>;

/// The error of a request that needs a running event loop where none runs.
pub open spec fn not_running_error() -> ErrorView {
    ErrorView { kind: WomboErrorKind::NotInitialized, details: "Wombo not initialized."@ }
}

/// The error of a request to start an event loop where one already runs.
pub open spec fn already_running_error() -> ErrorView {
    ErrorView { kind: WomboErrorKind::NotInitialized, details: "Wombo already initialized."@ }
}

/// A fresh random identifier: a version 4 UUID in hyphenated form.
pub fn uuid_v4() -> (id: String)
    ensures
        is_uuid_v4_text(id@),
{
    uuid_v4_text()
}

/// Whether an event loop runs, where the thread id cell holds `cell`: it runs exactly where
/// the cell holds an id.
pub fn running_of(cell: Option<usize>) -> (running: bool)
    ensures
        running == cell is Some,
{
    cell.is_some()
}

/// Whether the thread id cell holds an id, that is, whether an event loop runs. The cell is
/// read once, and the answer is `running_of` of what was read.
pub fn is_initialized(id: &Arc<RwLock<Option<usize>>>) -> (running: bool) {
    let held = lock_read(&**id);
    running_of(held)
}

/// Accepts a request that needs a running event loop where one runs (`running`), and
/// refuses it with `NotInitialized` otherwise.
pub fn require_running(running: bool) -> (checked: Result<(), WomboError>)
    ensures
        checked is Ok <==> running,
        checked matches Err(e) ==> e@ == not_running_error(),
{
    if running {
        Ok(())
    } else {
        Err(WomboError::new(WomboErrorKind::NotInitialized, "Wombo not initialized."))
    }
}

/// Accepts a request to start an event loop where none runs (`!running`), and refuses it
/// with `NotInitialized` otherwise.
pub fn require_idle(running: bool) -> (checked: Result<(), WomboError>)
    ensures
        checked is Ok <==> !running,
        checked matches Err(e) ==> e@ == already_running_error(),
{
    if !running {
        Ok(())
    } else {
        Err(WomboError::new(WomboErrorKind::NotInitialized, "Wombo already initialized."))
    }
}

/// Checks that an event loop runs; the error says that none does.
pub fn check_initialized(id: &Arc<RwLock<Option<usize>>>) -> (checked: Result<(), WomboError>)
    ensures
        checked matches Err(e) ==> e@ == not_running_error(),
{
    require_running(is_initialized(id))
}

/// Checks that no event loop runs; the error says that one does.
pub fn check_not_initialized(id: &Arc<RwLock<Option<usize>>>) -> (checked: Result<(), WomboError>)
    ensures
        checked matches Err(e) ==> e@ == already_running_error(),
{
    require_idle(is_initialized(id))
}

/// The id of the event loop thread, if one runs.
pub fn get_thread_id(id: &Arc<RwLock<Option<usize>>>) -> (thread: Option<usize>) {
    lock_read(&**id)
}

/// Records the calling thread as the event loop thread.
pub fn set_thread_id(id: &Arc<RwLock<Option<usize>>>) {
    let thread = current_thread_id();
    let _ = lock_replace(&**id, Some(thread));
}

/// Records that no event loop thread runs.
pub fn clear_thread_id(id: &Arc<RwLock<Option<usize>>>) {
    let _ = lock_replace(&**id, None);
}

/// Stores the sender that cancels the event loop.
pub fn set_cancel_tx(cancel_tx: &Arc<RwLock<Option<CancelSender>>>, tx: CancelSender) {
    let _ = lock_replace(&**cancel_tx, Some(tx));
}

/// Takes the sender that cancels the event loop out of its cell, leaving the cell empty.
pub fn take_cancel_tx(cancel_tx: &Arc<RwLock<Option<CancelSender>>>) -> (tx: Option<CancelSender>) {
    lock_replace(&**cancel_tx, None)
}

/// Stores the sender that reports the event loop's exit, dropping the one stored before.
pub fn set_exit_tx<T>(exit_tx: &Arc<RwLock<Option<ExitSender<T>>>>, tx: ExitSender<T>) {
    let _ = lock_replace(&**exit_tx, Some(tx));
}

/// Takes the sender that reports the event loop's exit out of its cell, leaving the cell empty.
pub fn take_exit_tx<T>(exit_tx: &Arc<RwLock<Option<ExitSender<T>>>>) -> (tx: Option<ExitSender<T>>) {
    lock_replace(&**exit_tx, None)
}

} // verus!
