//! A handle on one event loop thread: its identity, its shared cells, and the requests that
//! can be made of it.
use vstd::prelude::*;

use crate::error::{ErrorView, WomboError, WomboErrorKind};
use crate::interrupt::{race_next, Race, RaceAction, RaceEvent};
use crate::outside::{
    arc_clone, hash_text, is_uuid_v4_text, lock_new, oneshot_channel, oneshot_send, unbounded_send,
};
use crate::utils::{
    already_running_error, check_initialized, check_not_initialized, clear_thread_id,
    get_thread_id, is_initialized, not_running_error, set_cancel_tx, set_exit_tx, set_thread_id,
    take_cancel_tx, take_exit_tx, uuid_v4, CancelSender, ExitSender,
};
use futures::sync::oneshot::Receiver as OneshotReceiver;
use parking_lot::RwLock;
use std::sync::Arc;

verus! {

/// The error of a cancel request where the loop has not yet armed its cancel sender, or a
/// cancel was already sent.
pub open spec fn unarmed_error() -> ErrorView {
    ErrorView { kind: WomboErrorKind::NotInitialized, details: "Cancel sender not initialized."@ }
}

/// The error of a cancel request whose message the loop no longer receives.
pub open spec fn undelivered_error() -> ErrorView {
    ErrorView { kind: WomboErrorKind::Unknown, details: "Error sending cancel command."@ }
}

/// What a cancel request gives, from what it found: whether a loop runs (`running`), whether
/// its cancel sender was armed (`armed`), and whether the cancel message was taken
/// (`delivered`). Each later observation is made only where the earlier ones succeeded.
pub open spec fn cancel_result(running: bool, armed: bool, delivered: bool) -> Result<(), ErrorView> {
    if !running {
        Err(not_running_error())
    } else if !armed {
        Err(unarmed_error())
    } else if !delivered {
        Err(undelivered_error())
    } else {
        Ok(())
    }
}

/// The message that a cancel request sends on the interrupt channel: `true`, which the loop's
/// race reads as a cancel, so that the cancel hook is looked up next.
pub fn cancel_signal() -> (message: bool)
    ensures
        message,
        race_next(Race::<bool>::Racing, RaceEvent::Signal(Some(message)))
            == (Race::<bool>::Canceling, RaceAction::TakeHook),
{
    true
}

/// The answer to a cancel request, from what it found: whether a loop runs (`running`),
/// whether a cancel sender was taken out of its cell (`armed`), and whether the cancel message
/// was taken by the loop (`delivered`).
pub fn cancel_answer(running: bool, armed: bool, delivered: bool) -> (answer: Result<(), WomboError>)
    ensures
        result_view(answer) == cancel_result(running, armed, delivered),
{
    if !running {
        Err(WomboError::new(WomboErrorKind::NotInitialized, "Wombo not initialized."))
    } else if !armed {
        Err(WomboError::new(WomboErrorKind::NotInitialized, "Cancel sender not initialized."))
    } else if !delivered {
        Err(WomboError::new(WomboErrorKind::Unknown, "Error sending cancel command."))
    } else {
        Ok(())
    }
}

/// A result of the library, taken by its view.
pub open spec fn result_view<V>(r: Result<V, WomboError>) -> Result<V, ErrorView> {
    match r {
        Ok(v) => Ok(v),
        Err(e) => Err(e@),
    }
}

/// Starts event loop threads, with notifications when they exit and hooks for canceling any
/// running futures. Clones refer to the same event loop thread.
#[verifier::reject_recursive_types(T)]
pub struct Wombo<T: Send + 'static> {
    id: Arc<String>,
    core_thread_id: Arc<RwLock<Option<usize>>>,
    cancel_tx: Arc<RwLock<Option<CancelSender>>>,
    exit_tx: Arc<RwLock<Option<ExitSender<T>>>>,
}

/// The cells of a Wombo instance that its event loop thread works on.
#[verifier::reject_recursive_types(T)]
pub struct LoopHandle<T: Send + 'static> {
    core_thread_id: Arc<RwLock<Option<usize>>>,
    cancel_tx: Arc<RwLock<Option<CancelSender>>>,
    exit_tx: Arc<RwLock<Option<ExitSender<T>>>>,
}

impl<T: Send + 'static> Wombo<T> {
    /// The characters of this instance's identifier.
    pub closed spec fn id_text(&self) -> Seq<char> {
        self.id@
    }

    /// Whether `handle` works on the cells of this instance.
    pub closed spec fn drives(&self, handle: LoopHandle<T>) -> bool {
        &&& handle.core_thread_id == self.core_thread_id
        &&& handle.cancel_tx == self.cancel_tx
        &&& handle.exit_tx == self.exit_tx
    }

    /// A new instance with a fresh random identifier and no event loop thread.
    pub fn new() -> (w: Wombo<T>)
        ensures
            is_uuid_v4_text(w.id_text()),
    {
        Wombo {
            id: Arc::new(uuid_v4()),
            core_thread_id: Arc::new(lock_new(None)),
            cancel_tx: Arc::new(lock_new(None)),
            exit_tx: Arc::new(lock_new(None)),
        }
    }

    /// The identifier of this instance. It does not change when the event loop thread exits
    /// or restarts.
    pub fn id(&self) -> (id: &Arc<String>)
        ensures
            id@ == self.id_text(),
    {
        &self.id
    }

    /// The thread id of the event loop thread, if one runs.
    pub fn core_thread_id(&self) -> (thread: Option<usize>) {
        get_thread_id(&self.core_thread_id)
    }

    /// Whether the event loop thread runs.
    pub fn is_running(&self) -> (running: bool) {
        is_initialized(&self.core_thread_id)
    }

    /// Sends a message that cancels the event loop thread, interrupting any futures running
    /// there. The loop then runs its cancel hook, if any, exits, and reports its result to the
    /// receiver of `on_exit`. The cancel sender is used up, so a second cancel of the same
    /// loop is refused. The message sent is `cancel_signal()`, and the answer is `cancel_answer`
    /// of what was found.
    pub fn cancel(&self) -> (sent: Result<(), WomboError>)
        ensures
            exists|running: bool, armed: bool, delivered: bool|
                result_view(sent) == #[trigger] cancel_result(running, armed, delivered),
    {
        let running = is_initialized(&self.core_thread_id);
        if !running {
            return cancel_answer(false, false, false);
        }
        match take_cancel_tx(&self.cancel_tx) {
            None => cancel_answer(true, false, false),
            Some(tx) => {
                let sent = unbounded_send(&tx, cancel_signal());
                cancel_answer(true, true, sent.is_ok())
            },
        }
    }

    /// A receiver that resolves when the event loop thread exits, for any reason: with the
    /// value of the loop's future where it resolved first, with the cancel hook's value (or
    /// `None` without a hook) where the loop was canceled. A receiver asked for before is
    /// dropped, so that it resolves as canceled. Refused where no loop runs.
    pub fn on_exit(&self) -> (rx: Result<OneshotReceiver<Option<T>>, WomboError>)
        ensures
            rx matches Err(e) ==> e@ == not_running_error(),
    {
        let checked = check_initialized(&self.core_thread_id);
        if let Err(e) = checked {
            return Err(e);
        }
        let (tx, rx) = oneshot_channel();
        set_exit_tx(&self.exit_tx, tx);
        Ok(rx)
    }

    /// The first step of spawning an event loop thread: refused where one runs, and otherwise
    /// the handle on this instance's cells that the new thread works on.
    pub fn prepare_spawn(&self) -> (handle: Result<LoopHandle<T>, WomboError>)
        ensures
            handle matches Err(e) ==> e@ == already_running_error(),
            handle matches Ok(h) ==> self.drives(h),
    {
        let checked = check_not_initialized(&self.core_thread_id);
        if let Err(e) = checked {
            return Err(e);
        }
        Ok(LoopHandle {
            core_thread_id: arc_clone(&self.core_thread_id),
            cancel_tx: arc_clone(&self.cancel_tx),
            exit_tx: arc_clone(&self.exit_tx),
        })
    }
}

impl<T: Send + 'static> Clone for Wombo<T> {
    /// Another handle on the same identifier, cells and event loop thread.
    fn clone(&self) -> (copy: Self)
        ensures
            copy == *self,
    {
        Wombo {
            id: arc_clone(&self.id),
            core_thread_id: arc_clone(&self.core_thread_id),
            cancel_tx: arc_clone(&self.cancel_tx),
            exit_tx: arc_clone(&self.exit_tx),
        }
    }
}

impl<T: Send + 'static> PartialEq for Wombo<T> {
    /// Two instances are equal where their identifiers are.
    fn eq(&self, other: &Self) -> (same: bool)
        ensures
            same == (self.id_text() == other.id_text()),
    {
        let mine: &String = &self.id;
        let theirs: &String = &other.id;
        *mine == *theirs
    }
}

impl<T: Send + 'static> vstd::std_specs::cmp::PartialEqSpecImpl for Wombo<T> {
    open spec fn obeys_eq_spec() -> bool {
        true
    }

    open spec fn eq_spec(&self, other: &Self) -> bool {
        self.id_text() == other.id_text()
    }
}

impl<T: Send + 'static> Eq for Wombo<T> {
}

impl<T: Send + 'static> std::hash::Hash for Wombo<T> {
    /// Hashes the identifier, as equality compares it.
    fn hash<H: std::hash::Hasher>(&self, state: &mut H) {
        let text: &String = &self.id;
        hash_text(text, state);
    }
}

impl<T: Send + 'static> LoopHandle<T> {
    /// Records the calling thread as the event loop thread: from now on the instance runs.
    pub fn enter(&self) {
        set_thread_id(&self.core_thread_id);
    }

    /// Stores the sender that interrupts the loop's future, so that `cancel` can use it.
    pub fn arm_cancel(&self, tx: CancelSender) {
        set_cancel_tx(&self.cancel_tx, tx);
    }

    /// The last step of the event loop thread: records that no loop runs, so that `spawn` can
    /// be called again, reports `result` to the receiver of `on_exit` where one was asked for,
    /// and drops the cancel sender. Gives back what could not be delivered: `result` where a
    /// receiver was asked for and has gone away, `None` where the report was taken or none was
    /// asked for.
    pub fn leave(&self, result: Option<T>) -> (undelivered: Option<Option<T>>)
        ensures
            undelivered matches Some(back) ==> back == result,
    {
        clear_thread_id(&self.core_thread_id);
        let undelivered = match take_exit_tx(&self.exit_tx) {
            Some(tx) => match oneshot_send(tx, result) {
                Ok(_) => None,
                Err(back) => Some(back),
            },
            None => None,
        };
        let _ = take_cancel_tx(&self.cancel_tx);
        undelivered
    }
}

/// A cancel request where no event loop runs is refused with `NotInitialized`, whatever else
/// holds.
pub proof fn lemma_cancel_refused_when_idle(armed: bool, delivered: bool)
    ensures
        cancel_result(false, armed, delivered) == Err::<(), ErrorView>(not_running_error()),
        not_running_error().kind == WomboErrorKind::NotInitialized,
{
}

/// A cancel request succeeds exactly where a loop runs, its cancel sender was armed and the
/// message was taken; every refusal carries a kind and a text that say which step failed.
pub proof fn lemma_cancel_succeeds_only_when_delivered(running: bool, armed: bool, delivered: bool)
    ensures
        cancel_result(running, armed, delivered) is Ok <==> (running && armed && delivered),
        running && !armed ==> cancel_result(running, armed, delivered) == Err::<(), ErrorView>(unarmed_error()),
        running && armed && !delivered ==> cancel_result(running, armed, delivered) == Err::<(), ErrorView>(undelivered_error()),
        not_running_error() != unarmed_error(),
        unarmed_error() != undelivered_error(),
        not_running_error() != undelivered_error(),
{
    reveal_strlit("Wombo not initialized.");
    reveal_strlit("Cancel sender not initialized.");
    assert(not_running_error().details.len() != unarmed_error().details.len());
}

} // verus!
