//! The types and calls of `parking_lot`, `futures`, `uuid`, `thread-id` and std that the
//! library uses, each with the contract that the rest of the crate relies on.
use vstd::prelude::*;

use futures::sync::mpsc::{SendError, UnboundedSender};
use futures::sync::oneshot::{Canceled, Receiver, Sender};
use parking_lot::lock_api::RwLock as LockApiRwLock;
use parking_lot::RawRwLock;
use parking_lot::RwLock;
use std::sync::Arc;

verus! {

#[verifier::external_type_specification]
#[verifier::external_body]
pub struct ExRawRwLock(RawRwLock);

#[verifier::external_type_specification]
#[verifier::external_body]
#[verifier::reject_recursive_types(R)]
#[verifier::reject_recursive_types(T)]
pub struct ExLockApiRwLock<R, T: ?Sized>(LockApiRwLock<R, T>);

#[verifier::external_type_specification]
#[verifier::external_body]
#[verifier::reject_recursive_types(T)]
pub struct ExUnboundedSender<T>(UnboundedSender<T>);

#[verifier::external_type_specification]
#[verifier::external_body]
#[verifier::reject_recursive_types(T)]
pub struct ExSendError<T>(SendError<T>);

#[verifier::external_type_specification]
#[verifier::external_body]
#[verifier::reject_recursive_types(T)]
pub struct ExOneshotSender<T>(Sender<T>);

#[verifier::external_type_specification]
#[verifier::external_body]
#[verifier::reject_recursive_types(T)]
pub struct ExOneshotReceiver<T>(Receiver<T>);

#[verifier::external_type_specification]
#[verifier::external_body]
pub struct ExCanceled(Canceled);

#[verifier::external_type_specification]
#[verifier::external_body]
pub struct ExIoError(std::io::Error);

/// `Arc::clone` (std): the documentation says that it makes another pointer to the same
/// allocation, so the clone is the same value as the one cloned.
#[verifier::external_body]
pub(crate) fn arc_clone<V>(this: &Arc<V>) -> (copy: Arc<V>)
    ensures
        copy == *this,
{
    Arc::clone(this)
}

/// `parking_lot::RwLock::new`: a lock that holds `value`. What a lock holds is shared between
/// threads, so nothing is stated of it.
#[verifier::external_body]
pub(crate) fn lock_new<V>(value: V) -> (lock: RwLock<V>) {
    RwLock::new(value)
}

/// `parking_lot::RwLock::read`, then a copy of what the lock holds at that moment. Other
/// threads write the lock at any time, so nothing is stated of the copy.
#[verifier::external_body]
pub(crate) fn lock_read<V: Copy>(lock: &RwLock<V>) -> (current: V) {
    *lock.read()
}

/// `parking_lot::RwLock::write`: under the write guard, puts `value` into the lock and hands
/// back what it held before. Other threads write the lock at any time, so nothing is stated of
/// the value handed back.
#[verifier::external_body]
pub(crate) fn lock_replace<V>(lock: &RwLock<V>, value: V) -> (previous: V) {
    let mut guard = lock.write();
    std::mem::replace(&mut *guard, value)
}

/// The text of a version 4 UUID in hyphenated form.
pub open spec fn is_uuid_v4_text(text: Seq<char>) -> bool {
    &&& text.len() == 36
    &&& forall|i: int| 0 <= i < 36 ==> {
        if i == 8 || i == 13 || i == 18 || i == 23 {
            #[trigger] text[i] == '-'
        } else if i == 14 {
            text[i] == '4'
        } else if i == 19 {
            text[i] == '8' || text[i] == '9' || text[i] == 'a' || text[i] == 'b'
        } else {
            ('0' <= text[i] <= '9') || ('a' <= text[i] <= 'f')
        }
    }
}

/// `uuid::Uuid::new_v4().hyphenated().to_string()`: a random UUID of version 4, written
/// as 36 characters, lower-case hexadecimal digits in groups of 8, 4, 4, 4 and 12 separated
/// by hyphens, with the version digit `4` first in the third group and the variant digit
/// (`8`, `9`, `a` or `b`) first in the fourth (uuid's `format_hyphenated`, and the masks of
/// `new_v4`). Which digits come out is chance, so nothing more is stated. `new_v4` panics
/// only where the operating system gives no random bytes.
#[verifier::external_body]
pub(crate) fn uuid_v4_text() -> (text: String)
    ensures
        is_uuid_v4_text(text@),
{
    uuid::Uuid::new_v4().hyphenated().to_string()
}

/// `thread_id::get`: a number that is unique to the calling thread. It depends on the
/// thread that calls, so nothing is stated of it.
#[verifier::external_body]
pub(crate) fn current_thread_id() -> (id: usize) {
    thread_id::get()
}

/// `futures::sync::mpsc::UnboundedSender::unbounded_send`: whether the message is taken
/// depends on the receiver being alive, so nothing is stated of the result. (It panics only
/// when the channel already holds its maximum number of messages, about `usize::MAX / 2`.)
#[verifier::external_body]
pub(crate) fn unbounded_send<M>(sender: &UnboundedSender<M>, message: M) -> (sent: Result<(), SendError<M>>) {
    sender.unbounded_send(message)
}

/// `futures::sync::oneshot::channel`: a fresh pair of ends of a single-use channel.
#[verifier::external_body]
pub(crate) fn oneshot_channel<V>() -> (ends: (Sender<V>, Receiver<V>)) {
    futures::sync::oneshot::channel()
}

/// `futures::sync::oneshot::Sender::send`: whether the value is taken depends on the
/// receiver being alive; where it is not, the value is handed back unchanged (`Err(t)` in
/// the source).
#[verifier::external_body]
pub(crate) fn oneshot_send<V>(sender: Sender<V>, value: V) -> (sent: Result<(), V>)
    ensures
        sent matches Err(back) ==> back == value,
{
    sender.send(value)
}

/// The text of `Canceled`'s `Display` impl in futures: `"oneshot canceled"`.
#[verifier::external_body]
pub(crate) fn canceled_text(canceled: &Canceled) -> (text: String)
    ensures
        text@ == "oneshot canceled"@,
{
    format!("{}", canceled)
}

/// The text of `SendError`'s `Display` impl in futures: `"send failed because receiver is gone"`,
/// whatever the message it holds.
#[verifier::external_body]
pub(crate) fn send_error_text<M>(error: &SendError<M>) -> (text: String)
    ensures
        text@ == "send failed because receiver is gone"@,
{
    format!("{}", error)
}

/// The text of `std::io::Error`'s `Display` impl. It comes from the operating system's
/// messages, so nothing is stated of it.
#[verifier::external_body]
pub(crate) fn io_error_text(error: &std::io::Error) -> (text: String) {
    format!("{}", error)
}

/// `Hash::hash` for `String` (std): feeds the text into `state`. What a hasher holds is not
/// modelled, so nothing is stated.
#[verifier::external_body]
pub(crate) fn hash_text<H: std::hash::Hasher>(text: &String, state: &mut H) {
    std::hash::Hash::hash(text, state)
}

} // verus!
