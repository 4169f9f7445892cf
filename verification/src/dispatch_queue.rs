//! The bounded queue between the feeder and the workers.
//!
//! The queue is a bounded channel of `crossbeam`. Verus sees neither its
//! contents nor the other threads that use it, so the contracts below say only
//! what holds however the other side behaves.

use crossbeam::channel::{Receiver, Sender};
use vstd::prelude::*;

use crate::replay_log_reader::ReplayLog;

verus! {

/// `crossbeam::channel::Sender`, the sending end of a channel, as a value
/// that Verus carries through without looking inside.
#[verifier::external_type_specification]
#[verifier::external_body]
#[verifier::reject_recursive_types(T)]
pub struct ExSender<T>(crossbeam::channel::Sender<T>);

/// `crossbeam::channel::Receiver`, a receiving end of a channel, as a value
/// that Verus carries through without looking inside.
#[verifier::external_type_specification]
#[verifier::external_body]
#[verifier::reject_recursive_types(T)]
pub struct ExReceiver<T>(crossbeam::channel::Receiver<T>);

/// The number of entries that the channel behind a sending end was made to
/// hold. It is fixed when the channel is made.
pub uninterp spec fn queue_capacity(sender: Sender<ReplayLog>) -> nat;

/// Largest capacity a dispatch queue is created with.
///
/// `crossbeam::channel::bounded` panics when the capacity is too large to
/// initialise the channel: when its index arithmetic overflows, or when the
/// buffer of one slot per entry does not fit the address space. A slot for a
/// [`ReplayLog`] takes less than 64 bytes, so neither happens up to this
/// limit.
pub open spec fn queue_size_limit() -> int {
    isize::MAX as int / 64
}

/// `crossbeam::channel::bounded`: both ends of a new channel that holds at
/// most `capacity` entries; with a capacity of zero a send waits for a
/// receive. The contract claims the capacity and nothing else.
#[verifier::external_body]
pub(crate) fn bounded_queue(capacity: usize) -> (ends: (Sender<ReplayLog>, Receiver<ReplayLog>))
    requires
        capacity <= queue_size_limit(),
    ensures
        queue_capacity(ends.0) == capacity,
{
    crossbeam::channel::bounded(capacity)
}

/// `Sender::send`: blocks while the channel is full, then hands the entry
/// over. It fails only when every receiver is gone, and the error then holds
/// the entry that was passed in, which is what the contract states.
#[verifier::external_body]
pub(crate) fn queue_send(sender: &Sender<ReplayLog>, entry: ReplayLog) -> (sent: Result<(), ReplayLog>)
    ensures
        sent matches Err(back) ==> back == entry,
{
    match sender.send(entry) {
        Ok(()) => Ok(()),
        Err(refused) => Err(refused.0),
    }
}

/// `Receiver::recv`: blocks until an entry arrives, or until the channel is
/// empty and every sender is gone, which gives `None`. Which entry arrives
/// depends on the other threads, so nothing is claimed of it.
#[verifier::external_body]
pub(crate) fn queue_recv(receiver: &Receiver<ReplayLog>) -> (entry: Option<ReplayLog>) {
    match receiver.recv() {
        Ok(entry) => Some(entry),
        Err(_) => None,
    }
}

/// `Receiver::clone`: another receiving end of the same channel. Each entry
/// still goes to one receiver only.
#[verifier::external_body]
pub(crate) fn queue_share(receiver: &Receiver<ReplayLog>) -> (other: Receiver<ReplayLog>) {
    receiver.clone()
}

} // verus!
