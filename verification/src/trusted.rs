//! Declarations of outside types and the calls into them that the verified
//! code makes. Every contract here is believed, not proved.

use atomic_counter::AtomicCounter;
use atomic_counter::RelaxedCounter;
use vstd::prelude::*;

verus! {

/// `std::sync::mpsc::Sender`, carried through the broker as an opaque handle.
#[verifier::external_type_specification]
#[verifier::external_body]
#[verifier::reject_recursive_types(T)]
pub struct ExSender<T>(std::sync::mpsc::Sender<T>);

/// `std::sync::mpsc::Receiver`, carried through the broker as an opaque handle.
#[verifier::external_type_specification]
#[verifier::external_body]
#[verifier::reject_recursive_types(T)]
pub struct ExReceiver<T>(std::sync::mpsc::Receiver<T>);

/// Whether `sender` and `receiver` are the two ends of one channel: what is
/// sent on `sender` arrives on `receiver`.
pub uninterp spec fn channel_linked(
    sender: std::sync::mpsc::Sender<Vec<u8>>,
    receiver: std::sync::mpsc::Receiver<Vec<u8>>,
) -> bool;

/// `std::sync::mpsc::channel` for byte chunks: a new channel, as its sending
/// and its receiving end, which are linked. (A name may not be generic, so
/// this call has one wrapper per element type.)
#[verifier::external_body]
pub(crate) fn byte_channel() -> (ends: (
    std::sync::mpsc::Sender<Vec<u8>>,
    std::sync::mpsc::Receiver<Vec<u8>>,
))
    ensures
        channel_linked(ends.0, ends.1),
{
    std::sync::mpsc::channel()
}

/// `std::sync::mpsc::channel` for the first broker's reports: a new channel,
/// as its sending and its receiving end. Nothing is stated of the two ends;
/// the one caller drops the receiving end.
#[verifier::external_body]
pub(crate) fn report_channel() -> (ends: (
    std::sync::mpsc::Sender<crate::broker::Message>,
    std::sync::mpsc::Receiver<crate::broker::Message>,
)) {
    std::sync::mpsc::channel()
}

/// `atomic_counter::RelaxedCounter`, a `usize` counter that wraps on overflow.
#[verifier::external_type_specification]
#[verifier::external_body]
pub struct ExRelaxedCounter(RelaxedCounter);

/// The count that a `RelaxedCounter` holds.
pub uninterp spec fn relaxed_count(counter: RelaxedCounter) -> usize;

/// The count after one increment of `count`: `fetch_add(1)` on an
/// `AtomicUsize` wraps from `usize::MAX` to `0`.
pub open spec fn wrapping_inc(count: usize) -> usize {
    if count == usize::MAX {
        0
    } else {
        (count + 1) as usize
    }
}

/// `RelaxedCounter::new`: the counter starts at `initial_count`.
#[verifier::external_body]
pub(crate) fn relaxed_counter_new(initial_count: usize) -> (counter: RelaxedCounter)
    ensures
        relaxed_count(counter) == initial_count,
{
    RelaxedCounter::new(initial_count)
}

/// `AtomicCounter::inc` on a `RelaxedCounter` (`fetch_add(1, Relaxed)`):
/// returns the previous count and leaves the wrapped successor. The counter
/// is borrowed exclusively here, so no other thread moves it in between.
#[verifier::external_body]
pub(crate) fn relaxed_counter_inc(counter: &mut RelaxedCounter) -> (previous: usize)
    ensures
        previous == relaxed_count(*old(counter)),
        relaxed_count(*final(counter)) == wrapping_inc(relaxed_count(*old(counter))),
{
    counter.inc()
}

/// `AtomicCounter::get` on a `RelaxedCounter` (`load(Relaxed)`): the count.
/// The counter is borrowed exclusively here, so no other thread moves it.
#[verifier::external_body]
pub(crate) fn relaxed_counter_get(counter: &mut RelaxedCounter) -> (count: usize)
    ensures
        count == relaxed_count(*old(counter)),
        relaxed_count(*final(counter)) == relaxed_count(*old(counter)),
{
    counter.get()
}

} // verus!
