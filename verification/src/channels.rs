//! The queues that carry packets and bursts out of the capture callback and
//! into the playback callback. Every hand-off returns at once.

use bytes::Bytes;
use vstd::prelude::*;

verus! {

/// The sending half of tokio's bounded channel. Nothing is said of what a
/// channel holds: the other half is in other hands.
#[verifier::external_type_specification]
#[verifier::external_body]
#[verifier::reject_recursive_types(T)]
pub struct ExTokioSender<T>(tokio::sync::mpsc::Sender<T>);

/// The receiving half of tokio's bounded channel.
#[verifier::external_type_specification]
#[verifier::external_body]
#[verifier::reject_recursive_types(T)]
pub struct ExTokioReceiver<T>(tokio::sync::mpsc::Receiver<T>);

/// The sending half of a crossbeam channel.
#[verifier::external_type_specification]
#[verifier::external_body]
#[verifier::reject_recursive_types(T)]
pub struct ExCrossbeamSender<T>(crossbeam_channel::Sender<T>);

/// The sending half of the standard library's unbounded channel.
#[verifier::external_type_specification]
#[verifier::external_body]
#[verifier::reject_recursive_types(T)]
pub struct ExStdSender<T>(std::sync::mpsc::Sender<T>);

/// One hand-off to an outbound queue: what was offered, and whether the
/// queue took it.
pub struct Handoff<T> {
    pub item: T,
    pub taken: bool,
}

/// What was offered in a run of hand-offs, in order.
pub open spec fn offers<T>(history: Seq<Handoff<T>>) -> Seq<T> {
    history.map_values(|h: Handoff<T>| h.item)
}

/// Calls tokio's `mpsc::Sender::try_send`, which returns at once: `true`
/// when the channel took the packet, `false` when its buffer was full or its
/// receiver gone. Which of the two happens is up to the receiving side, so
/// nothing is claimed of the result.
#[verifier::external_body]
pub(crate) fn tokio_try_send(tx: &tokio::sync::mpsc::Sender<Bytes>, pkt: Bytes) -> (taken: bool) {
    tx.try_send(pkt).is_ok()
}

/// Calls tokio's `mpsc::Receiver::try_recv`, which does not wait for a
/// packet to arrive (at most for a send that is under way to complete): the
/// next packet if one is queued, `None` when the channel is empty or closed.
/// What is queued is up to the sending side, so nothing is claimed of the
/// result.
#[verifier::external_body]
pub(crate) fn tokio_try_recv(rx: &mut tokio::sync::mpsc::Receiver<Bytes>) -> (pkt: Option<Bytes>) {
    rx.try_recv().ok()
}

/// Calls tokio's `mpsc::channel`, which makes a bounded channel and panics
/// on a capacity of zero or above an eighth of the address space: those are
/// left out.
#[verifier::external_body]
pub(crate) fn tokio_channel(capacity: usize) -> (ends: (
    tokio::sync::mpsc::Sender<Bytes>,
    tokio::sync::mpsc::Receiver<Bytes>,
))
    requires
        0 < capacity <= usize::MAX / 8,
{
    tokio::sync::mpsc::channel::<Bytes>(capacity)
}

/// Calls crossbeam's `Sender::try_send`, which returns at once: `true` when
/// the channel took the item, `false` when it was full or disconnected.
/// Nothing is claimed of the result.
#[verifier::external_body]
pub(crate) fn crossbeam_try_send<T>(tx: &crossbeam_channel::Sender<T>, item: T) -> (taken: bool) {
    tx.try_send(item).is_ok()
}

/// Calls `std::sync::mpsc::Sender::send`, which never blocks on an
/// unbounded channel: `true` when the packet was queued, `false` when the
/// receiver is gone. Nothing is claimed of the result.
#[verifier::external_body]
pub(crate) fn std_send(tx: &std::sync::mpsc::Sender<Bytes>, pkt: Bytes) -> (taken: bool) {
    tx.send(pkt).is_ok()
}

} // verus!
