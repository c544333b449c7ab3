//! What the pipeline's workers ask of an async runtime, and the runtime that
//! is built on tokio.

use vstd::prelude::*;

verus! {

/// The sending half of tokio's unbounded channel.
#[verifier::external_type_specification]
#[verifier::external_body]
#[verifier::reject_recursive_types(T)]
pub struct ExUnboundedSender<T>(tokio::sync::mpsc::UnboundedSender<T>);

/// The receiving half of tokio's unbounded channel.
#[verifier::external_type_specification]
#[verifier::external_body]
#[verifier::reject_recursive_types(T)]
pub struct ExUnboundedReceiver<T>(tokio::sync::mpsc::UnboundedReceiver<T>);

/// Calls tokio's `mpsc::unbounded_channel`, which makes a channel without a
/// bound. It never fails.
#[verifier::external_body]
fn tokio_unbounded_channel<T>() -> (ends: (
    tokio::sync::mpsc::UnboundedSender<T>,
    tokio::sync::mpsc::UnboundedReceiver<T>,
)) {
    tokio::sync::mpsc::unbounded_channel()
}

/// Calls tokio's `mpsc::UnboundedSender::send`, which returns at once: `Ok`
/// when the value was queued, an error when the receiver is gone. Nothing is
/// claimed of the result.
#[verifier::external_body]
fn tokio_unbounded_send<T>(tx: &tokio::sync::mpsc::UnboundedSender<T>, v: T) -> (r: Result<
    (),
    (),
>) {
    tx.send(v).map_err(|_| ())
}

/// A sender that hands a value over without waiting and reports whether it
/// was taken.
pub trait SendMessage<T> {
    fn try_send(&self, v: T) -> Result<(), ()>;
}

/// Sending without caring for the outcome.
pub trait SenderExt<T>: SendMessage<T> {
    /// Hands `v` over; a value that is not taken is dropped.
    fn send_owned(&self, v: T) {
        let _ = self.try_send(v);
    }
}

impl<T, S: SendMessage<T>> SenderExt<T> for S {
}

/// What may cross to another thread.
pub trait MaybeSend: Send {
}

impl<T: ?Sized + Send> MaybeSend for T {
}

/// A runtime, as far as channels of `T` go.
pub trait Runtime<T: MaybeSend + 'static>: 'static {
    type Sender: SenderExt<T> + Clone + 'static;

    type Receiver: 'static;

    /// A new channel without a bound.
    fn channel() -> (Self::Sender, Self::Receiver);
}

/// The runtime on tokio.
pub struct TokioRt;

impl<T: MaybeSend + 'static> SendMessage<T> for tokio::sync::mpsc::UnboundedSender<T> {
    fn try_send(&self, v: T) -> Result<(), ()> {
        tokio_unbounded_send(self, v)
    }
}

impl<T: MaybeSend + 'static> Runtime<T> for TokioRt {
    type Sender = tokio::sync::mpsc::UnboundedSender<T>;

    type Receiver = tokio::sync::mpsc::UnboundedReceiver<T>;

    fn channel() -> (Self::Sender, Self::Receiver) {
        tokio_unbounded_channel()
    }
}

/// A new channel of the runtime `R`.
pub fn channel_with<R: Runtime<T>, T: MaybeSend + 'static>() -> (R::Sender, R::Receiver) {
    R::channel()
}

/// A new channel of the tokio runtime.
pub fn channel<T: MaybeSend + 'static>() -> (
    tokio::sync::mpsc::UnboundedSender<T>,
    tokio::sync::mpsc::UnboundedReceiver<T>,
) {
    channel_with::<TokioRt, T>()
}

} // verus!
