//! The channel types of `tokio`, `tokio-stream` and `tonic` that the service
//! is built on, and what is taken for granted of them.
//!
//! Nothing in this file is proved. Each item says what it relies on.

use crate::registry::Notification;
use tokio::sync::mpsc;
use tokio::sync::mpsc::error::TrySendError;
use tokio::sync::oneshot;
use tokio_stream::wrappers::ReceiverStream;
use tonic::Status;
use vstd::prelude::*;

verus! {

/// `tokio::sync::mpsc::Sender`: the sending half of a bounded channel. Opaque.
#[verifier::external_type_specification]
#[verifier::external_body]
#[verifier::reject_recursive_types(T)]
pub struct ExMpscSender<T>(mpsc::Sender<T>);

/// `tokio::sync::mpsc::Receiver`: the receiving half of a bounded channel. Opaque.
#[verifier::external_type_specification]
#[verifier::external_body]
#[verifier::reject_recursive_types(T)]
pub struct ExMpscReceiver<T>(mpsc::Receiver<T>);

/// `tokio::sync::mpsc::error::TrySendError`: why `try_send` refused a message.
/// Its two variants, `Full` and `Closed`, each hold the refused message, and
/// are read as they are declared.
#[verifier::external_type_specification]
#[verifier::reject_recursive_types(T)]
pub struct ExTrySendError<T>(TrySendError<T>);

/// `tokio::sync::oneshot::Sender`: the sending half of a one-shot channel. Opaque.
#[verifier::external_type_specification]
#[verifier::external_body]
#[verifier::reject_recursive_types(T)]
pub struct ExOneshotSender<T>(oneshot::Sender<T>);

/// `tokio::sync::oneshot::Receiver`: the receiving half of a one-shot channel. Opaque.
#[verifier::external_type_specification]
#[verifier::external_body]
#[verifier::reject_recursive_types(T)]
pub struct ExOneshotReceiver<T>(oneshot::Receiver<T>);

/// `tokio::sync::oneshot::error::RecvError`: what awaiting a one-shot receiver
/// yields when its sender was dropped without sending. Opaque.
#[verifier::external_type_specification]
#[verifier::external_body]
pub struct ExRecvError(oneshot::error::RecvError);

/// `tokio_stream::wrappers::ReceiverStream`: a bounded receiver as a stream. Opaque.
#[verifier::external_type_specification]
#[verifier::external_body]
#[verifier::reject_recursive_types(T)]
pub struct ExReceiverStream<T>(ReceiverStream<T>);

/// `tonic::Status`: the terminal failure that a response stream may carry. Opaque.
#[verifier::external_type_specification]
#[verifier::external_body]
pub struct ExStatus(Status);

/// The largest number of notifications that the channel behind `sender`
/// buffers, fixed when the channel was opened: what
/// `tokio::sync::mpsc::Sender::max_capacity` returns.
pub uninterp spec fn channel_bound(sender: mpsc::Sender<Notification>) -> usize;

/// Opens a bounded channel with `tokio::sync::mpsc::channel`, which panics on
/// a buffer of 0 or of more than `usize::MAX >> 3` messages. Relied on: the
/// sender's channel buffers at most `buffer` messages.
#[verifier::external_body]
pub(crate) fn open_channel(buffer: usize) -> (ends: (
    mpsc::Sender<Notification>,
    mpsc::Receiver<Notification>,
))
    requires
        0 < buffer <= usize::MAX / 8,
    ensures
        channel_bound(ends.0) == buffer,
{
    mpsc::channel(buffer)
}

/// `tokio::sync::mpsc::Sender::try_send` returns at once. It hands the
/// message to the channel and returns `Ok(())`, or it returns the message
/// inside the error: `Full` when the buffer has no room, `Closed` when the
/// receiving half is closed or dropped. Which of the three happens depends on
/// what the receiving side has done, so nothing is claimed about it.
pub assume_specification<T>[ mpsc::Sender::<T>::try_send ](
    sender: &mpsc::Sender<T>,
    message: T,
) -> (sent: Result<(), TrySendError<T>>)
    ensures
        sent matches Err(TrySendError::Full(refused)) ==> refused == message,
        sent matches Err(TrySendError::Closed(refused)) ==> refused == message,
;

/// `tokio::sync::oneshot::channel` creates the two halves of a one-shot
/// channel. Nothing is claimed about them.
pub assume_specification<T>[ oneshot::channel::<T> ]() -> (ends: (
    oneshot::Sender<T>,
    oneshot::Receiver<T>,
));

/// `tokio::sync::oneshot::Sender::send` consumes the sender and never waits.
/// It returns `Ok(())` if the receiver had not hung up, and gives the value
/// back otherwise.
pub assume_specification<T>[ oneshot::Sender::<T>::send ](
    sender: oneshot::Sender<T>,
    t: T,
) -> (sent: Result<(), T>)
    ensures
        sent matches Err(back) ==> back == t,
;

/// `tokio_stream::wrappers::ReceiverStream::new` wraps a receiver. Nothing is
/// claimed about the stream.
pub assume_specification<T>[ ReceiverStream::<T>::new ](recv: mpsc::Receiver<T>) -> (stream:
    ReceiverStream<T>);

} // verus!
