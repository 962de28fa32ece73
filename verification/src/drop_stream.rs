//! Telling that the consumer of a stream has gone away.

use tokio::sync::mpsc;
use tokio::sync::oneshot;
use tokio_stream::wrappers::ReceiverStream;
use tonic::Status;
use vstd::prelude::*;

verus! {

/// A subscriber's outbound stream together with the one-shot signal that says
/// the stream has been let go.
///
/// The transport polls the stream through [`DropStream::delegate_mut`]. Whoever
/// owns the value calls [`DropStream::release`] when it lets the stream go, for
/// whatever reason; only the first call signals.
#[verifier::reject_recursive_types(T)]
pub struct DropStream<T> {
    delegate: ReceiverStream<Result<T, Status>>,
    sender: Option<oneshot::Sender<()>>,
}

impl<T> DropStream<T> {
    /// The sender that the signal will be given on, as long as it has not been
    /// given.
    pub closed spec fn signal(&self) -> Option<oneshot::Sender<()>> {
        self.sender
    }

    /// Whether the signal has yet to be given.
    pub open spec fn armed(&self) -> bool {
        self.signal() is Some
    }

    /// The stream of notifications that this value delegates to.
    pub closed spec fn delegate(&self) -> ReceiverStream<Result<T, Status>> {
        self.delegate
    }

    /// Wraps the receiving end of a subscriber's channel, with `drop_sender` to
    /// signal on when the stream is released.
    pub fn new(
        update_receiver: mpsc::Receiver<Result<T, Status>>,
        drop_sender: oneshot::Sender<()>,
    ) -> (stream: Self)
        ensures
            stream.signal() == Some(drop_sender),
    {
        DropStream { delegate: ReceiverStream::new(update_receiver), sender: Some(drop_sender) }
    }

    /// The stream to poll for the next notification. Polling does not touch
    /// the signal.
    pub fn delegate_mut(&mut self) -> (delegate: &mut ReceiverStream<Result<T, Status>>)
        ensures
            *delegate == old(self).delegate(),
            final(self).delegate() == *final(delegate),
            final(self).signal() == old(self).signal(),
    {
        &mut self.delegate
    }

    /// Gives the signal unless it was given before, and says whether this call
    /// gave it. A signal that finds its listener gone is given all the same.
    pub fn release(&mut self) -> (fired: bool)
        ensures
            fired == old(self).armed(),
            !final(self).armed(),
            final(self).delegate() == old(self).delegate(),
    {
        match self.sender.take() {
            Some(sender) => {
                let _ = sender.send(());
                true
            },
            None => false,
        }
    }
}

} // verus!
