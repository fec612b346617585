//! Collects items one by one and forwards everything collected so far as one
//! message.
use vstd::prelude::*;

use std::sync::mpsc::SendError;
use tokio::sync::mpsc::error::SendError as TokioSendError;

use crate::channel_utils::LoggingTx;

verus! {

/// Queues items and sends each batch of them as one `Vec`, in the order they
/// were queued.
#[verifier::reject_recursive_types(C)]
pub struct DrawCommandBatcher<C> {
    pending: Vec<C>,
    draw_command_tx: LoggingTx<Vec<C>>,
}

impl<C> DrawCommandBatcher<C> {
    /// The sender that each batch goes out through.
    pub closed spec fn output(&self) -> LoggingTx<Vec<C>> {
        self.draw_command_tx
    }

    /// The items queued since the last batch, oldest first.
    pub closed spec fn queued(&self) -> Seq<C> {
        self.pending@
    }

    /// A batcher with an empty queue whose batches go to `draw_command_tx`.
    pub fn new(draw_command_tx: LoggingTx<Vec<C>>) -> (r: Self)
        ensures
            r.output() == draw_command_tx,
            r.queued() == Seq::<C>::empty(),
    {
        DrawCommandBatcher { pending: Vec::new(), draw_command_tx }
    }

    /// Adds `draw_command` to the end of the current batch.
    pub fn queue(&mut self, draw_command: C) -> (r: Result<(), Box<SendError<C>>>)
        ensures
            r is Ok,
            final(self).queued() == old(self).queued().push(draw_command),
            final(self).output() == old(self).output(),
    {
        self.pending.push(draw_command);
        Ok(())
    }

    /// Sends everything queued so far as one message, in the order queued,
    /// and starts a new, empty batch; when the receive side is closed the
    /// whole batch comes back inside the error.
    pub fn send_batch(&mut self) -> (r: Result<(), TokioSendError<Vec<C>>>)
        ensures
            final(self).queued() == Seq::<C>::empty(),
            final(self).output() == old(self).output(),
            match r {
                Ok(()) => true,
                Err(e) => e.0@ == old(self).queued(),
            },
    {
        let mut batch: Vec<C> = Vec::new();
        std::mem::swap(&mut batch, &mut self.pending);
        self.draw_command_tx.send(batch)
    }
}

} // verus!
