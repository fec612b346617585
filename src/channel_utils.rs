//! Send endpoints that carry a human-readable channel label.
use vstd::prelude::*;

use std::sync::mpsc::{SendError, Sender};
use tokio::sync::mpsc::error::SendError as TokioSendError;
use tokio::sync::mpsc::UnboundedSender;

verus! {

#[verifier::external_type_specification]
#[verifier::external_body]
#[verifier::reject_recursive_types(T)]
pub struct ExSender<T>(Sender<T>);

#[verifier::external_type_specification]
#[verifier::reject_recursive_types(T)]
pub struct ExSendError<T>(SendError<T>);

#[verifier::external_type_specification]
#[verifier::external_body]
#[verifier::reject_recursive_types(T)]
pub struct ExUnboundedSender<T>(UnboundedSender<T>);

#[verifier::external_type_specification]
#[verifier::reject_recursive_types(T)]
pub struct ExTokioSendError<T>(TokioSendError<T>);

/// Relies on std's `Sender::send`: it fails only when the receiver is gone,
/// and then hands the unsent value back inside the error.
pub assume_specification<T>[ Sender::<T>::send ](sender: &Sender<T>, t: T) -> (r: Result<
    (),
    SendError<T>,
>)
    ensures
        match r {
            Ok(()) => true,
            Err(e) => e.0 == t,
        },
;

/// Relies on tokio's `UnboundedSender::send`: it fails only when the receive
/// half is closed, and then hands the unsent value back inside the error.
pub assume_specification<T>[ UnboundedSender::<T>::send ](
    sender: &UnboundedSender<T>,
    message: T,
) -> (r: Result<(), TokioSendError<T>>)
    ensures
        match r {
            Ok(()) => true,
            Err(e) => e.0 == message,
        },
;

/// Relies on std's `Clone` for `Sender`: a further handle on the same channel.
pub assume_specification<T>[ <Sender<T> as Clone>::clone ](sender: &Sender<T>) -> Sender<T>;

/// Relies on tokio's `Clone` for `UnboundedSender`: a further handle on the
/// same channel.
pub assume_specification<T>[ <UnboundedSender<T> as Clone>::clone ](
    sender: &UnboundedSender<T>,
) -> UnboundedSender<T>;

/// A std channel sender together with the label of its channel.
#[derive(Clone)]
#[verifier::reject_recursive_types(T)]
pub struct LoggingSender<T> {
    sender: Sender<T>,
    channel_name: String,
}

impl<T> LoggingSender<T> {
    /// The label of the channel.
    pub closed spec fn name(&self) -> Seq<char> {
        self.channel_name@
    }

    /// The wrapped sender.
    pub closed spec fn endpoint(&self) -> Sender<T> {
        self.sender
    }

    pub fn attach(sender: Sender<T>, channel_name: String) -> (r: Self)
        ensures
            r.endpoint() == sender,
            r.name() == channel_name@,
    {
        Self { sender, channel_name }
    }

    /// Forwards `message` unchanged; when the receiver is gone the message
    /// comes back inside the error.
    pub fn send(&self, message: T) -> (r: Result<(), SendError<T>>)
        ensures
            match r {
                Ok(()) => true,
                Err(e) => e.0 == message,
            },
    {
        self.sender.send(message)
    }

    /// The label of the channel.
    pub fn channel_name(&self) -> (r: &String)
        ensures
            r@ == self.name(),
    {
        &self.channel_name
    }
}

/// A tokio unbounded sender together with the label of its channel.
#[verifier::reject_recursive_types(T)]
pub struct LoggingTx<T> {
    tx: UnboundedSender<T>,
    channel_name: String,
}

impl<T> Clone for LoggingTx<T> {
    /// A further handle on the same queue, under the same label.
    fn clone(&self) -> (r: Self)
        ensures
            r.name() == self.name(),
    {
        Self { tx: self.tx.clone(), channel_name: self.channel_name.clone() }
    }
}

impl<T> LoggingTx<T> {
    /// The label of the channel.
    pub closed spec fn name(&self) -> Seq<char> {
        self.channel_name@
    }

    /// The wrapped sender.
    pub closed spec fn endpoint(&self) -> UnboundedSender<T> {
        self.tx
    }

    pub fn attach(tx: UnboundedSender<T>, channel_name: String) -> (r: Self)
        ensures
            r.endpoint() == tx,
            r.name() == channel_name@,
    {
        Self { tx, channel_name }
    }

    /// Forwards `message` unchanged; when the receive half is closed the
    /// message comes back inside the error.
    pub fn send(&self, message: T) -> (r: Result<(), TokioSendError<T>>)
        ensures
            match r {
                Ok(()) => true,
                Err(e) => e.0 == message,
            },
    {
        self.tx.send(message)
    }

    /// The label of the channel.
    pub fn channel_name(&self) -> (r: &String)
        ensures
            r@ == self.name(),
    {
        &self.channel_name
    }
}

} // verus!
