use vstd::prelude::*;

use std::sync::mpsc::{Receiver, RecvError, RecvTimeoutError, SendError, Sender};
use std::time::Duration;

verus! {

#[verifier::external_type_specification]
#[verifier::external_body]
#[verifier::reject_recursive_types(T)]
pub struct ExSender<T>(Sender<T>);

#[verifier::external_type_specification]
#[verifier::external_body]
#[verifier::reject_recursive_types(T)]
pub struct ExReceiver<T>(Receiver<T>);

#[verifier::external_type_specification]
#[verifier::external_body]
#[verifier::reject_recursive_types(T)]
pub struct ExSendError<T>(SendError<T>);

#[verifier::external_type_specification]
#[verifier::external_body]
pub struct ExRecvError(RecvError);

#[verifier::external_type_specification]
#[verifier::external_body]
pub struct ExRecvTimeoutError(RecvTimeoutError);

/// Calls `std::sync::mpsc::channel` for messages without payload. Nothing is
/// claimed of the two ends.
#[verifier::external_body]
fn new_channel() -> (res: (Sender<()>, Receiver<()>)) {
    std::sync::mpsc::channel()
}

/// Calls `Sender::clone`. Nothing is claimed of the new sender.
#[verifier::external_body]
fn clone_sender(sx: &Sender<()>) -> (res: Sender<()>) {
    sx.clone()
}

/// Calls `Sender::send` with a message. Whether it succeeds depends on whether
/// a receiver is still alive, which is not claimed either way.
#[verifier::external_body]
fn send_message(sx: &Sender<()>) -> (res: Result<(), SendError<()>>) {
    sx.send(())
}

/// Calls `Receiver::recv` on the receiving end of a notification point.
/// `recv` blocks while no message is queued and a sender still exists, and
/// returns an error only once every sender is gone. The point holds a sender
/// of its own channel (made together with the receiver in
/// `CentralizedNotification::new`, and never replaced), so while it is
/// borrowed here a sender exists: the call either waits on, or returns `Ok`
/// with a message. When a message arrives is not claimed.
#[verifier::external_body]
fn receive_on_own_channel(point: &CentralizedNotification) -> (res: Result<(), RecvError>)
    ensures
        res is Ok,
{
    point.rx.recv()
}

/// Calls `Receiver::recv_timeout`. Whether a message arrives in time depends
/// on the senders and on time, and is not claimed.
#[verifier::external_body]
fn receive_message_timeout(rx: &Receiver<()>, duration: Duration) -> (res: Result<
    (),
    RecvTimeoutError,
>) {
    rx.recv_timeout(duration)
}

/// A point where many notifiers can wake one waiter.
pub struct CentralizedNotification {
    sx: Sender<()>,
    rx: Receiver<()>,
}

/// Wakes the waiter of a `CentralizedNotification`.
pub struct CentralizedNotifier {
    sx: Sender<()>,
}

/// Errors when notifying.
#[derive(Debug, PartialEq, Eq, Structural, Clone, Copy)]
pub enum CentralizedNotificationError {
    NoOneToReceiveNotification,
}

/// What a wait gives for the outcome of a receive: `Some(true)` when a
/// notification arrived, `None` when none did (timeout or disconnection).
pub fn notification_received<E>(received: Result<(), E>) -> (res: Option<bool>)
    ensures
        received is Ok ==> res == Some(true),
        received is Err ==> res is None,
{
    match received {
        Ok(()) => Some(true),
        Err(_) => None,
    }
}

/// What notifying gives for the outcome of a send: success, or
/// `NoOneToReceiveNotification` when the message could not be delivered.
pub fn notify_outcome<E>(sent: Result<(), E>) -> (res: Result<(), CentralizedNotificationError>)
    ensures
        sent is Ok ==> res is Ok,
        sent is Err ==> res == Err::<(), CentralizedNotificationError>(
            CentralizedNotificationError::NoOneToReceiveNotification,
        ),
{
    match sent {
        Ok(()) => Ok(()),
        Err(_) => Err(CentralizedNotificationError::NoOneToReceiveNotification),
    }
}

impl CentralizedNotification {
    /// A new notification point with its own channel: it keeps both the
    /// receiving end and a sender, from which every notifier is cloned.
    pub fn new() -> (res: Self) {
        let (sx, rx) = new_channel();
        CentralizedNotification { sx, rx }
    }

    /// Waits for a notification, at most `duration` when one is given. A
    /// notification that arrives gives `Some(true)`; `None` means that none
    /// came in time. Without a duration the wait lasts until a notification
    /// arrives, so it always gives `Some(true)`.
    pub fn wait_for_notification(&self, duration: Option<Duration>) -> (res: Option<bool>)
        ensures
            res is Some ==> res == Some(true),
            duration is None ==> res == Some(true),
    {
        match duration {
            Some(dur) => notification_received(receive_message_timeout(&self.rx, dur)),
            None => notification_received(receive_on_own_channel(self)),
        }
    }

    /// A notifier that wakes this notification point.
    pub fn create_notifier(&self) -> (res: CentralizedNotifier) {
        CentralizedNotifier { sx: clone_sender(&self.sx) }
    }
}

impl CentralizedNotifier {
    /// Sends a notification; fails when the notification point is gone.
    pub fn notify(&self) -> (res: Result<(), CentralizedNotificationError>)
        ensures
            res matches Err(e) ==> e == CentralizedNotificationError::NoOneToReceiveNotification,
    {
        notify_outcome(send_message(&self.sx))
    }
}

} // verus!
