//! The two halves of the channel that carries notifications from ingestion
//! to the dashboard.

use crate::metrics::UiMessage;
use tokio::sync::mpsc::{UnboundedReceiver, UnboundedSender};
use vstd::prelude::*;

verus! {

/// tokio's `UnboundedSender`, the sending half of an unbounded channel. It
/// is carried through as it is: nothing of what it holds is visible here.
#[verifier::external_type_specification]
#[verifier::external_body]
#[verifier::reject_recursive_types(T)]
pub struct ExUnboundedSender<T>(UnboundedSender<T>);

/// tokio's `UnboundedReceiver`, the receiving half of an unbounded channel.
/// It is carried through as it is: nothing of what it holds is visible here.
#[verifier::external_type_specification]
#[verifier::external_body]
#[verifier::reject_recursive_types(T)]
pub struct ExUnboundedReceiver<T>(UnboundedReceiver<T>);

/// Hands `message` to tokio's `UnboundedSender::send`, which never blocks,
/// and tells whether the channel took it. The channel refuses a message once
/// its receiving half is closed or dropped, which this side cannot foresee:
/// nothing is claimed of the answer.
#[verifier::external_body]
pub(crate) fn offer(tx: &UnboundedSender<UiMessage>, message: UiMessage) -> (taken: bool) {
    tx.send(message).is_ok()
}

/// Asks tokio's `UnboundedReceiver::try_recv` for the next message, without
/// waiting for one: `None` where the channel is empty for now, and where it
/// is empty and every sender is gone. What it holds depends on the senders:
/// nothing is claimed of the answer.
#[verifier::external_body]
pub(crate) fn poll(rx: &mut UnboundedReceiver<UiMessage>) -> (message: Option<UiMessage>) {
    rx.try_recv().ok()
}

} // verus!
