//! The bounded hand-off queues between the game loop and the
//! autopilot worker. The endpoints are opaque here: nothing is
//! assumed about which value a receive yields, so every caller is
//! verified for every outcome.

use vstd::prelude::*;
use std::sync::mpsc::{Receiver, SyncSender};

use crate::client::models::OutputContent;
use crate::models::RequestInfo;

verus! {

#[verifier::external_type_specification]
#[verifier::external_body]
#[verifier::reject_recursive_types(T)]
pub struct ExSyncSender<T>(SyncSender<T>);

#[verifier::external_type_specification]
#[verifier::external_body]
#[verifier::reject_recursive_types(T)]
pub struct ExReceiver<T>(Receiver<T>);

/// Relies on std's `SyncSender::try_send`: it never blocks, and it
/// returns an error instead of queueing when the bounded queue is
/// full or disconnected. Which of the two happens is outside this
/// model, so nothing is promised of the result.
#[verifier::external_body]
pub fn try_send_request(tx: &SyncSender<RequestInfo>, info: RequestInfo) -> (sent: bool) {
    tx.try_send(info).is_ok()
}

/// Relies on std's `Receiver::try_recv`: it never blocks, and it
/// yields a value only when one is waiting. Which value arrives is
/// outside this model, so nothing is promised of the result.
#[verifier::external_body]
pub fn try_recv_response(rx: &Receiver<OutputContent>) -> (r: Option<OutputContent>) {
    rx.try_recv().ok()
}

} // verus!
