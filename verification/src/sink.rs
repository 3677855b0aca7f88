//! The outward leg of the status channel: notifications leave the library on
//! an unbounded, non-blocking, fire-and-forget channel.
//!
//! Delivery is best-effort on purpose: losing a status update must never
//! abort a transfer operation, so a send failure (no live receiver) is
//! discarded rather than escalated.  What observers can rely on is the
//! order: every step's notifications are handed to the channel in exactly
//! the order the session manager produced them, and consumers receive them
//! in send order.

use vstd::prelude::*;

use crate::messages::Emission;

verus! {

/// The unbounded sending half of tokio's multi-producer, single-consumer
/// channel, on which notifications travel outward to observers.
#[verifier::external_type_specification]
#[verifier::external_body]
#[verifier::reject_recursive_types(T)]
pub struct ExUnboundedSender<T>(tokio::sync::mpsc::UnboundedSender<T>);

/// Relies on tokio's `UnboundedSender::send`: a non-blocking send that
/// queues the message for the receiver and errs only when the receiver has
/// been dropped.  The result is discarded on purpose: delivery here is
/// fire-and-forget.
#[verifier::external_body]
fn send_emission(tx: &tokio::sync::mpsc::UnboundedSender<Emission>, emission: Emission) {
    let _ = tx.send(emission);
}

/// Hand one step's notifications to the observers' channel, first to last,
/// so that the send order is the emission order the session manager proved.
pub fn forward_emissions(
    tx: &tokio::sync::mpsc::UnboundedSender<Emission>,
    emissions: Vec<Emission>,
) {
    let mut remaining = emissions;
    while remaining.len() > 0
        decreases remaining.len(),
    {
        let emission = remaining.remove(0);
        send_emission(tx, emission);
    }
}

} // verus!
