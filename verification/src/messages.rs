//! Lifecycle notifications flowing outward to observers, and the intents the
//! presentation layer sends back in.
//!
//! A [`SyncStatus`] is the synchronizer's current state; a [`SyncEvent`] is a
//! record of something that happened.  Both travel outward as [`Emission`]s on
//! a best-effort, fire-and-forget channel owned by the caller.  The session
//! manager returns the emissions of each step as a plain vector, in the exact
//! order they are to be sent, so that the order observers see is the order
//! proved here.

use vstd::prelude::*;

verus! {

/// Current state of the synchronizer, delivered to observers as read-only
/// copies.  `UpdatingTorrent` is the only transitional state; `Idle` and
/// `Error` are resting states.
#[derive(Debug)]
pub enum SyncStatus {
    Idle,
    UpdatingTorrent,
    Error(String),
}

/// A record of something that happened during a replace cycle.
#[derive(Debug)]
pub enum SyncEvent {
    TorrentAdded(usize),
    Error(String),
}

/// One outward notification: either a status update or an event.
#[derive(Debug)]
pub enum Emission {
    Status(SyncStatus),
    Event(SyncEvent),
}

/// Intents the presentation layer sends to whatever process owns the
/// scheduling loop.  The session manager never interprets these itself.
#[derive(Debug)]
pub enum UiMessage {
    TriggerManualRefresh,
    TriggerFolderVerify,
}

/// Mathematical model of a status, with messages as character sequences.
pub enum StatusModel {
    Idle,
    Updating,
    Error(Seq<char>),
}

/// Mathematical model of an event.
pub enum EventModel {
    Added(usize),
    Error(Seq<char>),
}

/// Mathematical model of one outward notification.
pub enum EmissionModel {
    Status(StatusModel),
    Event(EventModel),
}

impl View for SyncStatus {
    type V = StatusModel;

    open spec fn view(&self) -> StatusModel {
        match self {
            SyncStatus::Idle => StatusModel::Idle,
            SyncStatus::UpdatingTorrent => StatusModel::Updating,
            SyncStatus::Error(m) => StatusModel::Error(m@),
        }
    }
}

impl View for SyncEvent {
    type V = EventModel;

    open spec fn view(&self) -> EventModel {
        match self {
            SyncEvent::TorrentAdded(id) => EventModel::Added(*id),
            SyncEvent::Error(m) => EventModel::Error(m@),
        }
    }
}

impl View for Emission {
    type V = EmissionModel;

    open spec fn view(&self) -> EmissionModel {
        match self {
            Emission::Status(s) => EmissionModel::Status(s@),
            Emission::Event(e) => EmissionModel::Event(e@),
        }
    }
}

impl DeepView for Emission {
    type V = EmissionModel;

    open spec fn deep_view(&self) -> EmissionModel {
        self.view()
    }
}

/// Whether one notification is an error event (an `Error` on the event side;
/// an `Error` status does not count).
pub open spec fn is_error_event(e: EmissionModel) -> bool {
    e matches EmissionModel::Event(EventModel::Error(_))
}

/// How many of the notifications are error events.
pub open spec fn error_event_count(s: Seq<EmissionModel>) -> nat
    decreases s.len(),
{
    if s.len() == 0 {
        0
    } else {
        error_event_count(s.drop_last()) + (if is_error_event(s.last()) {
            1nat
        } else {
            0nat
        })
    }
}

/// Appending one notification raises the error-event count by one exactly
/// when that notification is an error event.
pub proof fn lemma_error_event_count_push(s: Seq<EmissionModel>, e: EmissionModel)
    ensures
        error_event_count(s.push(e)) == error_event_count(s) + (if is_error_event(e) {
            1nat
        } else {
            0nat
        }),
{
    assert(s.push(e).drop_last() =~= s);
    assert(s.push(e).last() == e);
}

/// The error-event count of a concatenation is the sum of the two counts.
pub proof fn lemma_error_event_count_add(a: Seq<EmissionModel>, b: Seq<EmissionModel>)
    ensures
        error_event_count(a + b) == error_event_count(a) + error_event_count(b),
    decreases b.len(),
{
    if b.len() == 0 {
        assert(a + b =~= a);
    } else {
        assert((a + b).drop_last() =~= a + b.drop_last());
        assert((a + b).last() == b.last());
        lemma_error_event_count_add(a, b.drop_last());
    }
}

/// The last status among the notifications, if any: the state a
/// status-rendering observer is left showing.
pub open spec fn last_status(s: Seq<EmissionModel>) -> Option<StatusModel>
    decreases s.len(),
{
    if s.len() == 0 {
        None
    } else {
        match s.last() {
            EmissionModel::Status(st) => Some(st),
            EmissionModel::Event(_) => last_status(s.drop_last()),
        }
    }
}

} // verus!
