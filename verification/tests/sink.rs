use modsync::messages::{Emission, SyncEvent, SyncStatus};
use modsync::sink::forward_emissions;
use tokio::sync::mpsc;

#[test]
fn notifications_arrive_in_emission_order() {
    let (tx, mut rx) = mpsc::unbounded_channel();
    forward_emissions(
        &tx,
        vec![
            Emission::Status(SyncStatus::UpdatingTorrent),
            Emission::Event(SyncEvent::TorrentAdded(42)),
            Emission::Status(SyncStatus::Idle),
        ],
    );
    assert!(matches!(
        rx.try_recv(),
        Ok(Emission::Status(SyncStatus::UpdatingTorrent))
    ));
    assert!(matches!(
        rx.try_recv(),
        Ok(Emission::Event(SyncEvent::TorrentAdded(42)))
    ));
    assert!(matches!(rx.try_recv(), Ok(Emission::Status(SyncStatus::Idle))));
    assert!(rx.try_recv().is_err());
}

#[test]
fn send_without_receiver_is_swallowed() {
    let (tx, rx) = mpsc::unbounded_channel();
    drop(rx);
    // Losing an observer must never abort anything: this simply returns.
    forward_emissions(&tx, vec![Emission::Status(SyncStatus::Idle)]);
}
