use modsync::config::SyncConfig;
use modsync::messages::{Emission, SyncEvent, SyncStatus};
use modsync::session::{
    resume_task, start_task, EngineReply, EngineRequest, TaskNext, TaskOutcome,
};

fn config(url: &str, path: &str, seed: bool, up: Option<u64>, down: Option<u64>) -> SyncConfig {
    SyncConfig {
        torrent_url: url.to_string(),
        download_path: path.to_string(),
        should_seed: seed,
        max_upload_speed: up,
        max_download_speed: down,
    }
}

#[test]
fn full_replace_cycle_with_previous_transfer() {
    // config{url="magnet:x", path="/tmp/mods", seed=false, up=None, down=500},
    // previous=Some(7), forget ok, add returns id 42.
    let cfg = config("magnet:x", "/tmp/mods", false, None, Some(500));

    let step = start_task(&cfg, Some(7));
    assert_eq!(step.emissions.len(), 1);
    assert!(matches!(
        step.emissions[0],
        Emission::Status(SyncStatus::UpdatingTorrent)
    ));
    let TaskNext::Request(EngineRequest::Forget(id)) = step.next else {
        panic!("expected a retire request");
    };
    assert_eq!(id, 7);

    let step = resume_task(&cfg, EngineReply::ForgetOk);
    assert_eq!(step.emissions.len(), 1);
    assert!(matches!(
        step.emissions[0],
        Emission::Status(SyncStatus::UpdatingTorrent)
    ));
    let TaskNext::Request(EngineRequest::Register(opts)) = step.next else {
        panic!("expected a registration request");
    };
    assert_eq!(opts.output_folder, "/tmp/mods");
    assert!(opts.overwrite);
    assert!(opts.paused, "not seeding, so the transfer starts paused");
    assert_eq!(opts.ratelimits.download_bps, Some(512_000));
    assert_eq!(opts.ratelimits.upload_bps, None);

    let step = resume_task(&cfg, EngineReply::AddOk(Some(42)));
    assert_eq!(step.emissions.len(), 2);
    assert!(matches!(
        step.emissions[0],
        Emission::Event(SyncEvent::TorrentAdded(42))
    ));
    assert!(matches!(step.emissions[1], Emission::Status(SyncStatus::Idle)));
    let TaskNext::Done(TaskOutcome::Completed(id)) = step.next else {
        panic!("expected a completed cycle");
    };
    assert_eq!(id, Some(42));
}

#[test]
fn unconfigured_destination_reports_and_completes() {
    // config{path=""}, previous=None: no engine call, one error event,
    // final status Error, completion without an identifier.
    let cfg = config("magnet:x", "", false, None, None);

    let step = start_task(&cfg, None);
    assert_eq!(step.emissions.len(), 2);
    match &step.emissions[0] {
        Emission::Event(SyncEvent::Error(m)) => {
            assert_eq!(m, "destination not configured")
        },
        other => panic!("expected an error event, got {other:?}"),
    }
    match &step.emissions[1] {
        Emission::Status(SyncStatus::Error(m)) => {
            assert_eq!(m, "destination not configured")
        },
        other => panic!("expected an error status, got {other:?}"),
    }
    let TaskNext::Done(TaskOutcome::Completed(id)) = step.next else {
        panic!("expected completion without any engine request");
    };
    assert_eq!(id, None);
}

#[test]
fn retire_failure_still_registers() {
    let cfg = config("magnet:x", "/tmp/mods", true, None, None);

    let step = start_task(&cfg, Some(3));
    assert!(matches!(
        step.next,
        TaskNext::Request(EngineRequest::Forget(3))
    ));

    let step = resume_task(&cfg, EngineReply::ForgetFailed("old one is gone".to_string()));
    assert_eq!(step.emissions.len(), 2);
    match &step.emissions[0] {
        Emission::Event(SyncEvent::Error(m)) => assert_eq!(m, "old one is gone"),
        other => panic!("expected the retire failure event, got {other:?}"),
    }
    assert!(matches!(
        step.emissions[1],
        Emission::Status(SyncStatus::UpdatingTorrent)
    ));
    let TaskNext::Request(EngineRequest::Register(opts)) = step.next else {
        panic!("a failed retire must not stop the registration");
    };
    assert!(!opts.paused, "seeding, so the transfer starts unpaused");
}

#[test]
fn registration_without_identifier_is_a_soft_anomaly() {
    let cfg = config("magnet:x", "/tmp/mods", false, None, None);

    let step = resume_task(&cfg, EngineReply::AddOk(None));
    assert_eq!(step.emissions.len(), 2);
    match &step.emissions[0] {
        Emission::Event(SyncEvent::Error(m)) => {
            assert_eq!(m, "registered but no identifier returned")
        },
        other => panic!("expected an error event, got {other:?}"),
    }
    match &step.emissions[1] {
        Emission::Status(SyncStatus::Error(m)) => {
            assert_eq!(m, "registered but no identifier returned")
        },
        other => panic!("expected an error status, got {other:?}"),
    }
    let TaskNext::Done(TaskOutcome::Completed(id)) = step.next else {
        panic!("expected completion");
    };
    assert_eq!(id, None);
}

#[test]
fn registration_failure_is_fatal_and_never_idle() {
    let cfg = config("magnet:x", "/tmp/mods", false, None, None);

    let step = resume_task(&cfg, EngineReply::AddFailed("engine unreachable".to_string()));
    assert!(step.emissions.is_empty());
    let TaskNext::Done(TaskOutcome::Failed(err)) = step.next else {
        panic!("a failed add must fail the cycle");
    };
    assert_eq!(err.context, "failed to register new transfer with the engine");
    assert_eq!(err.detail, "engine unreachable");
}

#[test]
fn rate_limits_apply_to_each_direction_independently() {
    let cfg = config("magnet:x", "/tmp/mods", true, Some(100), Some(0));

    let step = start_task(&cfg, None);
    let TaskNext::Request(EngineRequest::Register(opts)) = step.next else {
        panic!("expected a registration request");
    };
    assert_eq!(opts.ratelimits.upload_bps, Some(102_400));
    assert_eq!(opts.ratelimits.download_bps, None);
}
