use modsync::config::SyncConfig;
use modsync::panel::ConfigPanel;

fn config(url: &str, path: &str) -> SyncConfig {
    SyncConfig {
        torrent_url: url.to_string(),
        download_path: path.to_string(),
        should_seed: false,
        max_upload_speed: None,
        max_download_speed: None,
    }
}

#[test]
fn controls_need_a_complete_configuration() {
    assert!(ConfigPanel::controls_enabled(&config("magnet:x", "/tmp/mods")));
    assert!(!ConfigPanel::controls_enabled(&config("", "/tmp/mods")));
    assert!(!ConfigPanel::controls_enabled(&config("magnet:x", "")));
    assert!(!ConfigPanel::controls_enabled(&config("", "")));
}
