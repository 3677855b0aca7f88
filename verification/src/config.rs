//! User-facing configuration of the synchronizer.

use vstd::prelude::*;

verus! {

/// What the user configured: where the content bundle comes from, where it
/// goes, whether to keep seeding after completion, and optional bandwidth
/// caps in kilobytes per second.  An empty download path is a distinct,
/// checked state meaning "unconfigured"; it gates transfer registration
/// rather than raising an error.
pub struct SyncConfig {
    pub torrent_url: String,
    pub download_path: String,
    pub should_seed: bool,
    pub max_upload_speed: Option<u64>,
    pub max_download_speed: Option<u64>,
}

/// Mathematical model of a configuration, with the strings as character
/// sequences.
pub struct ConfigModel {
    pub torrent_url: Seq<char>,
    pub download_path: Seq<char>,
    pub should_seed: bool,
    pub max_upload_speed: Option<u64>,
    pub max_download_speed: Option<u64>,
}

impl View for SyncConfig {
    type V = ConfigModel;

    open spec fn view(&self) -> ConfigModel {
        ConfigModel {
            torrent_url: self.torrent_url@,
            download_path: self.download_path@,
            should_seed: self.should_seed,
            max_upload_speed: self.max_upload_speed,
            max_download_speed: self.max_download_speed,
        }
    }
}

impl SyncConfig {
    /// A configuration is complete when both the remote source locator and
    /// the destination path are non-empty.
    pub open spec fn spec_is_complete(&self) -> bool {
        self@.torrent_url.len() > 0 && self@.download_path.len() > 0
    }

    /// Whether both the remote source locator and the destination path have
    /// been configured.
    pub fn is_complete(&self) -> (r: bool)
        ensures
            r == self.spec_is_complete(),
    {
        !self.torrent_url.as_str().is_empty() && !self.download_path.as_str().is_empty()
    }
}

} // verus!
