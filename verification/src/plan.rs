//! The pipeline's decision: skip, install, or fail.
//!
//! Once the latest release is fetched and the local state is read, one
//! decision fixes the rest of the run: a release without a name is an
//! error; a release whose name matches the marker while the binary exists
//! is skipped; otherwise the expected asset is selected for download, and
//! its absence is an error. Everything the later stages need — the version
//! to record, the asset's name and URL — is part of the returned plan.

use vstd::prelude::*;
use crate::errors::UpdaterError;
use crate::local::{spec_update_needed, update_needed, LocalState};
use crate::release::{find_asset, has_asset, is_first_match, require_name, Release};

verus! {

/// What the pipeline does once decided: nothing, or a full install.
#[derive(Debug)]
pub enum Plan {
    /// The local install is already the fetched release; the run ends here
    /// with no download and no write.
    AlreadyCurrent,
    /// Download `url`, decompress it into the install path, and record
    /// `version` in the marker file.
    Install {
        /// The fetched release's name, written to the marker on success.
        version: String,
        /// The selected asset's name; the download is staged under it.
        asset_name: String,
        /// The selected asset's download URL.
        browser_download_url: String,
    },
}

/// The four possible outcomes of the pipeline's decision.
pub enum Decision {
    /// The release has no name: fail before touching anything.
    Unnamed,
    /// Marker and binary are already current: end without an update.
    Skip,
    /// An update is needed and the expected asset exists: download it.
    Fetch,
    /// An update is needed but no asset has the expected name: fail
    /// before any write to the install path or the marker.
    NoAsset,
}

/// The pipeline's decision as a function of the fetched release, the local
/// state, and the expected asset name.
pub open spec fn decision(release: Release, local: LocalState, expected: Seq<char>) -> Decision {
    match release.name_view() {
        None => Decision::Unnamed,
        Some(v) => if !spec_update_needed(local, v) {
            Decision::Skip
        } else if has_asset(release.assets@, expected) {
            Decision::Fetch
        } else {
            Decision::NoAsset
        },
    }
}

/// Decides the run: validates the release's name, applies the version gate,
/// and selects the first asset named `expected`. The result matches
/// `decision` case for case.
pub fn plan_update(release: &Release, local: &LocalState, expected: &String) -> (r: Result<
    Plan,
    UpdaterError,
>)
    ensures
        match r {
            Ok(p) => match p {
                Plan::AlreadyCurrent => decision(*release, *local, expected@) is Skip,
                Plan::Install { version, asset_name, browser_download_url } => {
                    &&& decision(*release, *local, expected@) is Fetch
                    &&& release.name_view() == Some(version@)
                    &&& exists|i: int|
                        #[trigger] is_first_match(release.assets@, expected@, i)
                            && asset_name@ == release.assets@[i].name@
                            && browser_download_url@
                            == release.assets@[i].browser_download_url@
                },
            },
            Err(e) => match e {
                UpdaterError::ReleaseUnnamed => decision(*release, *local, expected@) is Unnamed,
                UpdaterError::AssetNotFound(n) => {
                    &&& decision(*release, *local, expected@) is NoAsset
                    &&& n@ == expected@
                },
                _ => false,
            },
        },
{
    let version = match require_name(release) {
        Ok(v) => v,
        Err(e) => {
            return Err(e);
        },
    };
    if !update_needed(local, &version) {
        return Ok(Plan::AlreadyCurrent);
    }
    let i = match find_asset(&release.assets, expected) {
        Ok(i) => i,
        Err(e) => {
            return Err(e);
        },
    };
    let asset_name = release.assets[i].name.clone();
    let browser_download_url = release.assets[i].browser_download_url.clone();
    proof {
        assert(is_first_match(release.assets@, expected@, i as int));
    }
    Ok(Plan::Install { version, asset_name, browser_download_url })
}

/// When the fetched release's name equals the stored marker and the
/// installed binary exists, the run is skipped: no download is attempted
/// and nothing is written.
pub proof fn lemma_skip_when_current(release: Release, local: LocalState, expected: Seq<char>)
    requires
        release.name_view() matches Some(v) && local.marker_view() == Some(v),
        local.exe_present,
    ensures
        decision(release, local, expected) is Skip,
{
}

/// When the marker differs from the fetched release's name, or the
/// installed binary is missing, the run is never skipped: it always
/// proceeds toward a download, which is attempted whenever the expected
/// asset exists.
pub proof fn lemma_fetch_when_stale(release: Release, local: LocalState, expected: Seq<char>)
    requires
        release.name_view() matches Some(v) && (local.marker_view() != Some(v)
            || !local.exe_present),
    ensures
        !(decision(release, local, expected) is Skip),
        !(decision(release, local, expected) is Unnamed),
        has_asset(release.assets@, expected) ==> decision(release, local, expected) is Fetch,
{
}

/// When no asset carries the expected name, the run fails with
/// `AssetNotFound`; the failure comes before the install stage, so neither
/// the install path nor the marker is written.
pub proof fn lemma_fail_when_asset_missing(release: Release, local: LocalState, expected: Seq<char>)
    requires
        release.name_view() matches Some(v) && spec_update_needed(local, v),
        !has_asset(release.assets@, expected),
    ensures
        decision(release, local, expected) is NoAsset,
{
}

} // verus!
