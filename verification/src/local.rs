//! The local install state: the version marker and the installed binary.
//!
//! The pipeline reads two pieces of local state before deciding anything:
//! the content of the version marker file, and whether the installed binary
//! exists. A successful install changes both: the binary is written with
//! execute permission, then the marker is overwritten with the new version.
//! The caller performs those file operations and tracks their effect here.

use vstd::prelude::*;
use crate::config::{install_mode, mode_allows_execution};

verus! {

/// What the pipeline knows of the local installation.
pub struct LocalState {
    /// The version marker file's content, or `None` when the file is absent
    /// or unreadable. The absence of prior state is expected on a first run
    /// and is not an error.
    pub marker: Option<String>,
    /// Whether a file exists at the installed binary's path. Its mere
    /// existence, not its content, counts as a valid install.
    pub exe_present: bool,
    /// The installed binary's permission bits; meaningful only when
    /// `exe_present` holds.
    pub exe_mode: u32,
}

impl LocalState {
    /// The marker's content as a sequence of characters, when present.
    pub open spec fn marker_view(&self) -> Option<Seq<char>> {
        match self.marker {
            Some(m) => Some(m@),
            None => None,
        }
    }

    /// Whether the installed binary exists at its fixed path.
    pub fn ra_exists(&self) -> (r: bool)
        ensures
            r == self.exe_present,
    {
        self.exe_present
    }
}

/// Whether an update must run: it is skipped only when the marker holds
/// exactly the fetched release's name and the installed binary exists; any
/// other state, the marker's absence included, proceeds to fetch.
pub open spec fn spec_update_needed(local: LocalState, latest: Seq<char>) -> bool {
    !(local.marker_view() == Some(latest) && local.exe_present)
}

/// The version gate: decides from the local state and the fetched release's
/// name whether the pipeline proceeds to fetch and install.
pub fn update_needed(local: &LocalState, latest: &String) -> (r: bool)
    ensures
        r == spec_update_needed(*local, latest@),
{
    let current = match &local.marker {
        Some(m) => *m == *latest,
        None => false,
    };
    !(current && local.exe_present)
}

/// How installing the binary changes the local state: the binary now exists
/// with the standard install mode; the marker is untouched.
pub open spec fn install_applied(pre: LocalState, post: LocalState) -> bool {
    &&& post.exe_present
    &&& post.exe_mode == 0o744u32
    &&& post.marker_view() == pre.marker_view()
}

/// How writing the marker changes the local state: the marker now holds
/// exactly `version`; the binary's state is untouched.
pub open spec fn marker_written(pre: LocalState, post: LocalState, version: Seq<char>) -> bool {
    &&& post.marker_view() == Some(version)
    &&& post.exe_present == pre.exe_present
    &&& post.exe_mode == pre.exe_mode
}

/// The local state after the binary is decompressed into place and marked
/// executable.
pub fn apply_install(local: LocalState) -> (r: LocalState)
    ensures
        install_applied(local, r),
{
    LocalState { exe_present: true, exe_mode: install_mode(), ..local }
}

/// The local state after the marker file is overwritten with `version`.
pub fn apply_marker_write(local: LocalState, version: String) -> (r: LocalState)
    ensures
        marker_written(local, r, version@),
{
    LocalState { marker: Some(version), ..local }
}

/// After a successful run — the binary installed, then the marker written —
/// the marker holds exactly the fetched release's name, and the binary
/// exists with the executable permission bit set.
pub proof fn lemma_successful_run_state(
    start: LocalState,
    installed: LocalState,
    done: LocalState,
    version: Seq<char>,
)
    requires
        install_applied(start, installed),
        marker_written(installed, done, version),
    ensures
        done.marker_view() == Some(version),
        done.exe_present,
        mode_allows_execution(done.exe_mode),
{
    assert(0o744u32 & 0o100 != 0) by (bit_vector);
}

} // verus!
