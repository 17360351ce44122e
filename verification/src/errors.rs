//! The pipeline's error taxonomy.
//!
//! Every error is fatal: the caller reports it and stops. The only
//! non-error short circuit is the version gate's "already current" outcome,
//! which is not an error.

use vstd::prelude::*;
use vstd::string::StringExecFns;

verus! {

/// One error kind per failing stage of the pipeline.
#[derive(Debug, PartialEq, Eq)]
pub enum UpdaterError {
    /// The release lookup against the remote hosting API failed.
    RemoteApi(String),
    /// Downloading the selected asset failed at the transport level.
    Transport(String),
    /// A local file could not be read, created, written or re-moded.
    Io(String),
    /// The release carries no asset with the expected name.
    AssetNotFound(String),
    /// The fetched release has no name, so no version can be compared.
    ReleaseUnnamed,
    /// The home directory, and with it every fixed path, is unavailable.
    PathNotObtainable,
}

impl UpdaterError {
    /// The human-readable line that the process prints for this error.
    pub open spec fn message_view(&self) -> Seq<char> {
        match self {
            UpdaterError::RemoteApi(d) => "remote api error: "@ + d@,
            UpdaterError::Transport(d) => "transport error: "@ + d@,
            UpdaterError::Io(d) => "io error: "@ + d@,
            UpdaterError::AssetNotFound(n) => "asset "@ + n@ + " not found"@,
            UpdaterError::ReleaseUnnamed => "release has no name"@,
            UpdaterError::PathNotObtainable => "install path not obtainable"@,
        }
    }

    /// Renders the error as the exact line described by `message_view`.
    pub fn message(&self) -> (r: String)
        ensures
            r@ == self.message_view(),
    {
        match self {
            UpdaterError::RemoteApi(d) => {
                let r = "remote api error: ".to_owned().concat(d.as_str());
                proof {
                    assert(r@ =~= self.message_view());
                }
                r
            },
            UpdaterError::Transport(d) => {
                let r = "transport error: ".to_owned().concat(d.as_str());
                proof {
                    assert(r@ =~= self.message_view());
                }
                r
            },
            UpdaterError::Io(d) => {
                let r = "io error: ".to_owned().concat(d.as_str());
                proof {
                    assert(r@ =~= self.message_view());
                }
                r
            },
            UpdaterError::AssetNotFound(n) => {
                let r = "asset ".to_owned().concat(n.as_str()).concat(" not found");
                proof {
                    assert(r@ =~= self.message_view());
                }
                r
            },
            UpdaterError::ReleaseUnnamed => "release has no name".to_owned(),
            UpdaterError::PathNotObtainable => "install path not obtainable".to_owned(),
        }
    }
}

} // verus!
