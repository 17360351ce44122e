//! The remote release model: a named release with its downloadable assets.
//!
//! The remote hosting API returns, for the tracked repository, one latest
//! release: a version label and an ordered list of assets. The pipeline
//! selects the single asset whose name equals a fixed expected name and
//! downloads it from that asset's URL.

use vstd::prelude::*;
use crate::errors::UpdaterError;

verus! {

/// One downloadable file attached to a release.
pub struct Asset {
    /// The asset's file name, matched exactly against the expected name.
    pub name: String,
    /// The URL from which the asset's bytes are downloaded.
    pub browser_download_url: String,
}

/// A published release of the tracked repository.
pub struct Release {
    /// The release's version label. The remote API may omit it; a release
    /// without a name cannot be compared against the local marker.
    pub name: Option<String>,
    /// The release's assets, in the order the API lists them.
    pub assets: Vec<Asset>,
}

impl Release {
    /// The release's name as a sequence of characters, when present.
    pub open spec fn name_view(&self) -> Option<Seq<char>> {
        match self.name {
            Some(n) => Some(n@),
            None => None,
        }
    }
}

/// Whether some asset in `assets` carries exactly the name `expected`.
pub open spec fn has_asset(assets: Seq<Asset>, expected: Seq<char>) -> bool {
    exists|i: int| 0 <= i < assets.len() && assets[i].name@ == expected
}

/// Whether `i` is the position of the first asset named `expected`.
pub open spec fn is_first_match(assets: Seq<Asset>, expected: Seq<char>, i: int) -> bool {
    &&& 0 <= i < assets.len()
    &&& assets[i].name@ == expected
    &&& forall|j: int| 0 <= j < i ==> assets[j].name@ != expected
}

/// Returns the release's name, or `ReleaseUnnamed` when the API omitted it.
pub fn require_name(release: &Release) -> (r: Result<String, UpdaterError>)
    ensures
        match r {
            Ok(n) => release.name_view() == Some(n@),
            Err(e) => e is ReleaseUnnamed && release.name_view() is None,
        },
{
    match &release.name {
        Some(n) => Ok(n.clone()),
        None => Err(UpdaterError::ReleaseUnnamed),
    }
}

/// Finds the index of the first asset named `expected`, scanning in list
/// order, or fails with `AssetNotFound` carrying the expected name.
pub fn find_asset(assets: &Vec<Asset>, expected: &String) -> (r: Result<usize, UpdaterError>)
    ensures
        match r {
            Ok(i) => is_first_match(assets@, expected@, i as int),
            Err(e) => {
                &&& e matches UpdaterError::AssetNotFound(n) && n@ == expected@
                &&& !has_asset(assets@, expected@)
            },
        },
        (r is Ok) <==> has_asset(assets@, expected@),
{
    let n = assets.len();
    for i in 0..n
        invariant
            n == assets@.len(),
            forall|j: int| 0 <= j < i ==> assets@[j].name@ != expected@,
    {
        if assets[i].name == *expected {
            return Ok(i);
        }
    }
    Err(UpdaterError::AssetNotFound(expected.clone()))
}

} // verus!
