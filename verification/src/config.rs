//! The pipeline's fixed configuration.
//!
//! The tracked repository, the expected asset name, the install location and
//! the marker file name are process-wide constants. They are gathered in one
//! struct, built once at startup and passed into each stage, so that a test
//! can run the pipeline's decisions against substitute values.

use vstd::prelude::*;
use vstd::string::StringExecFns;

verus! {

/// The constants that select what is updated and where it is installed.
pub struct Config {
    /// Owner of the tracked repository on the hosting platform.
    pub owner: String,
    /// Name of the tracked repository.
    pub repo: String,
    /// Exact name of the release asset to download.
    pub asset_name: String,
    /// File name of the installed binary.
    pub bin_name: String,
    /// Directory of the installed binary, relative to the home directory.
    pub bin_dir: String,
    /// Name of the version marker file, relative to the home directory.
    pub version_file: String,
}

impl Config {
    /// The standard configuration: track rust-analyzer's releases and
    /// install the Linux x86-64 build under the user's local bin directory.
    pub fn standard() -> (r: Config)
        ensures
            r.owner@ == "rust-lang"@,
            r.repo@ == "rust-analyzer"@,
            r.asset_name@ == "rust-analyzer-x86_64-unknown-linux-gnu.gz"@,
            r.bin_name@ == "rust-analyzer"@,
            r.bin_dir@ == ".local/bin"@,
            r.version_file@ == ".ra-version"@,
    {
        Config {
            owner: "rust-lang".to_owned(),
            repo: "rust-analyzer".to_owned(),
            asset_name: "rust-analyzer-x86_64-unknown-linux-gnu.gz".to_owned(),
            bin_name: "rust-analyzer".to_owned(),
            bin_dir: ".local/bin".to_owned(),
            version_file: ".ra-version".to_owned(),
        }
    }

    /// The installed binary's path relative to the home directory:
    /// the install directory, a separator, and the binary's file name.
    pub fn install_rel_path(&self) -> (r: String)
        ensures
            r@ == self.bin_dir@ + "/"@ + self.bin_name@,
    {
        let r = self.bin_dir.clone().concat("/").concat(self.bin_name.as_str());
        proof {
            assert(r@ =~= self.bin_dir@ + "/"@ + self.bin_name@);
        }
        r
    }
}

/// The permission bits set on the installed binary: read, write and execute
/// for the owner; read for group and others.
pub fn install_mode() -> (m: u32)
    ensures
        m == 0o744u32,
{
    0o744
}

/// Whether permission bits `m` let the owner execute the file.
pub open spec fn mode_allows_execution(m: u32) -> bool {
    m & 0o100 != 0
}

/// The standard install mode marks the file executable by its owner.
pub proof fn lemma_install_mode_is_executable()
    ensures
        mode_allows_execution(0o744),
{
    assert(0o744u32 & 0o100 != 0) by (bit_vector);
}

} // verus!
