//! Download requests for a crate given by name and version text.

use vstd::prelude::*;

verus! {

/// The downloader of crate archives that takes requests by name and
/// version; it holds no state.
#[derive(Debug, Clone, Copy, Default)]
pub struct CrateDownloader {}

/// A request to download a crate.
#[derive(Debug, Clone, PartialEq, Eq)]
pub struct DownloadCrate {
    /// The crate's name
    pub name: String,
    /// The crate's version, as text
    pub version: String,
}

impl DownloadCrate {
    /// A request for a crate.
    pub fn new(name: String, version: String) -> (r: Self)
        ensures
            r.name@ == name@,
            r.version@ == version@,
    {
        DownloadCrate { name, version }
    }
}

} // verus!
