//! Version resolution and the local registry of a game-engine version manager.
//!
//! - `version`: the version entity, its directory-name codec and the tag comparator.
//! - `utils`: decoding the installed directories and resolving a query against them.
//! - `remote`: merging the release feeds, resolving a query against the catalog and
//!   choosing the download for the running platform.
//! - `lifecycle`: the install and uninstall sequences as state machines.
//! - `procedure`: numbered progress lines.
//! - `text`: string helpers with exact specifications.
use vstd::prelude::*;

pub mod text;
pub mod version;
pub mod utils;
pub mod remote;
pub mod lifecycle;
pub mod procedure;

verus! {

} // verus!
