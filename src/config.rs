use vstd::prelude::*;
use crate::target::Tuple;

verus! {

/// The resolved parameters of one run; nothing in the library changes them.
pub struct Config {
    /// Path of the symbolic link that designates the live release.
    pub symlink_path: String,
    /// Directory that holds one subdirectory per installed version.
    pub releases_path: String,
    /// Platform whose archives are downloaded.
    pub target_tuple: Tuple,
    /// Base URL of the mirror's release listing.
    pub mirror_url: String,
}

} // verus!
