use vstd::prelude::*;
use crate::version::{Version, semver_parse};

verus! {

/// What the filesystem says of the live pointer's target.
pub struct ResolvedPointer {
    /// The resolved target is a directory.
    pub is_dir: bool,
    /// The target's last path segment, where it is valid text.
    pub dir_name: Option<String>,
}

/// Why the installed version could not be read.
#[derive(Clone, Copy, Debug, PartialEq, Eq, Structural)]
pub enum LocalError {
    /// The pointer does not resolve to a directory.
    NotADirectory,
    /// The directory's name is not valid text, or not a version.
    InvalidVersionEncoding,
}

/// The installed version: the name of the release directory that the live
/// pointer resolves to.
pub fn installed_version(pointer: &ResolvedPointer) -> (r: Result<Version, LocalError>)
    ensures
        !pointer.is_dir ==> r == Err::<Version, LocalError>(LocalError::NotADirectory),
        pointer.is_dir && pointer.dir_name is None ==> r == Err::<Version, LocalError>(
            LocalError::InvalidVersionEncoding,
        ),
        pointer.is_dir && pointer.dir_name is Some ==> match semver_parse(
            pointer.dir_name.unwrap()@,
        ) {
            Some(v) => (r matches Ok(w) && w@ == v),
            None => r == Err::<Version, LocalError>(LocalError::InvalidVersionEncoding),
        },
{
    if !pointer.is_dir {
        return Err(LocalError::NotADirectory);
    }
    match &pointer.dir_name {
        Some(name) => match Version::parse(name.as_str()) {
            Some(v) => Ok(v),
            None => Err(LocalError::InvalidVersionEncoding),
        },
        None => Err(LocalError::InvalidVersionEncoding),
    }
}

} // verus!
