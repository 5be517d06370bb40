use vstd::prelude::*;
use crate::version::{Version, version_text};

verus! {

/// A supported platform/architecture combination of the published archives.
#[derive(Clone, Copy, Debug, PartialEq, Eq, Structural)]
pub enum Tuple {
    WindowsX86,
    WindowsX8664,
    LinuxX8664,
    Mac,
    FreeBSDX8664,
    LinuxAlpine,
    LinuxX86,
}

/// An identifier that names no supported platform.
#[derive(Debug)]
pub enum TupleError {
    NotRecognized(String),
}

/// How a release archive is packed.
#[derive(Clone, Copy, Debug, PartialEq, Eq, Structural)]
pub enum ArchiveType {
    Bzip2Tarball,
    Zip,
}

/// The file-name suffix of an archive format.
pub open spec fn extension_of(a: ArchiveType) -> Seq<char> {
    match a {
        ArchiveType::Bzip2Tarball => "tar.bz2"@,
        ArchiveType::Zip => "zip"@,
    }
}

/// The identifier of a platform, as the mirror's file names carry it.
pub open spec fn identifier_of(t: Tuple) -> Seq<char> {
    match t {
        Tuple::LinuxAlpine => "linux_alpine"@,
        Tuple::LinuxX86 => "linux_x86"@,
        Tuple::FreeBSDX8664 => "freebsd_amd64"@,
        Tuple::LinuxX8664 => "linux_amd64"@,
        Tuple::Mac => "mac"@,
        Tuple::WindowsX86 => "win32"@,
        Tuple::WindowsX8664 => "win64"@,
    }
}

/// Windows and macOS archives are zip files; all others are bzip2 tarballs.
pub open spec fn archive_type_of(t: Tuple) -> ArchiveType {
    match t {
        Tuple::Mac | Tuple::WindowsX86 | Tuple::WindowsX8664 => ArchiveType::Zip,
        _ => ArchiveType::Bzip2Tarball,
    }
}

/// The platform whose identifier is exactly `s`, if any.
pub open spec fn tuple_named(s: Seq<char>) -> Option<Tuple> {
    if s == "linux_amd64"@ {
        Some(Tuple::LinuxX8664)
    } else if s == "win64"@ {
        Some(Tuple::WindowsX8664)
    } else if s == "linux_alpine"@ {
        Some(Tuple::LinuxAlpine)
    } else if s == "freebsd_amd64"@ {
        Some(Tuple::FreeBSDX8664)
    } else if s == "mac"@ {
        Some(Tuple::Mac)
    } else if s == "win32"@ {
        Some(Tuple::WindowsX86)
    } else if s == "linux_x86"@ {
        Some(Tuple::LinuxX86)
    } else {
        None
    }
}

/// The platform that a running system of the given operating system and
/// architecture (as Rust names them) downloads, if it has one.
pub open spec fn detected_tuple(os: Seq<char>, arch: Seq<char>) -> Option<Tuple> {
    if os == "windows"@ && arch == "x86_64"@ {
        Some(Tuple::WindowsX8664)
    } else if os == "windows"@ && arch == "x86"@ {
        Some(Tuple::WindowsX86)
    } else if os == "macos"@ {
        Some(Tuple::Mac)
    } else if os == "linux"@ && arch == "x86_64"@ {
        Some(Tuple::LinuxX8664)
    } else if os == "linux"@ && arch == "x86"@ {
        Some(Tuple::LinuxX86)
    } else if os == "freebsd"@ {
        Some(Tuple::FreeBSDX8664)
    } else {
        None
    }
}

/// The archive file name that the mirror publishes for a platform and version:
/// `teamspeak3-server_<identifier>-<version>.<extension>`.
pub open spec fn archive_filename_of(t: Tuple, v: crate::version::VersionView) -> Seq<char> {
    "teamspeak3-server_"@ + identifier_of(t) + "-"@ + version_text(v) + "."@ + extension_of(
        archive_type_of(t),
    )
}

/// What `str::to_lowercase` makes of a text.
pub uninterp spec fn lower_of(s: Seq<char>) -> Seq<char>;

/// Relies on str::to_lowercase, whose result depends on the characters alone.
#[verifier::external_body]
fn lowercase(s: &str) -> (r: String)
    ensures
        r@ == lower_of(s@),
{
    s.to_lowercase()
}

fn same_text(a: &str, b: &str) -> (r: bool)
    ensures
        r == (a@ == b@),
{
    a.to_owned() == b.to_owned()
}

impl ArchiveType {
    pub fn extension(&self) -> (r: &'static str)
        ensures
            r@ == extension_of(*self),
    {
        match self {
            ArchiveType::Bzip2Tarball => "tar.bz2",
            ArchiveType::Zip => "zip",
        }
    }
}

impl Tuple {
    pub fn target_string(&self) -> (r: &'static str)
        ensures
            r@ == identifier_of(*self),
    {
        match self {
            Tuple::LinuxAlpine => "linux_alpine",
            Tuple::LinuxX86 => "linux_x86",
            Tuple::FreeBSDX8664 => "freebsd_amd64",
            Tuple::LinuxX8664 => "linux_amd64",
            Tuple::Mac => "mac",
            Tuple::WindowsX86 => "win32",
            Tuple::WindowsX8664 => "win64",
        }
    }

    /// Resolves a platform identifier, ignoring letter case.
    pub fn resolve(s: &str) -> (r: Result<Tuple, TupleError>)
        ensures
            r matches Ok(t) ==> tuple_named(lower_of(s@)) == Some(t),
            r matches Err(TupleError::NotRecognized(m)) ==> tuple_named(lower_of(s@)) is None
                && m@ == s@,
    {
        let lower = lowercase(s);
        let l = lower.as_str();
        if same_text(l, "linux_amd64") {
            Ok(Tuple::LinuxX8664)
        } else if same_text(l, "win64") {
            Ok(Tuple::WindowsX8664)
        } else if same_text(l, "linux_alpine") {
            Ok(Tuple::LinuxAlpine)
        } else if same_text(l, "freebsd_amd64") {
            Ok(Tuple::FreeBSDX8664)
        } else if same_text(l, "mac") {
            Ok(Tuple::Mac)
        } else if same_text(l, "win32") {
            Ok(Tuple::WindowsX86)
        } else if same_text(l, "linux_x86") {
            Ok(Tuple::LinuxX86)
        } else {
            Err(TupleError::NotRecognized(s.to_owned()))
        }
    }

    pub fn archive_type(&self) -> (r: ArchiveType)
        ensures
            r == archive_type_of(*self),
    {
        match self {
            Tuple::Mac | Tuple::WindowsX86 | Tuple::WindowsX8664 => ArchiveType::Zip,
            _ => ArchiveType::Bzip2Tarball,
        }
    }

    pub fn archive_filename(&self, version: &Version) -> (r: String)
        ensures
            r@ == archive_filename_of(*self, version@),
    {
        let mut s = String::from_str("teamspeak3-server_");
        s.append(self.target_string());
        s.append("-");
        s.append(version.to_text().as_str());
        s.append(".");
        s.append(self.archive_type().extension());
        s
    }

    /// The platform of a running system, from its operating system and
    /// architecture names; `None` where no archive is published for it.
    pub fn deduce(os: &str, arch: &str) -> (r: Option<Tuple>)
        ensures
            r == detected_tuple(os@, arch@),
    {
        let windows = same_text(os, "windows");
        let linux = same_text(os, "linux");
        let x86_64 = same_text(arch, "x86_64");
        let x86 = same_text(arch, "x86");
        if windows && x86_64 {
            Some(Tuple::WindowsX8664)
        } else if windows && x86 {
            Some(Tuple::WindowsX86)
        } else if same_text(os, "macos") {
            Some(Tuple::Mac)
        } else if linux && x86_64 {
            Some(Tuple::LinuxX8664)
        } else if linux && x86 {
            Some(Tuple::LinuxX86)
        } else if same_text(os, "freebsd") {
            Some(Tuple::FreeBSDX8664)
        } else {
            None
        }
    }
}

impl core::str::FromStr for Tuple {
    type Err = TupleError;

    fn from_str(s: &str) -> Result<Tuple, TupleError> {
        Tuple::resolve(s)
    }
}

} // verus!
