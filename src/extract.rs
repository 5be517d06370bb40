use vstd::prelude::*;
use crate::target::ArchiveType;

verus! {

/// What bzip2 decompression makes of some bytes, or `None` where they are
/// no bzip2 stream.
pub uninterp spec fn bzip2_decoded(data: Seq<u8>) -> Option<Seq<u8>>;

/// Relies on bzip2's `bufread::BzDecoder`, read to its end.
#[verifier::external_body]
fn decompress_bzip2(data: &[u8]) -> (r: Option<Vec<u8>>)
    ensures
        r is None <==> bzip2_decoded(data@) is None,
        r matches Some(out) ==> bzip2_decoded(data@) == Some(out@),
{
    let mut out = Vec::new();
    let mut decoder = bzip2::bufread::BzDecoder::new(data);
    std::io::Read::read_to_end(&mut decoder, &mut out).ok()?;
    Some(out)
}

/// A downloaded archive, ready to be unpacked.
pub enum ArchiveContents {
    /// A zip container, unpacked entry by entry.
    Zip(Vec<u8>),
    /// A plain tar stream.
    Tar(Vec<u8>),
}

/// Why an archive could not be read.
#[derive(Clone, Copy, Debug, PartialEq, Eq, Structural)]
pub enum ExtractError {
    CorruptArchive,
}

/// Prepares a downloaded archive by its format: a zip container is kept as
/// it is; a bzip2 tarball is decompressed, whole, into its tar stream.
pub fn decode_archive(kind: ArchiveType, data: Vec<u8>) -> (r: Result<ArchiveContents, ExtractError>)
    ensures
        kind == ArchiveType::Zip ==> (r matches Ok(ArchiveContents::Zip(d)) && d@ == data@),
        kind == ArchiveType::Bzip2Tarball ==> match bzip2_decoded(data@) {
            Some(t) => (r matches Ok(ArchiveContents::Tar(d)) && d@ == t),
            None => (r matches Err(ExtractError::CorruptArchive)),
        },
{
    match kind {
        ArchiveType::Zip => Ok(ArchiveContents::Zip(data)),
        ArchiveType::Bzip2Tarball => match decompress_bzip2(data.as_slice()) {
            Some(tar) => Ok(ArchiveContents::Tar(tar)),
            None => Err(ExtractError::CorruptArchive),
        },
    }
}

} // verus!
