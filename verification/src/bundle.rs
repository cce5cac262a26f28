//! When the embedded runtime bundle must be extracted into the data
//! directory, and when the copy already there is kept.

use vstd::prelude::*;
use vstd::string::*;

use crate::errors::LaunchError;
use crate::text::{same_text, trim_white_space, trimmed};

verus! {

/// What reading the bundle version stamp gave.
#[derive(Debug)]
pub enum StampRead {
    /// There is no stamp file.
    Missing,
    /// A stamp file exists but could not be read as text.
    Unreadable,
    /// The stamp file's contents.
    Found(String),
}

/// What to do with the runtime directory before the interpreter starts.
#[derive(Clone, Copy, Debug, PartialEq, Eq, Structural)]
pub enum ExtractionPlan {
    /// Use the runtime directory as it is: it matches this build, or this
    /// build carries no bundle and a runtime was placed there by hand.
    Reuse,
    /// Unpack the bundle and write the stamp, after deleting the old runtime
    /// directory when `clear_old` is set.
    Extract { clear_old: bool },
    /// The bundle is empty and no runtime is in place, so there is nothing to
    /// run: fail, after deleting the old runtime directory when `clear_old`
    /// is set.
    Refuse { clear_old: bool },
}

/// The plan for a stamp reading, the version of this build, the length of
/// the embedded bundle and whether an extracted interpreter is in place:
/// a stamp whose trimmed text is the version is reused; otherwise a
/// non-empty bundle is extracted, after clearing away any other stamp's
/// runtime; a build without a bundle (development mode) runs the runtime
/// placed by hand when there is one, and fails when there is none.
pub open spec fn plan_of(
    stamp: StampRead,
    version: Seq<char>,
    bundle_len: nat,
    runtime_present: bool,
) -> ExtractionPlan {
    let clear_old = !(stamp is Missing);
    match stamp {
        StampRead::Found(s) if trimmed(s@) == version => ExtractionPlan::Reuse,
        _ => if bundle_len != 0 {
            ExtractionPlan::Extract { clear_old }
        } else if runtime_present {
            ExtractionPlan::Reuse
        } else {
            ExtractionPlan::Refuse { clear_old }
        },
    }
}

/// Decides, from the stamp reading, this build's version, the embedded
/// bundle's length and whether the runtime's interpreter already exists,
/// whether the runtime is reused, re-extracted, or cannot be provided.
pub fn plan_extraction(
    stamp: &StampRead,
    version: &str,
    bundle_len: usize,
    runtime_present: bool,
) -> (p: ExtractionPlan)
    ensures
        p == plan_of(*stamp, version@, bundle_len as nat, runtime_present),
{
    let clear_old = match stamp {
        StampRead::Missing => false,
        StampRead::Unreadable => true,
        StampRead::Found(s) => {
            let t = trim_white_space(s.as_str());
            if same_text(t, version) {
                return ExtractionPlan::Reuse;
            }
            true
        },
    };
    if bundle_len != 0 {
        ExtractionPlan::Extract { clear_old }
    } else if runtime_present {
        ExtractionPlan::Reuse
    } else {
        ExtractionPlan::Refuse { clear_old }
    }
}

/// Extraction is done once per version: once a bundle has been extracted and
/// its stamp written, the next launch of the same build reuses it, whatever
/// the bundle. (A version with surrounding white space would never match its
/// own trimmed stamp; build versions have none.)
pub proof fn lemma_extraction_is_remembered(version: String, bundle_len: nat, runtime_present: bool)
    requires
        trimmed(version@) == version@,
    ensures
        plan_of(StampRead::Found(version), version@, bundle_len, runtime_present)
            == ExtractionPlan::Reuse,
{
}

/// A build that carries a bundle never runs a runtime of another version: a
/// stamp that differs from this build's version, once trimmed, has the old
/// runtime deleted and the bundle unpacked.
pub proof fn lemma_version_change_replaces_runtime(
    stamp: String,
    version: Seq<char>,
    bundle_len: nat,
    runtime_present: bool,
)
    requires
        trimmed(stamp@) != version,
        bundle_len > 0,
    ensures
        plan_of(StampRead::Found(stamp), version, bundle_len, runtime_present)
            == (ExtractionPlan::Extract { clear_old: true }),
{
}

/// A build that carries a bundle reuses the runtime in place only when the
/// stamp's trimmed text is this build's version; a missing stamp means a
/// fresh extraction with nothing to delete, and an unreadable stamp or one of
/// another version means deleting the old runtime and extracting anew,
/// whether or not an interpreter is in place. Only a stamp that exists is
/// ever a reason to delete.
pub proof fn lemma_bundle_build_plans(stamp: StampRead, version: Seq<char>, bundle_len: nat, runtime_present: bool)
    ensures
        bundle_len > 0 && plan_of(stamp, version, bundle_len, runtime_present) == ExtractionPlan::Reuse
            ==> (stamp matches StampRead::Found(s) && trimmed(s@) == version),
        bundle_len > 0 && stamp is Unreadable ==> plan_of(stamp, version, bundle_len, runtime_present)
            == (ExtractionPlan::Extract { clear_old: true }),
        bundle_len > 0 && stamp is Missing ==> plan_of(stamp, version, bundle_len, runtime_present)
            == (ExtractionPlan::Extract { clear_old: false }),
        bundle_len > 0 && (stamp matches StampRead::Found(s) && trimmed(s@) != version) ==> plan_of(
            stamp,
            version,
            bundle_len,
            runtime_present,
        ) == (ExtractionPlan::Extract { clear_old: true }),
        plan_of(stamp, version, bundle_len, runtime_present) matches ExtractionPlan::Extract {
            clear_old,
        } ==> (clear_old == !(stamp is Missing)) && bundle_len > 0,
        plan_of(stamp, version, bundle_len, runtime_present) matches ExtractionPlan::Refuse {
            clear_old,
        } ==> clear_old == !(stamp is Missing) && bundle_len == 0 && !runtime_present,
{
}

/// A build without a bundle (development mode) runs a runtime placed by hand,
/// deleting nothing, whatever the stamp says; with none in place it fails.
pub proof fn lemma_development_mode(stamp: StampRead, version: Seq<char>)
    ensures
        plan_of(stamp, version, 0, true) == ExtractionPlan::Reuse,
        plan_of(stamp, version, 0, false) is Reuse || plan_of(stamp, version, 0, false) is Refuse,
{
}

/// The name for zstd decompression as `zstd::stream::decode_all` performs it:
/// the data that the zstd frames in `compressed` decode to, or `None` when
/// they do not decode (not valid zstd data, or frames whose window exceeds
/// the default decoder's limit of 2^27 bytes).
pub uninterp spec fn zstd_decoded(compressed: Seq<u8>) -> Option<Seq<u8>>;

/// Trusted: calls `zstd::stream::decode_all` on the bytes, which decodes
/// them as zstd frames into a vector or fails with an I/O error. The contract
/// claims that success and the bytes produced are the function of the input
/// named `zstd_decoded`, and that a failure means the input does not decode.
#[verifier::external_body]
fn zstd_decode_all(compressed: &[u8]) -> (r: Option<Vec<u8>>)
    ensures
        r matches Some(v) ==> zstd_decoded(compressed@) == Some(v@),
        r is None ==> zstd_decoded(compressed@) is None,
{
    zstd::stream::decode_all(compressed).ok()
}

/// Decompresses the embedded bundle into the tar archive that the caller
/// unpacks into the runtime directory.
pub fn decompress_bundle(bundle: &[u8]) -> (r: Result<Vec<u8>, LaunchError>)
    ensures
        r matches Ok(v) ==> zstd_decoded(bundle@) == Some(v@),
        r matches Err(e) ==> zstd_decoded(bundle@) is None && e is CorruptBundle,
{
    match zstd_decode_all(bundle) {
        Some(archive) => Ok(archive),
        None => Err(LaunchError::CorruptBundle),
    }
}

} // verus!
