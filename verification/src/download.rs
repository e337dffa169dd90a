//! The decisions of the model downloader: which downloads are
//! archives, how progress is reported, how retries back off, and how
//! archive paths are rewritten on extraction.
//!
//! The network transfer, the files and the archive reader live outside
//! this crate and consult these functions.

use vstd::prelude::*;

use vstd::arithmetic::power2::lemma2_to64_rest;
use vstd::arithmetic::power2::lemma_pow2_strictly_increases;
use vstd::arithmetic::power2::lemma_pow2_unfold;
use vstd::arithmetic::power2::pow2;

use crate::strutil::seq_ends_with;
use crate::strutil::str_ends_with;

verus! {

/// Whether a model id names a CoreML model.
pub fn is_coreml_model(model_id: &str) -> (r: bool)
    ensures
        r == seq_ends_with(model_id@, ".mlmodelc"@),
{
    str_ends_with(model_id, ".mlmodelc")
}

/// Whether a URL points to a zip file.
pub fn is_zip_url(url: &str) -> (r: bool)
    ensures
        r == seq_ends_with(url@, ".zip"@),
{
    str_ends_with(url, ".zip")
}

/// Whether a download must be extracted after it arrives: a CoreML
/// model delivered as a zip archive.
pub fn needs_extraction(model_id: &str, url: &str) -> (r: bool)
    ensures
        r == (seq_ends_with(model_id@, ".mlmodelc"@) && seq_ends_with(url@, ".zip"@)),
{
    is_coreml_model(model_id) && is_zip_url(url)
}

/// Progress of one download, as reported to the UI.
#[derive(Clone, Copy, PartialEq, Eq, Structural, Debug)]
pub struct DownloadProgress {
    /// Bytes received so far.
    pub downloaded: u64,
    /// Total bytes announced by the server, or zero when unknown.
    pub total: u64,
    /// Whole-number percentage, clamped to 255; zero when the total is
    /// unknown.
    pub percentage: u8,
}

/// The percentage a progress report carries.
pub open spec fn spec_percentage(downloaded: u64, total: u64) -> u8 {
    if total == 0 {
        0
    } else {
        let p = (downloaded * 100) / (total as int);
        if p > 255 {
            255
        } else {
            p as u8
        }
    }
}

impl DownloadProgress {
    /// The progress report for this many bytes of that total.
    pub fn report(downloaded: u64, total: u64) -> (r: DownloadProgress)
        ensures
            r.downloaded == downloaded,
            r.total == total,
            r.percentage == spec_percentage(downloaded, total),
    {
        let percentage: u8 = if total == 0 {
            0
        } else {
            let p: u128 = (downloaded as u128) * 100 / (total as u128);
            if p > 255 {
                255
            } else {
                p as u8
            }
        };
        DownloadProgress { downloaded, total, percentage }
    }
}

/// How long to wait before the given retry attempt, in seconds:
/// exponential backoff, doubling from one second.
pub fn retry_backoff_secs(attempt: u32) -> (r: u64)
    requires
        attempt < 64,
    ensures
        r == pow2(attempt as nat),
{
    let mut i: u32 = 0;
    let mut out: u64 = 1;
    proof {
        vstd::arithmetic::power2::lemma2_to64();
    }
    while i < attempt
        invariant
            0 <= i <= attempt < 64,
            out == pow2(i as nat),
            out <= 0x8000_0000_0000_0000,
        decreases attempt - i,
    {
        proof {
            lemma_pow2_unfold(i as nat + 1);
            lemma2_to64_rest();
            if i as nat + 1 < 63 {
                lemma_pow2_strictly_increases(i as nat + 1, 63);
            }
        }
        out = out * 2;
        i = i + 1;
    }
    out
}

/// Rewrite an archive member's path components for extraction: the
/// top-level directory of the archive is stripped, and a member that
/// is only that top-level entry is skipped.
pub fn strip_archive_root(components: &Vec<String>) -> (r: Option<Vec<String>>)
    ensures
        components@.len() > 1 ==> (r matches Some(rest) && rest@ =~= components@.skip(1)),
        components@.len() <= 1 ==> r is None,
{
    if components.len() <= 1 {
        return None;
    }
    let mut rest: Vec<String> = Vec::new();
    let mut i: usize = 1;
    while i < components.len()
        invariant
            1 <= i <= components@.len(),
            rest@ =~= components@.subrange(1, i as int),
        decreases components@.len() - i,
    {
        rest.push(components[i].clone());
        proof {
            assert(rest@ =~= components@.subrange(1, i + 1));
        }
        i = i + 1;
    }
    Some(rest)
}

} // verus!
