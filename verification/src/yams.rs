//! The yams provider: a submit-then-poll music download service.
//!
//! Submission posts the source URL with a quality parameter chosen by
//! matching the URL's host against a fixed service table (first matching
//! substring wins; no match fails immediately, before any network call)
//! and a fixed delivery-host parameter. The service answers with a job id;
//! the job is then polled (see [`crate::poller`]) until it yields a result
//! URL, an explicit error, or times out. The result is a zip from which
//! the first plausible file entry is extracted.

use vstd::prelude::*;

use crate::errors::DownloadError;
use crate::paths::join_path;
use crate::paths::joined;
use crate::source_url::SourceUrl;
use crate::strkit::contains_substring;
use crate::strkit::has_substring;
use crate::text::dec_of;
use crate::text::dec_string;

verus! {

/// The submit/status endpoint of the download service.
pub fn yams_api_url() -> (r: String)
    ensures
        r@ == "https://yams.tf/api"@,
{
    String::from_str("https://yams.tf/api")
}

/// The quality parameter for a host: the first service name of the table
/// that occurs in the host wins.
pub open spec fn quality_for(host: Seq<char>) -> Option<Seq<char>> {
    if has_substring(host, "spotify"@) {
        Some("very_high"@)
    } else if has_substring(host, "qobuz"@) {
        Some("27"@)
    } else if has_substring(host, "tidal"@) {
        Some("3"@)
    } else if has_substring(host, "apple"@) {
        Some("high"@)
    } else if has_substring(host, "deezer"@) {
        Some("2"@)
    } else if has_substring(host, "youtube"@) {
        Some("0"@)
    } else {
        None
    }
}

/// The quality parameter for a URL, read from its host (absent counts as
/// an empty host).
pub open spec fn quality_of_url(u: SourceUrl) -> Option<Seq<char>> {
    quality_for(u.host_view())
}

#[derive(Clone, Copy)]
pub struct YamsProvider;

impl YamsProvider {
    /// The quality parameter to request for this URL, per the service
    /// table; `None` when no table entry matches the host.
    pub fn get_quality(song_url: &SourceUrl) -> (r: Option<&'static str>)
        ensures
            r is Some <==> quality_of_url(*song_url) is Some,
            r matches Some(q) ==> quality_of_url(*song_url) == Some(q@),
    {
        let host = song_url.host_or_empty();
        if contains_substring(host, "spotify") {
            Some("very_high")
        } else if contains_substring(host, "qobuz") {
            Some("27")
        } else if contains_substring(host, "tidal") {
            Some("3")
        } else if contains_substring(host, "apple") {
            Some("high")
        } else if contains_substring(host, "deezer") {
            Some("2")
        } else if contains_substring(host, "youtube") {
            Some("0")
        } else {
            None
        }
    }

    /// Whether this provider owns the URL: it does exactly when the
    /// quality table matches the host.
    pub fn supports(&self, song_url: &SourceUrl) -> (r: bool)
        ensures
            r == (quality_of_url(*song_url) is Some),
    {
        Self::get_quality(song_url).is_some()
    }
}

/// The body of a submit request: the source URL, the chosen quality, and
/// the fixed delivery host.
#[derive(Debug)]
pub struct SubmitRequest {
    pub url: String,
    pub quality: String,
    pub host: String,
}

impl YamsProvider {
    /// Builds the submit request for a URL. Fails immediately — before any
    /// network call is possible — when the quality table has no entry for
    /// the URL's host; otherwise the request carries exactly the table's
    /// quality value, the URL's serialization, and the fixed delivery
    /// host.
    pub fn prepare_submit(song_url: &SourceUrl) -> (r: Result<SubmitRequest, DownloadError>)
        ensures
            quality_of_url(*song_url) matches Some(q) ==> r matches Ok(req) && {
                &&& req.url@ == song_url.full@
                &&& req.quality@ == q
                &&& req.host@ == "filehaus"@
            },
            quality_of_url(*song_url) is None ==> r == Result::<SubmitRequest, DownloadError>::Err(
                DownloadError::QualityUnknown,
            ),
    {
        match Self::get_quality(song_url) {
            None => Err(DownloadError::QualityUnknown),
            Some(q) => Ok(SubmitRequest {
                url: song_url.full.clone(),
                quality: String::from_str(q),
                host: String::from_str("filehaus"),
            }),
        }
    }

    /// The status URL polled for a submitted job.
    pub fn poll_url(job_id: u64) -> (r: String)
        ensures
            r@ == "https://yams.tf/api?id="@ + dec_of(job_id as nat),
    {
        let mut s = String::from_str("https://yams.tf/api?id=");
        let d = dec_string(job_id as u128);
        s.append(d.as_str());
        proof {
            assert(s@ =~= "https://yams.tf/api?id="@ + dec_of(job_id as nat));
        }
        s
    }

    /// Where the job's zip is written under the download directory.
    pub fn zip_path(download_dir: &str) -> (r: String)
        ensures
            r@ == joined(download_dir@, "file.zip"@),
    {
        join_path(download_dir, "file.zip")
    }
}

/// One entry of the downloaded zip, as the extraction step reads it: is it
/// a plain file, and its enclosed file name when that name is usable.
pub struct ZipEntry {
    pub is_file: bool,
    pub file_name: Option<String>,
}

/// An entry is extracted when it is a plain file whose enclosed name
/// exists and does not start with a dot.
pub open spec fn zip_entry_eligible(e: ZipEntry) -> bool {
    &&& e.is_file
    &&& e.file_name is Some
    &&& !(e.file_name->0@.len() > 0 && e.file_name->0@[0] == '.')
}

/// Picks the entry to extract from the zip: the first eligible one, in
/// archive order; `None` when no entry is eligible.
pub fn select_zip_entry(entries: &Vec<ZipEntry>) -> (r: Option<usize>)
    ensures
        r matches Some(i) ==> i < entries@.len() && zip_entry_eligible(entries@[i as int])
            && forall|j: int| 0 <= j < i ==> !zip_entry_eligible(#[trigger] entries@[j]),
        r is None ==> forall|j: int|
            0 <= j < entries@.len() ==> !zip_entry_eligible(#[trigger] entries@[j]),
{
    let n = entries.len();
    let mut i: usize = 0;
    while i < n
        invariant
            n == entries@.len(),
            i <= n,
            forall|j: int| 0 <= j < i ==> !zip_entry_eligible(#[trigger] entries@[j]),
        decreases n - i,
    {
        let e = &entries[i];
        if e.is_file {
            match &e.file_name {
                Some(name) => {
                    let nl = name.as_str().unicode_len();
                    let hidden = nl > 0 && name.as_str().get_char(0) == '.';
                    if !hidden {
                        return Some(i);
                    }
                },
                None => {},
            }
        }
        i += 1;
    }
    None
}

} // verus!
