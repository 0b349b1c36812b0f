//! The standalone submit-then-poll downloader that predates the provider
//! registry. It speaks the same protocol as [`crate::yams`], with two
//! differences: the job id is a free-form token, and the status response
//! marks an absent error or URL with an empty string rather than leaving
//! the field out.

use vstd::prelude::*;

use crate::errors::DownloadError;
use crate::paths::join_path;
use crate::paths::joined;
use crate::poller::PollResponse;
use crate::source_url::SourceUrl;
use crate::yams::quality_of_url;
use crate::yams::SubmitRequest;
use crate::yams::YamsProvider;

verus! {

pub struct SongDownload;

impl SongDownload {
    /// Builds the submit request for a URL; the quality table and delivery
    /// host are those of [`YamsProvider::prepare_submit`].
    pub fn prepare_submit(song_url: &SourceUrl) -> (r: Result<SubmitRequest, DownloadError>)
        ensures
            quality_of_url(*song_url) matches Some(q) ==> r matches Ok(req) && {
                &&& req.url@ == song_url.full@
                &&& req.quality@ == q
                &&& req.host@ == "filehaus"@
            },
            quality_of_url(*song_url) is None ==> r == Result::<SubmitRequest, DownloadError>::Err(
                DownloadError::QualityUnknown,
            ),
    {
        YamsProvider::prepare_submit(song_url)
    }

    /// Reduces a status response that marks absent fields with empty
    /// strings to the poller's form: a non-empty error fails the job, a
    /// non-empty URL completes it, and both empty means still pending.
    pub fn status_response(error: String, url: String) -> (r: PollResponse)
        ensures
            error@.len() > 0 ==> (r.error matches Some(m) && m@ == error@),
            error@.len() == 0 ==> r.error is None,
            url@.len() > 0 ==> (r.url matches Some(u) && u@ == url@),
            url@.len() == 0 ==> r.url is None,
    {
        let error_part = if error.as_str().is_empty() {
            None
        } else {
            Some(error)
        };
        let url_part = if url.as_str().is_empty() {
            None
        } else {
            Some(url)
        };
        PollResponse { error: error_part, url: url_part }
    }

    /// The status URL polled for a job; the id is a URL-safe token and is
    /// used verbatim as the query value.
    pub fn poll_url(download_id: &str) -> (r: String)
        ensures
            r@ == "https://yams.tf/api?id="@ + download_id@,
    {
        let mut s = String::from_str("https://yams.tf/api?id=");
        s.append(download_id);
        s
    }

    /// Where the job's zip is written under the download directory.
    pub fn zip_path(download_dir: &str) -> (r: String)
        ensures
            r@ == joined(download_dir@, "file.zip"@),
    {
        join_path(download_dir, "file.zip")
    }
}

} // verus!
