//! The spotifydown provider: a direct-download service for one music
//! catalogue.
//!
//! A URL is owned by this provider when the registrable root of its domain
//! is the catalogue's. The track identifier is the first alphanumeric run
//! following a `/track/` segment of the URL's path; the download request
//! asks the service's API for that track, and the response carries either
//! the media link or an explicit error message.

use vstd::prelude::*;

use crate::domain::domain_root_of;
use crate::domain::DomainParser;
use crate::errors::DownloadError;
use crate::paths::join_path;
use crate::paths::joined;
use crate::source_url::SourceUrl;
use crate::strkit::is_alnum;
use crate::strkit::alnum;
use crate::strkit::match_at;
use crate::strkit::matches_at;

verus! {

/// The path segment that introduces a track identifier.
pub open spec fn track_marker() -> Seq<char> {
    "/track/"@
}

/// Length of the alphanumeric run starting at `j`.
pub open spec fn alnum_run_len(s: Seq<char>, j: int) -> int
    decreases s.len() - j,
{
    if 0 <= j < s.len() && is_alnum(s[j]) {
        1 + alnum_run_len(s, j + 1)
    } else {
        0
    }
}

/// A track identifier starts at `i`: the marker, then at least one
/// alphanumeric character.
pub open spec fn track_hit(s: Seq<char>, i: int) -> bool {
    &&& 0 <= i
    &&& i + 7 < s.len()
    &&& s.subrange(i, i + 7) == track_marker()
    &&& is_alnum(s[i + 7])
}

/// The track identifier found at or after `i`: the maximal alphanumeric
/// run after the first marker occurrence that one follows.
pub open spec fn track_id_from(s: Seq<char>, i: int) -> Option<Seq<char>>
    decreases s.len() - i,
{
    if i < 0 || i + 7 > s.len() {
        None
    } else if track_hit(s, i) {
        Some(s.subrange(i + 7, i + 7 + alnum_run_len(s, i + 7)))
    } else {
        track_id_from(s, i + 1)
    }
}

/// The track identifier of a URL path, if it has one.
pub open spec fn spotify_track_id(path: Seq<char>) -> Option<Seq<char>> {
    track_id_from(path, 0)
}

/// A run that is alphanumeric on `[start, end)` and stops there has length
/// `end - start`.
proof fn lemma_alnum_run(s: Seq<char>, start: int, end: int)
    requires
        0 <= start <= end <= s.len(),
        forall|t: int| start <= t < end ==> is_alnum(s[t]),
        end == s.len() || !is_alnum(s[end]),
    ensures
        alnum_run_len(s, start) == end - start,
    decreases end - start,
{
    if start < end {
        lemma_alnum_run(s, start + 1, end);
    }
}

/// Skipping positions without a hit does not change the identifier found.
proof fn lemma_track_skip(s: Seq<char>, a: int, b: int)
    requires
        0 <= a <= b,
        forall|j: int| a <= j < b ==> !track_hit(s, j),
    ensures
        track_id_from(s, a) == track_id_from(s, b),
    decreases b - a,
{
    if a < b {
        if a + 7 > s.len() {
            assert(b + 7 > s.len());
        } else {
            lemma_track_skip(s, a + 1, b);
        }
    }
}

/// The first track identifier in `path`: the alphanumeric run after the
/// first `/track/` segment that one follows; `None` when there is none.
pub fn find_track_id(path: &str) -> (r: Option<String>)
    ensures
        r is Some <==> spotify_track_id(path@) is Some,
        r matches Some(id) ==> spotify_track_id(path@) == Some(id@),
{
    proof {
        reveal_strlit("/track/");
    }
    let marker = "/track/";
    proof {
        assert(marker@ =~= track_marker());
    }
    let len = path.unicode_len();
    if len < 7 {
        return None;
    }
    let mut i: usize = 0;
    while i <= len - 7
        invariant
            len == path@.len(),
            7 <= len,
            i <= len - 7 + 1,
            marker@ == track_marker(),
            marker@.len() == 7,
            forall|j: int| 0 <= j < i ==> !track_hit(path@, j),
        decreases len - i,
    {
        if match_at(path, marker, i) {
            if i + 7 < len {
                let c = path.get_char(i + 7);
                if alnum(c) {
                    proof {
                        assert(track_hit(path@, i as int));
                        lemma_track_skip(path@, 0, i as int);
                    }
                    let mut j = i + 8;
                    loop
                        invariant_except_break
                            len == path@.len(),
                            i + 8 <= j <= len,
                            forall|t: int| i + 7 <= t < j ==> is_alnum(path@[t]),
                        ensures
                            i + 8 <= j <= len,
                            forall|t: int| i + 7 <= t < j ==> is_alnum(path@[t]),
                            j == len || !is_alnum(path@[j as int]),
                        decreases len - j,
                    {
                        if j >= len {
                            break;
                        }
                        if !alnum(path.get_char(j)) {
                            break;
                        }
                        j += 1;
                    }
                    proof {
                        lemma_alnum_run(path@, i + 7, j as int);
                    }
                    let id = path.substring_char(i + 7, j);
                    return Some(String::from_str(id));
                }
            }
            proof {
                assert(!track_hit(path@, i as int));
            }
        } else {
            proof {
                assert(!(path@.subrange(i as int, i + 7) == track_marker())) by {
                    if path@.subrange(i as int, i + 7) == track_marker() {
                        assert(matches_at(path@, marker@, i as int));
                    }
                }
                assert(!track_hit(path@, i as int));
            }
        }
        i += 1;
    }
    proof {
        lemma_track_skip(path@, 0, i as int);
    }
    None
}

/// The service endpoint asked for a track's download link.
pub open spec fn spotify_api_prefix() -> Seq<char> {
    "https://api.spotifydown.com/download/"@
}

/// What the service answers to a download request: the media link, or an
/// explicit error message. Extra fields are ignored.
pub enum SpotifyDownloadResponse {
    Success { link: String },
    Error { message: String },
}

#[derive(Clone, Copy)]
pub struct SpotifydownProvider;

/// A URL is owned by this provider when the registrable root of its domain
/// is the catalogue's own.
pub open spec fn spotify_supports(u: SourceUrl) -> bool {
    u.domain matches Some(d) && domain_root_of(d@) == Some("spotify.com"@)
}

impl SpotifydownProvider {
    /// Whether this provider owns the URL.
    pub fn supports(&self, song_url: &SourceUrl) -> (r: bool)
        ensures
            r == spotify_supports(*song_url),
    {
        match DomainParser::get_domain_root(song_url) {
            None => false,
            Some(root) => {
                let target = String::from_str("spotify.com");
                root == target
            },
        }
    }

    /// The API request URL asking for the track's download link, or the
    /// immediate failure when the URL's path carries no track identifier.
    pub fn prepare_download_request(song_url: &SourceUrl) -> (r: Result<String, DownloadError>)
        ensures
            spotify_track_id(song_url.path@) matches Some(id) ==> r matches Ok(api) && api@
                == spotify_api_prefix() + id,
            spotify_track_id(song_url.path@) is None ==> (r matches Err(e)
                && (e matches DownloadError::ProviderLogic { message } && message@
                == "Invalid Spotify URL"@)),
    {
        match find_track_id(song_url.path.as_str()) {
            None => Err(DownloadError::ProviderLogic {
                message: String::from_str("Invalid Spotify URL"),
            }),
            Some(id) => {
                let mut api = String::from_str("https://api.spotifydown.com/download/");
                api.append(id.as_str());
                Ok(api)
            },
        }
    }

    /// Reads the service's answer: the media link on success, the
    /// provider's own error message otherwise, surfaced as-is.
    pub fn download_link_result(resp: &SpotifyDownloadResponse) -> (r: Result<
        String,
        DownloadError,
    >)
        ensures
            resp matches SpotifyDownloadResponse::Success { link } ==> r matches Ok(l) && l@
                == link@,
            resp matches SpotifyDownloadResponse::Error { message } ==> (r matches Err(e)
                && (e matches DownloadError::ProviderLogic { message: m } && m@ == message@)),
    {
        match resp {
            SpotifyDownloadResponse::Success { link } => Ok(link.clone()),
            SpotifyDownloadResponse::Error { message } => Err(DownloadError::ProviderLogic {
                message: message.clone(),
            }),
        }
    }

    /// The default path a fetched song is written to, under the download
    /// directory; the name is replaced when the response carries one.
    pub fn default_song_path(download_dir: &str) -> (r: String)
        ensures
            r@ == joined(download_dir@, "some song.mp3"@),
    {
        join_path(download_dir, "some song.mp3")
    }
}

} // verus!
