//! The provider registry and resolver.
//!
//! Providers are held in a fixed, priority-ordered list built once at
//! startup; a URL belongs to the first provider whose `supports` check
//! accepts it, and to no other — there is no fallback chain past that
//! fixed order. `supports` is a pure check; fetching is the surrounding
//! process's work, driven by the per-provider request builders and state
//! machines of this crate.

use vstd::prelude::*;

use crate::errors::DownloadError;
use crate::source_url::SourceUrl;
use crate::spotifydown::spotify_supports;
use crate::spotifydown::SpotifydownProvider;
use crate::yams::quality_of_url;
use crate::yams::YamsProvider;

verus! {

/// The capability every provider exposes to the resolver: a pure,
/// network-free ownership check. Fetching itself is outside work and is
/// not part of this interface.
pub trait Handler {
    /// What the provider's ownership check means.
    spec fn supports_spec(&self, song_url: SourceUrl) -> bool;

    /// Whether this provider owns the URL.
    fn handler_supports(&self, song_url: &SourceUrl) -> (r: bool)
        ensures
            r == self.supports_spec(*song_url),
    ;
}

impl Handler for YamsProvider {
    open spec fn supports_spec(&self, song_url: SourceUrl) -> bool {
        quality_of_url(song_url) is Some
    }

    fn handler_supports(&self, song_url: &SourceUrl) -> (r: bool) {
        self.supports(song_url)
    }
}

impl Handler for SpotifydownProvider {
    open spec fn supports_spec(&self, song_url: SourceUrl) -> bool {
        spotify_supports(song_url)
    }

    fn handler_supports(&self, song_url: &SourceUrl) -> (r: bool) {
        self.supports(song_url)
    }
}

/// One registered provider.
#[derive(Clone, Copy)]
pub enum DownloadHandler {
    Yams(YamsProvider),
    Spotifydown(SpotifydownProvider),
}

/// Which URLs a registered provider owns.
pub open spec fn handler_supports(h: DownloadHandler, song_url: SourceUrl) -> bool {
    match h {
        DownloadHandler::Yams(p) => p.supports_spec(song_url),
        DownloadHandler::Spotifydown(p) => p.supports_spec(song_url),
    }
}

impl DownloadHandler {
    /// Whether this provider owns the URL.
    pub fn supports(&self, song_url: &SourceUrl) -> (r: bool)
        ensures
            r == handler_supports(*self, *song_url),
    {
        match self {
            DownloadHandler::Yams(p) => p.handler_supports(song_url),
            DownloadHandler::Spotifydown(p) => p.handler_supports(song_url),
        }
    }
}

pub struct Downloader;

impl Downloader {
    /// The provider list, in resolution priority order. Built once at
    /// startup; the order is itself a policy and is stable across runs.
    pub fn handlers() -> (r: Vec<DownloadHandler>)
        ensures
            r@.len() == 2,
            r@[0] == DownloadHandler::Yams(YamsProvider),
            r@[1] == DownloadHandler::Spotifydown(SpotifydownProvider),
    {
        let mut v: Vec<DownloadHandler> = Vec::new();
        v.push(DownloadHandler::Yams(YamsProvider));
        v.push(DownloadHandler::Spotifydown(SpotifydownProvider));
        v
    }

    /// Resolves a URL to the first provider of the list that owns it, or
    /// to the resolution error naming the URL when none does. A URL maps
    /// to exactly one provider; a later provider is never consulted once
    /// an earlier one accepts.
    pub fn resolve(handlers: &Vec<DownloadHandler>, song_url: &SourceUrl) -> (r: Result<
        usize,
        DownloadError,
    >)
        ensures
            r matches Ok(i) ==> i < handlers@.len() && handler_supports(
                handlers@[i as int],
                *song_url,
            ) && forall|j: int|
                0 <= j < i ==> !handler_supports(#[trigger] handlers@[j], *song_url),
            r matches Err(e) ==> (forall|j: int|
                0 <= j < handlers@.len() ==> !handler_supports(#[trigger] handlers@[j], *song_url))
                && (e matches DownloadError::Resolution { url } && url@ == song_url.full@),
    {
        let n = handlers.len();
        let mut i: usize = 0;
        while i < n
            invariant
                n == handlers@.len(),
                i <= n,
                forall|j: int| 0 <= j < i ==> !handler_supports(#[trigger] handlers@[j], *song_url),
            decreases n - i,
        {
            if handlers[i].supports(song_url) {
                return Ok(i);
            }
            i += 1;
        }
        Err(DownloadError::Resolution { url: song_url.full.clone() })
    }
}

} // verus!
