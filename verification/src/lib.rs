//! Core of a stem-separation delivery pipeline: it resolves a source
//! provider for a music URL, drives the retry, polling, and gating
//! protocols around the unreliable outside work, and groups the produced
//! files into size-bounded batches ready for delivery.
//!
//! Everything here is verified; the surrounding process (network calls,
//! filesystem work, the chat transport) drives these state machines and
//! performs the actions they emit.

pub mod batcher;
pub mod demucs;
pub mod domain;
pub mod errors;
pub mod gate;
pub mod handlers;
pub mod paths;
pub mod pipeline;
pub mod poller;
pub mod retry;
pub mod song_downloader;
pub mod source_url;
pub mod spotifydown;
pub mod strkit;
pub mod temp_dir;
pub mod text;
pub mod views;
pub mod yams;

use vstd::prelude::*;

verus! {

/// Largest payload, in bytes, that the delivery transport accepts.
pub const MAX_PAYLOAD_SIZE: u64 = 50 * 1000 * 1000;

/// The batch limit leaves headroom under the transport payload cap.
pub fn upload_batch_limit() -> (r: u64)
    ensures
        r == MAX_PAYLOAD_SIZE / 10 * 8,
{
    MAX_PAYLOAD_SIZE / 10 * 8
}

} // verus!
