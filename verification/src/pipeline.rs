//! The pipeline coordinator: resolve a provider, fetch the song, take the
//! concurrency permit, hand the file to the separation engine, return the
//! permit, batch the outputs, deliver them, report per-file failures, and
//! clean up.
//!
//! The coordinator is a state machine. The surrounding process performs
//! each emitted [`PipelineAction`] (a network call, a filesystem call, a
//! status-message edit) and feeds the outcome back as the next
//! [`PipelineEvent`]. Every stage's failure short-circuits the rest, but
//! every terminal transition still releases a held gate permit and still
//! removes the temporary directory: the cleanup suffix of the emitted
//! actions, [`cleanup_suffix`], is part of the step contract. An event the
//! current stage does not expect — a cancelled driver included — aborts
//! the run the same way.

use vstd::prelude::*;

use crate::batcher::FileProbe;
use crate::batcher::batches_of;
use crate::batcher::chunk_files_by_size;
use crate::batcher::failures_of;
use crate::errors::DownloadError;
use crate::errors::message_of;
use crate::handlers::DownloadHandler;
use crate::handlers::Downloader;
use crate::handlers::handler_supports;
use crate::paths::file_name;
use crate::paths::file_name_of;
use crate::source_url::SourceUrl;
use crate::upload_batch_limit;
use crate::views::lemma_deep_view_index;

verus! {

/// Status shown while the song is fetched.
pub open spec fn downloading_text() -> Seq<char> {
    "Downloading song..."@
}

/// Status shown while the concurrency permit is waited for.
pub open spec fn queue_text() -> Seq<char> {
    "Waiting in queue..."@
}

/// Status shown while the engine separates the song.
pub open spec fn processing_text() -> Seq<char> {
    "Download finished. Processing song...\n\nThis will take approximately 2x the song duration."@
}

/// Status shown while batches are delivered.
pub open spec fn uploading_text() -> Seq<char> {
    "Finished processing song. Uploading files..."@
}

/// Status shown when the fetch stage failed.
pub open spec fn download_failed_text(e: DownloadError) -> Seq<char> {
    "Download failed.\n\nReason: "@ + message_of(e)
}

/// Status shown when the separation stage failed.
pub open spec fn process_failed_text(e: DownloadError) -> Seq<char> {
    "Failed to process song.\n\nReason:"@ + message_of(e)
}

/// One line of the per-file failure report.
pub open spec fn failed_entry_text(path: Seq<char>, reason: Seq<char>) -> Seq<char> {
    " - File: "@ + file_name_of(path) + "\n   Reason: "@ + reason
}

/// The failure report's lines, joined by blank lines.
pub open spec fn failed_entries_text(fails: Seq<(Seq<char>, Seq<char>)>) -> Seq<char>
    decreases fails.len(),
{
    if fails.len() == 0 {
        Seq::empty()
    } else if fails.len() == 1 {
        failed_entry_text(fails[0].0, fails[0].1)
    } else {
        failed_entries_text(fails.drop_last()) + "\n\n"@ + failed_entry_text(
            fails.last().0,
            fails.last().1,
        )
    }
}

/// The complete per-file failure report.
pub open spec fn failed_files_text(fails: Seq<(Seq<char>, Seq<char>)>) -> Seq<char> {
    "Failed to upload some files:\n\n"@ + failed_entries_text(fails)
}

/// Renders the per-file failure report: each failed file's name with its
/// reason.
pub fn failed_files_message(fails: &Vec<(String, String)>) -> (r: String)
    ensures
        r@ == failed_files_text(fails.deep_view()),
{
    proof {
        lemma_deep_view_index(*fails);
    }
    let n = fails.len();
    let mut s = String::from_str("Failed to upload some files:\n\n");
    let mut i: usize = 0;
    while i < n
        invariant
            n == fails@.len(),
            i <= n,
            fails.deep_view().len() == n,
            forall|k: int| 0 <= k < n ==> #[trigger] fails.deep_view()[k] == (
                fails@[k].0@,
                fails@[k].1@,
            ),
            s@ == "Failed to upload some files:\n\n"@ + failed_entries_text(
                fails.deep_view().take(i as int),
            ),
        decreases n - i,
    {
        proof {
            assert(fails.deep_view().take(i + 1).drop_last() =~= fails.deep_view().take(i as int));
            assert(fails.deep_view().take(i + 1).last() == fails.deep_view()[i as int]);
        }
        if i > 0 {
            s.append("\n\n");
        }
        s.append(" - File: ");
        let fname = file_name(fails[i].0.as_str());
        s.append(fname.as_str());
        s.append("\n   Reason: ");
        s.append(fails[i].1.as_str());
        proof {
            assert(s@ =~= "Failed to upload some files:\n\n"@ + failed_entries_text(
                fails.deep_view().take(i + 1),
            ));
        }
        i += 1;
    }
    proof {
        assert(fails.deep_view().take(n as int) =~= fails.deep_view());
    }
    s
}

/// Where the coordinator stands.
#[derive(Clone, Copy)]
pub enum PipelineStage {
    /// Nothing has happened yet.
    Init,
    /// The temporary directory is being created.
    AwaitTempDir,
    /// The resolved provider is fetching the song.
    AwaitDownload,
    /// The concurrency permit is being waited for.
    AwaitGate,
    /// The engine is separating the song; the permit is held.
    AwaitSeparation,
    /// The output files' sizes are being read.
    AwaitProbe,
    /// The batches are being delivered.
    AwaitDelivery,
    /// The per-file failure report is being sent.
    AwaitReport,
    /// The run is over; `delivered` says whether batches were handed over.
    Done { delivered: bool },
}

/// What the surrounding process reports back to the coordinator.
#[allow(inconsistent_fields)]
pub enum PipelineEvent {
    Started,
    TempDirReady { path: String },
    TempDirFailed { message: String },
    DownloadDone { result: Result<String, DownloadError> },
    GateAcquired,
    SeparationDone { result: Result<Vec<String>, DownloadError> },
    FilesProbed { files: Vec<FileProbe> },
    DeliveryDone,
    ReportSent,
    TransportFailed,
}

/// What the surrounding process is asked to do.
pub enum PipelineAction {
    /// Edit the status message to this text.
    UpdateStatus { text: String },
    /// Create a scoped temporary directory with this name prefix.
    CreateTempDir { prefix: String },
    /// Have the provider fetch the song into the directory.
    Fetch { provider: DownloadHandler, url: String, download_dir: String },
    /// Take the concurrency permit; answer once it is held.
    AcquireGate,
    /// Return the concurrency permit.
    ReleaseGate,
    /// Hand the file to the separation engine.
    Separate { input: String, output_dir: String },
    /// Read each file's size.
    ProbeFiles { files: Vec<String> },
    /// Deliver the batches, in order, as grouped uploads.
    SendBatches { batches: Vec<Vec<String>> },
    /// Send this text as its own message.
    SendText { text: String },
    /// Delete the status message.
    DeleteStatus,
    /// Remove the directory and all its contents.
    RemoveTempDir { path: String },
}

/// A [`PipelineAction`] with every path and text as a sequence.
pub ghost enum ActionV {
    UpdateStatus { text: Seq<char> },
    CreateTempDir { prefix: Seq<char> },
    Fetch { provider: DownloadHandler, url: Seq<char>, download_dir: Seq<char> },
    AcquireGate,
    ReleaseGate,
    Separate { input: Seq<char>, output_dir: Seq<char> },
    ProbeFiles { files: Seq<Seq<char>> },
    SendBatches { batches: Seq<Seq<Seq<char>>> },
    SendText { text: Seq<char> },
    DeleteStatus,
    RemoveTempDir { path: Seq<char> },
}

impl DeepView for PipelineAction {
    type V = ActionV;

    open spec fn deep_view(&self) -> ActionV {
        match self {
            PipelineAction::UpdateStatus { text } => ActionV::UpdateStatus { text: text@ },
            PipelineAction::CreateTempDir { prefix } => ActionV::CreateTempDir { prefix: prefix@ },
            PipelineAction::Fetch { provider, url, download_dir } => ActionV::Fetch {
                provider: *provider,
                url: url@,
                download_dir: download_dir@,
            },
            PipelineAction::AcquireGate => ActionV::AcquireGate,
            PipelineAction::ReleaseGate => ActionV::ReleaseGate,
            PipelineAction::Separate { input, output_dir } => ActionV::Separate {
                input: input@,
                output_dir: output_dir@,
            },
            PipelineAction::ProbeFiles { files } => ActionV::ProbeFiles {
                files: files.deep_view(),
            },
            PipelineAction::SendBatches { batches } => ActionV::SendBatches {
                batches: batches.deep_view(),
            },
            PipelineAction::SendText { text } => ActionV::SendText { text: text@ },
            PipelineAction::DeleteStatus => ActionV::DeleteStatus,
            PipelineAction::RemoveTempDir { path } => ActionV::RemoveTempDir { path: path@ },
        }
    }
}

/// The cleanup every terminal transition appends: release the permit if
/// it is held, then remove the temporary directory if one was created.
pub open spec fn cleanup_suffix(gate_held: bool, temp_dir: Option<Seq<char>>) -> Seq<ActionV> {
    (if gate_held {
        seq![ActionV::ReleaseGate]
    } else {
        Seq::empty()
    }) + (match temp_dir {
        Some(p) => seq![ActionV::RemoveTempDir { path: p }],
        None => Seq::empty(),
    })
}

/// One pipeline run's coordinator.
pub struct PipelineState {
    pub stage: PipelineStage,
    pub url: SourceUrl,
    pub provider: Option<DownloadHandler>,
    pub gate_held: bool,
    pub temp_dir: Option<String>,
    pub song_file: Option<String>,
    pub failures: Vec<(String, String)>,
}

impl PipelineState {
    /// The temporary directory's path as a sequence, when one exists.
    pub open spec fn temp_dir_view(&self) -> Option<Seq<char>> {
        match self.temp_dir {
            Some(p) => Some(p@),
            None => None,
        }
    }

    /// The coordinator's structural invariant: the permit is held during
    /// the separation stage and at no other time, a finished run holds
    /// nothing, and each stage has what it works on.
    pub open spec fn wf(&self) -> bool {
        &&& self.gate_held <==> self.stage is AwaitSeparation
        &&& self.stage is Done ==> self.temp_dir is None
        &&& self.stage is AwaitTempDir ==> self.provider is Some
        &&& (self.stage is AwaitDownload || self.stage is AwaitGate
            || self.stage is AwaitSeparation || self.stage is AwaitProbe
            || self.stage is AwaitDelivery || self.stage is AwaitReport) ==> self.temp_dir is Some
        &&& self.stage is AwaitGate ==> self.song_file is Some
    }

    /// A coordinator for one URL, before anything happened.
    pub fn new(url: SourceUrl) -> (r: PipelineState)
        ensures
            r.stage is Init,
            r.url == url,
            !r.gate_held,
            r.temp_dir is None,
            r.wf(),
    {
        PipelineState {
            stage: PipelineStage::Init,
            url,
            provider: None,
            gate_held: false,
            temp_dir: None,
            song_file: None,
            failures: Vec::new(),
        }
    }

    /// Ends the run: the given actions, then the cleanup suffix. A held
    /// permit is always released and an existing temporary directory is
    /// always removed, whatever ended the run.
    fn finish(&mut self, delivered: bool, actions: Vec<PipelineAction>) -> (r: Vec<PipelineAction>)
        ensures
            r.deep_view() == actions.deep_view() + cleanup_suffix(
                old(self).gate_held,
                old(self).temp_dir_view(),
            ),
            old(self).gate_held ==> r.deep_view().contains(ActionV::ReleaseGate),
            old(self).temp_dir matches Some(p) ==> r.deep_view().contains(
                ActionV::RemoveTempDir { path: p@ },
            ),
            final(self).stage == (PipelineStage::Done { delivered }),
            !final(self).gate_held,
            final(self).temp_dir is None,
            final(self).url == old(self).url,
            final(self).wf(),
    {
        let mut r = actions;
        let ghost r0 = r;
        if self.gate_held {
            r.push(PipelineAction::ReleaseGate);
            self.gate_held = false;
        }
        let ghost r1 = r;
        let mut temp = None;
        core::mem::swap(&mut temp, &mut self.temp_dir);
        match temp {
            Some(p) => {
                r.push(PipelineAction::RemoveTempDir { path: p });
            },
            None => {},
        }
        self.stage = PipelineStage::Done { delivered };
        proof {
            if old(self).gate_held {
                crate::views::lemma_deep_view_push(r0, r1, PipelineAction::ReleaseGate);
            }
            if old(self).temp_dir is Some {
                crate::views::lemma_deep_view_push(
                    r1,
                    r,
                    PipelineAction::RemoveTempDir { path: old(self).temp_dir->0 },
                );
            }
            assert(r.deep_view() =~= actions.deep_view() + cleanup_suffix(
                old(self).gate_held,
                old(self).temp_dir_view(),
            ));
            if old(self).gate_held {
                assert(r.deep_view()[actions.deep_view().len() as int] == ActionV::ReleaseGate);
            }
            if old(self).temp_dir is Some {
                assert(r.deep_view()[r.deep_view().len() - 1] == (ActionV::RemoveTempDir {
                    path: old(self).temp_dir->0@,
                }));
            }
        }
        r
    }
}

/// The provider a URL resolves to: the first of the fixed-order registry
/// that supports it.
pub open spec fn resolved_provider(u: SourceUrl) -> Option<DownloadHandler> {
    if handler_supports(DownloadHandler::Yams(crate::yams::YamsProvider), u) {
        Some(DownloadHandler::Yams(crate::yams::YamsProvider))
    } else if handler_supports(
        DownloadHandler::Spotifydown(crate::spotifydown::SpotifydownProvider),
        u,
    ) {
        Some(DownloadHandler::Spotifydown(crate::spotifydown::SpotifydownProvider))
    } else {
        None
    }
}

/// The status text shown when no provider matches the URL.
pub open spec fn resolution_failed_message(full: Seq<char>) -> Seq<char> {
    "Download failed.\n\nReason: "@ + "No handler succeeded for provided URL: "@ + full
}

/// Renders the download-failure status for an error.
fn download_failed_message(e: &DownloadError) -> (r: String)
    ensures
        r@ == download_failed_text(*e),
{
    let mut s = String::from_str("Download failed.\n\nReason: ");
    let m = e.user_message();
    s.append(m.as_str());
    s
}

/// Renders the processing-failure status for an error.
fn process_failed_message(e: &DownloadError) -> (r: String)
    ensures
        r@ == process_failed_text(*e),
{
    let mut s = String::from_str("Failed to process song.\n\nReason:");
    let m = e.user_message();
    s.append(m.as_str());
    s
}

impl PipelineState {
    /// Advances the coordinator by one event and says what to do next.
    ///
    /// Every arm of the contract gives the exact actions emitted and the
    /// exact next stage; every terminal arm ends with [`cleanup_suffix`],
    /// so a failing stage — and a misbehaving or cancelled driver, which
    /// lands in the final arm — still releases a held permit and still
    /// removes the temporary directory.
    pub fn step(&mut self, event: PipelineEvent) -> (r: Vec<PipelineAction>)
        requires
            old(self).wf(),
        ensures
            final(self).wf(),
            final(self).url == old(self).url,
            // Whatever ends a run — a stage failure, a transport failure,
            // a misbehaving driver — a held permit is released and the
            // temporary directory is removed.
            (!(old(self).stage is Done) && final(self).stage is Done && old(self).gate_held)
                ==> r.deep_view().contains(ActionV::ReleaseGate),
            (!(old(self).stage is Done) && final(self).stage is Done && old(self).temp_dir is Some)
                ==> r.deep_view().contains(
                    ActionV::RemoveTempDir { path: old(self).temp_dir->0@ },
                ),
            ({
                let limit = (crate::MAX_PAYLOAD_SIZE / 10 * 8) as u64;
                match (old(self).stage, event) {
                    (PipelineStage::Init, PipelineEvent::Started) => match resolved_provider(
                        old(self).url,
                    ) {
                        Some(h) => {
                            &&& r.deep_view() == seq![
                                ActionV::UpdateStatus { text: downloading_text() },
                                ActionV::CreateTempDir { prefix: "karaokify-"@ },
                            ]
                            &&& final(self).stage is AwaitTempDir
                            &&& final(self).provider == Some(h)
                        },
                        None => {
                            &&& r.deep_view() == seq![
                                ActionV::UpdateStatus {
                                    text: resolution_failed_message(old(self).url.full@),
                                },
                            ] + cleanup_suffix(old(self).gate_held, old(self).temp_dir_view())
                            &&& final(self).stage == (PipelineStage::Done { delivered: false })
                        },
                    },
                    (PipelineStage::AwaitTempDir, PipelineEvent::TempDirReady { path }) => {
                        &&& old(self).provider matches Some(h) && r.deep_view() == seq![
                            ActionV::Fetch {
                                provider: h,
                                url: old(self).url.full@,
                                download_dir: path@,
                            },
                        ]
                        &&& final(self).stage is AwaitDownload
                        &&& final(self).temp_dir == Some(path)
                    },
                    (PipelineStage::AwaitTempDir, PipelineEvent::TempDirFailed { message }) => {
                        &&& r.deep_view() == seq![
                            ActionV::UpdateStatus {
                                text: "Download failed.\n\nReason: "@ + message@,
                            },
                        ] + cleanup_suffix(old(self).gate_held, old(self).temp_dir_view())
                        &&& final(self).stage == (PipelineStage::Done { delivered: false })
                    },
                    (PipelineStage::AwaitDownload, PipelineEvent::DownloadDone { result }) => {
                        match result {
                            Ok(file) => {
                                &&& r.deep_view() == seq![
                                    ActionV::UpdateStatus { text: queue_text() },
                                    ActionV::AcquireGate,
                                ]
                                &&& final(self).stage is AwaitGate
                                &&& final(self).song_file == Some(file)
                                &&& final(self).temp_dir == old(self).temp_dir
                            },
                            Err(e) => {
                                &&& r.deep_view() == seq![
                                    ActionV::UpdateStatus { text: download_failed_text(e) },
                                ] + cleanup_suffix(old(self).gate_held, old(self).temp_dir_view())
                                &&& final(self).stage == (PipelineStage::Done { delivered: false })
                            },
                        }
                    },
                    (PipelineStage::AwaitGate, PipelineEvent::GateAcquired) => {
                        &&& old(self).song_file matches Some(f) && old(self).temp_dir matches Some(
                            d,
                        ) && r.deep_view() == seq![
                            ActionV::UpdateStatus { text: processing_text() },
                            ActionV::Separate { input: f@, output_dir: d@ },
                        ]
                        &&& final(self).stage is AwaitSeparation
                        &&& final(self).gate_held
                        &&& final(self).temp_dir == old(self).temp_dir
                    },
                    (PipelineStage::AwaitSeparation, PipelineEvent::SeparationDone { result }) => {
                        match result {
                            Ok(files) => {
                                &&& r.deep_view() == seq![
                                    ActionV::ReleaseGate,
                                    ActionV::UpdateStatus { text: uploading_text() },
                                    ActionV::ProbeFiles { files: files.deep_view() },
                                ]
                                &&& final(self).stage is AwaitProbe
                                &&& !final(self).gate_held
                                &&& final(self).temp_dir == old(self).temp_dir
                            },
                            Err(e) => {
                                &&& r.deep_view() == seq![
                                    ActionV::UpdateStatus { text: process_failed_text(e) },
                                ] + cleanup_suffix(old(self).gate_held, old(self).temp_dir_view())
                                &&& final(self).stage == (PipelineStage::Done { delivered: false })
                            },
                        }
                    },
                    (PipelineStage::AwaitProbe, PipelineEvent::FilesProbed { files }) => {
                        &&& r.deep_view() == seq![
                            ActionV::SendBatches { batches: batches_of(files@, limit) },
                        ]
                        &&& final(self).failures.deep_view() == failures_of(files@, limit)
                        &&& final(self).stage is AwaitDelivery
                        &&& final(self).temp_dir == old(self).temp_dir
                    },
                    (PipelineStage::AwaitDelivery, PipelineEvent::DeliveryDone) => {
                        if old(self).failures@.len() > 0 {
                            &&& r.deep_view() == seq![
                                ActionV::SendText {
                                    text: failed_files_text(old(self).failures.deep_view()),
                                },
                            ]
                            &&& final(self).stage is AwaitReport
                            &&& final(self).temp_dir == old(self).temp_dir
                        } else {
                            &&& r.deep_view() == seq![ActionV::DeleteStatus] + cleanup_suffix(
                                old(self).gate_held,
                                old(self).temp_dir_view(),
                            )
                            &&& final(self).stage == (PipelineStage::Done { delivered: true })
                        }
                    },
                    (PipelineStage::AwaitReport, PipelineEvent::ReportSent) => {
                        &&& r.deep_view() == seq![ActionV::DeleteStatus] + cleanup_suffix(
                            old(self).gate_held,
                            old(self).temp_dir_view(),
                        )
                        &&& final(self).stage == (PipelineStage::Done { delivered: true })
                    },
                    (PipelineStage::Done { delivered }, _) => {
                        &&& r.deep_view() == Seq::<ActionV>::empty()
                        &&& final(self).stage == (PipelineStage::Done { delivered })
                    },
                    (_, _) => {
                        &&& r.deep_view() == cleanup_suffix(
                            old(self).gate_held,
                            old(self).temp_dir_view(),
                        )
                        &&& final(self).stage == (PipelineStage::Done { delivered: false })
                    },
                }
            }),
    {
        let stage = self.stage;
        match (stage, event) {
            (PipelineStage::Init, PipelineEvent::Started) => {
                let handlers = Downloader::handlers();
                match Downloader::resolve(&handlers, &self.url) {
                    Ok(i) => {
                        let provider = if i == 0 {
                            DownloadHandler::Yams(crate::yams::YamsProvider)
                        } else {
                            DownloadHandler::Spotifydown(crate::spotifydown::SpotifydownProvider)
                        };
                        proof {
                            assert(resolved_provider(self.url) == Some(provider));
                        }
                        self.provider = Some(provider);
                        self.stage = PipelineStage::AwaitTempDir;
                        let mut r: Vec<PipelineAction> = Vec::new();
                        r.push(PipelineAction::UpdateStatus {
                            text: String::from_str("Downloading song..."),
                        });
                        r.push(PipelineAction::CreateTempDir {
                            prefix: String::from_str("karaokify-"),
                        });
                        proof {
                            lemma_deep_view_index(r);
                            assert(r.deep_view() =~= seq![
                                ActionV::UpdateStatus { text: downloading_text() },
                                ActionV::CreateTempDir { prefix: "karaokify-"@ },
                            ]);
                        }
                        r
                    },
                    Err(e) => {
                        proof {
                            assert(resolved_provider(self.url) is None);
                        }
                        let mut acts: Vec<PipelineAction> = Vec::new();
                        acts.push(PipelineAction::UpdateStatus {
                            text: download_failed_message(&e),
                        });
                        proof {
                            lemma_deep_view_index(acts);
                            assert(download_failed_text(e) =~= resolution_failed_message(
                                self.url.full@,
                            ));
                            assert(acts.deep_view() =~= seq![
                                ActionV::UpdateStatus {
                                    text: resolution_failed_message(self.url.full@),
                                },
                            ]);
                        }
                        self.finish(false, acts)
                    },
                }
            },
            (PipelineStage::AwaitTempDir, PipelineEvent::TempDirReady { path }) => {
                match &self.provider {
                    Some(h) => {
                        let provider = *h;
                        let mut r: Vec<PipelineAction> = Vec::new();
                        r.push(PipelineAction::Fetch {
                            provider,
                            url: self.url.full.clone(),
                            download_dir: path.clone(),
                        });
                        self.temp_dir = Some(path);
                        self.stage = PipelineStage::AwaitDownload;
                        proof {
                            lemma_deep_view_index(r);
                            assert(r.deep_view() =~= seq![
                                ActionV::Fetch {
                                    provider,
                                    url: old(self).url.full@,
                                    download_dir: final(self).temp_dir->0@,
                                },
                            ]);
                        }
                        r
                    },
                    None => self.finish(false, Vec::new()),
                }
            },
            (PipelineStage::AwaitTempDir, PipelineEvent::TempDirFailed { message }) => {
                let e = DownloadError::Resource { message };
                let mut acts: Vec<PipelineAction> = Vec::new();
                acts.push(PipelineAction::UpdateStatus { text: download_failed_message(&e) });
                proof {
                    lemma_deep_view_index(acts);
                }
                self.finish(false, acts)
            },
            (PipelineStage::AwaitDownload, PipelineEvent::DownloadDone { result }) => {
                match result {
                    Ok(file) => {
                        let mut r: Vec<PipelineAction> = Vec::new();
                        r.push(PipelineAction::UpdateStatus {
                            text: String::from_str("Waiting in queue..."),
                        });
                        r.push(PipelineAction::AcquireGate);
                        self.song_file = Some(file);
                        self.stage = PipelineStage::AwaitGate;
                        proof {
                            lemma_deep_view_index(r);
                            assert(r.deep_view() =~= seq![
                                ActionV::UpdateStatus { text: queue_text() },
                                ActionV::AcquireGate,
                            ]);
                        }
                        r
                    },
                    Err(e) => {
                        let mut acts: Vec<PipelineAction> = Vec::new();
                        acts.push(PipelineAction::UpdateStatus {
                            text: download_failed_message(&e),
                        });
                        proof {
                            lemma_deep_view_index(acts);
                        }
                        self.finish(false, acts)
                    },
                }
            },
            (PipelineStage::AwaitGate, PipelineEvent::GateAcquired) => {
                match (&self.song_file, &self.temp_dir) {
                    (Some(f), Some(d)) => {
                        let mut r: Vec<PipelineAction> = Vec::new();
                        r.push(PipelineAction::UpdateStatus {
                            text: String::from_str(
                                "Download finished. Processing song...\n\nThis will take approximately 2x the song duration.",
                            ),
                        });
                        r.push(PipelineAction::Separate {
                            input: f.clone(),
                            output_dir: d.clone(),
                        });
                        self.gate_held = true;
                        self.stage = PipelineStage::AwaitSeparation;
                        proof {
                            lemma_deep_view_index(r);
                            assert(r.deep_view() =~= seq![
                                ActionV::UpdateStatus { text: processing_text() },
                                ActionV::Separate {
                                    input: old(self).song_file->0@,
                                    output_dir: old(self).temp_dir->0@,
                                },
                            ]);
                        }
                        r
                    },
                    _ => self.finish(false, Vec::new()),
                }
            },
            (PipelineStage::AwaitSeparation, PipelineEvent::SeparationDone { result }) => {
                match result {
                    Ok(files) => {
                        let mut r: Vec<PipelineAction> = Vec::new();
                        r.push(PipelineAction::ReleaseGate);
                        r.push(PipelineAction::UpdateStatus {
                            text: String::from_str(
                                "Finished processing song. Uploading files...",
                            ),
                        });
                        let ghost files_dv = files.deep_view();
                        r.push(PipelineAction::ProbeFiles { files });
                        self.gate_held = false;
                        self.stage = PipelineStage::AwaitProbe;
                        proof {
                            lemma_deep_view_index(r);
                            assert(r.deep_view() =~= seq![
                                ActionV::ReleaseGate,
                                ActionV::UpdateStatus { text: uploading_text() },
                                ActionV::ProbeFiles { files: files_dv },
                            ]);
                        }
                        r
                    },
                    Err(e) => {
                        let mut acts: Vec<PipelineAction> = Vec::new();
                        acts.push(PipelineAction::UpdateStatus {
                            text: process_failed_message(&e),
                        });
                        proof {
                            lemma_deep_view_index(acts);
                        }
                        self.finish(false, acts)
                    },
                }
            },
            (PipelineStage::AwaitProbe, PipelineEvent::FilesProbed { files }) => {
                let (batches, failures) = chunk_files_by_size(&files, upload_batch_limit());
                self.failures = failures;
                self.stage = PipelineStage::AwaitDelivery;
                let ghost batches_dv = batches.deep_view();
                let mut r: Vec<PipelineAction> = Vec::new();
                r.push(PipelineAction::SendBatches { batches });
                proof {
                    lemma_deep_view_index(r);
                    assert(r.deep_view() =~= seq![ActionV::SendBatches { batches: batches_dv }]);
                }
                r
            },
            (PipelineStage::AwaitDelivery, PipelineEvent::DeliveryDone) => {
                if self.failures.len() > 0 {
                    let text = failed_files_message(&self.failures);
                    let mut r: Vec<PipelineAction> = Vec::new();
                    r.push(PipelineAction::SendText { text });
                    self.stage = PipelineStage::AwaitReport;
                    proof {
                        lemma_deep_view_index(r);
                        assert(r.deep_view() =~= seq![
                            ActionV::SendText {
                                text: failed_files_text(old(self).failures.deep_view()),
                            },
                        ]);
                    }
                    r
                } else {
                    let mut acts: Vec<PipelineAction> = Vec::new();
                    acts.push(PipelineAction::DeleteStatus);
                    proof {
                        lemma_deep_view_index(acts);
                    }
                    self.finish(true, acts)
                }
            },
            (PipelineStage::AwaitReport, PipelineEvent::ReportSent) => {
                let mut acts: Vec<PipelineAction> = Vec::new();
                acts.push(PipelineAction::DeleteStatus);
                proof {
                    lemma_deep_view_index(acts);
                }
                self.finish(true, acts)
            },
            (PipelineStage::Done { delivered: _ }, _) => Vec::new(),
            (_, _) => self.finish(false, Vec::new()),
        }
    }
}

} // verus!
