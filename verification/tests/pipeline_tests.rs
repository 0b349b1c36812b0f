use karaokify::batcher::FileProbe;
use karaokify::demucs::{DemucsModel, DemucsProcessor};
use karaokify::errors::DownloadError;
use karaokify::gate::ConcurrencyGate;
use karaokify::pipeline::{failed_files_message, PipelineAction, PipelineEvent, PipelineState};
use karaokify::source_url::SourceUrl;
use karaokify::temp_dir::{now_ns, TempDir};

fn url(s: &str) -> SourceUrl {
    SourceUrl::parse(s).expect("should parse")
}

fn text_of(a: &PipelineAction) -> &str {
    match a {
        PipelineAction::UpdateStatus { text } => text,
        _ => panic!("expected a status update"),
    }
}

#[test]
fn gate_admits_one_holder_at_a_time() {
    let mut gate = ConcurrencyGate::new();
    assert!(gate.try_acquire());
    assert!(!gate.try_acquire());
    gate.release();
    assert!(gate.try_acquire());
}

#[test]
fn temp_dir_is_deleted_unless_disarmed() {
    let mut d = TempDir::with_prefix("/tmp", "karaokify-", 17, 4242, 99);
    assert_eq!(d.path(), "/tmp/karaokify-17-4242-99");
    assert!(d.should_delete());
    d.no_delete_on_drop();
    assert!(!d.should_delete());
    assert_eq!(d.path(), "/tmp/karaokify-17-4242-99");
    let plain = TempDir::new("/tmp", "work");
    assert_eq!(plain.path(), "/tmp/work");
    assert!(plain.should_delete());
}

#[test]
fn clock_reads_after_the_epoch() {
    let a = now_ns();
    let b = now_ns();
    assert!(a > 0);
    assert!(b >= a);
}

#[test]
fn happy_path_walks_every_stage_and_cleans_up() {
    let mut p = PipelineState::new(url("https://tidal.com/browse/track/2"));

    let acts = p.step(PipelineEvent::Started);
    assert_eq!(acts.len(), 2);
    assert_eq!(text_of(&acts[0]), "Downloading song...");
    assert!(matches!(&acts[1], PipelineAction::CreateTempDir { prefix } if prefix == "karaokify-"));

    let acts = p.step(PipelineEvent::TempDirReady { path: "/tmp/k-1".to_string() });
    assert_eq!(acts.len(), 1);
    match &acts[0] {
        PipelineAction::Fetch { url, download_dir, .. } => {
            assert_eq!(url, "https://tidal.com/browse/track/2");
            assert_eq!(download_dir, "/tmp/k-1");
        }
        _ => panic!("expected a fetch"),
    }

    let acts = p.step(PipelineEvent::DownloadDone {
        result: Ok("/tmp/k-1/song.flac".to_string()),
    });
    assert_eq!(acts.len(), 2);
    assert_eq!(text_of(&acts[0]), "Waiting in queue...");
    assert!(matches!(acts[1], PipelineAction::AcquireGate));

    let acts = p.step(PipelineEvent::GateAcquired);
    assert_eq!(acts.len(), 2);
    assert_eq!(
        text_of(&acts[0]),
        "Download finished. Processing song...\n\nThis will take approximately 2x the song duration."
    );
    match &acts[1] {
        PipelineAction::Separate { input, output_dir } => {
            assert_eq!(input, "/tmp/k-1/song.flac");
            assert_eq!(output_dir, "/tmp/k-1");
        }
        _ => panic!("expected a separation"),
    }

    let stems = vec!["/tmp/k-1/song.vocals.mp3".to_string(), "/tmp/k-1/song.music.mp3".to_string()];
    let acts = p.step(PipelineEvent::SeparationDone { result: Ok(stems.clone()) });
    assert_eq!(acts.len(), 3);
    assert!(matches!(acts[0], PipelineAction::ReleaseGate));
    assert_eq!(text_of(&acts[1]), "Finished processing song. Uploading files...");
    assert!(matches!(&acts[2], PipelineAction::ProbeFiles { files } if *files == stems));

    let probes = vec![
        FileProbe { path: stems[0].clone(), size: Some(9_000_000) },
        FileProbe { path: stems[1].clone(), size: Some(8_000_000) },
    ];
    let acts = p.step(PipelineEvent::FilesProbed { files: probes });
    assert_eq!(acts.len(), 1);
    match &acts[0] {
        PipelineAction::SendBatches { batches } => {
            assert_eq!(*batches, vec![stems.clone()]);
        }
        _ => panic!("expected batches"),
    }

    let acts = p.step(PipelineEvent::DeliveryDone);
    assert_eq!(acts.len(), 2);
    assert!(matches!(acts[0], PipelineAction::DeleteStatus));
    assert!(matches!(&acts[1], PipelineAction::RemoveTempDir { path } if path == "/tmp/k-1"));
}

#[test]
fn download_failure_reports_and_cleans_up() {
    let mut p = PipelineState::new(url("https://www.deezer.com/track/3"));
    p.step(PipelineEvent::Started);
    p.step(PipelineEvent::TempDirReady { path: "/tmp/k-2".to_string() });
    let acts = p.step(PipelineEvent::DownloadDone {
        result: Err(DownloadError::ProviderDown),
    });
    assert_eq!(acts.len(), 2);
    assert_eq!(
        text_of(&acts[0]),
        "Download failed.\n\nReason: Timeout downloading song. Download provider may be down."
    );
    assert!(matches!(&acts[1], PipelineAction::RemoveTempDir { path } if path == "/tmp/k-2"));
}

#[test]
fn no_provider_fails_before_any_work() {
    let mut p = PipelineState::new(url("https://example.com/song"));
    let acts = p.step(PipelineEvent::Started);
    assert_eq!(acts.len(), 1);
    assert_eq!(
        text_of(&acts[0]),
        "Download failed.\n\nReason: No handler succeeded for provided URL: https://example.com/song"
    );
}

#[test]
fn cancelled_separation_still_releases_the_gate() {
    let mut p = PipelineState::new(url("https://www.youtube.com/watch?v=4"));
    p.step(PipelineEvent::Started);
    p.step(PipelineEvent::TempDirReady { path: "/tmp/k-3".to_string() });
    p.step(PipelineEvent::DownloadDone { result: Ok("/tmp/k-3/s.opus".to_string()) });
    p.step(PipelineEvent::GateAcquired);
    let acts = p.step(PipelineEvent::TransportFailed);
    assert_eq!(acts.len(), 2);
    assert!(matches!(acts[0], PipelineAction::ReleaseGate));
    assert!(matches!(&acts[1], PipelineAction::RemoveTempDir { path } if path == "/tmp/k-3"));
}

#[test]
fn separation_failure_releases_the_gate_before_reporting() {
    let mut p = PipelineState::new(url("https://www.youtube.com/watch?v=5"));
    p.step(PipelineEvent::Started);
    p.step(PipelineEvent::TempDirReady { path: "/tmp/k-4".to_string() });
    p.step(PipelineEvent::DownloadDone { result: Ok("/tmp/k-4/s.opus".to_string()) });
    p.step(PipelineEvent::GateAcquired);
    let acts = p.step(PipelineEvent::SeparationDone {
        result: Err(DownloadError::ExternalProcess { code: Some(1) }),
    });
    assert_eq!(acts.len(), 3);
    assert_eq!(
        text_of(&acts[0]),
        "Failed to process song.\n\nReason:Command executed with exit code Some(1)"
    );
    assert!(matches!(acts[1], PipelineAction::ReleaseGate));
    assert!(matches!(&acts[2], PipelineAction::RemoveTempDir { path } if path == "/tmp/k-4"));
}

#[test]
fn per_file_failures_are_reported_before_finishing() {
    let mut p = PipelineState::new(url("https://tidal.com/browse/track/9"));
    p.step(PipelineEvent::Started);
    p.step(PipelineEvent::TempDirReady { path: "/tmp/k-5".to_string() });
    p.step(PipelineEvent::DownloadDone { result: Ok("/tmp/k-5/s.flac".to_string()) });
    p.step(PipelineEvent::GateAcquired);
    p.step(PipelineEvent::SeparationDone {
        result: Ok(vec!["/tmp/k-5/s.vocals.mp3".to_string(), "/tmp/k-5/huge.mp3".to_string()]),
    });
    let probes = vec![
        FileProbe { path: "/tmp/k-5/s.vocals.mp3".to_string(), size: Some(1000) },
        FileProbe { path: "/tmp/k-5/huge.mp3".to_string(), size: Some(50_000_000) },
    ];
    let acts = p.step(PipelineEvent::FilesProbed { files: probes });
    match &acts[0] {
        PipelineAction::SendBatches { batches } => {
            assert_eq!(*batches, vec![vec!["/tmp/k-5/s.vocals.mp3".to_string()]]);
        }
        _ => panic!("expected batches"),
    }
    let acts = p.step(PipelineEvent::DeliveryDone);
    assert_eq!(acts.len(), 1);
    match &acts[0] {
        PipelineAction::SendText { text } => {
            assert_eq!(
                text,
                "Failed to upload some files:\n\n - File: huge.mp3\n   Reason: file is too large: 50000000 > 40000000"
            );
        }
        _ => panic!("expected the failure report"),
    }
    let acts = p.step(PipelineEvent::ReportSent);
    assert_eq!(acts.len(), 2);
    assert!(matches!(acts[0], PipelineAction::DeleteStatus));
    assert!(matches!(&acts[1], PipelineAction::RemoveTempDir { path } if path == "/tmp/k-5"));
}

#[test]
fn failure_report_joins_entries_with_blank_lines() {
    let fails = vec![
        ("/a/b/x.mp3".to_string(), "failed to get metadata".to_string()),
        ("/a/b/y.mp3".to_string(), "file is too large: 12 > 10".to_string()),
    ];
    assert_eq!(
        failed_files_message(&fails),
        "Failed to upload some files:\n\n - File: x.mp3\n   Reason: failed to get metadata\n\n - File: y.mp3\n   Reason: file is too large: 12 > 10"
    );
}

#[test]
fn model_names_match_the_engine() {
    assert_eq!(DemucsModel::HTDemucs.name(), "htdemucs");
    assert_eq!(DemucsModel::HTDemucsFt.name(), "htdemucs_ft");
    assert_eq!(DemucsModel::HTDemucs6s.name(), "htdemucs_6s");
    assert_eq!(DemucsModel::HDemucsMmi.name(), "hdemucs_mmi");
    assert_eq!(DemucsModel::MDX.name(), "mdx");
    assert_eq!(DemucsModel::MDXExtra.name(), "mdx_extra");
    assert_eq!(DemucsModel::MDXQ.name(), "mdx_q");
}

#[test]
fn stem_plan_lays_out_every_file() {
    let plan = DemucsProcessor::stem_plan(
        "/tmp/out",
        "/tmp/out/My Song.flac",
        "/tmp/demucs-work",
        &DemucsModel::HTDemucs,
    );
    assert_eq!(plan.stems_dir, "/tmp/demucs-work/htdemucs");
    assert_eq!(plan.vocals_src, "/tmp/demucs-work/htdemucs/vocals.mp3");
    assert_eq!(plan.music_src, "/tmp/demucs-work/htdemucs/no_vocals.mp3");
    assert_eq!(plan.combined_src, "/tmp/demucs-work/htdemucs/music-with-quiet-vocals.mp3");
    assert_eq!(plan.reencoded_src, "/tmp/demucs-work/htdemucs/song.mp3");
    assert_eq!(plan.vocals_out, "/tmp/out/My Song.vocals.mp3");
    assert_eq!(plan.music_out, "/tmp/out/My Song.music.mp3");
    assert_eq!(plan.combined_out, "/tmp/out/My Song.music-with-quiet-vocals.mp3");
    assert_eq!(plan.reencoded_out, "/tmp/out/My Song.mp3");
}

#[test]
fn nameless_input_falls_back_to_a_fixed_stem() {
    let plan = DemucsProcessor::stem_plan("/out", "/in/", "/work", &DemucsModel::MDX);
    assert_eq!(plan.vocals_out, "/out/song.vocals.mp3");
}

#[test]
fn engine_arguments_are_fixed() {
    let args = DemucsProcessor::demucs_args(&DemucsModel::HTDemucs, "/work", "/in/s.flac");
    assert_eq!(
        args,
        vec![
            "--name",
            "htdemucs",
            "--two-stems",
            "vocals",
            "--filename",
            "{stem}.{ext}",
            "--mp3-bitrate",
            "256",
            "--mp3",
            "--out",
            "/work",
            "/in/s.flac",
        ]
    );
}

#[test]
fn delivered_files_depend_on_the_optional_conversions() {
    let plan = DemucsProcessor::stem_plan("/o", "/o/s.flac", "/w", &DemucsModel::HTDemucs);
    let all = DemucsProcessor::collect_outputs(&plan, true, true);
    assert_eq!(
        all,
        vec![
            "/o/s.vocals.mp3".to_string(),
            "/o/s.music.mp3".to_string(),
            "/o/s.music-with-quiet-vocals.mp3".to_string(),
            "/o/s.mp3".to_string(),
        ]
    );
    let bare = DemucsProcessor::collect_outputs(&plan, false, false);
    assert_eq!(bare, vec!["/o/s.vocals.mp3".to_string(), "/o/s.music.mp3".to_string()]);
    let no_reencode = DemucsProcessor::collect_outputs(&plan, true, false);
    assert_eq!(no_reencode.len(), 3);
}
