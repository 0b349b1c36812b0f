use karaokify::domain::DomainParser;
use karaokify::errors::DownloadError;
use karaokify::handlers::{DownloadHandler, Downloader};
use karaokify::song_downloader::SongDownload;
use karaokify::source_url::SourceUrl;
use karaokify::spotifydown::{find_track_id, SpotifyDownloadResponse, SpotifydownProvider};
use karaokify::yams::{select_zip_entry, YamsProvider, ZipEntry};

fn url(s: &str) -> SourceUrl {
    SourceUrl::parse(s).expect("should parse")
}

#[test]
fn parse_extracts_the_parts() {
    let u = url("https://open.spotify.com/track/Abc123?si=0");
    assert_eq!(u.host.as_deref(), Some("open.spotify.com"));
    assert_eq!(u.path, "/track/Abc123");
    assert_eq!(u.domain.as_deref(), Some("open.spotify.com"));
    assert_eq!(u.full, "https://open.spotify.com/track/Abc123?si=0");
}

#[test]
fn parse_rejects_a_plain_sentence() {
    assert!(SourceUrl::parse("please karaokify this song").is_none());
}

#[test]
fn domain_root_is_the_registrable_part() {
    let u = url("https://open.spotify.com/track/x");
    assert_eq!(DomainParser::get_domain(&u).as_deref(), Some("open.spotify.com"));
    assert_eq!(DomainParser::get_domain_root(&u).as_deref(), Some("spotify.com"));
}

#[test]
fn domain_parse_rejects_a_bad_label() {
    let u = SourceUrl {
        full: "https://-bad-.com/".to_string(),
        host: Some("-bad-.com".to_string()),
        path: "/".to_string(),
        domain: Some("-bad-.com".to_string()),
    };
    assert!(DomainParser::get_domain(&u).is_none());
    assert!(DomainParser::get_domain_root(&u).is_none());
}

#[test]
fn quality_table_matches_by_substring_in_order() {
    assert_eq!(
        YamsProvider::get_quality(&url("https://open.spotify.com/track/x")),
        Some("very_high")
    );
    assert_eq!(YamsProvider::get_quality(&url("https://play.qobuz.com/album/1")), Some("27"));
    assert_eq!(YamsProvider::get_quality(&url("https://tidal.com/browse/track/2")), Some("3"));
    assert_eq!(YamsProvider::get_quality(&url("https://music.apple.com/x")), Some("high"));
    assert_eq!(YamsProvider::get_quality(&url("https://www.deezer.com/track/3")), Some("2"));
    assert_eq!(YamsProvider::get_quality(&url("https://www.youtube.com/watch?v=4")), Some("0"));
    assert_eq!(YamsProvider::get_quality(&url("https://example.com/song")), None);
}

#[test]
fn submit_request_carries_the_table_quality() {
    let u = url("https://tidal.com/browse/track/2");
    let req = YamsProvider::prepare_submit(&u).expect("table entry matches");
    assert_eq!(req.url, "https://tidal.com/browse/track/2");
    assert_eq!(req.quality, "3");
    assert_eq!(req.host, "filehaus");
}

#[test]
fn submit_fails_before_any_network_call_without_a_quality() {
    let u = url("https://example.com/song");
    let err = YamsProvider::prepare_submit(&u).unwrap_err();
    assert_eq!(err.user_message(), "Could not determine quality to download");
}

#[test]
fn yams_poll_url_carries_the_job_id() {
    assert_eq!(YamsProvider::poll_url(42), "https://yams.tf/api?id=42");
    assert_eq!(SongDownload::poll_url("j-7"), "https://yams.tf/api?id=j-7");
    assert_eq!(karaokify::yams::yams_api_url(), "https://yams.tf/api");
}

#[test]
fn zip_lands_at_a_fixed_name() {
    assert_eq!(YamsProvider::zip_path("/tmp/work"), "/tmp/work/file.zip");
    assert_eq!(SongDownload::zip_path("/tmp/work"), "/tmp/work/file.zip");
}

#[test]
fn status_response_reads_empty_strings_as_absent() {
    let pending = SongDownload::status_response(String::new(), String::new());
    assert!(pending.error.is_none() && pending.url.is_none());
    let failed = SongDownload::status_response("no".to_string(), String::new());
    assert_eq!(failed.error.as_deref(), Some("no"));
    assert!(failed.url.is_none());
    let ready = SongDownload::status_response(String::new(), "https://f/x.zip".to_string());
    assert!(ready.error.is_none());
    assert_eq!(ready.url.as_deref(), Some("https://f/x.zip"));
}

#[test]
fn first_plausible_zip_entry_wins() {
    let entries = vec![
        ZipEntry { is_file: false, file_name: Some("art".to_string()) },
        ZipEntry { is_file: true, file_name: Some(".hidden".to_string()) },
        ZipEntry { is_file: true, file_name: None },
        ZipEntry { is_file: true, file_name: Some("song.flac".to_string()) },
    ];
    assert_eq!(select_zip_entry(&entries), Some(3));
    assert_eq!(select_zip_entry(&Vec::new()), None);
    let only_hidden = vec![ZipEntry { is_file: true, file_name: Some(".x".to_string()) }];
    assert_eq!(select_zip_entry(&only_hidden), None);
}

#[test]
fn track_id_is_the_run_after_the_marker() {
    assert_eq!(find_track_id("/track/Abc123").as_deref(), Some("Abc123"));
    assert_eq!(find_track_id("/intl-fr/track/Zz9/extra").as_deref(), Some("Zz9"));
    assert_eq!(find_track_id("/track/ab-c").as_deref(), Some("ab"));
    assert_eq!(find_track_id("/album/Abc123"), None);
    assert_eq!(find_track_id("/track/"), None);
    assert_eq!(find_track_id("/track/!x"), None);
}

#[test]
fn download_request_names_the_track() {
    let u = url("https://open.spotify.com/track/Abc123");
    let api = SpotifydownProvider::prepare_download_request(&u).expect("track id present");
    assert_eq!(api, "https://api.spotifydown.com/download/Abc123");
}

#[test]
fn download_request_rejects_a_pathless_url() {
    let u = url("https://open.spotify.com/playlist/9");
    let err = SpotifydownProvider::prepare_download_request(&u).unwrap_err();
    assert_eq!(err.user_message(), "Invalid Spotify URL");
}

#[test]
fn download_response_is_read_as_link_or_error() {
    let ok = SpotifyDownloadResponse::Success { link: "https://cdn/x.mp3".to_string() };
    assert_eq!(SpotifydownProvider::download_link_result(&ok).unwrap(), "https://cdn/x.mp3");
    let bad = SpotifyDownloadResponse::Error { message: "track not found".to_string() };
    let err = SpotifydownProvider::download_link_result(&bad).unwrap_err();
    assert_eq!(err.user_message(), "track not found");
}

#[test]
fn spotifydown_supports_the_catalogue_domain() {
    let p = SpotifydownProvider;
    assert!(p.supports(&url("https://open.spotify.com/track/x")));
    assert!(!p.supports(&url("https://example.com/track/x")));
}

#[test]
fn resolution_is_first_match_in_fixed_order() {
    let handlers = Downloader::handlers();
    assert_eq!(handlers.len(), 2);
    assert!(matches!(handlers[0], DownloadHandler::Yams(_)));
    assert!(matches!(handlers[1], DownloadHandler::Spotifydown(_)));
    // The quality table matches this host, so the first provider owns it.
    let u = url("https://open.spotify.com/track/x");
    assert_eq!(Downloader::resolve(&handlers, &u).unwrap(), 0);
    let u2 = url("https://www.youtube.com/watch?v=4");
    assert_eq!(Downloader::resolve(&handlers, &u2).unwrap(), 0);
}

#[test]
fn resolution_failure_names_the_url() {
    let handlers = Downloader::handlers();
    let u = url("https://example.com/song");
    let err = Downloader::resolve(&handlers, &u).unwrap_err();
    assert!(matches!(&err, DownloadError::Resolution { .. }));
    assert_eq!(
        err.user_message(),
        "No handler succeeded for provided URL: https://example.com/song"
    );
}

#[test]
fn default_song_path_sits_in_the_download_dir() {
    assert_eq!(
        SpotifydownProvider::default_song_path("/tmp/dl"),
        "/tmp/dl/some song.mp3"
    );
}
