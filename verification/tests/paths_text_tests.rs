use karaokify::errors::DownloadError;
use karaokify::paths::{
    base_name, choose_download_path, file_name, join_path, last_index_of, with_extension,
    with_file_name,
};
use karaokify::strkit::{alnum, contains_substring};
use karaokify::temp_dir::time_thread_id;
use karaokify::text::{dec_string, dec_string_u64};

#[test]
fn decimal_rendering_is_exact() {
    assert_eq!(dec_string_u64(0), "0");
    assert_eq!(dec_string_u64(7), "7");
    assert_eq!(dec_string_u64(1234567890), "1234567890");
    assert_eq!(dec_string_u64(u64::MAX), "18446744073709551615");
    assert_eq!(dec_string(340282366920938463463374607431768211455), "340282366920938463463374607431768211455");
}

#[test]
fn join_inserts_exactly_one_separator() {
    assert_eq!(join_path("/tmp", "x.mp3"), "/tmp/x.mp3");
    assert_eq!(join_path("/tmp/", "x.mp3"), "/tmp/x.mp3");
    assert_eq!(join_path("", "x.mp3"), "/x.mp3");
}

#[test]
fn file_name_is_the_last_component() {
    assert_eq!(file_name("/a/b/song.flac"), "song.flac");
    assert_eq!(file_name("song.flac"), "song.flac");
    assert_eq!(file_name("/a/b/"), "");
}

#[test]
fn base_name_strips_one_extension() {
    assert_eq!(base_name("/a/b/song.flac"), "song");
    assert_eq!(base_name("song.tar.gz"), "song.tar");
    assert_eq!(base_name("/a/.hidden"), ".hidden");
    assert_eq!(base_name("noext"), "noext");
}

#[test]
fn with_extension_replaces_the_final_one() {
    assert_eq!(with_extension("/a/b/song.flac", "mp3"), "/a/b/song.mp3");
    assert_eq!(with_extension("song", "mp3"), "song.mp3");
}

#[test]
fn with_file_name_swaps_the_last_component() {
    assert_eq!(with_file_name("/tmp/dl/some song.mp3", "real.mp3"), "/tmp/dl/real.mp3");
    assert_eq!(with_file_name("some song.mp3", "real.mp3"), "real.mp3");
}

#[test]
fn inferred_names_replace_the_default() {
    assert_eq!(
        choose_download_path("/tmp/dl/some song.mp3", &None),
        "/tmp/dl/some song.mp3"
    );
    assert_eq!(
        choose_download_path("/tmp/dl/some song.mp3", &Some("Title.mp3".to_string())),
        "/tmp/dl/Title.mp3"
    );
}

#[test]
fn last_index_finds_the_rightmost_occurrence() {
    assert_eq!(last_index_of("a/b/c", '/'), Some(3));
    assert_eq!(last_index_of("abc", '/'), None);
}

#[test]
fn substring_search_is_plain_containment() {
    assert!(contains_substring("open.spotify.com", "spotify"));
    assert!(contains_substring("abc", ""));
    assert!(!contains_substring("open.tidal.com", "spotify"));
    assert!(!contains_substring("ab", "abc"));
}

#[test]
fn alnum_is_ascii_letters_and_digits() {
    assert!(alnum('a') && alnum('Z') && alnum('5'));
    assert!(!alnum('-') && !alnum('/') && !alnum('é'));
}

#[test]
fn unique_suffix_concatenates_the_three_parts() {
    assert_eq!(time_thread_id(17, 4242, 99), "17-4242-99");
}

#[test]
fn each_error_renders_one_clear_sentence() {
    let cases: Vec<(DownloadError, &str)> = vec![
        (
            DownloadError::Resolution { url: "https://x/".to_string() },
            "No handler succeeded for provided URL: https://x/",
        ),
        (
            DownloadError::ProviderDown,
            "Timeout downloading song. Download provider may be down.",
        ),
        (DownloadError::ProviderFailed, "Failed to download song from provider"),
        (
            DownloadError::ProviderLogic { message: "as-is".to_string() },
            "as-is",
        ),
        (DownloadError::PollTimeout, "Song download timed out"),
        (DownloadError::QualityUnknown, "Could not determine quality to download"),
        (
            DownloadError::ExternalProcess { code: None },
            "Command executed with exit code None",
        ),
        (
            DownloadError::ExternalProcess { code: Some(-9) },
            "Command executed with exit code Some(-9)",
        ),
        (
            DownloadError::Resource { message: "disk full".to_string() },
            "disk full",
        ),
    ];
    for (err, expected) in cases {
        assert_eq!(err.user_message(), expected);
    }
}
