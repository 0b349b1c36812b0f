use karaokify::demucs::{DemucsProcessor, ProcessExit};
use karaokify::errors::DownloadError;
use karaokify::poller::{download_poll_policy, run_poll, PollPolicy, PollResponse};
use karaokify::retry::{
    download_retry_policy, run_attempts, AttemptError, AttemptOutcome, RetryPolicy,
};

fn failure(timeout: bool) -> AttemptOutcome {
    AttemptOutcome::Failure {
        error: AttemptError { timeout, detail: "boom".to_string() },
    }
}

fn success(url: &str) -> AttemptOutcome {
    AttemptOutcome::Success { url: url.to_string() }
}

#[test]
fn retry_returns_first_success_before_the_bound() {
    let policy = download_retry_policy();
    assert_eq!(policy, RetryPolicy { max_attempts: 5, backoff_secs: 2 });
    let script = vec![
        failure(false),
        failure(false),
        success("https://cdn.example/song"),
        failure(false),
        failure(false),
    ];
    let run = run_attempts(&script, policy);
    assert_eq!(run.outcome.unwrap(), "https://cdn.example/song");
    assert_eq!(run.attempts_made, 3);
    assert_eq!(run.slept_secs, 4);
}

#[test]
fn retry_stops_after_the_attempt_bound() {
    let policy = download_retry_policy();
    let script = vec![
        failure(false),
        failure(false),
        failure(false),
        failure(false),
        failure(false),
        success("never reached"),
    ];
    let run = run_attempts(&script, policy);
    assert_eq!(run.attempts_made, 5);
    assert_eq!(run.slept_secs, 8);
    assert!(matches!(run.outcome, Err(DownloadError::ProviderFailed)));
}

#[test]
fn retry_classifies_a_final_timeout() {
    let policy = download_retry_policy();
    let script = vec![
        failure(false),
        failure(false),
        failure(false),
        failure(false),
        failure(true),
    ];
    let run = run_attempts(&script, policy);
    let err = run.outcome.unwrap_err();
    assert_eq!(
        err.user_message(),
        "Timeout downloading song. Download provider may be down."
    );
}

#[test]
fn retry_failure_message_hides_upstream_detail() {
    let policy = download_retry_policy();
    let script = vec![
        failure(false),
        failure(false),
        failure(false),
        failure(false),
        failure(false),
    ];
    let run = run_attempts(&script, policy);
    assert_eq!(
        run.outcome.unwrap_err().user_message(),
        "Failed to download song from provider"
    );
}

fn pending() -> PollResponse {
    PollResponse { error: None, url: None }
}

#[test]
fn poller_returns_ready_url_after_k_pending_polls() {
    let policy = download_poll_policy();
    assert_eq!(policy, PollPolicy { max_polls: 300, interval_secs: 1 });
    let k = 7;
    let mut script: Vec<PollResponse> = Vec::new();
    for _ in 0..k {
        script.push(pending());
    }
    script.push(PollResponse { error: None, url: Some("https://files.example/x.zip".to_string()) });
    while script.len() < 300 {
        script.push(pending());
    }
    let run = run_poll(&script, policy);
    assert_eq!(run.outcome.unwrap(), "https://files.example/x.zip");
    assert_eq!(run.polls_made, (k + 1) as u64);
    assert_eq!(run.slept_secs, k as u64);
}

#[test]
fn poller_times_out_after_the_window() {
    let policy = download_poll_policy();
    let script: Vec<PollResponse> = (0..300).map(|_| pending()).collect();
    let run = run_poll(&script, policy);
    assert_eq!(run.polls_made, 300);
    assert_eq!(run.slept_secs, 300);
    let err = run.outcome.unwrap_err();
    assert_eq!(err.user_message(), "Song download timed out");
}

#[test]
fn poller_surfaces_an_explicit_error_verbatim() {
    let policy = download_poll_policy();
    let mut script: Vec<PollResponse> = Vec::new();
    script.push(pending());
    script.push(PollResponse {
        error: Some("track is region locked".to_string()),
        url: Some("ignored when an error is present".to_string()),
    });
    while script.len() < 300 {
        script.push(pending());
    }
    let run = run_poll(&script, policy);
    assert_eq!(run.polls_made, 2);
    assert_eq!(run.outcome.unwrap_err().user_message(), "track is region locked");
}

#[test]
fn process_retry_accepts_a_later_clean_exit() {
    let script = vec![
        ProcessExit { ok: false, code: Some(1) },
        ProcessExit { ok: true, code: Some(0) },
        ProcessExit { ok: false, code: Some(1) },
    ];
    assert!(DemucsProcessor::run_process_attempts(&script).is_ok());
}

#[test]
fn process_retry_gives_up_with_the_last_exit_code() {
    let script = vec![
        ProcessExit { ok: false, code: Some(1) },
        ProcessExit { ok: false, code: Some(1) },
        ProcessExit { ok: false, code: Some(137) },
    ];
    let err = DemucsProcessor::run_process_attempts(&script).unwrap_err();
    assert_eq!(err.user_message(), "Command executed with exit code Some(137)");
}
