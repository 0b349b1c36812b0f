//! The pipeline's error taxonomy and the user-facing message each error
//! renders to. Raw upstream detail is kept for diagnostics but never shown.

use vstd::prelude::*;

use crate::text::dec_of;
use crate::text::dec_string;

verus! {

/// Why a download could not be delivered.
#[derive(Debug)]
pub enum DownloadError {
    /// No registered provider supports the URL. Terminal, never retried.
    Resolution { url: String },
    /// Attempts exhausted and the last failure was a network timeout.
    ProviderDown,
    /// Attempts exhausted on some other network failure.
    ProviderFailed,
    /// A provider API answered with an explicit error payload.
    ProviderLogic { message: String },
    /// The submit/poll job never reached a terminal state in its window.
    PollTimeout,
    /// The URL's host matches no entry of the quality table.
    QualityUnknown,
    /// The separation process kept exiting with a non-zero status.
    ExternalProcess { code: Option<i32> },
    /// A filesystem failure around temporary resources.
    Resource { message: String },
}

pub open spec fn provider_down_text() -> Seq<char> {
    "Timeout downloading song. Download provider may be down."@
}

pub open spec fn provider_failed_text() -> Seq<char> {
    "Failed to download song from provider"@
}

pub open spec fn poll_timeout_text() -> Seq<char> {
    "Song download timed out"@
}

pub open spec fn quality_unknown_text() -> Seq<char> {
    "Could not determine quality to download"@
}

/// Rendering of a signed exit code.
pub open spec fn signed_text(n: int) -> Seq<char> {
    if n < 0 {
        seq!['-'] + dec_of((-n) as nat)
    } else {
        dec_of(n as nat)
    }
}

/// Rendering of an optional exit code.
pub open spec fn exit_code_text(code: Option<i32>) -> Seq<char> {
    match code {
        Option::None => "None"@,
        Option::Some(n) => "Some("@ + signed_text(n as int) + ")"@,
    }
}

/// The one-sentence rendering of each error that is shown to the user.
pub open spec fn message_of(e: DownloadError) -> Seq<char> {
    match e {
        DownloadError::Resolution { url } => "No handler succeeded for provided URL: "@ + url@,
        DownloadError::ProviderDown => provider_down_text(),
        DownloadError::ProviderFailed => provider_failed_text(),
        DownloadError::ProviderLogic { message } => message@,
        DownloadError::PollTimeout => poll_timeout_text(),
        DownloadError::QualityUnknown => quality_unknown_text(),
        DownloadError::ExternalProcess { code } => "Command executed with exit code "@
            + exit_code_text(code),
        DownloadError::Resource { message } => message@,
    }
}

impl DownloadError {
    /// Renders the user-facing sentence for this error.
    pub fn user_message(&self) -> (r: String)
        ensures
            r@ == message_of(*self),
    {
        match self {
            DownloadError::Resolution { url } => {
                let mut s = String::from_str("No handler succeeded for provided URL: ");
                s.append(url.as_str());
                s
            },
            DownloadError::ProviderDown => String::from_str(
                "Timeout downloading song. Download provider may be down.",
            ),
            DownloadError::ProviderFailed => String::from_str(
                "Failed to download song from provider",
            ),
            DownloadError::ProviderLogic { message } => message.clone(),
            DownloadError::PollTimeout => String::from_str("Song download timed out"),
            DownloadError::QualityUnknown => String::from_str(
                "Could not determine quality to download",
            ),
            DownloadError::ExternalProcess { code } => {
                let mut s = String::from_str("Command executed with exit code ");
                match code {
                    Option::None => {
                        s.append("None");
                    },
                    Option::Some(n) => {
                        s.append("Some(");
                        if *n < 0 {
                            s.append("-");
                            let m = -(*n as i64);
                            let d = dec_string(m as u128);
                            s.append(d.as_str());
                            proof {
                                reveal_strlit("-");
                                assert(s@ =~= "Command executed with exit code "@ + "Some("@
                                    + signed_text(*n as int));
                            }
                        } else {
                            let d = dec_string(*n as u128);
                            s.append(d.as_str());
                        }
                        s.append(")");
                        proof {
                            assert(s@ =~= "Command executed with exit code "@
                                + exit_code_text(*code));
                        }
                    },
                }
                s
            },
            DownloadError::Resource { message } => message.clone(),
        }
    }
}

} // verus!
