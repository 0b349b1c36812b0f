//! Planning for the external stem-separation engine.
//!
//! The engine itself is an opaque collaborator: it is handed a source
//! file, an output directory and a model name, and either produces stem
//! files or exits non-zero. This module owns everything about that
//! invocation that is not process I/O: the model names, the exact argument
//! list, the layout of every produced file, which files are delivered for
//! which outcomes, and the bounded-retry rule for non-zero exits.

use vstd::prelude::*;

use crate::errors::DownloadError;
use crate::paths::base_name;
use crate::paths::base_name_of;
use crate::paths::join_path;
use crate::paths::joined;
use crate::paths::with_extension;
use crate::paths::with_extension_of;
use crate::retry::RetryPolicy;
use crate::retry::RetryState;
use crate::retry::RetryDirective;
use crate::retry::external_process_retry_policy;
use crate::views::lemma_deep_view_index;

verus! {

/// The separation models the engine offers.
pub enum DemucsModel {
    HTDemucs,
    HTDemucsFt,
    HTDemucs6s,
    HDemucsMmi,
    MDX,
    MDXExtra,
    MDXQ,
}

/// The name under which the engine knows each model.
pub open spec fn model_name(m: DemucsModel) -> Seq<char> {
    match m {
        DemucsModel::HTDemucs => "htdemucs"@,
        DemucsModel::HTDemucsFt => "htdemucs_ft"@,
        DemucsModel::HTDemucs6s => "htdemucs_6s"@,
        DemucsModel::HDemucsMmi => "hdemucs_mmi"@,
        DemucsModel::MDX => "mdx"@,
        DemucsModel::MDXExtra => "mdx_extra"@,
        DemucsModel::MDXQ => "mdx_q"@,
    }
}

impl DemucsModel {
    /// The model's name as the engine expects it.
    pub fn name(&self) -> (r: &'static str)
        ensures
            r@ == model_name(*self),
    {
        match self {
            DemucsModel::HTDemucs => "htdemucs",
            DemucsModel::HTDemucsFt => "htdemucs_ft",
            DemucsModel::HTDemucs6s => "htdemucs_6s",
            DemucsModel::HDemucsMmi => "hdemucs_mmi",
            DemucsModel::MDX => "mdx",
            DemucsModel::MDXExtra => "mdx_extra",
            DemucsModel::MDXQ => "mdx_q",
        }
    }
}

/// The file name the separation works from, with its extension removed;
/// a nameless input falls back to a fixed stem.
pub open spec fn base_or_song(file_path: Seq<char>) -> Seq<char> {
    if base_name_of(file_path).len() == 0 {
        "song"@
    } else {
        base_name_of(file_path)
    }
}

/// Every path the separation step reads or writes: where the engine puts
/// its raw stems, and where each delivered file goes.
pub struct StemPlan {
    /// The directory the engine fills: its working directory plus the
    /// model name.
    pub stems_dir: String,
    /// The engine's vocals stem.
    pub vocals_src: String,
    /// The engine's instrumental stem.
    pub music_src: String,
    /// The mixed quiet-vocals track, produced next to the raw stems.
    pub combined_src: String,
    /// The re-encoded source track, produced next to the raw stems.
    pub reencoded_src: String,
    /// The delivered vocals file.
    pub vocals_out: String,
    /// The delivered instrumental file.
    pub music_out: String,
    /// The delivered quiet-vocals mix.
    pub combined_out: String,
    /// The delivered re-encoded source, next to the source file.
    pub reencoded_out: String,
}

pub struct DemucsProcessor;

impl DemucsProcessor {
    /// Lays out every file of one separation: the engine's stems under its
    /// working directory, the delivered stems under the output directory
    /// named after the source file, and the re-encoded source beside the
    /// source file itself.
    pub fn stem_plan(output_dir: &str, file_path: &str, demucs_dir: &str, model: &DemucsModel)
        -> (r: StemPlan)
        ensures
            r.stems_dir@ == joined(demucs_dir@, model_name(*model)),
            r.vocals_src@ == joined(joined(demucs_dir@, model_name(*model)), "vocals.mp3"@),
            r.music_src@ == joined(joined(demucs_dir@, model_name(*model)), "no_vocals.mp3"@),
            r.combined_src@ == joined(
                joined(demucs_dir@, model_name(*model)),
                "music-with-quiet-vocals.mp3"@,
            ),
            r.reencoded_src@ == joined(joined(demucs_dir@, model_name(*model)), "song.mp3"@),
            r.vocals_out@ == joined(output_dir@, base_or_song(file_path@) + ".vocals.mp3"@),
            r.music_out@ == joined(output_dir@, base_or_song(file_path@) + ".music.mp3"@),
            r.combined_out@ == joined(
                output_dir@,
                base_or_song(file_path@) + ".music-with-quiet-vocals.mp3"@,
            ),
            r.reencoded_out@ == with_extension_of(file_path@, "mp3"@),
    {
        let stems_dir = join_path(demucs_dir, model.name());
        let mut base = base_name(file_path);
        if base.as_str().unicode_len() == 0 {
            base = String::from_str("song");
        }
        let mut vocals_name = base.clone();
        vocals_name.append(".vocals.mp3");
        let mut music_name = base.clone();
        music_name.append(".music.mp3");
        let mut combined_name = base.clone();
        combined_name.append(".music-with-quiet-vocals.mp3");
        StemPlan {
            vocals_src: join_path(stems_dir.as_str(), "vocals.mp3"),
            music_src: join_path(stems_dir.as_str(), "no_vocals.mp3"),
            combined_src: join_path(stems_dir.as_str(), "music-with-quiet-vocals.mp3"),
            reencoded_src: join_path(stems_dir.as_str(), "song.mp3"),
            vocals_out: join_path(output_dir, vocals_name.as_str()),
            music_out: join_path(output_dir, music_name.as_str()),
            combined_out: join_path(output_dir, combined_name.as_str()),
            reencoded_out: with_extension(file_path, "mp3"),
            stems_dir,
        }
    }

    /// The exact argument list the engine is invoked with: two stems, a
    /// fixed file-name template and bitrate, the working directory, and
    /// the source file.
    pub fn demucs_args(model: &DemucsModel, demucs_dir: &str, file_path: &str) -> (r: Vec<String>)
        ensures
            r.deep_view() == seq![
                "--name"@,
                model_name(*model),
                "--two-stems"@,
                "vocals"@,
                "--filename"@,
                "{stem}.{ext}"@,
                "--mp3-bitrate"@,
                "256"@,
                "--mp3"@,
                "--out"@,
                demucs_dir@,
                file_path@,
            ],
    {
        let mut v: Vec<String> = Vec::new();
        v.push(String::from_str("--name"));
        v.push(String::from_str(model.name()));
        v.push(String::from_str("--two-stems"));
        v.push(String::from_str("vocals"));
        v.push(String::from_str("--filename"));
        v.push(String::from_str("{stem}.{ext}"));
        v.push(String::from_str("--mp3-bitrate"));
        v.push(String::from_str("256"));
        v.push(String::from_str("--mp3"));
        v.push(String::from_str("--out"));
        v.push(String::from_str(demucs_dir));
        v.push(String::from_str(file_path));
        proof {
            lemma_deep_view_index(v);
            assert(v.deep_view() =~= seq![
                "--name"@,
                model_name(*model),
                "--two-stems"@,
                "vocals"@,
                "--filename"@,
                "{stem}.{ext}"@,
                "--mp3-bitrate"@,
                "256"@,
                "--mp3"@,
                "--out"@,
                demucs_dir@,
                file_path@,
            ]);
        }
        v
    }

    /// The delivered files, in delivery order: vocals and instrumental
    /// always; the quiet-vocals mix and the re-encoded source only when
    /// their own conversions succeeded.
    pub fn collect_outputs(plan: &StemPlan, combined_ok: bool, reencoded_ok: bool) -> (r: Vec<
        String,
    >)
        ensures
            r.deep_view() == seq![plan.vocals_out@, plan.music_out@] + (if combined_ok {
                seq![plan.combined_out@]
            } else {
                Seq::empty()
            }) + (if reencoded_ok {
                seq![plan.reencoded_out@]
            } else {
                Seq::empty()
            }),
    {
        let mut v: Vec<String> = Vec::new();
        v.push(plan.vocals_out.clone());
        v.push(plan.music_out.clone());
        if combined_ok {
            v.push(plan.combined_out.clone());
        }
        if reencoded_ok {
            v.push(plan.reencoded_out.clone());
        }
        proof {
            lemma_deep_view_index(v);
            assert(v.deep_view() =~= seq![plan.vocals_out@, plan.music_out@] + (if combined_ok {
                seq![plan.combined_out@]
            } else {
                Seq::<Seq<char>>::empty()
            }) + (if reencoded_ok {
                seq![plan.reencoded_out@]
            } else {
                Seq::<Seq<char>>::empty()
            }));
        }
        v
    }
}

/// How one engine invocation ended: cleanly, or with the exit code that a
/// failed run reported.
pub struct ProcessExit {
    pub ok: bool,
    pub code: Option<i32>,
}

/// Index of the first clean exit among `script[i..max]`, if any.
pub open spec fn first_clean_exit_from(script: Seq<ProcessExit>, max: int, i: int) -> Option<int>
    decreases max - i,
{
    if i >= max || i >= script.len() {
        None
    } else if script[i].ok {
        Some(i)
    } else {
        first_clean_exit_from(script, max, i + 1)
    }
}

/// Index of the first clean exit the bounded retry would reach.
pub open spec fn first_clean_exit(script: Seq<ProcessExit>, max: int) -> Option<int> {
    first_clean_exit_from(script, max, 0)
}

/// Skipping failing runs does not change the first clean exit.
proof fn lemma_first_clean_skip(script: Seq<ProcessExit>, max: int, a: int, b: int)
    requires
        0 <= a <= b,
        forall|j: int| a <= j < b ==> !(#[trigger] script[j]).ok,
    ensures
        first_clean_exit_from(script, max, a) == first_clean_exit_from(script, max, b),
    decreases b - a,
{
    if a < b {
        if a >= max || a >= script.len() {
            assert(b >= max || b >= script.len());
        } else {
            lemma_first_clean_skip(script, max, a + 1, b);
        }
    }
}

impl DemucsProcessor {
    /// Drives the engine's bounded retry over a scripted sequence of
    /// exits: the invocation is repeated, without backoff, until it exits
    /// cleanly or the attempt bound of
    /// [`external_process_retry_policy`] is spent; then the last exit code
    /// becomes the terminal error.
    pub fn run_process_attempts(script: &Vec<ProcessExit>) -> (r: Result<(), DownloadError>)
        requires
            script@.len() >= 3,
        ensures
            match first_clean_exit(script@, 3) {
                Some(_) => r is Ok,
                None => r == Result::<(), DownloadError>::Err(
                    DownloadError::ExternalProcess { code: script@[2].code },
                ),
            },
    {
        let policy: RetryPolicy = external_process_retry_policy();
        let mut st = RetryState::new(policy);
        let mut i: usize = 0;
        loop
            invariant
                st.policy == policy,
                policy.max_attempts == 3,
                script@.len() >= 3,
                i == st.attempts_made,
                st.attempts_made < 3,
                forall|j: int| 0 <= j < i ==> !(#[trigger] script@[j]).ok,
            decreases 3 - st.attempts_made,
        {
            proof {
                lemma_first_clean_skip(script@, 3, 0, i as int);
            }
            let attempt = &script[i];
            if attempt.ok {
                return Ok(());
            }
            match st.on_failure() {
                RetryDirective::Retry { sleep_secs: _ } => {
                    i = i + 1;
                },
                RetryDirective::GiveUp => {
                    proof {
                        lemma_first_clean_skip(script@, 3, i as int, i + 1);
                    }
                    return Err(DownloadError::ExternalProcess { code: attempt.code });
                },
            }
        }
    }
}

} // verus!
