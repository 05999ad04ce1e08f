//! What the transcribe shortcut decides when it starts and stops a recording:
//! which streaming path to take, how local streaming chunks its audio, which
//! post-processing prompt applies, how the transcription is converted between
//! Chinese scripts, and what is kept in the history.
use vstd::prelude::*;
use ferrous_opencc::error::OpenCCError;
use ferrous_opencc::OpenCC;
use crate::settings::app_settings::AppSettings;
use crate::settings::stt_catalog::{PARAKEET_DEFAULT_CHUNK_MS, PARAKEET_UNIFIED_MODEL_ID};
use crate::settings::post_process::{LLMPrompt, LLMPromptView, prompts_view};
use crate::stt_provider::dictionary::{inject_dictionary, options_view, spec_inject_dictionary};
use crate::stt_provider::options::{CloudOptions, OptionValueView};
use crate::text::{
    is_white_space, white_space, contains_text, strings_view, owned, spec_contains_text, str_eq,
    clone_opt_string,
};

verus! {

/// The shortest chunk, in milliseconds, that local streaming feeds the model.
pub const PARAKEET_MIN_CHUNK_MS: u64 = 80;

/// The longest chunk, in milliseconds, that local streaming feeds the model.
pub const PARAKEET_MAX_CHUNK_MS: u64 = 2400;

/// Audio samples per millisecond at the recorder's 16 kHz rate.
pub const SAMPLES_PER_MS: u64 = 16;

/// The chunk length clamped to 80..=2400 ms and rounded to the nearest
/// multiple of 80 ms (a half step rounds up).
pub open spec fn spec_aligned_chunk_ms(chunk_ms: u64) -> int {
    let clamped: int = if chunk_ms < 80 {
        80
    } else if chunk_ms > 2400 {
        2400
    } else {
        chunk_ms as int
    };
    ((clamped + 40) / 80) * 80
}

/// Clamps a requested chunk length to 80..=2400 ms and rounds it to the
/// nearest multiple of 80 ms, the frame size of the streaming model.
pub fn aligned_parakeet_chunk_ms(chunk_ms: u64) -> (r: u64)
    ensures
        r == spec_aligned_chunk_ms(chunk_ms),
{
    let clamped: u64 = if chunk_ms < PARAKEET_MIN_CHUNK_MS {
        PARAKEET_MIN_CHUNK_MS
    } else if chunk_ms > PARAKEET_MAX_CHUNK_MS {
        PARAKEET_MAX_CHUNK_MS
    } else {
        chunk_ms
    };
    ((clamped + 40) / 80) * 80
}

/// Every aligned chunk length is a whole number of 80 ms frames between 80 and
/// 2400 ms, lies within 40 ms of a request in that range, and aligning it again
/// leaves it as it is.
pub proof fn lemma_aligned_chunk_ms(chunk_ms: u64)
    ensures
        80 <= spec_aligned_chunk_ms(chunk_ms) <= 2400,
        spec_aligned_chunk_ms(chunk_ms) % 80 == 0,
        80 <= chunk_ms <= 2400 ==> chunk_ms - 40 < spec_aligned_chunk_ms(chunk_ms) <= chunk_ms + 40,
        spec_aligned_chunk_ms(spec_aligned_chunk_ms(chunk_ms) as u64) == spec_aligned_chunk_ms(chunk_ms),
{
    let clamped: int = if chunk_ms < 80 {
        80
    } else if chunk_ms > 2400 {
        2400
    } else {
        chunk_ms as int
    };
    let q = (clamped + 40) / 80;
    assert(1 <= q <= 30);
    assert((q * 80) % 80 == 0) by (nonlinear_arith);
    assert(q * 80 + 40 == 80 * q + 40);
    assert((q * 80 + 40) / 80 == q) by (nonlinear_arith);
    assert(clamped - 40 < q * 80 <= clamped + 40) by (nonlinear_arith)
        requires
            q == (clamped + 40) / 80,
    ;
}

/// How many audio samples one chunk of local streaming holds.
pub open spec fn spec_feed_chunk_samples(chunk_ms: u64) -> int {
    spec_aligned_chunk_ms(chunk_ms) * 16
}

/// The number of 16 kHz samples in one aligned chunk of the requested length.
pub fn feed_chunk_samples(chunk_ms: u64) -> (r: usize)
    ensures
        r == spec_feed_chunk_samples(chunk_ms),
        1280 <= r <= 38400,
{
    let aligned = aligned_parakeet_chunk_ms(chunk_ms);
    proof {
        lemma_aligned_chunk_ms(chunk_ms);
    }
    (aligned * SAMPLES_PER_MS) as usize
}

/// How pending audio splits into whole chunks for the model: the number of
/// full chunks, and the samples left waiting for more audio.
pub fn split_pending(pending_len: usize, chunk_samples: usize) -> (r: (usize, usize))
    requires
        chunk_samples > 0,
    ensures
        r.0 == pending_len / chunk_samples,
        r.1 == pending_len % chunk_samples,
        r.0 * chunk_samples + r.1 == pending_len,
        r.1 < chunk_samples,
{
    let full = pending_len / chunk_samples;
    let rest = pending_len % chunk_samples;
    assert(full * chunk_samples + rest == pending_len) by (nonlinear_arith)
        requires
            chunk_samples > 0,
            full == pending_len / chunk_samples,
            rest == pending_len % chunk_samples,
    ;
    (full, rest)
}

/// Adds a piece of streamed text to the transcript; an empty piece adds nothing.
pub fn append_delta(transcript: &mut String, delta: &str)
    ensures
        final(transcript)@ == old(transcript)@ + delta@,
{
    if !delta.is_empty() {
        transcript.append(delta);
    } else {
        proof {
            assert(old(transcript)@ + delta@ =~= old(transcript)@);
        }
    }
}

/// Whether a character belongs to a script written without spaces between
/// words: CJK ideographs (with extension A), hiragana, katakana or hangul.
pub open spec fn is_cjk(c: char) -> bool {
    let u = c as u32;
    (0x4E00 <= u <= 0x9FFF) || (0x3400 <= u <= 0x4DBF) || (0x3040 <= u <= 0x309F) || (0x30A0 <= u
        <= 0x30FF) || (0xAC00 <= u <= 0xD7AF)
}

/// The number of whitespace-separated words: the characters that are not
/// white space and stand first or right after white space.
pub open spec fn spec_word_starts(s: Seq<char>) -> nat
    decreases s.len(),
{
    if s.len() == 0 {
        0
    } else {
        let i = s.len() - 1;
        spec_word_starts(s.drop_last()) + if !is_white_space(s[i]) && (i == 0 || is_white_space(
            s[i - 1],
        )) {
            1nat
        } else {
            0nat
        }
    }
}

/// The number of characters of scripts written without spaces.
pub open spec fn spec_cjk_count(s: Seq<char>) -> nat
    decreases s.len(),
{
    if s.len() == 0 {
        0
    } else {
        spec_cjk_count(s.drop_last()) + if is_cjk(s.last()) {
            1nat
        } else {
            0nat
        }
    }
}

/// The word count kept in the history: the whitespace-separated words, or,
/// where the text has more characters of scripts written without spaces, the
/// number of those characters. As a 32-bit integer, as the history stores it.
pub open spec fn spec_transcription_words(s: Seq<char>) -> i32 {
    let ws = spec_word_starts(s);
    let cjk = spec_cjk_count(s);
    (if cjk > ws {
        cjk
    } else {
        ws
    }) as i32
}

/// Counts the words of a transcription: whitespace splitting for most
/// languages, one word per character for scripts written without spaces.
pub fn count_transcription_words(text: &str) -> (r: i32)
    ensures
        r == spec_transcription_words(text@),
{
    let mut ws: usize = 0;
    let mut cjk: usize = 0;
    let mut prev_white = true;
    let len = text.unicode_len();
    for c in it: text.chars()
        invariant
            it.seq() == text@,
            len == text@.len(),
            ws == spec_word_starts(text@.take(it.index())),
            cjk == spec_cjk_count(text@.take(it.index())),
            prev_white == (it.index() == 0 || is_white_space(text@[it.index() - 1])),
            ws <= it.index(),
            cjk <= it.index(),
            it.index() <= text@.len(),
    {
        let ghost i = it.index();
        proof {
            assert(text@[i] == c);
            assert(text@.take(i + 1).drop_last() =~= text@.take(i));
            assert(text@.take(i + 1).last() == c);
            assert(text@.take(i + 1)[i] == c);
            if i > 0 {
                assert(text@.take(i + 1)[i - 1] == text@[i - 1]);
            }
        }
        let white = white_space(c);
        if !white && prev_white {
            ws = ws + 1;
        }
        let u = c as u32;
        if (0x4E00 <= u && u <= 0x9FFF) || (0x3400 <= u && u <= 0x4DBF) || (0x3040 <= u && u <= 0x309F)
            || (0x30A0 <= u && u <= 0x30FF) || (0xAC00 <= u && u <= 0xD7AF) {
            cjk = cjk + 1;
        }
        prev_white = white;
    }
    proof {
        assert(text@.take(text@.len() as int) =~= text@);
    }
    let words = if cjk > ws {
        cjk
    } else {
        ws
    };
    #[verifier::truncate]
    (words as i32)
}

/// How a streaming session ended, as far as the rest of the pipeline cares.
#[derive(Debug)]
pub enum SessionOutcome {
    /// The session produced this transcript.
    Transcript(String),
    /// The provider heard no audio: the transcription is empty.
    NoAudio,
    /// The session failed: the recorded samples are transcribed in one batch instead.
    Batch,
}

/// The message by which a cloud session reports that it received no audio.
pub open spec fn no_audio_message() -> Seq<char> {
    "No audio received"@
}

/// What a finished session leads to: its transcript; for a cloud session
/// whose error says that no audio was received, an empty transcription; for
/// any other failure, a batch transcription of the samples.
pub open spec fn spec_session_outcome(is_local: bool, finished: Result<Seq<char>, Seq<char>>) -> Option<
    Option<Seq<char>>,
> {
    match finished {
        Ok(t) => Some(Some(t)),
        Err(m) => if !is_local && spec_contains_text(m, no_audio_message()) {
            Some(None)
        } else {
            None
        },
    }
}

/// A text result by the characters of its text.
pub open spec fn text_result(r: Result<String, String>) -> Result<Seq<char>, Seq<char>> {
    match r {
        Ok(t) => Ok(t@),
        Err(m) => Err(m@),
    }
}

/// Decides what the end of a streaming session leads to. `is_local` says
/// whether it was the on-device streaming session; `finished` is what the
/// session gave back, its transcript or its error message.
pub fn session_outcome(is_local: bool, finished: Result<String, String>) -> (r: SessionOutcome)
    ensures
        spec_session_outcome(is_local, text_result(finished)) == match r {
            SessionOutcome::Transcript(t) => Some(Some(t@)),
            SessionOutcome::NoAudio => Some(None),
            SessionOutcome::Batch => None,
        },
{
    match finished {
        Ok(t) => SessionOutcome::Transcript(t),
        Err(m) => {
            let no_audio = "No audio received";
            proof {
                reveal_strlit("No audio received");
            }
            if !is_local && contains_text(m.as_str(), no_audio) {
                SessionOutcome::NoAudio
            } else {
                SessionOutcome::Batch
            }
        },
    }
}

/// Whether post-processing may run: the selected provider is Apple
/// Intelligence, which needs no key, or one whose key has been verified.
pub open spec fn spec_post_process_ready(settings: AppSettings) -> bool {
    settings.post_process_provider_id@ == "apple_intelligence"@
        || settings.post_process_verified_providers@.contains(settings.post_process_provider_id@)
}

/// The post-processing prompt of a binding: the binding's prompt where
/// post-processing may run and the binding exists, and none otherwise.
pub open spec fn spec_prompt_for_binding(settings: AppSettings, binding_id: Seq<char>) -> Option<Seq<char>> {
    if spec_post_process_ready(settings) && settings.bindings@.contains_key(binding_id) {
        settings.bindings@[binding_id].post_process_prompt_id
    } else {
        None
    }
}

/// The prompt id to post-process with when the binding's recording stops.
pub fn post_process_prompt_for_binding(settings: &AppSettings, binding_id: &str) -> (r: Option<String>)
    ensures
        r.deep_view() == spec_prompt_for_binding(*settings, binding_id@),
{
    let apple = "apple_intelligence";
    proof {
        reveal_strlit("apple_intelligence");
    }
    let ready = str_eq(settings.post_process_provider_id.as_str(), apple)
        || settings.post_process_verified_providers.contains(settings.post_process_provider_id.as_str());
    if !ready {
        return None;
    }
    match settings.bindings.get(binding_id) {
        Some(b) => clone_opt_string(&b.post_process_prompt_id),
        None => None,
    }
}

/// Whether `i` is the first prompt with the id.
pub open spec fn is_first_prompt(ps: Seq<LLMPromptView>, id: Seq<char>, i: int) -> bool {
    &&& 0 <= i < ps.len()
    &&& ps[i].id == id
    &&& forall|j: int| 0 <= j < i ==> #[trigger] ps[j].id != id
}

/// The text of the first prompt with the id, if any has it.
pub open spec fn spec_prompt_text(ps: Seq<LLMPromptView>, id: Seq<char>) -> Option<Seq<char>> {
    if exists|i: int| is_first_prompt(ps, id, i) {
        Some(ps[choose|i: int| is_first_prompt(ps, id, i)].prompt)
    } else {
        None
    }
}

/// The text of the first prompt with the given id.
pub fn prompt_text(prompts: &[LLMPrompt], id: &str) -> (r: Option<String>)
    ensures
        r.deep_view() == spec_prompt_text(prompts_view(prompts@), id@),
{
    let ghost pv = prompts_view(prompts@);
    let n = prompts.len();
    let mut i: usize = 0;
    while i < n
        invariant
            n == prompts@.len(),
            pv == prompts_view(prompts@),
            i <= n,
            forall|j: int| 0 <= j < i ==> #[trigger] pv[j].id != id@,
        decreases n - i,
    {
        if str_eq(prompts[i].id.as_str(), id) {
            proof {
                assert(is_first_prompt(pv, id@, i as int));
                let k = choose|k: int| is_first_prompt(pv, id@, k);
                assert(k == i) by {
                    if k < i {
                        assert(pv[k].id != id@);
                    }
                    if k > i {
                        assert(pv[i as int].id != id@);
                    }
                }
            }
            return Some(prompts[i].prompt.clone());
        }
        i = i + 1;
    }
    proof {
        assert forall|k: int| !is_first_prompt(pv, id@, k) by {
            if 0 <= k < n {
                assert(pv[k].id != id@);
            }
        }
    }
    None
}

/// The texts that a finished transcription leaves: what is pasted, what the
/// history keeps as the processed text, and the prompt it was processed with.
#[derive(Debug)]
pub struct FinishedTranscription {
    pub final_text: String,
    pub post_processed_text: Option<String>,
    pub post_process_prompt: Option<String>,
}

/// The final text: the language model's output where post-processing ran,
/// else the script-converted text where there is one, else the transcription.
/// The processed text kept in the history is that output, or the converted
/// text where it differs from the transcription. The prompt text is kept
/// only with the model's output, found by the prompt id.
pub open spec fn spec_finished(
    transcription: Seq<char>,
    converted: Option<Seq<char>>,
    processed: Option<Seq<char>>,
    prompt_id: Option<Seq<char>>,
    prompts: Seq<LLMPromptView>,
) -> (Seq<char>, Option<Seq<char>>, Option<Seq<char>>) {
    let converted_text = match converted {
        Some(c) => c,
        None => transcription,
    };
    match processed {
        Some(p) => (
            p,
            Some(p),
            match prompt_id {
                Some(pid) => spec_prompt_text(prompts, pid),
                None => None,
            },
        ),
        None => (
            converted_text,
            if converted_text != transcription {
                Some(converted_text)
            } else {
                None
            },
            None,
        ),
    }
}

/// Puts together the texts of a finished transcription from the raw
/// transcription, its script conversion (if any), the language model's output
/// (if post-processing ran), the prompt id and the configured prompts.
pub fn finish_transcription(
    transcription: &str,
    converted: Option<String>,
    processed: Option<String>,
    prompt_id: &Option<String>,
    prompts: &[LLMPrompt],
) -> (r: FinishedTranscription)
    ensures
        (r.final_text@, r.post_processed_text.deep_view(), r.post_process_prompt.deep_view())
            == spec_finished(
            transcription@,
            converted.deep_view(),
            processed.deep_view(),
            prompt_id.deep_view(),
            prompts_view(prompts@),
        ),
{
    let converted_text = match converted {
        Some(c) => c,
        None => crate::text::owned(transcription),
    };
    match processed {
        Some(p) => {
            let prompt = match prompt_id {
                Some(pid) => prompt_text(prompts, pid.as_str()),
                None => None,
            };
            let kept = p.clone();
            FinishedTranscription { final_text: p, post_processed_text: Some(kept), post_process_prompt: prompt }
        },
        None => {
            let differs = !str_eq(converted_text.as_str(), transcription);
            let kept = if differs {
                Some(converted_text.clone())
            } else {
                None
            };
            FinishedTranscription { final_text: converted_text, post_processed_text: kept, post_process_prompt: None }
        },
    }
}

/// The shortcut action that records and transcribes speech.
pub struct TranscribeAction;

/// How a recording is transcribed.
#[derive(Debug)]
pub enum RecordingPlan {
    /// The samples are transcribed in one batch when the recording stops.
    Batch,
    /// The on-device model transcribes chunks of audio while recording.
    LocalStreaming { model_id: String, chunk_ms: u64, chunk_samples: usize },
    /// A cloud provider transcribes the audio stream in real time.
    CloudStreaming { provider_id: String, api_key: String, model: String, options: Option<CloudOptions> },
}

pub enum RecordingPlanView {
    Batch,
    LocalStreaming { model_id: Seq<char>, chunk_ms: u64, chunk_samples: usize },
    CloudStreaming {
        provider_id: Seq<char>,
        api_key: Seq<char>,
        model: Seq<char>,
        options: Option<Map<Seq<char>, OptionValueView>>,
    },
}

impl View for RecordingPlan {
    type V = RecordingPlanView;

    open spec fn view(&self) -> RecordingPlanView {
        match self {
            RecordingPlan::Batch => RecordingPlanView::Batch,
            RecordingPlan::LocalStreaming { model_id, chunk_ms, chunk_samples } => RecordingPlanView::LocalStreaming {
                model_id: model_id@,
                chunk_ms: *chunk_ms,
                chunk_samples: *chunk_samples,
            },
            RecordingPlan::CloudStreaming { provider_id, api_key, model, options } => RecordingPlanView::CloudStreaming {
                provider_id: provider_id@,
                api_key: api_key@,
                model: model@,
                options: options_view(*options),
            },
        }
    }
}

/// Whether real-time transcription is switched on for a provider or model;
/// off where nothing is stored for it.
pub open spec fn spec_realtime_on(settings: AppSettings, key: Seq<char>) -> bool {
    settings.stt_realtime_enabled@.contains_key(key) && settings.stt_realtime_enabled@[key]
}

/// The text stored under a key, or empty text.
pub open spec fn text_or_empty(m: Map<Seq<char>, Seq<char>>, key: Seq<char>) -> Seq<char> {
    if m.contains_key(key) {
        m[key]
    } else {
        Seq::empty()
    }
}

/// The requested chunk length of a model: the one stored for it, else 560 ms.
pub open spec fn spec_requested_chunk_ms(settings: AppSettings, model: Seq<char>) -> u64 {
    if settings.stt_realtime_chunk_ms@.contains_key(model) {
        settings.stt_realtime_chunk_ms@[model]
    } else {
        560
    }
}

/// How a recording started with these settings is transcribed. With the local
/// provider, the unified Parakeet model and real-time switched on for that
/// model, the model streams (where the machine can run it; else one batch),
/// in aligned chunks of the length stored for it. With a cloud provider that
/// has real-time switched on, the provider streams with its key, its model
/// and its options (`parsed_options`, what its stored options parse to) with
/// the dictionary merged in. Anything else is one batch.
pub open spec fn spec_recording_plan(
    settings: AppSettings,
    parsed_options: Option<Map<Seq<char>, OptionValueView>>,
    local_streaming_supported: bool,
) -> RecordingPlanView {
    let provider = settings.stt_provider_id@;
    let model = settings.selected_model@;
    if provider == "local"@ && model == PARAKEET_UNIFIED_MODEL_ID@ && spec_realtime_on(settings, model) {
        if local_streaming_supported {
            let requested = spec_requested_chunk_ms(settings, model);
            RecordingPlanView::LocalStreaming {
                model_id: model,
                chunk_ms: spec_aligned_chunk_ms(requested) as u64,
                chunk_samples: spec_feed_chunk_samples(requested) as usize,
            }
        } else {
            RecordingPlanView::Batch
        }
    } else if provider != "local"@ && spec_realtime_on(settings, provider) {
        RecordingPlanView::CloudStreaming {
            provider_id: provider,
            api_key: text_or_empty(settings.stt_api_keys@, provider),
            model: text_or_empty(settings.stt_cloud_models@, provider),
            options: spec_inject_dictionary(
                provider,
                parsed_options,
                strings_view(settings.dictionary_terms@),
                settings.dictionary_context@,
            ),
        }
    } else {
        RecordingPlanView::Batch
    }
}

/// The text stored under `key`, or empty text.
fn lookup_text_or_empty(m: &crate::str_map::StrMap<String>, key: &str) -> (r: String)
    ensures
        r@ == text_or_empty(m@, key@),
{
    match m.get(key) {
        Some(v) => v.clone(),
        None => String::new(),
    }
}

/// Whether real-time transcription is on for the key.
fn realtime_on(settings: &AppSettings, key: &str) -> (r: bool)
    ensures
        r == spec_realtime_on(*settings, key@),
{
    match settings.stt_realtime_enabled.get(key) {
        Some(b) => *b,
        None => false,
    }
}

impl TranscribeAction {
    /// Decides how the recording that starts now is transcribed.
    /// `parsed_options` is what the selected provider's stored options parse
    /// to (none where they are missing or not valid JSON);
    /// `local_streaming_supported` says whether this machine runs the
    /// on-device streaming model.
    pub fn recording_plan(
        &self,
        settings: &AppSettings,
        parsed_options: Option<CloudOptions>,
        local_streaming_supported: bool,
    ) -> (r: RecordingPlan)
        ensures
            r@ == spec_recording_plan(*settings, options_view(parsed_options), local_streaming_supported),
    {
        let local = "local";
        let unified = PARAKEET_UNIFIED_MODEL_ID;
        proof {
            reveal_strlit("local");
            reveal_strlit("parakeet-unified-en-0.6b-int8");
        }
        let provider = settings.stt_provider_id.as_str();
        let model = settings.selected_model.as_str();
        let is_local = str_eq(provider, local);
        if is_local && str_eq(model, unified) && realtime_on(settings, model) {
            if !local_streaming_supported {
                return RecordingPlan::Batch;
            }
            let requested = match settings.stt_realtime_chunk_ms.get(model) {
                Some(ms) => *ms,
                None => PARAKEET_DEFAULT_CHUNK_MS,
            };
            let chunk_ms = aligned_parakeet_chunk_ms(requested);
            let chunk_samples = feed_chunk_samples(requested);
            proof {
                lemma_aligned_chunk_ms(requested);
            }
            RecordingPlan::LocalStreaming { model_id: owned(model), chunk_ms, chunk_samples }
        } else if !is_local && realtime_on(settings, provider) {
            let options = inject_dictionary(
                provider,
                parsed_options,
                settings.dictionary_terms.as_slice(),
                settings.dictionary_context.as_str(),
            );
            RecordingPlan::CloudStreaming {
                provider_id: owned(provider),
                api_key: lookup_text_or_empty(&settings.stt_api_keys, provider),
                model: lookup_text_or_empty(&settings.stt_cloud_models, provider),
                options,
            }
        } else {
            RecordingPlan::Batch
        }
    }
}

/// The Chinese script that a transcription is converted to.
#[derive(Debug, Clone, Copy, PartialEq, Eq)]
pub enum ChineseScript {
    Simplified,
    Traditional,
}

#[verifier::external_type_specification]
#[verifier::external_body]
pub struct ExOpenCC(OpenCC);

#[verifier::external_type_specification]
#[verifier::external_body]
pub struct ExOpenCCError(OpenCCError);

/// What OpenCC's conversion to simplified Chinese (`to_simplified`, with the
/// Taiwan-phrase configuration `tw2sp`) or to traditional Chinese (with
/// `s2twp`) makes of a text.
pub uninterp spec fn opencc_converted(to_simplified: bool, text: Seq<char>) -> Seq<char>;

/// Whether OpenCC's built-in configuration for that direction loads.
pub uninterp spec fn opencc_config_loads(to_simplified: bool) -> bool;

/// An OpenCC converter together with the script it converts to.
pub struct ChineseConverter {
    target: ChineseScript,
    inner: OpenCC,
}

impl ChineseConverter {
    pub closed spec fn target(&self) -> ChineseScript {
        self.target
    }
}

/// Loads ferrous-opencc's built-in configuration with `OpenCC::from_config`:
/// `Tw2sp` (traditional, Taiwan phrases, to simplified) for a simplified
/// target, `S2twp` for a traditional one. The configurations are embedded in
/// the crate, so whether one loads depends on the target alone; a loaded
/// converter converts to that target.
#[verifier::external_body]
fn load_converter(target: ChineseScript) -> (r: Result<ChineseConverter, OpenCCError>)
    ensures
        r.is_ok() == opencc_config_loads(target == ChineseScript::Simplified),
        r matches Ok(c) ==> c.target() == target,
{
    let config = match target {
        ChineseScript::Simplified => ferrous_opencc::config::BuiltinConfig::Tw2sp,
        ChineseScript::Traditional => ferrous_opencc::config::BuiltinConfig::S2twp,
    };
    match OpenCC::from_config(config) {
        Ok(inner) => Ok(ChineseConverter { target, inner }),
        Err(e) => Err(e),
    }
}

/// Converts a text with `OpenCC::convert`, which runs the converter's
/// embedded dictionaries over it: the result is a function of the target
/// script and the text alone.
#[verifier::external_body]
fn convert_text(converter: &ChineseConverter, text: &str) -> (r: String)
    ensures
        r@ == opencc_converted(converter.target() == ChineseScript::Simplified, text@),
{
    converter.inner.convert(text)
}

/// The script a selected language asks for: `zh-Hans` simplified, `zh-Hant`
/// traditional, any other language none.
pub open spec fn spec_chinese_target(language: Seq<char>) -> Option<ChineseScript> {
    if language == "zh-Hans"@ {
        Some(ChineseScript::Simplified)
    } else if language == "zh-Hant"@ {
        Some(ChineseScript::Traditional)
    } else {
        None
    }
}

/// The Chinese script that the selected language asks transcriptions to be in.
pub fn chinese_target(selected_language: &str) -> (r: Option<ChineseScript>)
    ensures
        r == spec_chinese_target(selected_language@),
{
    proof {
        reveal_strlit("zh-Hans");
        reveal_strlit("zh-Hant");
    }
    if str_eq(selected_language, "zh-Hans") {
        Some(ChineseScript::Simplified)
    } else if str_eq(selected_language, "zh-Hant") {
        Some(ChineseScript::Traditional)
    } else {
        None
    }
}

/// What `maybe_convert_chinese_variant` gives: where the selected language is
/// simplified or traditional Chinese and OpenCC's configuration for it
/// loads, the transcription converted to that script; else nothing, and the
/// transcription stays as it is.
pub open spec fn spec_chinese_conversion(language: Seq<char>, transcription: Seq<char>) -> Option<Seq<char>> {
    match spec_chinese_target(language) {
        Some(t) => if opencc_config_loads(t == ChineseScript::Simplified) {
            Some(opencc_converted(t == ChineseScript::Simplified, transcription))
        } else {
            None
        },
        None => None,
    }
}

/// Converts a transcription to the Chinese script that the selected language
/// asks for, with OpenCC; none where the language asks for no conversion or
/// the converter cannot be loaded.
pub fn maybe_convert_chinese_variant(settings: &AppSettings, transcription: &str) -> (r: Option<String>)
    ensures
        r.deep_view() == spec_chinese_conversion(settings.selected_language@, transcription@),
{
    let target = match chinese_target(settings.selected_language.as_str()) {
        Some(t) => t,
        None => return None,
    };
    match load_converter(target) {
        Ok(converter) => Some(convert_text(&converter, transcription)),
        Err(_) => None,
    }
}

/// What happens next in the pipeline that runs when a recording stops.
#[derive(Debug)]
pub enum StopEvent {
    /// The recorder stopped: whether it gave samples, and which streaming
    /// session (if any) was running.
    RecordingStopped { has_samples: bool, local_session: bool, cloud_session: bool },
    /// A streaming session finished with its transcript or its error message.
    SessionFinished { is_local: bool, result: Result<String, String> },
    /// The transcription is ready, or failed with an error message.
    Transcribed(Result<String, String>),
    /// The transcription went through the script conversion and the language
    /// model; each gave its text where it ran.
    Processed { transcription: String, converted: Option<String>, processed: Option<String> },
}

/// What the pipeline does next.
#[derive(Debug)]
pub enum StopAction {
    /// Hide the recording overlay and show the idle tray icon.
    GoIdle,
    /// Finish the streaming session: the on-device one or the cloud one.
    FinishSession { is_local: bool },
    /// Apply the custom words and the output filter to a session transcript,
    /// then report it as transcribed.
    CorrectTranscript(String),
    /// Transcribe the recorded samples in one batch.
    TranscribeBatch,
    /// Convert the transcription's Chinese script where asked, then
    /// post-process it with the prompt where there is one.
    Process { transcription: String, prompt_id: Option<String> },
    /// Save the transcription with its processed texts and word count to the
    /// history, and paste the final text.
    Deliver { transcription: String, finished: FinishedTranscription, word_count: i32 },
}

/// The next step after each event of the stop pipeline. Without samples it
/// goes idle; with a streaming session it finishes that session (the
/// on-device one first), else it transcribes in one batch. A session's
/// transcript is corrected; a cloud session that heard no audio leaves an
/// empty transcription; any other session failure falls back to a batch. A
/// failed or empty transcription goes idle; any other is processed with the
/// binding's prompt, and the processed texts are delivered with the word
/// count of the raw transcription.
pub open spec fn stop_step_ok(
    event: StopEvent,
    prompt_id: Option<Seq<char>>,
    prompts: Seq<LLMPromptView>,
    r: StopAction,
) -> bool {
    match event {
        StopEvent::RecordingStopped { has_samples, local_session, cloud_session } => if !has_samples {
            r is GoIdle
        } else if local_session {
            r matches StopAction::FinishSession { is_local } && is_local
        } else if cloud_session {
            r matches StopAction::FinishSession { is_local } && !is_local
        } else {
            r is TranscribeBatch
        },
        StopEvent::SessionFinished { is_local, result } => match spec_session_outcome(is_local, text_result(result)) {
            Some(Some(t)) => r matches StopAction::CorrectTranscript(c) && c@ == t,
            Some(None) => r is GoIdle,
            None => r is TranscribeBatch,
        },
        StopEvent::Transcribed(result) => match result {
            Ok(t) => if t@.len() == 0 {
                r is GoIdle
            } else {
                r matches StopAction::Process { transcription, prompt_id: p } && transcription@ == t@
                    && p.deep_view() == prompt_id
            },
            Err(_) => r is GoIdle,
        },
        StopEvent::Processed { transcription, converted, processed } => r matches StopAction::Deliver {
            transcription: kept,
            finished,
            word_count,
        } && kept@ == transcription@ && (finished.final_text@, finished.post_processed_text.deep_view(), finished.post_process_prompt.deep_view())
            == spec_finished(transcription@, converted.deep_view(), processed.deep_view(), prompt_id, prompts)
            && word_count == spec_transcription_words(transcription@),
    }
}

impl TranscribeAction {
    /// Decides the next step of the pipeline that runs when a recording
    /// stops, given what just happened, the binding's post-processing prompt
    /// id and the configured prompts.
    pub fn stop_step(&self, event: StopEvent, prompt_id: &Option<String>, prompts: &[LLMPrompt]) -> (r: StopAction)
        ensures
            stop_step_ok(event, prompt_id.deep_view(), prompts_view(prompts@), r),
    {
        match event {
            StopEvent::RecordingStopped { has_samples, local_session, cloud_session } => {
                if !has_samples {
                    StopAction::GoIdle
                } else if local_session {
                    StopAction::FinishSession { is_local: true }
                } else if cloud_session {
                    StopAction::FinishSession { is_local: false }
                } else {
                    StopAction::TranscribeBatch
                }
            },
            StopEvent::SessionFinished { is_local, result } => match session_outcome(is_local, result) {
                SessionOutcome::Transcript(t) => StopAction::CorrectTranscript(t),
                SessionOutcome::NoAudio => StopAction::GoIdle,
                SessionOutcome::Batch => StopAction::TranscribeBatch,
            },
            StopEvent::Transcribed(result) => match result {
                Ok(t) => {
                    if t.as_str().is_empty() {
                        StopAction::GoIdle
                    } else {
                        StopAction::Process { transcription: t, prompt_id: clone_opt_string(prompt_id) }
                    }
                },
                Err(_) => StopAction::GoIdle,
            },
            StopEvent::Processed { transcription, converted, processed } => {
                let word_count = count_transcription_words(transcription.as_str());
                let finished = finish_transcription(transcription.as_str(), converted, processed, prompt_id, prompts);
                StopAction::Deliver { transcription, finished, word_count }
            },
        }
    }
}

/// A recording streamed to a cloud provider carries the provider's options
/// with exactly the settings' dictionary merged in, as `inject_dictionary`
/// merges it; in particular, where there is any dictionary the options are
/// there, and a provider of the registry that takes a context gets a
/// non-empty context into options that were empty.
pub proof fn lemma_cloud_plan_carries_dictionary(
    settings: AppSettings,
    parsed_options: Option<Map<Seq<char>, OptionValueView>>,
    local_streaming_supported: bool,
)
    ensures
        ({
            let plan = spec_recording_plan(settings, parsed_options, local_streaming_supported);
            let terms = strings_view(settings.dictionary_terms@);
            let context = settings.dictionary_context@;
            &&& plan matches RecordingPlanView::CloudStreaming { provider_id, options, .. } ==> {
                &&& provider_id == settings.stt_provider_id@
                &&& options == spec_inject_dictionary(provider_id, parsed_options, terms, context)
                &&& (terms.len() > 0 || context.len() > 0) ==> options is Some
            }
            &&& (settings.stt_provider_id@ != "local"@ && spec_realtime_on(settings, settings.stt_provider_id@))
                ==> plan is CloudStreaming
        }),
{
}

/// With a context and no terms, a provider of the registry that takes a
/// dictionary context streams with options that are not empty.
pub proof fn lemma_cloud_plan_keeps_context(settings: AppSettings, i: int, local_streaming_supported: bool)
    requires
        0 <= i < crate::stt_provider::spec_cloud_provider_registry().len(),
        settings.stt_provider_id@ == crate::stt_provider::spec_cloud_provider_registry()[i].id,
        crate::stt_provider::spec_cloud_provider_registry()[i].supports_dictionary_context,
        spec_realtime_on(settings, settings.stt_provider_id@),
        settings.dictionary_terms@.len() == 0,
        settings.dictionary_context@.len() > 0,
    ensures
        spec_recording_plan(settings, Some(Map::empty()), local_streaming_supported) matches RecordingPlanView::CloudStreaming {
            options,
            ..
        } && options is Some && options->Some_0 != Map::<Seq<char>, OptionValueView>::empty(),
{
    crate::stt_provider::dictionary::lemma_registry_ids();
    crate::stt_provider::dictionary::lemma_provider_ids_differ();
    reveal_strlit("local");
    assert(settings.stt_provider_id@ != "local"@) by {
        assert("local"@.len() == 5);
    }
    assert(strings_view(settings.dictionary_terms@) =~= Seq::<Seq<char>>::empty());
    crate::stt_provider::dictionary::lemma_registry_dictionary_support(i, seq!["t"@], settings.dictionary_context@);
}

/// Neither count exceeds the number of characters.
proof fn lemma_word_counts_bounded(s: Seq<char>)
    ensures
        spec_word_starts(s) <= s.len(),
        spec_cjk_count(s) <= s.len(),
    decreases s.len(),
{
    if s.len() > 0 {
        lemma_word_counts_bounded(s.drop_last());
    }
}

/// The word count kept for a transcription (of fewer characters than the
/// largest 32-bit integer) counts every whitespace-separated word and every
/// character of a script written without spaces: it is at least each of the
/// two counts and equal to one of them.
pub proof fn lemma_word_count_covers_both(s: Seq<char>)
    requires
        s.len() <= i32::MAX,
    ensures
        spec_transcription_words(s) >= spec_word_starts(s),
        spec_transcription_words(s) >= spec_cjk_count(s),
        spec_transcription_words(s) == spec_word_starts(s) || spec_transcription_words(s) == spec_cjk_count(s),
{
    lemma_word_counts_bounded(s);
}

} // verus!
