use handless::actions::{
    aligned_parakeet_chunk_ms, append_delta, chinese_target, count_transcription_words, feed_chunk_samples,
    finish_transcription, maybe_convert_chinese_variant, post_process_prompt_for_binding, prompt_text,
    session_outcome, split_pending, ChineseScript, RecordingPlan, SessionOutcome, StopAction, StopEvent,
    TranscribeAction,
};
use handless::settings::app_settings::{get_default_settings, AppSettings};
use handless::settings::enums::Platform;
use handless::settings::post_process::{LLMPrompt, PostProcessCatalog, PostProcessProvider};
use handless::stt_provider::options::CloudOptions;

fn catalog() -> PostProcessCatalog {
    PostProcessCatalog {
        providers: vec![PostProcessProvider {
            id: "openai".to_string(),
            label: "OpenAI".to_string(),
            base_url: "https://api.openai.com/v1".to_string(),
            allow_base_url_edit: false,
            models_endpoint: Some("/models".to_string()),
            supports_structured_output: true,
        }],
        default_models: vec!["gpt-4o-mini".to_string()],
        prompts: vec![prompt("default_correct", "Fix the transcription.")],
        selected_prompt_id: Some("default_correct".to_string()),
        correct_prompt_id: "default_correct".to_string(),
    }
}

fn prompt(id: &str, text: &str) -> LLMPrompt {
    LLMPrompt { id: id.to_string(), name: id.to_string(), prompt: text.to_string() }
}

fn defaults() -> AppSettings {
    get_default_settings(Platform::Linux, None, &catalog())
}

#[test]
fn chunk_lengths_align_to_whole_frames() {
    assert_eq!(aligned_parakeet_chunk_ms(0), 80);
    assert_eq!(aligned_parakeet_chunk_ms(80), 80);
    assert_eq!(aligned_parakeet_chunk_ms(100), 80);
    assert_eq!(aligned_parakeet_chunk_ms(119), 80);
    assert_eq!(aligned_parakeet_chunk_ms(120), 160);
    assert_eq!(aligned_parakeet_chunk_ms(560), 560);
    assert_eq!(aligned_parakeet_chunk_ms(2400), 2400);
    assert_eq!(aligned_parakeet_chunk_ms(u64::MAX), 2400);
    for ms in [1u64, 333, 999, 1234, 5000] {
        let a = aligned_parakeet_chunk_ms(ms);
        assert_eq!(a % 80, 0);
        assert_eq!(aligned_parakeet_chunk_ms(a), a);
    }
}

#[test]
fn chunk_samples_and_pending_audio() {
    assert_eq!(feed_chunk_samples(560), 8960);
    assert_eq!(feed_chunk_samples(10), 1280);
    assert_eq!(split_pending(20000, 8960), (2, 2080));
    assert_eq!(split_pending(100, 8960), (0, 100));
    let mut transcript = "Hello".to_string();
    append_delta(&mut transcript, " world");
    append_delta(&mut transcript, "");
    assert_eq!(transcript, "Hello world");
}

#[test]
fn word_counts_for_spaced_and_unspaced_scripts() {
    assert_eq!(count_transcription_words("hello world"), 2);
    assert_eq!(count_transcription_words("  hello   world  "), 2);
    assert_eq!(count_transcription_words(""), 0);
    assert_eq!(count_transcription_words(" \t\n"), 0);
    assert_eq!(count_transcription_words("你好世界"), 4);
    assert_eq!(count_transcription_words("hello 你好"), 2);
    assert_eq!(count_transcription_words("これはテスト です"), 8);
    assert_eq!(count_transcription_words("a\u{3000}b"), 2);
    assert_eq!(count_transcription_words("안녕하세요 world"), 5);
}

#[test]
fn session_endings() {
    assert!(matches!(
        session_outcome(false, Ok("text".to_string())),
        SessionOutcome::Transcript(t) if t == "text"
    ));
    assert!(matches!(
        session_outcome(false, Err("Streaming failed: No audio received before close".to_string())),
        SessionOutcome::NoAudio
    ));
    assert!(matches!(session_outcome(false, Err("connection reset".to_string())), SessionOutcome::Batch));
    assert!(matches!(session_outcome(true, Err("No audio received".to_string())), SessionOutcome::Batch));
    assert!(matches!(session_outcome(false, Err("no audio received".to_string())), SessionOutcome::Batch));
}

#[test]
fn prompt_of_a_binding_needs_a_ready_provider() {
    let mut settings = defaults();
    let mut b = settings.bindings.get("transcribe_with_post_process").unwrap().clone();
    b.post_process_prompt_id = Some("default_correct".to_string());
    settings.bindings.insert("transcribe_with_post_process".to_string(), b);

    settings.post_process_provider_id = "openai".to_string();
    assert_eq!(post_process_prompt_for_binding(&settings, "transcribe_with_post_process"), None);

    settings.post_process_verified_providers.insert("openai".to_string());
    assert_eq!(
        post_process_prompt_for_binding(&settings, "transcribe_with_post_process"),
        Some("default_correct".to_string())
    );
    assert_eq!(post_process_prompt_for_binding(&settings, "transcribe"), None);
    assert_eq!(post_process_prompt_for_binding(&settings, "missing"), None);

    let mut apple = defaults();
    apple.post_process_provider_id = "apple_intelligence".to_string();
    let mut b = apple.bindings.get("transcribe").unwrap().clone();
    b.post_process_prompt_id = Some("p".to_string());
    apple.bindings.insert("transcribe".to_string(), b);
    assert_eq!(post_process_prompt_for_binding(&apple, "transcribe"), Some("p".to_string()));
}

#[test]
fn finished_transcription_texts() {
    let prompts = vec![prompt("a", "first"), prompt("b", "second"), prompt("a", "shadowed")];
    assert_eq!(prompt_text(&prompts, "a"), Some("first".to_string()));
    assert_eq!(prompt_text(&prompts, "c"), None);

    let plain = finish_transcription("hello", None, None, &None, &prompts);
    assert_eq!(plain.final_text, "hello");
    assert_eq!(plain.post_processed_text, None);
    assert_eq!(plain.post_process_prompt, None);

    let converted = finish_transcription("漢語", Some("汉语".to_string()), None, &None, &prompts);
    assert_eq!(converted.final_text, "汉语");
    assert_eq!(converted.post_processed_text, Some("汉语".to_string()));

    let same = finish_transcription("hello", Some("hello".to_string()), None, &None, &prompts);
    assert_eq!(same.post_processed_text, None);

    let processed =
        finish_transcription("helo", None, Some("Hello.".to_string()), &Some("b".to_string()), &prompts);
    assert_eq!(processed.final_text, "Hello.");
    assert_eq!(processed.post_processed_text, Some("Hello.".to_string()));
    assert_eq!(processed.post_process_prompt, Some("second".to_string()));

    let unknown =
        finish_transcription("helo", None, Some("Hello.".to_string()), &Some("zz".to_string()), &prompts);
    assert_eq!(unknown.post_process_prompt, None);
}

#[test]
fn recording_plans() {
    let action = TranscribeAction;
    let mut local = defaults();
    local.stt_provider_id = "local".to_string();
    local.selected_model = "parakeet-unified-en-0.6b-int8".to_string();
    local.stt_realtime_enabled.insert("parakeet-unified-en-0.6b-int8".to_string(), true);
    match action.recording_plan(&local, None, true) {
        RecordingPlan::LocalStreaming { model_id, chunk_ms, chunk_samples } => {
            assert_eq!(model_id, "parakeet-unified-en-0.6b-int8");
            assert_eq!(chunk_ms, 560);
            assert_eq!(chunk_samples, 8960);
        },
        other => panic!("expected local streaming, got {:?}", other),
    }
    local.stt_realtime_chunk_ms.insert("parakeet-unified-en-0.6b-int8".to_string(), 1000);
    match action.recording_plan(&local, None, true) {
        RecordingPlan::LocalStreaming { chunk_ms, .. } => assert_eq!(chunk_ms, 1040),
        other => panic!("expected local streaming, got {:?}", other),
    }
    assert!(matches!(action.recording_plan(&local, None, false), RecordingPlan::Batch));
    local.stt_realtime_enabled.insert("parakeet-unified-en-0.6b-int8".to_string(), false);
    assert!(matches!(action.recording_plan(&local, None, true), RecordingPlan::Batch));

    let mut cloud = defaults();
    cloud.stt_provider_id = "deepgram".to_string();
    cloud.stt_api_keys.insert("deepgram".to_string(), "dg-key".to_string());
    cloud.dictionary_terms = vec!["Handless".to_string(), "Tauri".to_string()];
    assert!(matches!(action.recording_plan(&cloud, None, true), RecordingPlan::Batch));
    cloud.stt_realtime_enabled.insert("deepgram".to_string(), true);
    let mut parsed = CloudOptions::empty();
    parsed.set_text("keyterm", "nova".to_string());
    match action.recording_plan(&cloud, Some(parsed), true) {
        RecordingPlan::CloudStreaming { provider_id, api_key, model, options } => {
            assert_eq!(provider_id, "deepgram");
            assert_eq!(api_key, "dg-key");
            assert_eq!(model, "nova-3");
            assert_eq!(options.expect("options").text_field("keyterm"), "Handless, Tauri, nova");
        },
        other => panic!("expected cloud streaming, got {:?}", other),
    }
    cloud.stt_provider_id = "mistral".to_string();
    cloud.stt_realtime_enabled.insert("mistral".to_string(), true);
    cloud.stt_cloud_models = handless::str_map::StrMap::new();
    match action.recording_plan(&cloud, None, true) {
        RecordingPlan::CloudStreaming { api_key, model, .. } => {
            assert_eq!(api_key, "");
            assert_eq!(model, "");
        },
        other => panic!("expected cloud streaming, got {:?}", other),
    }
}

#[test]
fn chinese_script_of_the_selected_language() {
    assert_eq!(chinese_target("zh-Hans"), Some(ChineseScript::Simplified));
    assert_eq!(chinese_target("zh-Hant"), Some(ChineseScript::Traditional));
    assert_eq!(chinese_target("zh"), None);
    assert_eq!(chinese_target("en"), None);
}

#[test]
fn chinese_transcriptions_are_converted_with_opencc() {
    let mut settings = defaults();
    settings.selected_language = "zh-Hans".to_string();
    assert_eq!(maybe_convert_chinese_variant(&settings, "漢語"), Some("汉语".to_string()));
    settings.selected_language = "zh-Hant".to_string();
    assert_eq!(maybe_convert_chinese_variant(&settings, "汉语"), Some("漢語".to_string()));
    settings.selected_language = "en".to_string();
    assert_eq!(maybe_convert_chinese_variant(&settings, "汉语"), None);
}

#[test]
fn stop_pipeline_steps() {
    let action = TranscribeAction;
    let prompts = vec![prompt("default_correct", "Fix the transcription.")];
    let pid = Some("default_correct".to_string());
    let step = |e: StopEvent| action.stop_step(e, &pid, &prompts);

    assert!(matches!(
        step(StopEvent::RecordingStopped { has_samples: false, local_session: true, cloud_session: true }),
        StopAction::GoIdle
    ));
    assert!(matches!(
        step(StopEvent::RecordingStopped { has_samples: true, local_session: true, cloud_session: true }),
        StopAction::FinishSession { is_local: true }
    ));
    assert!(matches!(
        step(StopEvent::RecordingStopped { has_samples: true, local_session: false, cloud_session: true }),
        StopAction::FinishSession { is_local: false }
    ));
    assert!(matches!(
        step(StopEvent::RecordingStopped { has_samples: true, local_session: false, cloud_session: false }),
        StopAction::TranscribeBatch
    ));
    assert!(matches!(
        step(StopEvent::SessionFinished { is_local: false, result: Ok("hi".to_string()) }),
        StopAction::CorrectTranscript(t) if t == "hi"
    ));
    assert!(matches!(
        step(StopEvent::SessionFinished { is_local: false, result: Err("No audio received".to_string()) }),
        StopAction::GoIdle
    ));
    assert!(matches!(
        step(StopEvent::SessionFinished { is_local: true, result: Err("model crashed".to_string()) }),
        StopAction::TranscribeBatch
    ));
    assert!(matches!(step(StopEvent::Transcribed(Ok(String::new()))), StopAction::GoIdle));
    assert!(matches!(step(StopEvent::Transcribed(Err("failed".to_string()))), StopAction::GoIdle));
    match step(StopEvent::Transcribed(Ok("hello there".to_string()))) {
        StopAction::Process { transcription, prompt_id } => {
            assert_eq!(transcription, "hello there");
            assert_eq!(prompt_id, pid);
        },
        other => panic!("expected processing, got {:?}", other),
    }
    match step(StopEvent::Processed {
        transcription: "hello there".to_string(),
        converted: None,
        processed: Some("Hello there.".to_string()),
    }) {
        StopAction::Deliver { transcription, finished, word_count } => {
            assert_eq!(transcription, "hello there");
            assert_eq!(finished.final_text, "Hello there.");
            assert_eq!(finished.post_processed_text, Some("Hello there.".to_string()));
            assert_eq!(finished.post_process_prompt, Some("Fix the transcription.".to_string()));
            assert_eq!(word_count, 2);
        },
        other => panic!("expected delivery, got {:?}", other),
    }
}
