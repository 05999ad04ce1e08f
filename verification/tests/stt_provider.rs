use handless::cloud_stt::{
    is_success_status, response_error_message, route_cloud_request, strip_lang_subtag, CloudSttProvider,
};
use handless::stt_provider::dictionary::inject_dictionary;
use handless::stt_provider::options::{CloudOptions, OptionValue};
use handless::stt_provider::{cloud_provider_registry, CloudOptionType, ProviderBackend};

fn terms() -> Vec<String> {
    vec!["Handless".to_string(), "Tauri".to_string()]
}

#[test]
fn registry_lists_every_cloud_provider() {
    let registry = cloud_provider_registry();
    let ids: Vec<&str> = registry.iter().map(|p| p.id.as_str()).collect();
    assert_eq!(
        ids,
        vec!["openai_stt", "cartesia", "elevenlabs", "groq", "mistral", "soniox", "deepgram", "assemblyai", "fireworks", "doubao"]
    );
    let openai = &registry[0];
    assert_eq!(openai.name, "OpenAI");
    assert!(openai.supports_translation && openai.supports_realtime);
    assert!(openai.supported_languages.iter().any(|l| l == "zh-Hans"));
    assert_eq!(openai.supported_languages.len(), 58);
    match &openai.backend {
        ProviderBackend::Cloud { base_url, default_model, console_url } => {
            assert_eq!(base_url, "https://api.openai.com/v1");
            assert_eq!(default_model, "gpt-realtime-whisper");
            assert_eq!(console_url.as_deref(), Some("https://platform.openai.com/api-keys"));
        },
    }
    let keys: Vec<&str> = openai.available_options.iter().map(|o| o.key.as_str()).collect();
    assert_eq!(keys, vec!["language", "prompt", "temperature"]);
    assert_eq!(
        openai.available_options[2].option_type,
        CloudOptionType::Number { min_tenths: 0, max_tenths: 10, step_tenths: 1 }
    );
}

#[test]
fn empty_dictionary_leaves_options_alone() {
    assert!(inject_dictionary("openai_stt", None, &[], "").is_none());
    let mut opts = CloudOptions::empty();
    opts.set_text("prompt", "keep".to_string());
    let r = inject_dictionary("openai_stt", Some(opts), &[], "").expect("options stay");
    assert_eq!(r.text_field("prompt"), "keep");
}

#[test]
fn openai_style_prompt_gets_a_glossary() {
    let r = inject_dictionary("openai_stt", None, &terms(), "A desktop app").unwrap();
    assert_eq!(r.text_field("prompt"), "Glossary: Handless, Tauri. A desktop app");
    let mut opts = CloudOptions::empty();
    opts.set_text("prompt", "Be precise.".to_string());
    let r = inject_dictionary("groq", Some(opts), &terms(), "").unwrap();
    assert_eq!(r.text_field("prompt"), "Glossary: Handless, Tauri. Be precise.");
    let r = inject_dictionary("fireworks", None, &[], "Only context").unwrap();
    assert_eq!(r.text_field("prompt"), "Only context");
}

#[test]
fn keyterm_providers_get_the_terms_first() {
    let mut opts = CloudOptions::empty();
    opts.set_text("keyterm", "nova".to_string());
    let r = inject_dictionary("deepgram", Some(opts), &terms(), "ignored").unwrap();
    assert_eq!(r.text_field("keyterm"), "Handless, Tauri, nova");

    let mut opts = CloudOptions::empty();
    opts.set_text_list("keyterms_prompt", vec!["existing".to_string()]);
    let r = inject_dictionary("assemblyai", Some(opts), &terms(), "").unwrap();
    assert_eq!(r.list_field("keyterms_prompt"), vec!["Handless", "Tauri", "existing"]);

    let r = inject_dictionary("elevenlabs", None, &terms(), "").unwrap();
    assert_eq!(r.list_field("keyterms"), vec!["Handless", "Tauri"]);

    let mut opts = CloudOptions::empty();
    opts.set_text("context_bias", "x".to_string());
    let r = inject_dictionary("mistral", Some(opts), &terms(), "").unwrap();
    assert_eq!(r.text_field("context_bias"), "Handless,Tauri,x");

    let r = inject_dictionary("deepgram", None, &[], "context only").unwrap();
    assert_eq!(r.text_field("keyterm"), "");
    assert!(r.entries.get("keyterm").is_none());
}

#[test]
fn doubao_and_soniox_take_terms_and_context() {
    let r = inject_dictionary("doubao", None, &terms(), "Meeting notes").unwrap();
    assert_eq!(r.text_field("hotwords"), "Handless, Tauri");
    assert_eq!(r.text_field("dialog_context"), "Meeting notes");

    let mut opts = CloudOptions::empty();
    opts.set_text("context_description", "Earlier".to_string());
    let r = inject_dictionary("soniox", Some(opts), &terms(), "Meeting notes").unwrap();
    assert_eq!(r.text_field("context_terms"), "Handless, Tauri");
    assert_eq!(r.text_field("context_description"), "Meeting notes Earlier");
}

#[test]
fn other_providers_and_other_options_are_untouched() {
    let mut opts = CloudOptions::empty();
    opts.set_text("language", "en".to_string());
    let r = inject_dictionary("cartesia", Some(opts), &terms(), "ctx").unwrap();
    assert_eq!(r.text_field("language"), "en");
    assert_eq!(r.entries.entry_count(), 1);

    let mut opts = CloudOptions::empty();
    opts.set_text("language", "de".to_string());
    let r = inject_dictionary("deepgram", Some(opts), &terms(), "").unwrap();
    assert!(matches!(r.entries.get("language"), Some(OptionValue::Text(t)) if t == "de"));

    let r = inject_dictionary("cartesia", None, &terms(), "").unwrap();
    assert_eq!(r.entries.entry_count(), 0);
}

#[test]
fn language_subtags_are_stripped() {
    assert_eq!(strip_lang_subtag("zh-Hans"), "zh");
    assert_eq!(strip_lang_subtag("pt-BR-x"), "pt");
    assert_eq!(strip_lang_subtag("en"), "en");
    assert_eq!(strip_lang_subtag(""), "");
    assert_eq!(strip_lang_subtag("-x"), "");
}

#[test]
fn requests_route_to_their_service() {
    assert_eq!(route_cloud_request("deepgram"), Ok(CloudSttProvider::Deepgram));
    assert_eq!(route_cloud_request("openai_stt"), Ok(CloudSttProvider::OpenAi));
    assert_eq!(route_cloud_request("doubao"), Ok(CloudSttProvider::Doubao));
    assert_eq!(route_cloud_request("local"), Err("Unknown cloud STT provider: local".to_string()));
    assert_eq!(route_cloud_request("Deepgram"), Err("Unknown cloud STT provider: Deepgram".to_string()));
}

#[test]
fn failed_responses_become_errors() {
    assert!(is_success_status(200));
    assert!(is_success_status(204));
    assert!(!is_success_status(199));
    assert!(!is_success_status(301));
    assert!(!is_success_status(401));
    assert_eq!(
        response_error_message("Deepgram transcription failed", "401 Unauthorized", "{\"err\":\"bad key\"}"),
        "Deepgram transcription failed (401 Unauthorized): {\"err\":\"bad key\"}"
    );
}

#[test]
fn dictionary_support_flags_match_what_injection_changes() {
    for p in cloud_provider_registry() {
        let with_terms = inject_dictionary(&p.id, Some(CloudOptions::empty()), &["t".to_string()], "").unwrap();
        assert_eq!(with_terms.entries.entry_count() > 0, p.supports_dictionary_terms, "{}", p.id);
        let with_context = inject_dictionary(&p.id, Some(CloudOptions::empty()), &[], "c").unwrap();
        assert_eq!(with_context.entries.entry_count() > 0, p.supports_dictionary_context, "{}", p.id);
    }
}
