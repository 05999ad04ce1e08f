use handless::settings::app_settings::{
    apply_custom_post_process_base_url, custom_post_process_base_url, default_app_language, get_default_settings,
    AppSettings,
};
use handless::settings::bindings::{default_bindings, is_builtin_binding_id, normalized_bindings, ShortcutBinding};
use handless::settings::enums::{
    ActivationMode, AutoSubmitKey, LogLevel, ModelUnloadTimeout, OverlayPosition, Platform, SoundTheme,
};
use handless::settings::keys::configured_provider_ids;
use handless::settings::load::{invalid_store_backup_name, load_settings, StoredSettings, SETTINGS_STORE_PATH};
use handless::settings::migrate::{apply_settings_migrations, normalize_settings_definitions};
use handless::settings::parse::{
    activation_mode_from_bool, activation_mode_from_name, activation_mode_from_stored, activation_mode_name,
    log_level_from_name, log_level_from_number, log_level_from_stored, log_level_name, StoredScalar, ValueError,
};
use handless::settings::persist::{
    configured_custom_post_process_base_url, persisted_settings_parts, persisted_settings_requires_rewrite,
    reconcile_loaded_settings, recover_custom_post_process_base_url, written_settings_shape, PersistedBinding, StoredBindingShape,
    StoredProviderShape, StoredSettingsShape,
};
use handless::settings::post_process::{is_builtin_prompt, LLMPrompt, PostProcessCatalog, PostProcessProvider};
use handless::settings::recover::{recover_settings_from_value, RecoveredFields};
use handless::settings::stt_defaults::ensure_stt_defaults;
use handless::str_map::StrMap;

fn provider(id: &str, label: &str, base_url: &str, editable: bool) -> PostProcessProvider {
    PostProcessProvider {
        id: id.to_string(),
        label: label.to_string(),
        base_url: base_url.to_string(),
        allow_base_url_edit: editable,
        models_endpoint: Some("/models".to_string()),
        supports_structured_output: !editable,
    }
}

fn prompt(id: &str, name: &str, text: &str) -> LLMPrompt {
    LLMPrompt { id: id.to_string(), name: name.to_string(), prompt: text.to_string() }
}

fn catalog() -> PostProcessCatalog {
    PostProcessCatalog {
        providers: vec![
            provider("openai", "OpenAI", "https://api.openai.com/v1", false),
            provider("groq", "Groq", "https://api.groq.com/openai/v1", false),
            provider("custom", "Custom", "http://localhost:11434/v1", true),
        ],
        default_models: vec!["gpt-4o-mini".to_string(), "llama-3.3-70b".to_string(), String::new()],
        prompts: vec![
            prompt("default_correct", "Correct", "Fix the transcription."),
            prompt("default_restructure", "Restructure", "Restructure the transcription."),
        ],
        selected_prompt_id: Some("default_correct".to_string()),
        correct_prompt_id: "default_correct".to_string(),
    }
}

fn defaults() -> AppSettings {
    get_default_settings(Platform::Linux, None, &catalog())
}

fn binding(id: &str, name: &str, description: &str, keys: &str, prompt_id: Option<&str>) -> ShortcutBinding {
    ShortcutBinding {
        id: id.to_string(),
        name: name.to_string(),
        description: description.to_string(),
        default_binding: keys.to_string(),
        current_binding: keys.to_string(),
        post_process_prompt_id: prompt_id.map(|p| p.to_string()),
    }
}

fn text_map(pairs: &[(&str, &str)]) -> StrMap<String> {
    let mut m = StrMap::new();
    for (k, v) in pairs {
        m.insert(k.to_string(), v.to_string());
    }
    m
}

fn get_text<'a>(m: &'a StrMap<String>, key: &str) -> Option<&'a str> {
    m.get(key).map(|v| v.as_str())
}

#[test]
fn default_settings_disable_auto_submit() {
    let settings = defaults();
    assert!(!settings.auto_submit);
    assert_eq!(settings.auto_submit_key, AutoSubmitKey::Enter);
}

#[test]
fn recover_settings_preserves_user_data_when_provider_catalog_is_invalid() {
    let mut fields = RecoveredFields::empty(true);
    let mut bindings = StrMap::new();
    bindings.insert(
        "transcribe".to_string(),
        ShortcutBinding {
            id: "transcribe".to_string(),
            name: "Transcribe".to_string(),
            description: "Converts your speech into text.".to_string(),
            default_binding: "fn".to_string(),
            current_binding: "fn".to_string(),
            post_process_prompt_id: Some("default_restructure".to_string()),
        },
    );
    fields.bindings = Some(bindings);
    fields.stt_provider_id = Some("deepgram".to_string());
    fields.stt_api_keys = Some(text_map(&[("deepgram", "dg-key")]));
    fields.post_process_provider_id = Some("groq".to_string());
    fields.post_process_api_keys = Some(text_map(&[("groq", "groq-key")]));
    let mut custom = provider("custom", "Custom", "http://localhost:8080/v1", true);
    custom.supports_structured_output = false;
    fields.post_process_providers = Some(vec![custom]);
    fields.post_process_provider_shapes = Some(vec![StoredProviderShape {
        id: Some("custom".to_string()),
        base_url: Some("http://localhost:8080/v1".to_string()),
    }]);
    fields.dictionary_terms = Some(vec!["handless".to_string()]);
    // the stored speech-to-text catalog names a provider type that does not parse,
    // so it is not among the recovered fields

    let recovered = recover_settings_from_value(fields, Platform::Linux, None, &catalog());

    assert_eq!(get_text(&recovered.stt_api_keys, "deepgram"), Some("dg-key"));
    assert_eq!(get_text(&recovered.post_process_api_keys, "groq"), Some("groq-key"));
    assert_eq!(recovered.stt_provider_id, "deepgram");
    assert_eq!(recovered.post_process_provider_id, "groq");
    assert_eq!(recovered.dictionary_terms, vec!["handless"]);
    assert!(recovered.stt_providers.iter().any(|provider| provider.id == "deepgram"));
    assert!(recovered.stt_providers.iter().all(|provider| provider.id != "future"));
    assert_eq!(
        recovered.post_process_provider("custom").map(|provider| provider.base_url.as_str()),
        Some("http://localhost:8080/v1")
    );
}

#[test]
fn persisted_settings_omit_provider_catalogs_and_keep_custom_base_url() {
    let mut settings = defaults();
    settings.post_process_provider_mut("custom").expect("custom provider should exist").base_url =
        "http://localhost:8080/v1".to_string();

    let parts = persisted_settings_parts(&settings, Platform::Linux, &catalog());

    assert_eq!(parts.custom_base_url.as_deref(), Some("http://localhost:8080/v1"));
}

#[test]
fn slim_persisted_settings_restore_custom_base_url_after_deserialize() {
    let mut settings = defaults();
    settings.post_process_provider_id = "custom".to_string();
    settings.post_process_models.insert("custom".to_string(), "llama3".to_string());
    settings.post_process_api_keys.insert("custom".to_string(), String::new());

    let changed = apply_custom_post_process_base_url(
        &mut settings,
        configured_custom_post_process_base_url(&Some("http://localhost:8080/v1".to_string()), &None),
    );

    assert!(changed);
    assert_eq!(
        settings.post_process_provider("custom").map(|provider| provider.base_url.as_str()),
        Some("http://localhost:8080/v1")
    );
}

#[test]
fn persisted_settings_keep_only_custom_prompts_and_binding_overrides() {
    let mut settings = defaults();
    let mut transcribe = settings.bindings.get("transcribe").expect("transcribe binding should exist").clone();
    transcribe.current_binding = if transcribe.current_binding == "ctrl+space" {
        "alt+space".to_string()
    } else {
        "ctrl+space".to_string()
    };
    settings.bindings.insert("transcribe".to_string(), transcribe);
    let mut with_post_process = settings.bindings.get("transcribe_with_post_process").unwrap().clone();
    with_post_process.post_process_prompt_id = Some("default_restructure".to_string());
    settings.bindings.insert("transcribe_with_post_process".to_string(), with_post_process);
    settings.bindings.insert(
        "transcribe_custom_1".to_string(),
        binding(
            "transcribe_custom_1",
            "Custom Transcription",
            "Custom transcription shortcut.",
            "ctrl+alt+space",
            Some("prompt_1"),
        ),
    );
    settings.post_process_prompts.push(prompt("prompt_1", "Custom", "Rewrite this."));

    let parts = persisted_settings_parts(&settings, Platform::Linux, &catalog());
    let bindings = &parts.bindings;
    let prompts = &parts.prompts;

    assert_eq!(bindings.entry_count(), 3);
    assert!(matches!(bindings.get("transcribe"), Some(PersistedBinding::Override { .. })));
    assert!(matches!(bindings.get("transcribe_with_post_process"), Some(PersistedBinding::Override { .. })));
    match bindings.get("transcribe_custom_1") {
        Some(PersistedBinding::Full(b)) => assert_eq!(b.name, "Custom Transcription"),
        other => panic!("custom binding should be written whole, got {:?}", other),
    }
    assert_eq!(prompts.len(), 1);
    assert_eq!(prompts[0].id, "prompt_1");
}

#[test]
fn normalize_settings_definitions_rebuilds_builtin_bindings_and_prompts() {
    let mut settings = defaults();
    let mut bindings = StrMap::new();
    bindings.insert(
        "transcribe".to_string(),
        ShortcutBinding {
            id: "transcribe".to_string(),
            name: String::new(),
            description: String::new(),
            default_binding: String::new(),
            current_binding: "ctrl+space".to_string(),
            post_process_prompt_id: None,
        },
    );
    bindings.insert(
        "transcribe_custom_1".to_string(),
        binding(
            "transcribe_custom_1",
            "Custom Transcription",
            "Custom transcription shortcut.",
            "ctrl+alt+space",
            Some("prompt_1"),
        ),
    );
    settings.bindings = bindings;
    settings.post_process_prompts = vec![prompt("prompt_1", "Custom", "Rewrite this.")];

    let cat = catalog();
    assert!(normalize_settings_definitions(&mut settings, Platform::Linux, &cat));
    assert_eq!(settings.bindings.get("transcribe").map(|binding| binding.name.as_str()), Some("Transcribe"));
    assert!(settings.bindings.contains_key("cancel"));
    assert_eq!(
        settings.post_process_prompts.iter().filter(|prompt| is_builtin_prompt(&cat, &prompt.id)).count(),
        cat.prompts.len()
    );
    assert!(settings.post_process_prompts.iter().any(|prompt| prompt.id == "prompt_1"));
}

#[test]
fn legacy_push_to_talk_settings_still_deserialize_into_activation_mode() {
    let mut hold_settings = RecoveredFields::empty(true);
    hold_settings.push_to_talk = Some(activation_mode_from_bool(true));
    let mut toggle_settings = RecoveredFields::empty(true);
    toggle_settings.push_to_talk = Some(activation_mode_from_bool(false));

    let hold = recover_settings_from_value(hold_settings, Platform::Linux, None, &catalog());
    let toggle = recover_settings_from_value(toggle_settings, Platform::Linux, None, &catalog());

    assert_eq!(hold.activation_mode, ActivationMode::Hold);
    assert_eq!(toggle.activation_mode, ActivationMode::Toggle);
}

#[test]
fn activation_mode_names_in_any_case() {
    assert_eq!(activation_mode_from_name("toggle"), Ok(ActivationMode::Toggle));
    assert_eq!(activation_mode_from_name("HOLD"), Ok(ActivationMode::Hold));
    assert_eq!(activation_mode_from_name("Hold_Or_Toggle"), Ok(ActivationMode::HoldOrToggle));
    assert_eq!(activation_mode_from_name("push"), Err(ValueError::UnknownVariant("push".to_string())));
}

#[test]
fn log_levels_by_name_and_by_number() {
    assert_eq!(log_level_from_name("Warn"), Ok(LogLevel::Warn));
    assert_eq!(log_level_from_name("TRACE"), Ok(LogLevel::Trace));
    assert_eq!(log_level_from_name("verbose"), Err(ValueError::UnknownVariant("verbose".to_string())));
    assert_eq!(log_level_from_number(1), Ok(LogLevel::Trace));
    assert_eq!(log_level_from_number(3), Ok(LogLevel::Info));
    assert_eq!(log_level_from_number(5), Ok(LogLevel::Error));
    assert_eq!(log_level_from_number(0), Err(ValueError::InvalidValue(0)));
    assert_eq!(log_level_from_number(6), Err(ValueError::InvalidValue(6)));
}

#[test]
fn unload_timeouts_in_minutes_and_seconds() {
    assert_eq!(ModelUnloadTimeout::Never.to_minutes(), None);
    assert_eq!(ModelUnloadTimeout::Immediately.to_minutes(), Some(0));
    assert_eq!(ModelUnloadTimeout::Min15.to_minutes(), Some(15));
    assert_eq!(ModelUnloadTimeout::Hour1.to_minutes(), Some(60));
    assert_eq!(ModelUnloadTimeout::Sec5.to_minutes(), Some(0));
    assert_eq!(ModelUnloadTimeout::Sec5.to_seconds(), Some(5));
    assert_eq!(ModelUnloadTimeout::Min2.to_seconds(), Some(120));
    assert_eq!(ModelUnloadTimeout::Never.to_seconds(), None);
}

#[test]
fn sound_theme_paths() {
    assert_eq!(SoundTheme::Marimba.to_start_path(), "resources/marimba_start.wav");
    assert_eq!(SoundTheme::Pop.to_stop_path(), "resources/pop_stop.wav");
    assert_ne!(SoundTheme::Custom.to_start_path(), SoundTheme::Custom.to_stop_path());
}

#[test]
fn app_language_follows_the_locale() {
    assert_eq!(default_app_language(Some("pt_BR".to_string())), "pt-BR");
    assert_eq!(default_app_language(None), "en");
}

#[test]
fn configured_providers_are_sorted_and_skip_blank_keys() {
    let m = text_map(&[("groq", "gk"), ("openai", "  \t"), ("deepgram", "dk"), ("Zeta", "z"), ("assemblyai", "")]);
    assert_eq!(configured_provider_ids(&m), vec!["Zeta", "deepgram", "groq"]);
    assert!(configured_provider_ids(&StrMap::new()).is_empty());
}

#[test]
fn stt_defaults_settle_after_one_pass() {
    let mut settings = defaults();
    settings.stt_api_keys = StrMap::new();
    settings.stt_realtime_chunk_ms = StrMap::new();
    assert!(ensure_stt_defaults(&mut settings));
    assert_eq!(get_text(&settings.stt_api_keys, "deepgram"), Some(""));
    assert_eq!(settings.stt_realtime_chunk_ms.get("parakeet-unified-en-0.6b-int8"), Some(&560));
    assert!(!ensure_stt_defaults(&mut settings));
}

#[test]
fn migrations_settle_after_one_pass() {
    let cat = catalog();
    let mut settings = defaults();
    settings.selected_microphone = Some("USB Mic".to_string());
    settings.stt_provider_id = "retired".to_string();
    settings.post_process_provider_id = "retired".to_string();
    assert!(apply_settings_migrations(&mut settings, Platform::Linux, &cat));
    assert_eq!(settings.microphone_priority, vec!["USB Mic"]);
    assert_eq!(settings.stt_provider_id, "local");
    assert_eq!(settings.post_process_provider_id, "openai");
    assert_eq!(
        settings.bindings.get("transcribe_with_post_process").and_then(|b| b.post_process_prompt_id.clone()),
        Some("default_correct".to_string())
    );
    assert!(!apply_settings_migrations(&mut settings, Platform::Linux, &cat));
}

#[test]
fn persisted_bindings_read_back_to_the_same_bindings() {
    let mut settings = defaults();
    let mut transcribe = settings.bindings.get("transcribe").unwrap().clone();
    transcribe.current_binding = "alt+space".to_string();
    settings.bindings.insert("transcribe".to_string(), transcribe);
    settings.bindings.insert(
        "transcribe_custom_1".to_string(),
        binding("transcribe_custom_1", "Mine", "My shortcut.", "ctrl+alt+m", None),
    );
    let parts = persisted_settings_parts(&settings, Platform::Linux, &catalog());
    let mut reloaded = StrMap::new();
    for (key, written) in parts.bindings.entries.iter() {
        let b = match written {
            PersistedBinding::Override { id, current_binding, post_process_prompt_id } => ShortcutBinding {
                id: id.clone(),
                name: String::new(),
                description: String::new(),
                default_binding: String::new(),
                current_binding: current_binding.clone(),
                post_process_prompt_id: post_process_prompt_id.clone(),
            },
            PersistedBinding::Full(b) => b.clone(),
        };
        reloaded.insert(key.clone(), b);
    }
    let back = normalized_bindings(&reloaded, Platform::Linux);
    assert_eq!(back.entry_count(), settings.bindings.entry_count());
    for (key, b) in settings.bindings.entries.iter() {
        let r = back.get(key).expect("every binding comes back");
        assert_eq!(r.current_binding, b.current_binding);
        assert_eq!(r.name, b.name);
        assert_eq!(r.default_binding, b.default_binding);
        assert_eq!(r.post_process_prompt_id, b.post_process_prompt_id);
    }
}

#[test]
fn default_bindings_per_platform() {
    let linux = default_bindings(Platform::Linux);
    let mac = default_bindings(Platform::MacOs);
    assert_eq!(linux.entry_count(), 3);
    assert_eq!(linux.get("transcribe").unwrap().current_binding, "ctrl+space");
    assert_eq!(mac.get("transcribe").unwrap().current_binding, "fn");
    assert_eq!(mac.get("transcribe_with_post_process").unwrap().current_binding, "option+shift+space");
    assert_eq!(linux.get("cancel").unwrap().current_binding, "escape");
    assert!(is_builtin_binding_id("cancel"));
    assert!(!is_builtin_binding_id("transcribe_custom_1"));
}

#[test]
fn stored_settings_that_need_rewriting() {
    let cat = catalog();
    let plain = StoredSettingsShape {
        is_object: true,
        has_stt_providers: false,
        has_post_process_providers: false,
        prompt_ids: Some(vec![Some("prompt_1".to_string()), None]),
        bindings: Some(vec![StoredBindingShape {
            id: "transcribe".to_string(),
            is_object: true,
            has_name: false,
            has_description: false,
            has_default_binding: false,
        }]),
    };
    assert!(!persisted_settings_requires_rewrite(&plain, &cat));
    let mut with_catalog = plain.clone();
    with_catalog.has_stt_providers = true;
    assert!(persisted_settings_requires_rewrite(&with_catalog, &cat));
    let mut with_builtin_prompt = plain.clone();
    with_builtin_prompt.prompt_ids = Some(vec![Some("default_correct".to_string())]);
    assert!(persisted_settings_requires_rewrite(&with_builtin_prompt, &cat));
    let mut with_stale_binding = plain.clone();
    with_stale_binding.bindings = Some(vec![StoredBindingShape {
        id: "cancel".to_string(),
        is_object: true,
        has_name: true,
        has_description: false,
        has_default_binding: false,
    }]);
    assert!(persisted_settings_requires_rewrite(&with_stale_binding, &cat));
    let mut not_object = with_catalog.clone();
    not_object.is_object = false;
    assert!(!persisted_settings_requires_rewrite(&not_object, &cat));
}

#[test]
fn custom_base_url_from_a_stored_provider_list() {
    let list = Some(vec![
        StoredProviderShape { id: Some("openai".to_string()), base_url: Some("https://a".to_string()) },
        StoredProviderShape { id: Some("custom".to_string()), base_url: None },
        StoredProviderShape { id: Some("custom".to_string()), base_url: Some("http://b".to_string()) },
    ]);
    assert_eq!(recover_custom_post_process_base_url(&list), Some("http://b".to_string()));
    assert_eq!(recover_custom_post_process_base_url(&None), None);
    assert_eq!(
        configured_custom_post_process_base_url(&Some("http://field".to_string()), &list),
        Some("http://field".to_string())
    );
    assert_eq!(configured_custom_post_process_base_url(&None, &list), Some("http://b".to_string()));
}

#[test]
fn loaded_settings_turn_the_overlay_on_unless_hidden() {
    let mut settings = defaults();
    settings.overlay_enabled = false;
    settings.overlay_position = OverlayPosition::Bottom;
    assert!(reconcile_loaded_settings(&mut settings, true, false, None));
    assert!(settings.overlay_enabled);

    let mut hidden = defaults();
    hidden.overlay_position = OverlayPosition::Hidden;
    assert!(reconcile_loaded_settings(&mut hidden, true, false, None));
    assert!(!hidden.overlay_enabled);

    let mut kept = defaults();
    kept.overlay_enabled = false;
    assert!(!reconcile_loaded_settings(&mut kept, true, true, None));
    assert!(!kept.overlay_enabled);
}

#[test]
fn custom_base_url_written_and_read_back() {
    let mut saved = defaults();
    saved.post_process_provider_mut("custom").unwrap().base_url = "http://localhost:9000/v1".to_string();
    let written = custom_post_process_base_url(&saved);
    let mut loaded = defaults();
    let read = configured_custom_post_process_base_url(&written, &None);
    assert!(apply_custom_post_process_base_url(&mut loaded, read.clone()));
    assert_eq!(custom_post_process_base_url(&loaded), written);
    assert!(!apply_custom_post_process_base_url(&mut loaded, read));
}

#[test]
fn loading_settings_from_the_store() {
    let cat = catalog();
    let (fresh, write) = load_settings(StoredSettings::Missing, Platform::Linux, None, &cat);
    assert!(write);
    assert_eq!(fresh.stt_provider_id, "local");
    assert_eq!(
        fresh.bindings.get("transcribe_with_post_process").and_then(|b| b.post_process_prompt_id.clone()),
        Some("default_correct".to_string())
    );

    let shape = StoredSettingsShape {
        is_object: true,
        has_stt_providers: false,
        has_post_process_providers: false,
        prompt_ids: Some(vec![]),
        bindings: Some(vec![]),
    };
    let (again, write) = load_settings(
        StoredSettings::Parsed {
            settings: fresh.clone(),
            shape: shape.clone(),
            has_overlay_enabled: true,
            custom_base_url_field: None,
            provider_shapes: None,
        },
        Platform::Linux,
        None,
        &cat,
    );
    assert!(!write);
    assert_eq!(again.stt_provider_id, fresh.stt_provider_id);

    let (with_url, write) = load_settings(
        StoredSettings::Parsed {
            settings: fresh.clone(),
            shape,
            has_overlay_enabled: true,
            custom_base_url_field: Some("http://localhost:8080/v1".to_string()),
            provider_shapes: None,
        },
        Platform::Linux,
        None,
        &cat,
    );
    assert!(write);
    assert_eq!(custom_post_process_base_url(&with_url).as_deref(), Some("http://localhost:8080/v1"));

    let mut fields = RecoveredFields::empty(true);
    fields.selected_language = Some("de".to_string());
    let (recovered, write) = load_settings(StoredSettings::Unparsable(fields), Platform::Linux, None, &cat);
    assert!(write);
    assert_eq!(recovered.selected_language, "de");
}

#[test]
fn invalid_store_backup_is_named_by_time() {
    assert_eq!(invalid_store_backup_name("20240131-235959"), "settings_store.invalid-20240131-235959.json");
    assert_eq!(SETTINGS_STORE_PATH, "settings_store.json");
}

#[test]
fn written_settings_are_not_rewritten() {
    let cat = catalog();
    let mut settings = defaults();
    let mut transcribe = settings.bindings.get("transcribe").unwrap().clone();
    transcribe.current_binding = "alt+space".to_string();
    settings.bindings.insert("transcribe".to_string(), transcribe);
    settings.bindings.insert(
        "transcribe_custom_1".to_string(),
        binding("transcribe_custom_1", "Mine", "My shortcut.", "ctrl+alt+m", None),
    );
    settings.post_process_prompts.push(prompt("prompt_1", "Custom", "Rewrite this."));
    let parts = persisted_settings_parts(&settings, Platform::Linux, &cat);
    let shape = StoredSettingsShape {
        is_object: true,
        has_stt_providers: false,
        has_post_process_providers: false,
        prompt_ids: Some(parts.prompts.iter().map(|p| Some(p.id.clone())).collect()),
        bindings: Some(
            parts
                .bindings
                .entries
                .iter()
                .map(|(id, b)| {
                    let whole = matches!(b, PersistedBinding::Full(_));
                    StoredBindingShape {
                        id: id.clone(),
                        is_object: true,
                        has_name: whole,
                        has_description: whole,
                        has_default_binding: whole,
                    }
                })
                .collect(),
        ),
    };
    assert!(!persisted_settings_requires_rewrite(&shape, &cat));
}

#[test]
fn stored_activation_modes_by_kind_and_name() {
    let text = |s: &str| StoredScalar::Text(s.to_string());
    assert_eq!(activation_mode_from_stored(&text("Hold_Or_Toggle")), Ok(ActivationMode::HoldOrToggle));
    assert_eq!(activation_mode_from_stored(&StoredScalar::Bool(true)), Ok(ActivationMode::Hold));
    assert_eq!(activation_mode_from_stored(&StoredScalar::Bool(false)), Ok(ActivationMode::Toggle));
    assert_eq!(activation_mode_from_stored(&StoredScalar::Number(1)), Err(ValueError::InvalidType));
    assert_eq!(activation_mode_from_stored(&StoredScalar::Other), Err(ValueError::InvalidType));
    assert_eq!(activation_mode_from_stored(&text("push")), Err(ValueError::UnknownVariant("push".to_string())));
    for m in [ActivationMode::Toggle, ActivationMode::Hold, ActivationMode::HoldOrToggle] {
        assert_eq!(activation_mode_from_stored(&StoredScalar::Text(activation_mode_name(m))), Ok(m));
    }
}

#[test]
fn stored_log_levels_by_kind_and_name() {
    let levels = [LogLevel::Trace, LogLevel::Debug, LogLevel::Info, LogLevel::Warn, LogLevel::Error];
    for (i, l) in levels.iter().enumerate() {
        assert_eq!(log_level_from_stored(&StoredScalar::Number(i as u64 + 1)), Ok(*l));
        assert_eq!(log_level_from_stored(&StoredScalar::Text(log_level_name(*l))), Ok(*l));
        assert_eq!(log_level_from_stored(&StoredScalar::Text(log_level_name(*l).to_uppercase())), Ok(*l));
    }
    assert_eq!(log_level_from_stored(&StoredScalar::Number(0)), Err(ValueError::InvalidValue(0)));
    assert_eq!(log_level_from_stored(&StoredScalar::Number(6)), Err(ValueError::InvalidValue(6)));
    assert_eq!(log_level_from_stored(&StoredScalar::Bool(true)), Err(ValueError::InvalidType));
    assert_eq!(log_level_from_stored(&StoredScalar::Other), Err(ValueError::InvalidType));
    assert_eq!(
        log_level_from_stored(&StoredScalar::Text("verbose".to_string())),
        Err(ValueError::UnknownVariant("verbose".to_string()))
    );
}

#[test]
fn stt_defaults_report_exactly_when_they_change_something() {
    let mut settings = defaults();
    assert!(ensure_stt_defaults(&mut settings));
    assert_eq!(settings.stt_realtime_enabled.get("openai_stt"), Some(&true));
    assert!(!ensure_stt_defaults(&mut settings));
    settings.stt_cloud_models = StrMap::new();
    assert!(ensure_stt_defaults(&mut settings));
    assert_eq!(get_text(&settings.stt_cloud_models, "groq"), Some("whisper-large-v3-turbo"));
    assert!(!ensure_stt_defaults(&mut settings));
}

#[test]
fn values_that_are_not_objects_are_not_rewritten() {
    let shape = StoredSettingsShape {
        is_object: false,
        has_stt_providers: true,
        has_post_process_providers: true,
        prompt_ids: None,
        bindings: None,
    };
    assert!(!persisted_settings_requires_rewrite(&shape, &catalog()));
}

#[test]
fn shape_of_written_settings_needs_no_rewrite() {
    let cat = catalog();
    let mut settings = defaults();
    let mut cancel = settings.bindings.get("cancel").unwrap().clone();
    cancel.current_binding = "ctrl+escape".to_string();
    settings.bindings.insert("cancel".to_string(), cancel);
    settings.bindings.insert(
        "transcribe_custom_2".to_string(),
        binding("transcribe_custom_2", "Other", "Another shortcut.", "ctrl+alt+o", Some("prompt_2")),
    );
    settings.post_process_prompts.push(prompt("prompt_2", "Other", "Shorten this."));
    settings.post_process_prompts.push(prompt("default_correct", "Correct", "Stale copy."));
    let shape = written_settings_shape(&settings, Platform::Linux, &cat);
    assert!(shape.is_object && !shape.has_stt_providers && !shape.has_post_process_providers);
    assert_eq!(shape.prompt_ids, Some(vec![Some("prompt_2".to_string())]));
    let bindings = shape.bindings.clone().unwrap();
    assert_eq!(bindings.len(), 2);
    for b in &bindings {
        let whole = b.id == "transcribe_custom_2";
        assert_eq!(b.has_name, whole);
        assert_eq!(b.has_description, whole);
        assert_eq!(b.has_default_binding, whole);
    }
    assert!(!persisted_settings_requires_rewrite(&shape, &cat));
}
