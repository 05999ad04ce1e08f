//! Recovering settings from a stored value that does not parse as a whole:
//! every field that parses on its own is kept.
use vstd::prelude::*;
use crate::settings::enums::{
    ActivationMode, AppTheme, AutoSubmitKey, ClipboardHandling, KeyboardImplementation, LogLevel,
    ModelUnloadTimeout, OverlayPosition, PasteMethod, Platform, RecordingRetentionPeriod, SoundTheme,
    StatsDateRange, TypingTool,
};
use crate::settings::app_settings::{
    AppSettings, get_default_settings, is_default_settings, apply_custom_post_process_base_url,
    custom_url_changes_in,
};
use crate::settings::bindings::ShortcutBinding;
use crate::settings::post_process::{
    LLMPrompt, PostProcessProvider, PostProcessCatalog, PostProcessProviderView, pp_providers_view,
    normalized_post_process_providers, spec_normalized_pp_providers, set_base_url,
};
use crate::settings::persist::{
    StoredProviderShape, configured_custom_post_process_base_url, spec_configured_custom_base_url,
};
use crate::str_map::{StrMap, StrSet};

verus! {

/// The fields of a stored settings value, each parsed on its own: `None` where
/// the field is missing or does not parse.
#[derive(Debug, Clone)]
pub struct RecoveredFields {
    /// Whether the stored value is a JSON object at all.
    pub is_object: bool,
    pub activation_mode: Option<ActivationMode>,
    /// The older name of the activation mode.
    pub push_to_talk: Option<ActivationMode>,
    /// Whether the stored object has an `overlay_enabled` key, whether or not it parses.
    pub has_overlay_enabled: bool,
    pub bindings: Option<StrMap<ShortcutBinding>>,
    pub sound_theme: Option<SoundTheme>,
    pub start_hidden: Option<bool>,
    pub autostart_enabled: Option<bool>,
    pub update_checks_enabled: Option<bool>,
    pub selected_model: Option<String>,
    pub always_on_microphone: Option<bool>,
    pub selected_microphone: Option<Option<String>>,
    pub microphone_priority: Option<Vec<String>>,
    pub clamshell_microphone: Option<Option<String>>,
    pub selected_output_device: Option<Option<String>>,
    pub translate_to_english: Option<bool>,
    pub selected_language: Option<String>,
    pub overlay_enabled: Option<bool>,
    pub overlay_position: Option<OverlayPosition>,
    pub debug_mode: Option<bool>,
    pub log_level: Option<LogLevel>,
    pub custom_words: Option<Vec<String>>,
    pub model_unload_timeout: Option<ModelUnloadTimeout>,
    pub history_limit: Option<usize>,
    pub recording_retention_period: Option<RecordingRetentionPeriod>,
    pub paste_method: Option<PasteMethod>,
    pub clipboard_handling: Option<ClipboardHandling>,
    pub auto_submit: Option<bool>,
    pub auto_submit_key: Option<AutoSubmitKey>,
    pub stt_provider_id: Option<String>,
    pub stt_api_keys: Option<StrMap<String>>,
    pub stt_cloud_models: Option<StrMap<String>>,
    pub post_process_enabled: Option<bool>,
    pub post_process_provider_id: Option<String>,
    pub post_process_api_keys: Option<StrMap<String>>,
    pub post_process_models: Option<StrMap<String>>,
    pub post_process_prompts: Option<Vec<LLMPrompt>>,
    pub post_process_selected_prompt_id: Option<Option<String>>,
    pub mute_while_recording: Option<bool>,
    pub append_trailing_space: Option<bool>,
    pub app_language: Option<String>,
    pub keyboard_implementation: Option<KeyboardImplementation>,
    pub show_tray_icon: Option<bool>,
    pub paste_delay_ms: Option<u64>,
    pub typing_tool: Option<TypingTool>,
    pub external_script_path: Option<Option<String>>,
    pub app_theme: Option<AppTheme>,
    pub stt_verified_providers: Option<StrSet>,
    pub post_process_verified_providers: Option<StrSet>,
    pub stt_cloud_options: Option<StrMap<String>>,
    pub stt_realtime_enabled: Option<StrMap<bool>>,
    pub stt_realtime_chunk_ms: Option<StrMap<u64>>,
    pub stats_date_range: Option<StatsDateRange>,
    pub dictionary_terms: Option<Vec<String>>,
    pub dictionary_context: Option<String>,
    pub post_process_providers: Option<Vec<PostProcessProvider>>,
    /// The dedicated custom base URL field, where it holds a string.
    pub post_process_custom_base_url: Option<String>,
    /// What the stored provider list shows of each provider, where it is a JSON array.
    pub post_process_provider_shapes: Option<Vec<StoredProviderShape>>,
}

impl RecoveredFields {
    /// A stored value of which no field parses: an object or not, as given.
    pub fn empty(is_object: bool) -> (r: RecoveredFields)
        ensures
            r.is_object == is_object,
            r.activation_mode is None,
            r.push_to_talk is None,
            !r.has_overlay_enabled,
            r.bindings is None,
            r.sound_theme is None,
            r.start_hidden is None,
            r.autostart_enabled is None,
            r.update_checks_enabled is None,
            r.selected_model is None,
            r.always_on_microphone is None,
            r.selected_microphone is None,
            r.microphone_priority is None,
            r.clamshell_microphone is None,
            r.selected_output_device is None,
            r.translate_to_english is None,
            r.selected_language is None,
            r.overlay_enabled is None,
            r.overlay_position is None,
            r.debug_mode is None,
            r.log_level is None,
            r.custom_words is None,
            r.model_unload_timeout is None,
            r.history_limit is None,
            r.recording_retention_period is None,
            r.paste_method is None,
            r.clipboard_handling is None,
            r.auto_submit is None,
            r.auto_submit_key is None,
            r.stt_provider_id is None,
            r.stt_api_keys is None,
            r.stt_cloud_models is None,
            r.post_process_enabled is None,
            r.post_process_provider_id is None,
            r.post_process_api_keys is None,
            r.post_process_models is None,
            r.post_process_prompts is None,
            r.post_process_selected_prompt_id is None,
            r.mute_while_recording is None,
            r.append_trailing_space is None,
            r.app_language is None,
            r.keyboard_implementation is None,
            r.show_tray_icon is None,
            r.paste_delay_ms is None,
            r.typing_tool is None,
            r.external_script_path is None,
            r.app_theme is None,
            r.stt_verified_providers is None,
            r.post_process_verified_providers is None,
            r.stt_cloud_options is None,
            r.stt_realtime_enabled is None,
            r.stt_realtime_chunk_ms is None,
            r.stats_date_range is None,
            r.dictionary_terms is None,
            r.dictionary_context is None,
            r.post_process_providers is None,
            r.post_process_custom_base_url is None,
            r.post_process_provider_shapes is None,
    {
        RecoveredFields {
            is_object,
            activation_mode: None,
            push_to_talk: None,
            has_overlay_enabled: false,
            bindings: None,
            sound_theme: None,
            start_hidden: None,
            autostart_enabled: None,
            update_checks_enabled: None,
            selected_model: None,
            always_on_microphone: None,
            selected_microphone: None,
            microphone_priority: None,
            clamshell_microphone: None,
            selected_output_device: None,
            translate_to_english: None,
            selected_language: None,
            overlay_enabled: None,
            overlay_position: None,
            debug_mode: None,
            log_level: None,
            custom_words: None,
            model_unload_timeout: None,
            history_limit: None,
            recording_retention_period: None,
            paste_method: None,
            clipboard_handling: None,
            auto_submit: None,
            auto_submit_key: None,
            stt_provider_id: None,
            stt_api_keys: None,
            stt_cloud_models: None,
            post_process_enabled: None,
            post_process_provider_id: None,
            post_process_api_keys: None,
            post_process_models: None,
            post_process_prompts: None,
            post_process_selected_prompt_id: None,
            mute_while_recording: None,
            append_trailing_space: None,
            app_language: None,
            keyboard_implementation: None,
            show_tray_icon: None,
            paste_delay_ms: None,
            typing_tool: None,
            external_script_path: None,
            app_theme: None,
            stt_verified_providers: None,
            post_process_verified_providers: None,
            stt_cloud_options: None,
            stt_realtime_enabled: None,
            stt_realtime_chunk_ms: None,
            stats_date_range: None,
            dictionary_terms: None,
            dictionary_context: None,
            post_process_providers: None,
            post_process_custom_base_url: None,
            post_process_provider_shapes: None,
        }
    }
}


/// A recovered field, or what the settings had.
pub open spec fn pick<T>(f: Option<T>, d: T) -> T {
    match f {
        Some(v) => v,
        None => d,
    }
}

/// The post-processing providers that recovering gives: the stored list
/// normalised against the catalog where it parses, then the stored custom base URL.
pub open spec fn recovered_pp_providers(
    o: Seq<PostProcessProviderView>,
    f: RecoveredFields,
    catalog: PostProcessCatalog,
) -> Seq<PostProcessProviderView> {
    let base = match f.post_process_providers {
        Some(st) => spec_normalized_pp_providers(pp_providers_view(catalog.providers@), pp_providers_view(st@)),
        None => o,
    };
    let url = spec_configured_custom_base_url(f.post_process_custom_base_url.deep_view(), f.post_process_provider_shapes);
    if custom_url_changes_in(base, url) {
        set_base_url(base, "custom"@, url->Some_0)
    } else {
        base
    }
}

/// The settings `n` are `o` with every recovered field put in place.
pub open spec fn recovered_onto(o: AppSettings, n: AppSettings, f: RecoveredFields, catalog: PostProcessCatalog) -> bool {
    if !f.is_object {
        n == o
    } else {
        let position = pick(f.overlay_position, o.overlay_position);
        &&& n.activation_mode == (match f.activation_mode {
            Some(m) => m,
            None => pick(f.push_to_talk, o.activation_mode),
        })
        &&& n.overlay_enabled == (if f.has_overlay_enabled {
            pick(f.overlay_enabled, o.overlay_enabled)
        } else {
            position != OverlayPosition::Hidden
        })
        &&& pp_providers_view(n.post_process_providers@) == recovered_pp_providers(pp_providers_view(o.post_process_providers@), f, catalog)
        &&& n.stt_providers == o.stt_providers
        &&& n.bindings == pick(f.bindings, o.bindings)
        &&& n.sound_theme == pick(f.sound_theme, o.sound_theme)
        &&& n.start_hidden == pick(f.start_hidden, o.start_hidden)
        &&& n.autostart_enabled == pick(f.autostart_enabled, o.autostart_enabled)
        &&& n.update_checks_enabled == pick(f.update_checks_enabled, o.update_checks_enabled)
        &&& n.selected_model == pick(f.selected_model, o.selected_model)
        &&& n.always_on_microphone == pick(f.always_on_microphone, o.always_on_microphone)
        &&& n.selected_microphone == pick(f.selected_microphone, o.selected_microphone)
        &&& n.microphone_priority == pick(f.microphone_priority, o.microphone_priority)
        &&& n.clamshell_microphone == pick(f.clamshell_microphone, o.clamshell_microphone)
        &&& n.selected_output_device == pick(f.selected_output_device, o.selected_output_device)
        &&& n.translate_to_english == pick(f.translate_to_english, o.translate_to_english)
        &&& n.selected_language == pick(f.selected_language, o.selected_language)
        &&& n.overlay_position == pick(f.overlay_position, o.overlay_position)
        &&& n.debug_mode == pick(f.debug_mode, o.debug_mode)
        &&& n.log_level == pick(f.log_level, o.log_level)
        &&& n.custom_words == pick(f.custom_words, o.custom_words)
        &&& n.model_unload_timeout == pick(f.model_unload_timeout, o.model_unload_timeout)
        &&& n.history_limit == pick(f.history_limit, o.history_limit)
        &&& n.recording_retention_period == pick(f.recording_retention_period, o.recording_retention_period)
        &&& n.paste_method == pick(f.paste_method, o.paste_method)
        &&& n.clipboard_handling == pick(f.clipboard_handling, o.clipboard_handling)
        &&& n.auto_submit == pick(f.auto_submit, o.auto_submit)
        &&& n.auto_submit_key == pick(f.auto_submit_key, o.auto_submit_key)
        &&& n.stt_provider_id == pick(f.stt_provider_id, o.stt_provider_id)
        &&& n.stt_api_keys == pick(f.stt_api_keys, o.stt_api_keys)
        &&& n.stt_cloud_models == pick(f.stt_cloud_models, o.stt_cloud_models)
        &&& n.post_process_enabled == pick(f.post_process_enabled, o.post_process_enabled)
        &&& n.post_process_provider_id == pick(f.post_process_provider_id, o.post_process_provider_id)
        &&& n.post_process_api_keys == pick(f.post_process_api_keys, o.post_process_api_keys)
        &&& n.post_process_models == pick(f.post_process_models, o.post_process_models)
        &&& n.post_process_prompts == pick(f.post_process_prompts, o.post_process_prompts)
        &&& n.post_process_selected_prompt_id == pick(f.post_process_selected_prompt_id, o.post_process_selected_prompt_id)
        &&& n.mute_while_recording == pick(f.mute_while_recording, o.mute_while_recording)
        &&& n.append_trailing_space == pick(f.append_trailing_space, o.append_trailing_space)
        &&& n.app_language == pick(f.app_language, o.app_language)
        &&& n.keyboard_implementation == pick(f.keyboard_implementation, o.keyboard_implementation)
        &&& n.show_tray_icon == pick(f.show_tray_icon, o.show_tray_icon)
        &&& n.paste_delay_ms == pick(f.paste_delay_ms, o.paste_delay_ms)
        &&& n.typing_tool == pick(f.typing_tool, o.typing_tool)
        &&& n.external_script_path == pick(f.external_script_path, o.external_script_path)
        &&& n.app_theme == pick(f.app_theme, o.app_theme)
        &&& n.stt_verified_providers == pick(f.stt_verified_providers, o.stt_verified_providers)
        &&& n.post_process_verified_providers == pick(f.post_process_verified_providers, o.post_process_verified_providers)
        &&& n.stt_cloud_options == pick(f.stt_cloud_options, o.stt_cloud_options)
        &&& n.stt_realtime_enabled == pick(f.stt_realtime_enabled, o.stt_realtime_enabled)
        &&& n.stt_realtime_chunk_ms == pick(f.stt_realtime_chunk_ms, o.stt_realtime_chunk_ms)
        &&& n.stats_date_range == pick(f.stats_date_range, o.stats_date_range)
        &&& n.dictionary_terms == pick(f.dictionary_terms, o.dictionary_terms)
        &&& n.dictionary_context == pick(f.dictionary_context, o.dictionary_context)
    }
}

/// A recovered field, or what the settings had.
pub fn pick_value<T>(f: Option<T>, d: T) -> (r: T)
    ensures
        r == pick(f, d),
{
    match f {
        Some(v) => v,
        None => d,
    }
}

/// Puts every recovered field in place.
pub fn recover_settings_onto(o: AppSettings, fields: RecoveredFields, catalog: &PostProcessCatalog) -> (n: AppSettings)
    ensures
        recovered_onto(o, n, fields, *catalog),
{
    if !fields.is_object {
        return o;
    }
    let RecoveredFields {
        is_object: _,
        activation_mode,
        push_to_talk,
        has_overlay_enabled,
        bindings,
        sound_theme,
        start_hidden,
        autostart_enabled,
        update_checks_enabled,
        selected_model,
        always_on_microphone,
        selected_microphone,
        microphone_priority,
        clamshell_microphone,
        selected_output_device,
        translate_to_english,
        selected_language,
        overlay_enabled,
        overlay_position,
        debug_mode,
        log_level,
        custom_words,
        model_unload_timeout,
        history_limit,
        recording_retention_period,
        paste_method,
        clipboard_handling,
        auto_submit,
        auto_submit_key,
        stt_provider_id,
        stt_api_keys,
        stt_cloud_models,
        post_process_enabled,
        post_process_provider_id,
        post_process_api_keys,
        post_process_models,
        post_process_prompts,
        post_process_selected_prompt_id,
        mute_while_recording,
        append_trailing_space,
        app_language,
        keyboard_implementation,
        show_tray_icon,
        paste_delay_ms,
        typing_tool,
        external_script_path,
        app_theme,
        stt_verified_providers,
        post_process_verified_providers,
        stt_cloud_options,
        stt_realtime_enabled,
        stt_realtime_chunk_ms,
        stats_date_range,
        dictionary_terms,
        dictionary_context,
        post_process_providers,
        post_process_custom_base_url,
        post_process_provider_shapes,
    } = fields;
    let overlay_position = pick_value(overlay_position, o.overlay_position);
    let overlay_enabled = if has_overlay_enabled {
        pick_value(overlay_enabled, o.overlay_enabled)
    } else {
        overlay_position != OverlayPosition::Hidden
    };
    let activation = match activation_mode {
        Some(m) => m,
        None => pick_value(push_to_talk, o.activation_mode),
    };
    let providers = match post_process_providers {
        Some(stored) => normalized_post_process_providers(catalog, &stored),
        None => o.post_process_providers,
    };
    let mut n = AppSettings {
        activation_mode: activation,
        overlay_enabled,
        overlay_position,
        post_process_providers: providers,
        stt_providers: o.stt_providers,
        bindings: pick_value(bindings, o.bindings),
        sound_theme: pick_value(sound_theme, o.sound_theme),
        start_hidden: pick_value(start_hidden, o.start_hidden),
        autostart_enabled: pick_value(autostart_enabled, o.autostart_enabled),
        update_checks_enabled: pick_value(update_checks_enabled, o.update_checks_enabled),
        selected_model: pick_value(selected_model, o.selected_model),
        always_on_microphone: pick_value(always_on_microphone, o.always_on_microphone),
        selected_microphone: pick_value(selected_microphone, o.selected_microphone),
        microphone_priority: pick_value(microphone_priority, o.microphone_priority),
        clamshell_microphone: pick_value(clamshell_microphone, o.clamshell_microphone),
        selected_output_device: pick_value(selected_output_device, o.selected_output_device),
        translate_to_english: pick_value(translate_to_english, o.translate_to_english),
        selected_language: pick_value(selected_language, o.selected_language),
        debug_mode: pick_value(debug_mode, o.debug_mode),
        log_level: pick_value(log_level, o.log_level),
        custom_words: pick_value(custom_words, o.custom_words),
        model_unload_timeout: pick_value(model_unload_timeout, o.model_unload_timeout),
        history_limit: pick_value(history_limit, o.history_limit),
        recording_retention_period: pick_value(recording_retention_period, o.recording_retention_period),
        paste_method: pick_value(paste_method, o.paste_method),
        clipboard_handling: pick_value(clipboard_handling, o.clipboard_handling),
        auto_submit: pick_value(auto_submit, o.auto_submit),
        auto_submit_key: pick_value(auto_submit_key, o.auto_submit_key),
        stt_provider_id: pick_value(stt_provider_id, o.stt_provider_id),
        stt_api_keys: pick_value(stt_api_keys, o.stt_api_keys),
        stt_cloud_models: pick_value(stt_cloud_models, o.stt_cloud_models),
        post_process_enabled: pick_value(post_process_enabled, o.post_process_enabled),
        post_process_provider_id: pick_value(post_process_provider_id, o.post_process_provider_id),
        post_process_api_keys: pick_value(post_process_api_keys, o.post_process_api_keys),
        post_process_models: pick_value(post_process_models, o.post_process_models),
        post_process_prompts: pick_value(post_process_prompts, o.post_process_prompts),
        post_process_selected_prompt_id: pick_value(post_process_selected_prompt_id, o.post_process_selected_prompt_id),
        mute_while_recording: pick_value(mute_while_recording, o.mute_while_recording),
        append_trailing_space: pick_value(append_trailing_space, o.append_trailing_space),
        app_language: pick_value(app_language, o.app_language),
        keyboard_implementation: pick_value(keyboard_implementation, o.keyboard_implementation),
        show_tray_icon: pick_value(show_tray_icon, o.show_tray_icon),
        paste_delay_ms: pick_value(paste_delay_ms, o.paste_delay_ms),
        typing_tool: pick_value(typing_tool, o.typing_tool),
        external_script_path: pick_value(external_script_path, o.external_script_path),
        app_theme: pick_value(app_theme, o.app_theme),
        stt_verified_providers: pick_value(stt_verified_providers, o.stt_verified_providers),
        post_process_verified_providers: pick_value(post_process_verified_providers, o.post_process_verified_providers),
        stt_cloud_options: pick_value(stt_cloud_options, o.stt_cloud_options),
        stt_realtime_enabled: pick_value(stt_realtime_enabled, o.stt_realtime_enabled),
        stt_realtime_chunk_ms: pick_value(stt_realtime_chunk_ms, o.stt_realtime_chunk_ms),
        stats_date_range: pick_value(stats_date_range, o.stats_date_range),
        dictionary_terms: pick_value(dictionary_terms, o.dictionary_terms),
        dictionary_context: pick_value(dictionary_context, o.dictionary_context),
    };
    let url = configured_custom_post_process_base_url(&post_process_custom_base_url, &post_process_provider_shapes);
    apply_custom_post_process_base_url(&mut n, url);
    n
}

/// Recovers settings from a stored value that does not parse as a whole: the
/// settings of a new installation, with every field that parses on its own.
pub fn recover_settings_from_value(
    fields: RecoveredFields,
    platform: Platform,
    locale: Option<String>,
    catalog: &PostProcessCatalog,
) -> (s: AppSettings)
    requires
        catalog.wf(),
    ensures
        exists|d: AppSettings| is_default_settings(d, platform, locale.deep_view(), *catalog)
            && recovered_onto(d, s, fields, *catalog),
{
    let settings = get_default_settings(platform, locale, catalog);
    recover_settings_onto(settings, fields, catalog)
}

} // verus!
