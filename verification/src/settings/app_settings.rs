//! The application's settings and their defaults.
use vstd::prelude::*;
use crate::settings::enums::{
    ActivationMode, AppTheme, AutoSubmitKey, ClipboardHandling, KeyboardImplementation, LogLevel,
    ModelUnloadTimeout, OverlayPosition, PasteMethod, Platform, RecordingRetentionPeriod,
    SoundTheme, StatsDateRange, TypingTool,
};
use crate::settings::bindings::{ShortcutBinding, default_bindings, spec_default_bindings};
use crate::settings::stt_catalog::{
    SttProvider, SttProviderView, providers_view, default_stt_providers,
    spec_default_stt_providers, default_stt_api_keys, default_stt_cloud_models,
    default_stt_cloud_options, default_stt_realtime_chunk_ms, default_stt_provider_id,
    cloud_provider_map, cloud_default_fn, CloudDefault, PARAKEET_UNIFIED_MODEL_ID,
    find_stt_provider, first_stt_provider_index,
};
use crate::settings::post_process::{
    default_post_process_api_keys, default_post_process_models, pp_provider_map, empty_values,
    PostProcessProvider, PostProcessProviderView, LLMPrompt, PostProcessCatalog, pp_providers_view,
    prompts_view, default_post_process_providers, default_post_process_prompts,
    default_post_process_selected_prompt_id, find_pp_provider, first_pp_provider_index,
    spec_find_pp_provider, set_base_url, with_base_url,
};
use crate::str_map::{StrMap, StrSet};
use crate::text::{owned, replace_char, spec_replace_char};

verus! {

broadcast use vstd::string::group_string_axioms;

/// Everything the user can configure. Volumes, thresholds and prices, which are
/// floating-point numbers, are kept beside these by the application.
#[derive(Debug, Clone)]
pub struct AppSettings {
    pub bindings: StrMap<ShortcutBinding>,
    pub activation_mode: ActivationMode,
    pub sound_theme: SoundTheme,
    pub start_hidden: bool,
    pub autostart_enabled: bool,
    pub update_checks_enabled: bool,
    pub selected_model: String,
    pub always_on_microphone: bool,
    pub selected_microphone: Option<String>,
    pub microphone_priority: Vec<String>,
    pub clamshell_microphone: Option<String>,
    pub selected_output_device: Option<String>,
    pub translate_to_english: bool,
    pub selected_language: String,
    pub overlay_enabled: bool,
    pub overlay_position: OverlayPosition,
    pub debug_mode: bool,
    pub log_level: LogLevel,
    pub custom_words: Vec<String>,
    pub model_unload_timeout: ModelUnloadTimeout,
    pub history_limit: usize,
    pub recording_retention_period: RecordingRetentionPeriod,
    pub paste_method: PasteMethod,
    pub clipboard_handling: ClipboardHandling,
    pub auto_submit: bool,
    pub auto_submit_key: AutoSubmitKey,
    pub stt_provider_id: String,
    pub stt_providers: Vec<SttProvider>,
    pub stt_api_keys: StrMap<String>,
    pub stt_cloud_models: StrMap<String>,
    pub post_process_enabled: bool,
    pub post_process_provider_id: String,
    pub post_process_providers: Vec<PostProcessProvider>,
    pub post_process_api_keys: StrMap<String>,
    pub post_process_models: StrMap<String>,
    pub post_process_prompts: Vec<LLMPrompt>,
    pub post_process_selected_prompt_id: Option<String>,
    pub mute_while_recording: bool,
    pub append_trailing_space: bool,
    pub app_language: String,
    pub keyboard_implementation: KeyboardImplementation,
    pub show_tray_icon: bool,
    pub paste_delay_ms: u64,
    pub typing_tool: TypingTool,
    pub external_script_path: Option<String>,
    pub app_theme: AppTheme,
    pub stt_verified_providers: StrSet,
    pub post_process_verified_providers: StrSet,
    pub stt_cloud_options: StrMap<String>,
    pub stt_realtime_enabled: StrMap<bool>,
    pub stt_realtime_chunk_ms: StrMap<u64>,
    pub stats_date_range: StatsDateRange,
    pub dictionary_terms: Vec<String>,
    pub dictionary_context: String,
}

pub fn default_model() -> (s: String)
    ensures
        s@ == Seq::<char>::empty(),
{
    String::new()
}

pub fn default_always_on_microphone() -> (b: bool)
    ensures
        !b,
{
    false
}

pub fn default_translate_to_english() -> (b: bool)
    ensures
        !b,
{
    false
}

pub fn default_start_hidden() -> (b: bool)
    ensures
        !b,
{
    false
}

pub fn default_autostart_enabled() -> (b: bool)
    ensures
        !b,
{
    false
}

pub fn default_update_checks_enabled() -> (b: bool)
    ensures
        b,
{
    true
}

pub fn default_selected_language() -> (s: String)
    ensures
        s@ == "auto"@,
{
    owned("auto")
}

/// The overlay setting that stored settings without one start from.
pub fn default_overlay_enabled() -> (b: bool)
    ensures
        b,
{
    true
}

/// The overlay setting of a new installation: off on Linux.
pub fn default_overlay_enabled_for_new_install(platform: Platform) -> (b: bool)
    ensures
        b == (platform != Platform::Linux),
{
    match platform {
        Platform::Linux => false,
        _ => true,
    }
}

/// The overlay position of a new installation: none on Linux, at the bottom elsewhere.
pub fn default_overlay_position(platform: Platform) -> (p: OverlayPosition)
    ensures
        p == (if platform == Platform::Linux {
            OverlayPosition::Hidden
        } else {
            OverlayPosition::Bottom
        }),
{
    match platform {
        Platform::Linux => OverlayPosition::Hidden,
        _ => OverlayPosition::Bottom,
    }
}

pub fn default_debug_mode() -> (b: bool)
    ensures
        !b,
{
    false
}

pub fn default_log_level() -> (l: LogLevel)
    ensures
        l == LogLevel::Debug,
{
    LogLevel::Debug
}

pub fn default_paste_delay_ms() -> (ms: u64)
    ensures
        ms == 60,
{
    60
}

pub fn default_auto_submit() -> (b: bool)
    ensures
        !b,
{
    false
}

pub fn default_history_limit() -> (n: usize)
    ensures
        n == 5,
{
    5
}

pub fn default_recording_retention_period() -> (p: RecordingRetentionPeriod)
    ensures
        p == RecordingRetentionPeriod::Never,
{
    RecordingRetentionPeriod::Never
}

pub fn default_sound_theme() -> (t: SoundTheme)
    ensures
        t == SoundTheme::Marimba,
{
    SoundTheme::Marimba
}

pub fn default_post_process_enabled() -> (b: bool)
    ensures
        !b,
{
    false
}

pub fn default_show_tray_icon() -> (b: bool)
    ensures
        b,
{
    true
}

pub fn default_post_process_provider_id() -> (s: String)
    ensures
        s@ == "openai"@,
{
    owned("openai")
}

pub fn default_typing_tool() -> (t: TypingTool)
    ensures
        t == TypingTool::Auto,
{
    TypingTool::Auto
}

/// The interface language of a new installation: the system locale with `_`
/// written as `-`, or English where the system gives none.
pub open spec fn spec_app_language(locale: Option<Seq<char>>) -> Seq<char> {
    match locale {
        Some(l) => spec_replace_char(l, '_', '-'),
        None => "en"@,
    }
}

pub fn default_app_language(locale: Option<String>) -> (s: String)
    ensures
        s@ == spec_app_language(locale.deep_view()),
{
    match locale {
        Some(l) => replace_char(l.as_str(), '_', '-'),
        None => owned("en"),
    }
}

/// The settings of a new installation on `platform`, whose system locale is
/// `locale`, with the built-in post-processing definitions of `catalog`.
pub open spec fn is_default_settings(
    s: AppSettings,
    platform: Platform,
    locale: Option<Seq<char>>,
    catalog: PostProcessCatalog,
) -> bool {
    &&& s.bindings@ == spec_default_bindings(platform)
    &&& s.activation_mode == ActivationMode::HoldOrToggle
    &&& s.sound_theme == SoundTheme::Marimba
    &&& !s.start_hidden
    &&& !s.autostart_enabled
    &&& s.update_checks_enabled
    &&& s.selected_model@ == Seq::<char>::empty()
    &&& !s.always_on_microphone
    &&& s.selected_microphone is None
    &&& s.microphone_priority@.len() == 0
    &&& s.clamshell_microphone is None
    &&& s.selected_output_device is None
    &&& !s.translate_to_english
    &&& s.selected_language@ == "auto"@
    &&& s.overlay_enabled == (platform != Platform::Linux)
    &&& s.overlay_position == (if platform == Platform::Linux {
        OverlayPosition::Hidden
    } else {
        OverlayPosition::Bottom
    })
    &&& !s.debug_mode
    &&& s.log_level == LogLevel::Debug
    &&& s.custom_words@.len() == 0
    &&& s.model_unload_timeout == ModelUnloadTimeout::Never
    &&& s.history_limit == 5
    &&& s.recording_retention_period == RecordingRetentionPeriod::Never
    &&& s.paste_method == (if platform == Platform::Linux {
        PasteMethod::Direct
    } else {
        PasteMethod::CtrlV
    })
    &&& s.clipboard_handling == ClipboardHandling::DontModify
    &&& !s.auto_submit
    &&& s.auto_submit_key == AutoSubmitKey::Enter
    &&& s.stt_provider_id@ == "local"@
    &&& providers_view(s.stt_providers@) == spec_default_stt_providers()
    &&& s.stt_api_keys@ == cloud_provider_map(spec_default_stt_providers(), cloud_default_fn(CloudDefault::EmptyKey))
    &&& s.stt_cloud_models@ == cloud_provider_map(spec_default_stt_providers(), cloud_default_fn(CloudDefault::DefaultModel))
    &&& !s.post_process_enabled
    &&& s.post_process_provider_id@ == "openai"@
    &&& pp_providers_view(s.post_process_providers@) == pp_providers_view(catalog.providers@)
    &&& s.post_process_api_keys@ == pp_provider_map(
        pp_providers_view(catalog.providers@),
        empty_values(catalog.providers@.len()),
    )
    &&& s.post_process_models@ == pp_provider_map(
        pp_providers_view(catalog.providers@),
        catalog.default_models@.map_values(|m: String| m@),
    )
    &&& prompts_view(s.post_process_prompts@) == prompts_view(catalog.prompts@)
    &&& s.post_process_selected_prompt_id.deep_view() == catalog.selected_prompt_id.deep_view()
    &&& s.mute_while_recording
    &&& !s.append_trailing_space
    &&& s.app_language@ == spec_app_language(locale)
    &&& s.keyboard_implementation == (if platform == Platform::MacOs {
        KeyboardImplementation::HandyKeys
    } else {
        KeyboardImplementation::Tauri
    })
    &&& s.show_tray_icon
    &&& s.paste_delay_ms == 60
    &&& s.typing_tool == TypingTool::Auto
    &&& s.external_script_path is None
    &&& s.app_theme == AppTheme::System
    &&& s.stt_verified_providers@ == Set::<Seq<char>>::empty()
    &&& s.post_process_verified_providers@ == Set::<Seq<char>>::empty()
    &&& s.stt_cloud_options@ == cloud_provider_map(spec_default_stt_providers(), cloud_default_fn(CloudDefault::EmptyOptions))
    &&& s.stt_realtime_enabled@ == Map::<Seq<char>, bool>::empty()
    &&& s.stt_realtime_chunk_ms@ == Map::<Seq<char>, u64>::empty().insert(PARAKEET_UNIFIED_MODEL_ID@, 560)
    &&& s.stats_date_range == StatsDateRange::Month
    &&& s.dictionary_terms@.len() == 0
    &&& s.dictionary_context@ == Seq::<char>::empty()
}

/// The settings of a new installation.
pub fn get_default_settings(platform: Platform, locale: Option<String>, catalog: &PostProcessCatalog) -> (s: AppSettings)
    requires
        catalog.wf(),
    ensures
        is_default_settings(s, platform, locale.deep_view(), *catalog),
{
    AppSettings {
        bindings: default_bindings(platform),
        activation_mode: ActivationMode::default_mode(),
        sound_theme: default_sound_theme(),
        start_hidden: default_start_hidden(),
        autostart_enabled: default_autostart_enabled(),
        update_checks_enabled: default_update_checks_enabled(),
        selected_model: default_model(),
        always_on_microphone: false,
        selected_microphone: None,
        microphone_priority: Vec::new(),
        clamshell_microphone: None,
        selected_output_device: None,
        translate_to_english: false,
        selected_language: default_selected_language(),
        overlay_enabled: default_overlay_enabled_for_new_install(platform),
        overlay_position: default_overlay_position(platform),
        debug_mode: false,
        log_level: default_log_level(),
        custom_words: Vec::new(),
        model_unload_timeout: ModelUnloadTimeout::default_timeout(),
        history_limit: default_history_limit(),
        recording_retention_period: default_recording_retention_period(),
        paste_method: PasteMethod::default_for(platform),
        clipboard_handling: ClipboardHandling::default_handling(),
        auto_submit: default_auto_submit(),
        auto_submit_key: AutoSubmitKey::default_key(),
        stt_provider_id: default_stt_provider_id(),
        stt_providers: default_stt_providers(),
        stt_api_keys: default_stt_api_keys(),
        stt_cloud_models: default_stt_cloud_models(),
        post_process_enabled: default_post_process_enabled(),
        post_process_provider_id: default_post_process_provider_id(),
        post_process_providers: default_post_process_providers(catalog),
        post_process_api_keys: default_post_process_api_keys(catalog),
        post_process_models: default_post_process_models(catalog),
        post_process_prompts: default_post_process_prompts(catalog),
        post_process_selected_prompt_id: default_post_process_selected_prompt_id(catalog),
        mute_while_recording: true,
        append_trailing_space: false,
        app_language: default_app_language(locale),
        keyboard_implementation: KeyboardImplementation::default_for(platform),
        show_tray_icon: default_show_tray_icon(),
        paste_delay_ms: default_paste_delay_ms(),
        typing_tool: default_typing_tool(),
        external_script_path: None,
        app_theme: AppTheme::default_theme(),
        stt_verified_providers: StrSet::new(),
        post_process_verified_providers: StrSet::new(),
        stt_cloud_options: default_stt_cloud_options(),
        stt_realtime_enabled: StrMap::new(),
        stt_realtime_chunk_ms: default_stt_realtime_chunk_ms(),
        stats_date_range: StatsDateRange::default_range(),
        dictionary_terms: Vec::new(),
        dictionary_context: String::new(),
    }
}

/// The first provider with the id, if one has it.
pub open spec fn spec_find_stt_provider(ps: Seq<SttProviderView>, id: Seq<char>) -> Option<SttProviderView> {
    let i = first_stt_provider_index(ps, id);
    if i < ps.len() {
        Some(ps[i])
    } else {
        None
    }
}

impl AppSettings {
    /// The first speech-to-text provider with the id.
    pub fn stt_provider(&self, provider_id: &str) -> (r: Option<&SttProvider>)
        ensures
            match r {
                Some(p) => spec_find_stt_provider(providers_view(self.stt_providers@), provider_id@) == Some(p@)
                    && *p == self.stt_providers@[first_stt_provider_index(providers_view(self.stt_providers@), provider_id@)],
                None => spec_find_stt_provider(providers_view(self.stt_providers@), provider_id@) is None,
            },
    {
        match find_stt_provider(&self.stt_providers, provider_id) {
            Some(i) => Some(&self.stt_providers[i]),
            None => None,
        }
    }

    /// The first post-processing provider with the id.
    pub fn post_process_provider(&self, provider_id: &str) -> (r: Option<&PostProcessProvider>)
        ensures
            match r {
                Some(p) => spec_find_pp_provider(pp_providers_view(self.post_process_providers@), provider_id@)
                    == Some(p@),
                None => spec_find_pp_provider(pp_providers_view(self.post_process_providers@), provider_id@) is None,
            },
    {
        match find_pp_provider(&self.post_process_providers, provider_id) {
            Some(i) => Some(&self.post_process_providers[i]),
            None => None,
        }
    }

    /// The post-processing provider that is selected.
    pub fn active_post_process_provider(&self) -> (r: Option<&PostProcessProvider>)
        ensures
            match r {
                Some(p) => spec_find_pp_provider(
                    pp_providers_view(self.post_process_providers@),
                    self.post_process_provider_id@,
                ) == Some(p@),
                None => spec_find_pp_provider(
                    pp_providers_view(self.post_process_providers@),
                    self.post_process_provider_id@,
                ) is None,
            },
    {
        self.post_process_provider(self.post_process_provider_id.as_str())
    }

    /// The first post-processing provider with the id, to be changed in place.
    pub fn post_process_provider_mut(&mut self, provider_id: &str) -> (r: Option<&mut PostProcessProvider>)
        ensures
            match r {
                Some(p) => {
                    let i = first_pp_provider_index(pp_providers_view(old(self).post_process_providers@), provider_id@);
                    &&& i < old(self).post_process_providers@.len()
                    &&& *p == old(self).post_process_providers@[i]
                    &&& *final(self) == (AppSettings {
                        post_process_providers: final(self).post_process_providers,
                        ..*old(self)
                    })
                    &&& final(self).post_process_providers@ == old(self).post_process_providers@.update(i, *final(p))
                },
                None => {
                    &&& spec_find_pp_provider(pp_providers_view(old(self).post_process_providers@), provider_id@) is None
                    &&& *final(self) == *old(self)
                },
            },
    {
        match find_pp_provider(&self.post_process_providers, provider_id) {
            Some(i) => Some(&mut self.post_process_providers[i]),
            None => None,
        }
    }
}

/// The base URL of the settings' custom post-processing provider, if it has one.
pub open spec fn spec_custom_base_url(s: AppSettings) -> Option<Seq<char>> {
    match spec_find_pp_provider(pp_providers_view(s.post_process_providers@), "custom"@) {
        Some(p) => Some(p.base_url),
        None => None,
    }
}

/// The base URL of the custom post-processing provider, if there is one.
pub fn custom_post_process_base_url(settings: &AppSettings) -> (r: Option<String>)
    ensures
        r.deep_view() == spec_custom_base_url(*settings),
{
    match settings.post_process_provider("custom") {
        Some(p) => Some(p.base_url.clone()),
        None => None,
    }
}

/// Whether giving the custom provider the URL changes the settings.
pub open spec fn custom_base_url_changes(s: AppSettings, url: Option<Seq<char>>) -> bool {
    custom_url_changes_in(pp_providers_view(s.post_process_providers@), url)
}

/// Whether giving the custom provider of the list the URL changes the list.
pub open spec fn custom_url_changes_in(ps: Seq<PostProcessProviderView>, url: Option<Seq<char>>) -> bool {
    match (url, spec_find_pp_provider(ps, "custom"@)) {
        (Some(u), Some(p)) => p.base_url != u,
        _ => false,
    }
}

/// Gives the custom post-processing provider the base URL, where there is a
/// URL and a custom provider; says whether that changed anything.
pub fn apply_custom_post_process_base_url(
    settings: &mut AppSettings,
    custom_base_url: Option<String>,
) -> (changed: bool)
    ensures
        changed == custom_base_url_changes(*old(settings), custom_base_url.deep_view()),
        pp_providers_view(final(settings).post_process_providers@) == applied_custom_url(
            pp_providers_view(old(settings).post_process_providers@),
            custom_base_url.deep_view(),
        ),
        *final(settings) == (AppSettings {
            post_process_providers: final(settings).post_process_providers,
            ..*old(settings)
        }),
        pp_providers_view(final(settings).post_process_providers@) == (if changed {
            set_base_url(
                pp_providers_view(old(settings).post_process_providers@),
                "custom"@,
                custom_base_url->Some_0@,
            )
        } else {
            pp_providers_view(old(settings).post_process_providers@)
        }),
{
    let url = match custom_base_url {
        Some(u) => u,
        None => {
            return false;
        },
    };
    let i = match find_pp_provider(&settings.post_process_providers, "custom") {
        Some(i) => i,
        None => {
            return false;
        },
    };
    if crate::text::str_eq(settings.post_process_providers[i].base_url.as_str(), url.as_str()) {
        return false;
    }
    let ghost before = pp_providers_view(settings.post_process_providers@);
    let ghost uv = url@;
    let mut p = settings.post_process_providers[i].duplicate();
    p.base_url = url;
    settings.post_process_providers.set(i, p);
    proof {
        assert(pp_providers_view(settings.post_process_providers@) =~= before.update(
            i as int,
            with_base_url(before[i as int], uv),
        ));
    }
    true
}

/// The providers after giving the custom provider the URL, as
/// `apply_custom_post_process_base_url` leaves them.
pub open spec fn applied_custom_url(
    ps: Seq<PostProcessProviderView>,
    url: Option<Seq<char>>,
) -> Seq<PostProcessProviderView> {
    if custom_url_changes_in(ps, url) {
        set_base_url(ps, "custom"@, url->Some_0)
    } else {
        ps
    }
}

/// Once the custom provider has been given a base URL, it has that URL, and
/// giving it the same URL again changes nothing.
pub proof fn lemma_custom_base_url_settles(ps: Seq<PostProcessProviderView>, url: Seq<char>)
    ensures
        spec_find_pp_provider(ps, "custom"@) is Some ==> spec_find_pp_provider(
            applied_custom_url(ps, Some(url)),
            "custom"@,
        )->Some_0.base_url == url,
        !custom_url_changes_in(applied_custom_url(ps, Some(url)), Some(url)),
        applied_custom_url(applied_custom_url(ps, Some(url)), Some(url)) == applied_custom_url(ps, Some(url)),
{
    crate::settings::post_process::lemma_set_base_url_found(ps, "custom"@, url);
}

} // verus!
