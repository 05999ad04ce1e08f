//! The registry of cloud speech-to-text providers: what each service is
//! called, which languages it understands, what it supports, and which options
//! it takes.
use vstd::prelude::*;
pub mod options;
pub mod dictionary;
use crate::text::owned;
use crate::cloud_stt::OPENAI_REALTIME_TRANSCRIPTION_MODEL;

verus! {

broadcast use vstd::string::group_string_axioms;

/// The kind of value an option takes. A number option ranges between two
/// bounds in steps, all three counted in tenths.
#[derive(Clone, Copy, Debug, PartialEq, Eq, Structural)]
pub enum CloudOptionType {
    Text,
    Number { min_tenths: u32, max_tenths: u32, step_tenths: u32 },
    Boolean,
    Language,
    LanguageMulti,
}

/// The value an option starts with.
#[derive(Debug, Clone)]
pub enum CloudOptionDefault {
    Bool(bool),
    Text(String),
}

pub enum CloudOptionDefaultView {
    Bool(bool),
    Text(Seq<char>),
}

/// An option that a provider's requests take.
#[derive(Debug, Clone)]
pub struct CloudProviderOption {
    pub key: String,
    pub label: String,
    pub option_type: CloudOptionType,
    pub description: String,
    pub default_value: Option<CloudOptionDefault>,
}

pub struct CloudProviderOptionView {
    pub key: Seq<char>,
    pub label: Seq<char>,
    pub option_type: CloudOptionType,
    pub description: Seq<char>,
    pub default_value: Option<CloudOptionDefaultView>,
}

/// Where a provider runs: a cloud service, its default model and the page where keys are made.
#[derive(Debug, Clone)]
pub enum ProviderBackend {
    Cloud { base_url: String, default_model: String, console_url: Option<String> },
}

pub enum ProviderBackendView {
    Cloud { base_url: Seq<char>, default_model: Seq<char>, console_url: Option<Seq<char>> },
}

/// What the interface shows of a speech-to-text provider.
#[derive(Debug, Clone)]
pub struct SttProviderInfo {
    pub id: String,
    pub name: String,
    pub description: String,
    pub supported_languages: Vec<String>,
    pub supports_translation: bool,
    pub supports_realtime: bool,
    pub is_recommended: bool,
    pub backend: ProviderBackend,
    pub available_options: Vec<CloudProviderOption>,
    pub supports_dictionary_terms: bool,
    pub supports_dictionary_context: bool,
}

pub struct SttProviderInfoView {
    pub id: Seq<char>,
    pub name: Seq<char>,
    pub description: Seq<char>,
    pub supported_languages: Seq<Seq<char>>,
    pub supports_translation: bool,
    pub supports_realtime: bool,
    pub is_recommended: bool,
    pub backend: ProviderBackendView,
    pub available_options: Seq<CloudProviderOptionView>,
    pub supports_dictionary_terms: bool,
    pub supports_dictionary_context: bool,
}

impl View for CloudProviderOption {
    type V = CloudProviderOptionView;

    open spec fn view(&self) -> CloudProviderOptionView {
        CloudProviderOptionView {
            key: self.key@,
            label: self.label@,
            option_type: self.option_type,
            description: self.description@,
            default_value: match self.default_value {
                Some(CloudOptionDefault::Bool(b)) => Some(CloudOptionDefaultView::Bool(b)),
                Some(CloudOptionDefault::Text(t)) => Some(CloudOptionDefaultView::Text(t@)),
                None => None,
            },
        }
    }
}

impl View for SttProviderInfo {
    type V = SttProviderInfoView;

    open spec fn view(&self) -> SttProviderInfoView {
        SttProviderInfoView {
            id: self.id@,
            name: self.name@,
            description: self.description@,
            supported_languages: self.supported_languages@.map_values(|s: String| s@),
            supports_translation: self.supports_translation,
            supports_realtime: self.supports_realtime,
            is_recommended: self.is_recommended,
            backend: match self.backend {
                ProviderBackend::Cloud { base_url, default_model, console_url } => ProviderBackendView::Cloud {
                    base_url: base_url@,
                    default_model: default_model@,
                    console_url: console_url.deep_view(),
                },
            },
            available_options: self.available_options@.map_values(|o: CloudProviderOption| o@),
            supports_dictionary_terms: self.supports_dictionary_terms,
            supports_dictionary_context: self.supports_dictionary_context,
        }
    }
}

/// The kind of an option in the tables below.
#[derive(Clone, Copy, Debug, PartialEq, Eq, Structural)]
pub enum OptionKind {
    Text,
    UnitNumber,
    Boolean,
    Language,
    LanguageMulti,
}

/// The kind of starting value of an option in the tables below.
#[derive(Clone, Copy, Debug, PartialEq, Eq, Structural)]
pub enum DefaultKind {
    NoDefault,
    Bool,
    Text,
}

/// An option as a table row: key, label, kind, description, kind of starting
/// value, starting truth value, starting text.
pub type OptionRow = (&'static str, &'static str, OptionKind, &'static str, DefaultKind, bool, &'static str);

pub open spec fn option_type_of(k: OptionKind) -> CloudOptionType {
    match k {
        OptionKind::Text => CloudOptionType::Text,
        OptionKind::UnitNumber => CloudOptionType::Number { min_tenths: 0, max_tenths: 10, step_tenths: 1 },
        OptionKind::Boolean => CloudOptionType::Boolean,
        OptionKind::Language => CloudOptionType::Language,
        OptionKind::LanguageMulti => CloudOptionType::LanguageMulti,
    }
}

/// The option that a table row describes.
pub open spec fn option_row_view(r: OptionRow) -> CloudProviderOptionView {
    CloudProviderOptionView {
        key: r.0@,
        label: r.1@,
        option_type: option_type_of(r.2),
        description: r.3@,
        default_value: match r.4 {
            DefaultKind::NoDefault => None,
            DefaultKind::Bool => Some(CloudOptionDefaultView::Bool(r.5)),
            DefaultKind::Text => Some(CloudOptionDefaultView::Text(r.6@)),
        },
    }
}

pub open spec fn options_view(rows: Seq<OptionRow>) -> Seq<CloudProviderOptionView> {
    rows.map_values(|r: OptionRow| option_row_view(r))
}

pub open spec fn texts_view(l: Seq<&str>) -> Seq<Seq<char>> {
    l.map_values(|s: &str| s@)
}

/// The provider that the arguments of `provider_info` describe.
pub open spec fn provider_info_view(
    id: Seq<char>,
    name: Seq<char>,
    description: Seq<char>,
    languages: Seq<&str>,
    supports_translation: bool,
    supports_realtime: bool,
    base_url: Seq<char>,
    default_model: Seq<char>,
    console_url: Seq<char>,
    options: Seq<OptionRow>,
    supports_dictionary_terms: bool,
    supports_dictionary_context: bool,
) -> SttProviderInfoView {
    SttProviderInfoView {
        id,
        name,
        description,
        supported_languages: texts_view(languages),
        supports_translation,
        supports_realtime,
        is_recommended: false,
        backend: ProviderBackendView::Cloud { base_url, default_model, console_url: Some(console_url) },
        available_options: options_view(options),
        supports_dictionary_terms,
        supports_dictionary_context,
    }
}

fn option_from_row(r: &OptionRow) -> (o: CloudProviderOption)
    ensures
        o@ == option_row_view(*r),
{
    let option_type = match r.2 {
        OptionKind::Text => CloudOptionType::Text,
        OptionKind::UnitNumber => CloudOptionType::Number { min_tenths: 0, max_tenths: 10, step_tenths: 1 },
        OptionKind::Boolean => CloudOptionType::Boolean,
        OptionKind::Language => CloudOptionType::Language,
        OptionKind::LanguageMulti => CloudOptionType::LanguageMulti,
    };
    let default_value = match r.4 {
        DefaultKind::NoDefault => None,
        DefaultKind::Bool => Some(CloudOptionDefault::Bool(r.5)),
        DefaultKind::Text => Some(CloudOptionDefault::Text(owned(r.6))),
    };
    CloudProviderOption {
        key: owned(r.0),
        label: owned(r.1),
        option_type,
        description: owned(r.3),
        default_value,
    }
}

fn options_from_rows(rows: &[OptionRow]) -> (v: Vec<CloudProviderOption>)
    ensures
        v@.map_values(|o: CloudProviderOption| o@) == options_view(rows@),
{
    let mut v: Vec<CloudProviderOption> = Vec::new();
    let n = rows.len();
    for i in 0..n
        invariant
            n == rows@.len(),
            v@.map_values(|o: CloudProviderOption| o@) == options_view(rows@.take(i as int)),
    {
        let ghost before = v@.map_values(|o: CloudProviderOption| o@);
        let o = option_from_row(&rows[i]);
        let ghost ov = o@;
        v.push(o);
        proof {
            assert(v@.map_values(|o: CloudProviderOption| o@) =~= before.push(ov));
            assert(options_view(rows@.take(i + 1)) =~= options_view(rows@.take(i as int)).push(option_row_view(rows@[i as int])));
        }
    }
    proof {
        assert(rows@.take(n as int) =~= rows@);
    }
    v
}

fn strings_from(list: &[&str]) -> (v: Vec<String>)
    ensures
        v@.map_values(|s: String| s@) == texts_view(list@),
{
    let mut v: Vec<String> = Vec::new();
    let n = list.len();
    for i in 0..n
        invariant
            n == list@.len(),
            v@.map_values(|s: String| s@) == texts_view(list@.take(i as int)),
    {
        let ghost before = v@.map_values(|s: String| s@);
        let s = owned(list[i]);
        let ghost sv = s@;
        v.push(s);
        proof {
            assert(v@.map_values(|s: String| s@) =~= before.push(sv));
            assert(texts_view(list@.take(i + 1)) =~= texts_view(list@.take(i as int)).push(list@[i as int]@));
        }
    }
    proof {
        assert(list@.take(n as int) =~= list@);
    }
    v
}

fn provider_info(
    id: &str,
    name: &str,
    description: &str,
    languages: &[&str],
    supports_translation: bool,
    supports_realtime: bool,
    base_url: &str,
    default_model: &str,
    console_url: &str,
    options: &[OptionRow],
    supports_dictionary_terms: bool,
    supports_dictionary_context: bool,
) -> (info: SttProviderInfo)
    ensures
        info@ == provider_info_view(
            id@,
            name@,
            description@,
            languages@,
            supports_translation,
            supports_realtime,
            base_url@,
            default_model@,
            console_url@,
            options@,
            supports_dictionary_terms,
            supports_dictionary_context,
        ),
{
    SttProviderInfo {
        id: owned(id),
        name: owned(name),
        description: owned(description),
        supported_languages: strings_from(languages),
        supports_translation,
        supports_realtime,
        is_recommended: false,
        backend: ProviderBackend::Cloud {
            base_url: owned(base_url),
            default_model: owned(default_model),
            console_url: Some(owned(console_url)),
        },
        available_options: options_from_rows(options),
        supports_dictionary_terms,
        supports_dictionary_context,
    }
}

/// The languages that OpenAI transcribes.
pub const OPENAI_STT_LANGUAGES: [&'static str; 58] = [
    "af", "ar", "hy", "az", "be", "bs", "bg", "ca", "zh-Hans", "zh-Hant",
    "hr", "cs", "da", "nl", "en", "et", "fi", "fr", "gl", "de",
    "el", "he", "hi", "hu", "is", "id", "it", "ja", "kn", "kk",
    "ko", "lv", "lt", "mk", "ms", "mr", "mi", "ne", "no", "fa",
    "pl", "pt", "ro", "ru", "sr", "sk", "sl", "es", "sw", "sv",
    "tl", "ta", "th", "tr", "uk", "ur", "vi", "cy",
];

/// The options that OpenAI takes.
pub const OPENAI_STT_OPTIONS: [OptionRow; 3] = [
    ("language", "settings.models.cloudProviders.options.language", OptionKind::Language, "", DefaultKind::NoDefault, false, ""),
    ("prompt", "settings.models.cloudProviders.options.prompt", OptionKind::Text, "settings.models.cloudProviders.options.promptDescription", DefaultKind::NoDefault, false, ""),
    ("temperature", "settings.models.cloudProviders.options.temperature", OptionKind::UnitNumber, "settings.models.cloudProviders.options.temperatureDescription", DefaultKind::NoDefault, false, ""),
];

/// The languages that Cartesia transcribes.
pub const CARTESIA_LANGUAGES: [&'static str; 99] = [
    "af", "am", "ar", "az", "ba", "be", "bg", "bn", "bo", "br",
    "bs", "ca", "cs", "cy", "da", "de", "el", "en", "es", "et",
    "eu", "fa", "fi", "fo", "fr", "gl", "gu", "ha", "haw", "he",
    "hi", "hr", "ht", "hu", "hy", "id", "is", "it", "ja", "jw",
    "ka", "kk", "km", "kn", "ko", "la", "lb", "ln", "lo", "lt",
    "lv", "mg", "mi", "mk", "ml", "mn", "mr", "ms", "mt", "my",
    "ne", "nl", "nn", "no", "oc", "pa", "pl", "ps", "pt", "ro",
    "ru", "sa", "sd", "si", "sk", "sl", "sn", "so", "sq", "sr",
    "su", "sv", "sw", "ta", "te", "tg", "th", "tk", "tl", "tr",
    "tt", "uk", "ur", "uz", "vi", "yi", "yo", "yue", "zh-Hans",
];

/// The options that Cartesia takes.
pub const CARTESIA_OPTIONS: [OptionRow; 1] = [
    ("language", "settings.models.cloudProviders.options.language", OptionKind::Language, "", DefaultKind::NoDefault, false, ""),
];

/// The languages that ElevenLabs transcribes.
pub const ELEVENLABS_LANGUAGES: [&'static str; 89] = [
    "af", "am", "ar", "az", "be", "bg", "bn", "bs", "ca", "ceb",
    "cs", "cy", "da", "de", "el", "en", "es", "et", "fa", "ff",
    "fi", "fil", "fr", "ga", "gl", "gu", "ha", "he", "hi", "hr",
    "hu", "hy", "id", "ig", "is", "it", "ja", "jv", "ka", "kk",
    "km", "kn", "ko", "ku", "ky", "lb", "ln", "lo", "lt", "lv",
    "mi", "mk", "ml", "mn", "mr", "ms", "mt", "my", "ne", "nl",
    "no", "oc", "pa", "pl", "ps", "pt", "ro", "ru", "sd", "sk",
    "sl", "sn", "so", "sr", "sv", "sw", "ta", "te", "tg", "th",
    "tl", "tr", "uk", "ur", "uz", "vi", "yo", "yue", "zh-Hans",
];

/// The options that ElevenLabs takes.
pub const ELEVENLABS_OPTIONS: [OptionRow; 2] = [
    ("language", "settings.models.cloudProviders.options.language", OptionKind::Language, "", DefaultKind::NoDefault, false, ""),
    ("enable_speaker_diarization", "settings.models.cloudProviders.options.enableSpeakerDiarization", OptionKind::Boolean, "settings.models.cloudProviders.options.enableSpeakerDiarizationDescription", DefaultKind::NoDefault, false, ""),
];

/// The languages that Groq transcribes.
pub const GROQ_LANGUAGES: [&'static str; 58] = [
    "af", "ar", "hy", "az", "be", "bs", "bg", "ca", "zh-Hans", "zh-Hant",
    "hr", "cs", "da", "nl", "en", "et", "fi", "fr", "gl", "de",
    "el", "he", "hi", "hu", "is", "id", "it", "ja", "kn", "kk",
    "ko", "lv", "lt", "mk", "ms", "mr", "mi", "ne", "no", "fa",
    "pl", "pt", "ro", "ru", "sr", "sk", "sl", "es", "sw", "sv",
    "tl", "ta", "th", "tr", "uk", "ur", "vi", "cy",
];

/// The options that Groq takes.
pub const GROQ_OPTIONS: [OptionRow; 3] = [
    ("language", "settings.models.cloudProviders.options.language", OptionKind::Language, "", DefaultKind::NoDefault, false, ""),
    ("prompt", "settings.models.cloudProviders.options.prompt", OptionKind::Text, "settings.models.cloudProviders.options.promptDescription", DefaultKind::NoDefault, false, ""),
    ("temperature", "settings.models.cloudProviders.options.temperature", OptionKind::UnitNumber, "settings.models.cloudProviders.options.temperatureDescription", DefaultKind::NoDefault, false, ""),
];

/// The languages that Mistral AI transcribes.
pub const MISTRAL_LANGUAGES: [&'static str; 13] = [
    "en", "zh-Hans", "hi", "es", "ar", "fr", "pt", "ru", "de", "ja",
    "ko", "it", "nl",
];

/// The options that Mistral AI takes.
pub const MISTRAL_OPTIONS: [OptionRow; 4] = [
    ("language", "settings.models.cloudProviders.options.language", OptionKind::Language, "", DefaultKind::NoDefault, false, ""),
    ("temperature", "settings.models.cloudProviders.options.temperature", OptionKind::UnitNumber, "settings.models.cloudProviders.options.temperatureDescription", DefaultKind::NoDefault, false, ""),
    ("diarize", "settings.models.cloudProviders.options.enableSpeakerDiarization", OptionKind::Boolean, "settings.models.cloudProviders.options.enableSpeakerDiarizationDescription", DefaultKind::NoDefault, false, ""),
    ("context_bias", "settings.models.cloudProviders.options.contextBias", OptionKind::Text, "settings.models.cloudProviders.options.contextBiasDescription", DefaultKind::NoDefault, false, ""),
];

/// The languages that Soniox transcribes.
pub const SONIOX_LANGUAGES: [&'static str; 61] = [
    "af", "sq", "ar", "az", "eu", "be", "bn", "bs", "bg", "ca",
    "zh-Hans", "zh-Hant", "hr", "cs", "da", "nl", "en", "et", "fi", "fr",
    "gl", "de", "el", "gu", "he", "hi", "hu", "id", "it", "ja",
    "kn", "kk", "ko", "lv", "lt", "mk", "ms", "ml", "mr", "no",
    "fa", "pl", "pt", "pa", "ro", "ru", "sr", "sk", "sl", "es",
    "sw", "sv", "tl", "ta", "te", "th", "tr", "uk", "ur", "vi",
    "cy",
];

/// The options that Soniox takes.
pub const SONIOX_OPTIONS: [OptionRow; 6] = [
    ("language_hints", "settings.models.cloudProviders.options.languageHints", OptionKind::LanguageMulti, "", DefaultKind::NoDefault, false, ""),
    ("language_hints_strict", "settings.models.cloudProviders.options.languageHintsStrict", OptionKind::Boolean, "settings.models.cloudProviders.options.languageHintsStrictDescription", DefaultKind::NoDefault, false, ""),
    ("context_terms", "settings.models.cloudProviders.options.contextTerms", OptionKind::Text, "settings.models.cloudProviders.options.contextTermsDescription", DefaultKind::NoDefault, false, ""),
    ("context_description", "settings.models.cloudProviders.options.contextDescription", OptionKind::Text, "settings.models.cloudProviders.options.contextDescriptionDescription", DefaultKind::NoDefault, false, ""),
    ("enable_speaker_diarization", "settings.models.cloudProviders.options.enableSpeakerDiarization", OptionKind::Boolean, "settings.models.cloudProviders.options.enableSpeakerDiarizationDescription", DefaultKind::NoDefault, false, ""),
    ("enable_language_identification", "settings.models.cloudProviders.options.enableLanguageIdentification", OptionKind::Boolean, "settings.models.cloudProviders.options.enableLanguageIdentificationDescription", DefaultKind::NoDefault, false, ""),
];

/// The languages that Deepgram transcribes.
pub const DEEPGRAM_LANGUAGES: [&'static str; 49] = [
    "ar", "be", "bn", "bs", "bg", "ca", "hr", "cs", "da", "nl",
    "en", "et", "fa", "fi", "fr", "de", "el", "he", "hi", "hu",
    "id", "it", "ja", "kn", "ko", "lv", "lt", "mk", "ms", "mr",
    "no", "pl", "pt", "ro", "ru", "sr", "sk", "sl", "es", "sv",
    "tl", "ta", "te", "tr", "uk", "ur", "vi", "zh-Hans", "zh-Hant",
];

/// The options that Deepgram takes.
pub const DEEPGRAM_OPTIONS: [OptionRow; 4] = [
    ("language", "settings.models.cloudProviders.options.language", OptionKind::Language, "", DefaultKind::NoDefault, false, ""),
    ("smart_format", "settings.models.cloudProviders.options.smartFormat", OptionKind::Boolean, "settings.models.cloudProviders.options.smartFormatDescription", DefaultKind::NoDefault, false, ""),
    ("punctuate", "settings.models.cloudProviders.options.punctuate", OptionKind::Boolean, "settings.models.cloudProviders.options.punctuateDescription", DefaultKind::NoDefault, false, ""),
    ("diarize", "settings.models.cloudProviders.options.enableSpeakerDiarization", OptionKind::Boolean, "settings.models.cloudProviders.options.enableSpeakerDiarizationDescription", DefaultKind::NoDefault, false, ""),
];

/// The languages that AssemblyAI transcribes.
pub const ASSEMBLYAI_LANGUAGES: [&'static str; 86] = [
    "af", "am", "ar", "az", "be", "bg", "bn", "bs", "ca", "cs",
    "cy", "da", "de", "el", "en", "es", "et", "eu", "fa", "fi",
    "fr", "gl", "gu", "ha", "he", "hi", "hr", "hu", "hy", "id",
    "is", "it", "ja", "jv", "ka", "kk", "km", "kn", "ko", "ku",
    "ky", "la", "lb", "lo", "lt", "lv", "mi", "mk", "ml", "mn",
    "mr", "ms", "mt", "my", "ne", "nl", "no", "pa", "pl", "ps",
    "pt", "ro", "ru", "sa", "sd", "si", "sk", "sl", "sn", "so",
    "sr", "sv", "sw", "ta", "te", "tg", "th", "tk", "tl", "tr",
    "uk", "ur", "uz", "vi", "yo", "zh",
];

/// The options that AssemblyAI takes.
pub const ASSEMBLYAI_OPTIONS: [OptionRow; 2] = [
    ("language_code", "settings.models.cloudProviders.options.language", OptionKind::Language, "", DefaultKind::NoDefault, false, ""),
    ("speaker_labels", "settings.models.cloudProviders.options.enableSpeakerDiarization", OptionKind::Boolean, "settings.models.cloudProviders.options.enableSpeakerDiarizationDescription", DefaultKind::NoDefault, false, ""),
];

/// The languages that Fireworks AI transcribes.
pub const FIREWORKS_LANGUAGES: [&'static str; 58] = [
    "af", "ar", "hy", "az", "be", "bs", "bg", "ca", "zh-Hans", "zh-Hant",
    "hr", "cs", "da", "nl", "en", "et", "fi", "fr", "gl", "de",
    "el", "he", "hi", "hu", "is", "id", "it", "ja", "kn", "kk",
    "ko", "lv", "lt", "mk", "ms", "mr", "mi", "ne", "no", "fa",
    "pl", "pt", "ro", "ru", "sr", "sk", "sl", "es", "sw", "sv",
    "tl", "ta", "th", "tr", "uk", "ur", "vi", "cy",
];

/// The options that Fireworks AI takes.
pub const FIREWORKS_OPTIONS: [OptionRow; 4] = [
    ("language", "settings.models.cloudProviders.options.language", OptionKind::Language, "", DefaultKind::NoDefault, false, ""),
    ("prompt", "settings.models.cloudProviders.options.prompt", OptionKind::Text, "settings.models.cloudProviders.options.promptDescription", DefaultKind::NoDefault, false, ""),
    ("temperature", "settings.models.cloudProviders.options.temperature", OptionKind::UnitNumber, "settings.models.cloudProviders.options.temperatureDescription", DefaultKind::NoDefault, false, ""),
    ("diarize", "settings.models.cloudProviders.options.enableSpeakerDiarization", OptionKind::Boolean, "settings.models.cloudProviders.options.enableSpeakerDiarizationDescription", DefaultKind::NoDefault, false, ""),
];

/// The languages that Doubao transcribes.
pub const DOUBAO_LANGUAGES: [&'static str; 25] = [
    "zh-Hans", "zh-Hant", "yue", "en", "ja", "ko", "es", "fr", "de", "ru",
    "pt", "it", "ar", "th", "vi", "id", "ms", "bn", "el", "nl",
    "tr", "pl", "ro", "ne", "uk",
];

/// The options that Doubao takes.
pub const DOUBAO_OPTIONS: [OptionRow; 6] = [
    ("app_key", "settings.models.cloudProviders.doubao.appKey", OptionKind::Text, "settings.models.cloudProviders.doubao.appKeyDescription", DefaultKind::NoDefault, false, ""),
    ("resource_id", "settings.models.cloudProviders.doubao.resourceId", OptionKind::Text, "settings.models.cloudProviders.doubao.resourceIdDescription", DefaultKind::Text, false, "volc.seedasr.sauc.duration"),
    ("language", "settings.models.cloudProviders.options.language", OptionKind::Language, "", DefaultKind::NoDefault, false, ""),
    ("enable_itn", "settings.models.cloudProviders.options.enableItn", OptionKind::Boolean, "settings.models.cloudProviders.options.enableItnDescription", DefaultKind::Bool, true, ""),
    ("enable_punc", "settings.models.cloudProviders.options.punctuate", OptionKind::Boolean, "settings.models.cloudProviders.options.punctuateDescription", DefaultKind::Bool, true, ""),
    ("enable_ddc", "settings.models.cloudProviders.options.enableDdc", OptionKind::Boolean, "settings.models.cloudProviders.options.enableDdcDescription", DefaultKind::Bool, true, ""),
];

/// The cloud providers, in the order the interface lists them.
#[verifier::opaque]
pub open spec fn spec_cloud_provider_registry() -> Seq<SttProviderInfoView> {
    seq![
        provider_info_view(
            "openai_stt"@,
            "OpenAI"@,
            "onboarding.cloud.openai_stt.description"@,
            OPENAI_STT_LANGUAGES@,
            true,
            true,
            "https://api.openai.com/v1"@,
            "gpt-realtime-whisper"@,
            "https://platform.openai.com/api-keys"@,
            OPENAI_STT_OPTIONS@,
            true,
            true,
        ),
        provider_info_view(
            "cartesia"@,
            "Cartesia"@,
            "onboarding.cloud.cartesia.description"@,
            CARTESIA_LANGUAGES@,
            false,
            false,
            "https://api.cartesia.ai"@,
            "ink-whisper"@,
            "https://play.cartesia.ai/keys"@,
            CARTESIA_OPTIONS@,
            false,
            false,
        ),
        provider_info_view(
            "elevenlabs"@,
            "ElevenLabs"@,
            "onboarding.cloud.elevenlabs.description"@,
            ELEVENLABS_LANGUAGES@,
            false,
            true,
            "https://api.elevenlabs.io/v1"@,
            "scribe_v2"@,
            "https://elevenlabs.io/app/developers/api-keys"@,
            ELEVENLABS_OPTIONS@,
            true,
            false,
        ),
        provider_info_view(
            "groq"@,
            "Groq"@,
            "onboarding.cloud.groq.description"@,
            GROQ_LANGUAGES@,
            false,
            false,
            "https://api.groq.com/openai/v1"@,
            "whisper-large-v3-turbo"@,
            "https://console.groq.com/keys"@,
            GROQ_OPTIONS@,
            true,
            true,
        ),
        provider_info_view(
            "mistral"@,
            "Mistral AI"@,
            "onboarding.cloud.mistral.description"@,
            MISTRAL_LANGUAGES@,
            false,
            true,
            "https://api.mistral.ai"@,
            "voxtral-mini-latest"@,
            "https://console.mistral.ai"@,
            MISTRAL_OPTIONS@,
            true,
            false,
        ),
        provider_info_view(
            "soniox"@,
            "Soniox"@,
            "onboarding.cloud.soniox.description"@,
            SONIOX_LANGUAGES@,
            true,
            true,
            "https://api.soniox.com/v1"@,
            "stt-rt-v4"@,
            "https://console.soniox.com"@,
            SONIOX_OPTIONS@,
            true,
            true,
        ),
        provider_info_view(
            "deepgram"@,
            "Deepgram"@,
            "onboarding.cloud.deepgram.description"@,
            DEEPGRAM_LANGUAGES@,
            false,
            true,
            "https://api.deepgram.com/v1"@,
            "nova-3"@,
            "https://console.deepgram.com/api-keys"@,
            DEEPGRAM_OPTIONS@,
            true,
            false,
        ),
        provider_info_view(
            "assemblyai"@,
            "AssemblyAI"@,
            "onboarding.cloud.assemblyai.description"@,
            ASSEMBLYAI_LANGUAGES@,
            false,
            true,
            "https://api.assemblyai.com"@,
            "universal-3-pro"@,
            "https://www.assemblyai.com/dashboard"@,
            ASSEMBLYAI_OPTIONS@,
            true,
            false,
        ),
        provider_info_view(
            "fireworks"@,
            "Fireworks AI"@,
            "onboarding.cloud.fireworks.description"@,
            FIREWORKS_LANGUAGES@,
            true,
            true,
            "https://audio-prod.api.fireworks.ai/v1"@,
            "whisper-v3"@,
            "https://fireworks.ai/api-keys"@,
            FIREWORKS_OPTIONS@,
            true,
            true,
        ),
        provider_info_view(
            "doubao"@,
            "Doubao"@,
            "onboarding.cloud.doubao.description"@,
            DOUBAO_LANGUAGES@,
            false,
            true,
            "wss://openspeech.bytedance.com/api/v3/sauc/bigmodel_async"@,
            "bigmodel"@,
            "https://console.volcengine.com/speech/app"@,
            DOUBAO_OPTIONS@,
            true,
            true,
        ),
    ]
}

pub open spec fn registry_view(v: Seq<SttProviderInfo>) -> Seq<SttProviderInfoView> {
    v.map_values(|i: SttProviderInfo| i@)
}

/// Every cloud speech-to-text provider that the application knows.
pub fn cloud_provider_registry() -> (v: Vec<SttProviderInfo>)
    ensures
        registry_view(v@) == spec_cloud_provider_registry(),
{
    let mut v: Vec<SttProviderInfo> = Vec::new();
    v.push(provider_info(
        "openai_stt",
        "OpenAI",
        "onboarding.cloud.openai_stt.description",
        &OPENAI_STT_LANGUAGES,
        true,
        true,
        "https://api.openai.com/v1",
        OPENAI_REALTIME_TRANSCRIPTION_MODEL,
        "https://platform.openai.com/api-keys",
        &OPENAI_STT_OPTIONS,
        true,
        true,
    ));
    v.push(provider_info(
        "cartesia",
        "Cartesia",
        "onboarding.cloud.cartesia.description",
        &CARTESIA_LANGUAGES,
        false,
        false,
        "https://api.cartesia.ai",
        "ink-whisper",
        "https://play.cartesia.ai/keys",
        &CARTESIA_OPTIONS,
        false,
        false,
    ));
    v.push(provider_info(
        "elevenlabs",
        "ElevenLabs",
        "onboarding.cloud.elevenlabs.description",
        &ELEVENLABS_LANGUAGES,
        false,
        true,
        "https://api.elevenlabs.io/v1",
        "scribe_v2",
        "https://elevenlabs.io/app/developers/api-keys",
        &ELEVENLABS_OPTIONS,
        true,
        false,
    ));
    v.push(provider_info(
        "groq",
        "Groq",
        "onboarding.cloud.groq.description",
        &GROQ_LANGUAGES,
        false,
        false,
        "https://api.groq.com/openai/v1",
        "whisper-large-v3-turbo",
        "https://console.groq.com/keys",
        &GROQ_OPTIONS,
        true,
        true,
    ));
    v.push(provider_info(
        "mistral",
        "Mistral AI",
        "onboarding.cloud.mistral.description",
        &MISTRAL_LANGUAGES,
        false,
        true,
        "https://api.mistral.ai",
        "voxtral-mini-latest",
        "https://console.mistral.ai",
        &MISTRAL_OPTIONS,
        true,
        false,
    ));
    v.push(provider_info(
        "soniox",
        "Soniox",
        "onboarding.cloud.soniox.description",
        &SONIOX_LANGUAGES,
        true,
        true,
        "https://api.soniox.com/v1",
        "stt-rt-v4",
        "https://console.soniox.com",
        &SONIOX_OPTIONS,
        true,
        true,
    ));
    v.push(provider_info(
        "deepgram",
        "Deepgram",
        "onboarding.cloud.deepgram.description",
        &DEEPGRAM_LANGUAGES,
        false,
        true,
        "https://api.deepgram.com/v1",
        "nova-3",
        "https://console.deepgram.com/api-keys",
        &DEEPGRAM_OPTIONS,
        true,
        false,
    ));
    v.push(provider_info(
        "assemblyai",
        "AssemblyAI",
        "onboarding.cloud.assemblyai.description",
        &ASSEMBLYAI_LANGUAGES,
        false,
        true,
        "https://api.assemblyai.com",
        "universal-3-pro",
        "https://www.assemblyai.com/dashboard",
        &ASSEMBLYAI_OPTIONS,
        true,
        false,
    ));
    v.push(provider_info(
        "fireworks",
        "Fireworks AI",
        "onboarding.cloud.fireworks.description",
        &FIREWORKS_LANGUAGES,
        true,
        true,
        "https://audio-prod.api.fireworks.ai/v1",
        "whisper-v3",
        "https://fireworks.ai/api-keys",
        &FIREWORKS_OPTIONS,
        true,
        true,
    ));
    v.push(provider_info(
        "doubao",
        "Doubao",
        "onboarding.cloud.doubao.description",
        &DOUBAO_LANGUAGES,
        false,
        true,
        "wss://openspeech.bytedance.com/api/v3/sauc/bigmodel_async",
        "bigmodel",
        "https://console.volcengine.com/speech/app",
        &DOUBAO_OPTIONS,
        true,
        true,
    ));
    proof {
        reveal(spec_cloud_provider_registry);
        assert(registry_view(v@) =~= spec_cloud_provider_registry());
    }
    v
}

} // verus!
