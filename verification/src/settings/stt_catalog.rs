//! The built-in catalog of speech-to-text providers and the per-provider
//! settings that start from it.
use vstd::prelude::*;
use crate::settings::enums::SttProviderType;
use crate::str_map::StrMap;
use crate::text::{owned, str_eq};
use crate::cloud_stt::OPENAI_REALTIME_TRANSCRIPTION_MODEL;

verus! {

broadcast use vstd::string::group_string_axioms;

/// A speech-to-text provider the user can choose.
#[derive(Debug, Clone)]
pub struct SttProvider {
    pub id: String,
    pub label: String,
    pub provider_type: SttProviderType,
    pub base_url: String,
    pub default_model: String,
}

/// A speech-to-text provider as text.
pub struct SttProviderView {
    pub id: Seq<char>,
    pub label: Seq<char>,
    pub provider_type: SttProviderType,
    pub base_url: Seq<char>,
    pub default_model: Seq<char>,
}

impl View for SttProvider {
    type V = SttProviderView;

    open spec fn view(&self) -> SttProviderView {
        SttProviderView {
            id: self.id@,
            label: self.label@,
            provider_type: self.provider_type,
            base_url: self.base_url@,
            default_model: self.default_model@,
        }
    }
}

/// The providers of a list, as text.
pub open spec fn providers_view(v: Seq<SttProvider>) -> Seq<SttProviderView> {
    v.map_values(|p: SttProvider| p@)
}

impl SttProvider {
    /// A field-by-field copy.
    pub fn duplicate(&self) -> (r: SttProvider)
        ensures
            r@ == self@,
            r == *self,
    {
        SttProvider {
            id: self.id.clone(),
            label: self.label.clone(),
            provider_type: self.provider_type,
            base_url: self.base_url.clone(),
            default_model: self.default_model.clone(),
        }
    }

    /// Whether two providers hold the same values in every field.
    pub fn same_as(&self, other: &SttProvider) -> (r: bool)
        ensures
            r == (self@ == other@),
    {
        str_eq(self.id.as_str(), other.id.as_str()) && str_eq(self.label.as_str(), other.label.as_str())
            && self.provider_type == other.provider_type
            && str_eq(self.base_url.as_str(), other.base_url.as_str())
            && str_eq(self.default_model.as_str(), other.default_model.as_str())
    }
}

/// Whether two lists of providers hold the same providers in the same order.
pub fn same_providers(a: &Vec<SttProvider>, b: &Vec<SttProvider>) -> (r: bool)
    ensures
        r == (providers_view(a@) == providers_view(b@)),
{
    if a.len() != b.len() {
        proof {
            assert(providers_view(a@).len() != providers_view(b@).len());
        }
        return false;
    }
    let n = a.len();
    for i in 0..n
        invariant
            n == a@.len(),
            n == b@.len(),
            forall|j: int| 0 <= j < i ==> a@[j]@ == b@[j]@,
    {
        if !a[i].same_as(&b[i]) {
            proof {
                assert(providers_view(a@)[i as int] != providers_view(b@)[i as int]);
            }
            return false;
        }
    }
    proof {
        assert(providers_view(a@) =~= providers_view(b@));
    }
    true
}

pub open spec fn provider_view(
    id: Seq<char>,
    label: Seq<char>,
    provider_type: SttProviderType,
    base_url: Seq<char>,
    default_model: Seq<char>,
) -> SttProviderView {
    SttProviderView { id, label, provider_type, base_url, default_model }
}

/// The built-in providers: the on-device one, then every cloud service.
#[verifier::opaque]
pub open spec fn spec_default_stt_providers() -> Seq<SttProviderView> {
    seq![
        provider_view("local"@, "Local (on-device)"@, SttProviderType::Local, Seq::empty(), Seq::empty()),
        provider_view("openai_stt"@, "OpenAI"@, SttProviderType::Cloud, "https://api.openai.com/v1"@, "gpt-realtime-whisper"@),
        provider_view("cartesia"@, "Cartesia"@, SttProviderType::Cloud, "https://api.cartesia.ai"@, "ink-whisper"@),
        provider_view("mistral"@, "Mistral AI"@, SttProviderType::Cloud, "https://api.mistral.ai"@, "voxtral-mini-latest"@),
        provider_view("elevenlabs"@, "ElevenLabs"@, SttProviderType::Cloud, "https://api.elevenlabs.io/v1"@, "scribe_v2"@),
        provider_view("groq"@, "Groq"@, SttProviderType::Cloud, "https://api.groq.com/openai/v1"@, "whisper-large-v3-turbo"@),
        provider_view("soniox"@, "Soniox"@, SttProviderType::Cloud, "https://api.soniox.com/v1"@, "stt-rt-v4"@),
        provider_view("deepgram"@, "Deepgram"@, SttProviderType::Cloud, "https://api.deepgram.com/v1"@, "nova-3"@),
        provider_view("assemblyai"@, "AssemblyAI"@, SttProviderType::Cloud, "https://api.assemblyai.com"@, "universal-3-pro"@),
        provider_view("fireworks"@, "Fireworks AI"@, SttProviderType::Cloud, "https://audio-prod.api.fireworks.ai/v1"@, "whisper-v3"@),
        provider_view("doubao"@, "Doubao"@, SttProviderType::Cloud, "wss://openspeech.bytedance.com/api/v3/sauc/bigmodel_async"@, "bigmodel"@),
    ]
}

fn provider(
    id: &str,
    label: &str,
    provider_type: SttProviderType,
    base_url: &str,
    default_model: &str,
) -> (p: SttProvider)
    ensures
        p@ == provider_view(id@, label@, provider_type, base_url@, default_model@),
{
    SttProvider {
        id: owned(id),
        label: owned(label),
        provider_type,
        base_url: owned(base_url),
        default_model: owned(default_model),
    }
}

/// The built-in speech-to-text providers.
pub fn default_stt_providers() -> (v: Vec<SttProvider>)
    ensures
        providers_view(v@) == spec_default_stt_providers(),
{
    let mut v: Vec<SttProvider> = Vec::new();
    v.push(provider("local", "Local (on-device)", SttProviderType::Local, "", ""));
    v.push(provider("openai_stt", "OpenAI", SttProviderType::Cloud, "https://api.openai.com/v1", OPENAI_REALTIME_TRANSCRIPTION_MODEL));
    v.push(provider("cartesia", "Cartesia", SttProviderType::Cloud, "https://api.cartesia.ai", "ink-whisper"));
    v.push(provider("mistral", "Mistral AI", SttProviderType::Cloud, "https://api.mistral.ai", "voxtral-mini-latest"));
    v.push(provider("elevenlabs", "ElevenLabs", SttProviderType::Cloud, "https://api.elevenlabs.io/v1", "scribe_v2"));
    v.push(provider("groq", "Groq", SttProviderType::Cloud, "https://api.groq.com/openai/v1", "whisper-large-v3-turbo"));
    v.push(provider("soniox", "Soniox", SttProviderType::Cloud, "https://api.soniox.com/v1", "stt-rt-v4"));
    v.push(provider("deepgram", "Deepgram", SttProviderType::Cloud, "https://api.deepgram.com/v1", "nova-3"));
    v.push(provider("assemblyai", "AssemblyAI", SttProviderType::Cloud, "https://api.assemblyai.com", "universal-3-pro"));
    v.push(provider("fireworks", "Fireworks AI", SttProviderType::Cloud, "https://audio-prod.api.fireworks.ai/v1", "whisper-v3"));
    v.push(provider("doubao", "Doubao", SttProviderType::Cloud, "wss://openspeech.bytedance.com/api/v3/sauc/bigmodel_async", "bigmodel"));
    proof {
        reveal(spec_default_stt_providers);
        reveal_strlit("");
        assert(""@ =~= Seq::<char>::empty());
        assert(OPENAI_REALTIME_TRANSCRIPTION_MODEL@ == "gpt-realtime-whisper"@);
        assert(providers_view(v@)[0] == spec_default_stt_providers()[0]);
        assert(providers_view(v@)[1] == spec_default_stt_providers()[1]);
        assert(providers_view(v@) =~= spec_default_stt_providers());
    }
    v
}

/// The map from each cloud provider of a list to a value computed from it.
pub open spec fn cloud_provider_map<V>(ps: Seq<SttProviderView>, f: spec_fn(SttProviderView) -> V) -> Map<
    Seq<char>,
    V,
>
    decreases ps.len(),
{
    if ps.len() == 0 {
        Map::empty()
    } else {
        let m = cloud_provider_map(ps.drop_last(), f);
        if ps.last().provider_type == SttProviderType::Cloud {
            m.insert(ps.last().id, f(ps.last()))
        } else {
            m
        }
    }
}

/// What a cloud provider's API key starts as: empty.
pub open spec fn empty_key(p: SttProviderView) -> Seq<char> {
    Seq::empty()
}

/// What a cloud provider's options start as: an empty JSON object.
pub open spec fn empty_options(p: SttProviderView) -> Seq<char> {
    "{}"@
}

/// What a cloud provider's model starts as: its default model.
pub open spec fn default_model_of(p: SttProviderView) -> Seq<char> {
    p.default_model
}

/// Which value a per-provider map of the cloud providers starts with.
pub enum CloudDefault {
    EmptyKey,
    EmptyOptions,
    DefaultModel,
}

pub open spec fn cloud_default_fn(which: CloudDefault) -> spec_fn(SttProviderView) -> Seq<char> {
    match which {
        CloudDefault::EmptyKey => |p: SttProviderView| empty_key(p),
        CloudDefault::EmptyOptions => |p: SttProviderView| empty_options(p),
        CloudDefault::DefaultModel => |p: SttProviderView| default_model_of(p),
    }
}

fn cloud_default_value(which: &CloudDefault, p: &SttProvider) -> (r: String)
    ensures
        r@ == (cloud_default_fn(*which))(p@),
{
    match which {
        CloudDefault::EmptyKey => {
            let r = String::new();
            r
        },
        CloudDefault::EmptyOptions => owned("{}"),
        CloudDefault::DefaultModel => p.default_model.clone(),
    }
}

fn cloud_provider_strings(which: CloudDefault) -> (m: StrMap<String>)
    ensures
        m@ == cloud_provider_map(spec_default_stt_providers(), cloud_default_fn(which)),
{
    let providers = default_stt_providers();
    let mut m: StrMap<String> = StrMap::new();
    let n = providers.len();
    proof {
        assert(providers_view(providers@).take(0) =~= Seq::<SttProviderView>::empty());
    }
    for i in 0..n
        invariant
            n == providers@.len(),
            providers_view(providers@) == spec_default_stt_providers(),
            m@ == cloud_provider_map(providers_view(providers@).take(i as int), cloud_default_fn(which)),
    {
        let p = &providers[i];
        let ghost pv = providers_view(providers@);
        proof {
            assert(pv.take(i + 1).drop_last() =~= pv.take(i as int));
            assert(pv.take(i + 1).last() == p@);
        }
        if p.provider_type == SttProviderType::Cloud {
            let v = cloud_default_value(&which, p);
            m.insert(p.id.clone(), v);
        }
    }
    proof {
        assert(providers_view(providers@).take(n as int) =~= providers_view(providers@));
    }
    m
}

/// An empty API key for every cloud provider.
pub fn default_stt_api_keys() -> (m: StrMap<String>)
    ensures
        m@ == cloud_provider_map(spec_default_stt_providers(), cloud_default_fn(CloudDefault::EmptyKey)),
{
    cloud_provider_strings(CloudDefault::EmptyKey)
}

/// An empty JSON object of options for every cloud provider.
pub fn default_stt_cloud_options() -> (m: StrMap<String>)
    ensures
        m@ == cloud_provider_map(spec_default_stt_providers(), cloud_default_fn(CloudDefault::EmptyOptions)),
{
    cloud_provider_strings(CloudDefault::EmptyOptions)
}

/// The default model of every cloud provider.
pub fn default_stt_cloud_models() -> (m: StrMap<String>)
    ensures
        m@ == cloud_provider_map(spec_default_stt_providers(), cloud_default_fn(CloudDefault::DefaultModel)),
{
    cloud_provider_strings(CloudDefault::DefaultModel)
}

/// The on-device model that can transcribe while recording.
pub const PARAKEET_UNIFIED_MODEL_ID: &'static str = "parakeet-unified-en-0.6b-int8";

/// The chunk length, in milliseconds, that the streaming on-device model starts with.
pub const PARAKEET_DEFAULT_CHUNK_MS: u64 = 560;

/// The chunk length of the streaming on-device model.
pub fn default_stt_realtime_chunk_ms() -> (m: StrMap<u64>)
    ensures
        m@ == Map::<Seq<char>, u64>::empty().insert(PARAKEET_UNIFIED_MODEL_ID@, 560),
{
    let mut m: StrMap<u64> = StrMap::new();
    m.insert(owned(PARAKEET_UNIFIED_MODEL_ID), PARAKEET_DEFAULT_CHUNK_MS);
    m
}

/// The provider selected on a new installation: the on-device one.
pub fn default_stt_provider_id() -> (s: String)
    ensures
        s@ == "local"@,
{
    owned("local")
}

/// Index of the first provider with the id, or the length where there is none.
#[verifier::opaque]
pub open spec fn first_stt_provider_index(ps: Seq<SttProviderView>, id: Seq<char>) -> int
    decreases ps.len(),
{
    if ps.len() == 0 {
        0
    } else if ps[0].id == id {
        0
    } else {
        1 + first_stt_provider_index(ps.drop_first(), id)
    }
}

pub proof fn lemma_first_stt_provider_index(ps: Seq<SttProviderView>, id: Seq<char>)
    ensures
        0 <= first_stt_provider_index(ps, id) <= ps.len(),
        first_stt_provider_index(ps, id) < ps.len() ==> ps[first_stt_provider_index(ps, id)].id == id,
        forall|j: int| 0 <= j < first_stt_provider_index(ps, id) ==> ps[j].id != id,
    decreases ps.len(),
{
    reveal(first_stt_provider_index);
    if ps.len() > 0 && ps[0].id != id {
        lemma_first_stt_provider_index(ps.drop_first(), id);
        assert forall|j: int| 0 < j < first_stt_provider_index(ps, id) implies ps[j].id != id by {
            assert(ps[j] == ps.drop_first()[j - 1]);
        }
    }
}

pub proof fn lemma_first_stt_provider_index_unique(ps: Seq<SttProviderView>, id: Seq<char>, i: int)
    requires
        0 <= i <= ps.len(),
        i < ps.len() ==> ps[i].id == id,
        forall|j: int| 0 <= j < i ==> ps[j].id != id,
    ensures
        first_stt_provider_index(ps, id) == i,
{
    lemma_first_stt_provider_index(ps, id);
}

/// The index of the first provider with the id, if one has it.
pub fn find_stt_provider(ps: &Vec<SttProvider>, id: &str) -> (r: Option<usize>)
    ensures
        match r {
            Some(i) => i < ps@.len() && i == first_stt_provider_index(providers_view(ps@), id@),
            None => first_stt_provider_index(providers_view(ps@), id@) == ps@.len(),
        },
{
    let n = ps.len();
    for i in 0..n
        invariant
            n == ps@.len(),
            forall|j: int| 0 <= j < i ==> ps@[j].id@ != id@,
    {
        if str_eq(ps[i].id.as_str(), id) {
            proof {
                lemma_first_stt_provider_index_unique(providers_view(ps@), id@, i as int);
            }
            return Some(i);
        }
    }
    proof {
        lemma_first_stt_provider_index_unique(providers_view(ps@), id@, n as int);
    }
    None
}

} // verus!
