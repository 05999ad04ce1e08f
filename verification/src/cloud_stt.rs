//! Cloud speech-to-text: the providers that requests can be routed to and the
//! small text rules their requests share.
use vstd::prelude::*;
use vstd::string::*;
use crate::text::{first_index_of, owned, str_eq};

verus! {

broadcast use vstd::string::group_string_axioms;

/// The model used for batch transcription with OpenAI.
pub const OPENAI_BATCH_TRANSCRIPTION_MODEL: &'static str = "gpt-4o-mini-transcribe";

/// The model used for realtime transcription with OpenAI.
pub const OPENAI_REALTIME_TRANSCRIPTION_MODEL: &'static str = "gpt-realtime-whisper";

/// The language code without its subtags: the text before the first `-`.
pub open spec fn spec_strip_lang_subtag(lang: Seq<char>) -> Seq<char> {
    lang.take(first_index_of(lang, '-'))
}

/// Strips language subtags (`zh-Hans` becomes `zh`) for services that expect
/// ISO 639-1 codes.
pub fn strip_lang_subtag(lang: &str) -> (r: &str)
    ensures
        r@ == spec_strip_lang_subtag(lang@),
{
    let len = lang.unicode_len();
    let mut idx: usize = 0;
    let mut found = false;
    for c in it: lang.chars()
        invariant
            it.seq() == lang@,
            len == lang@.len(),
            idx <= it.index(),
            !found ==> idx == it.index(),
            !found ==> forall|j: int| 0 <= j < idx ==> lang@[j] != '-',
            found ==> idx < lang@.len() && lang@[idx as int] == '-'
                && forall|j: int| 0 <= j < idx ==> lang@[j] != '-',
    {
        if !found {
            if c == '-' {
                found = true;
            } else {
                idx = idx + 1;
            }
        }
    }
    proof {
        lemma_first_index_of(lang@, '-', idx as int);
    }
    lang.substring_char(0, idx)
}

/// The first index of a character is the one before which it does not occur.
pub proof fn lemma_first_index_of(s: Seq<char>, c: char, i: int)
    requires
        0 <= i <= s.len(),
        i < s.len() ==> s[i] == c,
        forall|j: int| 0 <= j < i ==> s[j] != c,
    ensures
        first_index_of(s, c) == i,
    decreases s.len(),
{
    if s.len() > 0 && i > 0 {
        assert forall|j: int| 0 <= j < i - 1 implies s.drop_first()[j] != c by {
            assert(s.drop_first()[j] == s[j + 1]);
        }
        lemma_first_index_of(s.drop_first(), c, i - 1);
    }
}

/// The first index of a character lies in range, holds it if in range, and
/// no earlier position holds it.
pub proof fn lemma_first_index_of_props(s: Seq<char>, c: char)
    ensures
        0 <= first_index_of(s, c) <= s.len(),
        first_index_of(s, c) < s.len() ==> s[first_index_of(s, c)] == c,
        forall|j: int| 0 <= j < first_index_of(s, c) ==> s[j] != c,
    decreases s.len(),
{
    if s.len() > 0 && s[0] != c {
        lemma_first_index_of_props(s.drop_first(), c);
        assert forall|j: int| 0 < j < first_index_of(s, c) implies s[j] != c by {
            assert(s[j] == s.drop_first()[j - 1]);
        }
    }
}

/// The text before a language code's first `-` holds no `-`, and is not
/// empty unless the code starts with `-` or is empty.
pub proof fn lemma_stripped_has_no_dash(lang: Seq<char>)
    ensures
        !spec_strip_lang_subtag(lang).contains('-'),
        lang.len() > 0 && lang[0] != '-' ==> spec_strip_lang_subtag(lang).len() > 0,
{
    lemma_first_index_of_props(lang, '-');
}

/// The cloud services that batch and key-check requests are routed to.
#[derive(Clone, Copy, Debug, PartialEq, Eq, Structural)]
pub enum CloudSttProvider {
    Cartesia,
    Doubao,
    Mistral,
    OpenAi,
    ElevenLabs,
    Groq,
    Soniox,
    Deepgram,
    AssemblyAi,
    Fireworks,
}

/// The service that a provider id names.
pub open spec fn spec_cloud_provider(id: Seq<char>) -> Option<CloudSttProvider> {
    if id == "cartesia"@ {
        Some(CloudSttProvider::Cartesia)
    } else if id == "doubao"@ {
        Some(CloudSttProvider::Doubao)
    } else if id == "mistral"@ {
        Some(CloudSttProvider::Mistral)
    } else if id == "openai_stt"@ {
        Some(CloudSttProvider::OpenAi)
    } else if id == "elevenlabs"@ {
        Some(CloudSttProvider::ElevenLabs)
    } else if id == "groq"@ {
        Some(CloudSttProvider::Groq)
    } else if id == "soniox"@ {
        Some(CloudSttProvider::Soniox)
    } else if id == "deepgram"@ {
        Some(CloudSttProvider::Deepgram)
    } else if id == "assemblyai"@ {
        Some(CloudSttProvider::AssemblyAi)
    } else if id == "fireworks"@ {
        Some(CloudSttProvider::Fireworks)
    } else {
        None
    }
}

/// The message of the error returned for a provider id that names no service.
pub open spec fn spec_unknown_provider_message(id: Seq<char>) -> Seq<char> {
    "Unknown cloud STT provider: "@ + id
}

/// Routes a request for `provider_id` to its service, or gives the error the
/// request fails with when the id names none.
pub fn route_cloud_request(provider_id: &str) -> (r: Result<CloudSttProvider, String>)
    ensures
        match spec_cloud_provider(provider_id@) {
            Some(p) => r == Ok::<CloudSttProvider, String>(p),
            None => r is Err && r->Err_0@ == spec_unknown_provider_message(provider_id@),
        },
{
    if str_eq(provider_id, "cartesia") {
        Ok(CloudSttProvider::Cartesia)
    } else if str_eq(provider_id, "doubao") {
        Ok(CloudSttProvider::Doubao)
    } else if str_eq(provider_id, "mistral") {
        Ok(CloudSttProvider::Mistral)
    } else if str_eq(provider_id, "openai_stt") {
        Ok(CloudSttProvider::OpenAi)
    } else if str_eq(provider_id, "elevenlabs") {
        Ok(CloudSttProvider::ElevenLabs)
    } else if str_eq(provider_id, "groq") {
        Ok(CloudSttProvider::Groq)
    } else if str_eq(provider_id, "soniox") {
        Ok(CloudSttProvider::Soniox)
    } else if str_eq(provider_id, "deepgram") {
        Ok(CloudSttProvider::Deepgram)
    } else if str_eq(provider_id, "assemblyai") {
        Ok(CloudSttProvider::AssemblyAi)
    } else if str_eq(provider_id, "fireworks") {
        Ok(CloudSttProvider::Fireworks)
    } else {
        Err(owned("Unknown cloud STT provider: ").concat(provider_id))
    }
}

/// Whether an HTTP status code reports success: the 2xx range.
pub open spec fn spec_is_success(code: u16) -> bool {
    200 <= code <= 299
}

/// Whether a response with this status code succeeded.
pub fn is_success_status(code: u16) -> (r: bool)
    ensures
        r == spec_is_success(code),
{
    200 <= code && code <= 299
}

/// The error a failed response is reported as: the request's context, the
/// status (code and reason, as in `404 Not Found`) in parentheses, and the
/// response body.
pub fn response_error_message(context: &str, status: &str, body: &str) -> (r: String)
    ensures
        r@ == context@ + " ("@ + status@ + "): "@ + body@,
{
    let r = String::from_str(context);
    let r = r.concat(" (");
    let r = r.concat(status);
    let r = r.concat("): ");
    r.concat(body)
}

/// The provider id that names a service.
pub open spec fn service_id(s: CloudSttProvider) -> Seq<char> {
    match s {
        CloudSttProvider::Cartesia => "cartesia"@,
        CloudSttProvider::Doubao => "doubao"@,
        CloudSttProvider::Mistral => "mistral"@,
        CloudSttProvider::OpenAi => "openai_stt"@,
        CloudSttProvider::ElevenLabs => "elevenlabs"@,
        CloudSttProvider::Groq => "groq"@,
        CloudSttProvider::Soniox => "soniox"@,
        CloudSttProvider::Deepgram => "deepgram"@,
        CloudSttProvider::AssemblyAi => "assemblyai"@,
        CloudSttProvider::Fireworks => "fireworks"@,
    }
}

/// Different services are named by different ids.
pub proof fn lemma_service_ids_distinct(a: CloudSttProvider, b: CloudSttProvider)
    ensures
        service_id(a) == service_id(b) ==> a == b,
{
    crate::stt_provider::dictionary::lemma_provider_ids_differ();
}

/// Every provider of the registry is routed to the service that its own id
/// names, so no two providers of the registry share a service.
pub proof fn lemma_registry_routes_to_own_service(i: int, j: int)
    requires
        0 <= i < crate::stt_provider::spec_cloud_provider_registry().len(),
        0 <= j < crate::stt_provider::spec_cloud_provider_registry().len(),
    ensures
        ({
            let reg = crate::stt_provider::spec_cloud_provider_registry();
            &&& spec_cloud_provider(reg[i].id) matches Some(s) && service_id(s) == reg[i].id
            &&& i != j ==> spec_cloud_provider(reg[i].id) != spec_cloud_provider(reg[j].id)
        }),
{
    crate::stt_provider::dictionary::lemma_registry_ids();
    crate::stt_provider::dictionary::lemma_provider_ids_differ();
    let reg = crate::stt_provider::spec_cloud_provider_registry();
    if i != j {
        assert(reg[i].id != reg[j].id);
        let si = spec_cloud_provider(reg[i].id)->Some_0;
        let sj = spec_cloud_provider(reg[j].id)->Some_0;
        lemma_service_ids_distinct(si, sj);
    }
}

} // verus!
