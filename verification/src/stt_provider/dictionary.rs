//! Merging the user's dictionary (terms and a description of the context) into
//! the options of each cloud provider, in the form that provider reads.
use vstd::prelude::*;
use vstd::string::*;
use crate::stt_provider::options::{
    CloudOptions, OptionValueView, spec_text_field, spec_list_field, text_list,
};
use crate::text::{join_strings, owned, spec_join, str_eq, strings_view};

verus! {

broadcast use vstd::string::group_string_axioms;

/// `prefix`, then `sep` and `existing` where `existing` is not empty.
pub open spec fn spec_prepend(prefix: Seq<char>, sep: Seq<char>, existing: Seq<char>) -> Seq<char> {
    if existing.len() == 0 {
        prefix
    } else {
        prefix + sep + existing
    }
}

fn prepend(prefix: String, sep: &str, existing: String) -> (r: String)
    ensures
        r@ == spec_prepend(prefix@, sep@, existing@),
{
    if existing.as_str().is_empty() {
        prefix
    } else {
        prefix.concat(sep).concat(existing.as_str())
    }
}

/// The prefix that prompt-based providers get: `Glossary: ` and the terms
/// joined by `, ` with a full stop, then the context, the two joined by a space.
pub open spec fn spec_glossary_prefix(terms: Seq<Seq<char>>, context: Seq<char>) -> Seq<char> {
    let glossary = if terms.len() > 0 {
        seq!["Glossary: "@ + spec_join(terms, ", "@) + "."@]
    } else {
        Seq::<Seq<char>>::empty()
    };
    let ctx = if context.len() > 0 {
        seq![context]
    } else {
        Seq::<Seq<char>>::empty()
    };
    spec_join(glossary + ctx, " "@)
}

/// The options with the dictionary merged in, for each kind of provider.
pub open spec fn spec_inject_into(
    provider_id: Seq<char>,
    opts: Map<Seq<char>, OptionValueView>,
    terms: Seq<Seq<char>>,
    context: Seq<char>,
) -> Map<Seq<char>, OptionValueView> {
    if provider_id == "openai_stt"@ || provider_id == "groq"@ || provider_id == "fireworks"@ {
        opts.insert(
            "prompt"@,
            OptionValueView::Text(
                spec_prepend(spec_glossary_prefix(terms, context), " "@, spec_text_field(opts, "prompt"@)),
            ),
        )
    } else if provider_id == "deepgram"@ {
        if terms.len() > 0 {
            opts.insert(
                "keyterm"@,
                OptionValueView::Text(spec_prepend(spec_join(terms, ", "@), ", "@, spec_text_field(opts, "keyterm"@))),
            )
        } else {
            opts
        }
    } else if provider_id == "assemblyai"@ {
        if terms.len() > 0 {
            opts.insert("keyterms_prompt"@, text_list(terms + spec_list_field(opts, "keyterms_prompt"@)))
        } else {
            opts
        }
    } else if provider_id == "mistral"@ {
        if terms.len() > 0 {
            opts.insert(
                "context_bias"@,
                OptionValueView::Text(spec_prepend(spec_join(terms, ","@), ","@, spec_text_field(opts, "context_bias"@))),
            )
        } else {
            opts
        }
    } else if provider_id == "elevenlabs"@ {
        if terms.len() > 0 {
            opts.insert("keyterms"@, text_list(terms + spec_list_field(opts, "keyterms"@)))
        } else {
            opts
        }
    } else if provider_id == "doubao"@ {
        let with_terms = if terms.len() > 0 {
            opts.insert(
                "hotwords"@,
                OptionValueView::Text(spec_prepend(spec_join(terms, ", "@), ", "@, spec_text_field(opts, "hotwords"@))),
            )
        } else {
            opts
        };
        if context.len() > 0 {
            with_terms.insert("dialog_context"@, OptionValueView::Text(context))
        } else {
            with_terms
        }
    } else if provider_id == "soniox"@ {
        let with_terms = if terms.len() > 0 {
            opts.insert(
                "context_terms"@,
                OptionValueView::Text(
                    spec_prepend(spec_join(terms, ", "@), ", "@, spec_text_field(opts, "context_terms"@)),
                ),
            )
        } else {
            opts
        };
        if context.len() > 0 {
            with_terms.insert(
                "context_description"@,
                OptionValueView::Text(
                    spec_prepend(context, " "@, spec_text_field(with_terms, "context_description"@)),
                ),
            )
        } else {
            with_terms
        }
    } else {
        opts
    }
}

/// What `inject_dictionary` returns: the options untouched where there is no
/// dictionary, and otherwise the options (an empty object where there were
/// none) with the dictionary merged in.
pub open spec fn spec_inject_dictionary(
    provider_id: Seq<char>,
    options: Option<Map<Seq<char>, OptionValueView>>,
    terms: Seq<Seq<char>>,
    context: Seq<char>,
) -> Option<Map<Seq<char>, OptionValueView>> {
    if terms.len() == 0 && context.len() == 0 {
        options
    } else {
        let opts = match options {
            Some(o) => o,
            None => Map::empty(),
        };
        Some(spec_inject_into(provider_id, opts, terms, context))
    }
}

pub open spec fn options_view(o: Option<CloudOptions>) -> Option<Map<Seq<char>, OptionValueView>> {
    match o {
        Some(c) => Some(c@),
        None => None,
    }
}

fn glossary_prefix(terms: &[String], context: &str) -> (r: String)
    requires
        terms@.len() > 0 || context@.len() > 0,
    ensures
        r@ == spec_glossary_prefix(strings_view(terms@), context@),
{
    let ghost tv = strings_view(terms@);
    proof {
        reveal_strlit(" ");
    }
    if terms.len() > 0 {
        let g = owned("Glossary: ").concat(join_strings(terms, ", ").as_str()).concat(".");
        if context.is_empty() {
            proof {
                assert(seq![g@] + Seq::<Seq<char>>::empty() =~= seq![g@]);
                assert(spec_join(seq![g@], " "@) == g@);
            }
            g
        } else {
            let ghost gv = g@;
            let r = g.concat(" ").concat(context);
            proof {
                let parts = seq![gv] + seq![context@];
                assert(parts.drop_last() =~= seq![gv]);
                assert(spec_join(seq![gv], " "@) == gv);
                assert(parts.len() == 2);
                assert(parts.last() == context@);
                assert(spec_join(parts, " "@) == spec_join(parts.drop_last(), " "@) + " "@ + parts.last());
                assert(r@ =~= gv + " "@ + context@);
            }
            r
        }
    } else {
        proof {
            assert(Seq::<Seq<char>>::empty() + seq![context@] =~= seq![context@]);
        }
        owned(context)
    }
}

fn join_terms(terms: &[String], sep: &str, existing: String) -> (r: String)
    ensures
        r@ == spec_prepend(spec_join(strings_view(terms@), sep@), sep@, existing@),
{
    prepend(join_strings(terms, sep), sep, existing)
}

fn list_with_terms_first(terms: &[String], existing: Vec<String>) -> (r: Vec<String>)
    ensures
        strings_view(r@) == strings_view(terms@) + strings_view(existing@),
{
    let mut r: Vec<String> = Vec::new();
    let n = terms.len();
    for i in 0..n
        invariant
            n == terms@.len(),
            strings_view(r@) == strings_view(terms@).take(i as int),
    {
        let ghost before = strings_view(r@);
        let x = terms[i].clone();
        let ghost xv = x@;
        r.push(x);
        proof {
            assert(strings_view(r@) =~= before.push(xv));
            assert(strings_view(terms@).take(i + 1) =~= strings_view(terms@).take(i as int).push(terms@[i as int]@));
        }
    }
    let m = existing.len();
    proof {
        assert(strings_view(terms@).take(n as int) =~= strings_view(terms@));
    }
    for j in 0..m
        invariant
            m == existing@.len(),
            n == terms@.len(),
            strings_view(r@) == strings_view(terms@) + strings_view(existing@).take(j as int),
    {
        let ghost before = strings_view(r@);
        let x = existing[j].clone();
        let ghost xv = x@;
        r.push(x);
        proof {
            assert(strings_view(r@) =~= before.push(xv));
            assert(strings_view(existing@).take(j + 1) =~= strings_view(existing@).take(j as int).push(existing@[j as int]@));
            assert(strings_view(r@) =~= strings_view(terms@) + strings_view(existing@).take(j + 1));
        }
    }
    proof {
        assert(strings_view(existing@).take(m as int) =~= strings_view(existing@));
    }
    r
}

/// Merges the dictionary terms and context into the provider-specific options.
///
/// Prompt-based providers (OpenAI, Groq, Fireworks) get `Glossary: term1,
/// term2.` and the context before the `prompt` they already have. Deepgram gets
/// the terms before its `keyterm` (joined by `, `), AssemblyAI and ElevenLabs
/// before their `keyterms_prompt` and `keyterms` lists, Mistral before its
/// `context_bias` (joined by `,`), Doubao before its `hotwords` with the context
/// as `dialog_context`, and Soniox before its `context_terms` with the context
/// before its `context_description`. Other providers get nothing.
pub fn inject_dictionary(
    provider_id: &str,
    options: Option<CloudOptions>,
    dictionary_terms: &[String],
    dictionary_context: &str,
) -> (r: Option<CloudOptions>)
    ensures
        options_view(r) == spec_inject_dictionary(
            provider_id@,
            options_view(options),
            strings_view(dictionary_terms@),
            dictionary_context@,
        ),
{
    if dictionary_terms.len() == 0 && dictionary_context.is_empty() {
        proof {
            assert(strings_view(dictionary_terms@).len() == 0);
        }
        return options;
    }
    let mut opts = match options {
        Some(o) => o,
        None => CloudOptions::empty(),
    };
    let has_terms = dictionary_terms.len() > 0;
    let has_context = !dictionary_context.is_empty();
    if str_eq(provider_id, "openai_stt") || str_eq(provider_id, "groq") || str_eq(provider_id, "fireworks") {
        let prefix = glossary_prefix(dictionary_terms, dictionary_context);
        let existing = opts.text_field("prompt");
        let merged = prepend(prefix, " ", existing);
        opts.set_text("prompt", merged);
    } else if str_eq(provider_id, "deepgram") {
        if has_terms {
            let existing = opts.text_field("keyterm");
            opts.set_text("keyterm", join_terms(dictionary_terms, ", ", existing));
        }
    } else if str_eq(provider_id, "assemblyai") {
        if has_terms {
            let existing = opts.list_field("keyterms_prompt");
            opts.set_text_list("keyterms_prompt", list_with_terms_first(dictionary_terms, existing));
        }
    } else if str_eq(provider_id, "mistral") {
        if has_terms {
            let existing = opts.text_field("context_bias");
            opts.set_text("context_bias", join_terms(dictionary_terms, ",", existing));
        }
    } else if str_eq(provider_id, "elevenlabs") {
        if has_terms {
            let existing = opts.list_field("keyterms");
            opts.set_text_list("keyterms", list_with_terms_first(dictionary_terms, existing));
        }
    } else if str_eq(provider_id, "doubao") {
        if has_terms {
            let existing = opts.text_field("hotwords");
            opts.set_text("hotwords", join_terms(dictionary_terms, ", ", existing));
        }
        if has_context {
            opts.set_text("dialog_context", owned(dictionary_context));
        }
    } else if str_eq(provider_id, "soniox") {
        if has_terms {
            let existing = opts.text_field("context_terms");
            opts.set_text("context_terms", join_terms(dictionary_terms, ", ", existing));
        }
        if has_context {
            let existing = opts.text_field("context_description");
            opts.set_text("context_description", prepend(owned(dictionary_context), " ", existing));
        }
    }
    Some(opts)
}

/// The option keys that a dictionary is merged into, over all providers.
pub open spec fn is_dictionary_key(k: Seq<char>) -> bool {
    k == "prompt"@ || k == "keyterm"@ || k == "keyterms_prompt"@ || k == "context_bias"@ || k == "keyterms"@
        || k == "hotwords"@ || k == "dialog_context"@ || k == "context_terms"@ || k == "context_description"@
}

/// Without dictionary terms or context the options are handed on as they are.
pub proof fn lemma_inject_empty_dictionary(provider_id: Seq<char>, options: Option<Map<Seq<char>, OptionValueView>>)
    ensures
        spec_inject_dictionary(provider_id, options, Seq::empty(), Seq::empty()) == options,
{
}

/// Merging a dictionary touches no option but the ones it is merged into:
/// every other option keeps its value, and nothing else is added.
pub proof fn lemma_inject_keeps_other_options(
    provider_id: Seq<char>,
    options: Map<Seq<char>, OptionValueView>,
    terms: Seq<Seq<char>>,
    context: Seq<char>,
    k: Seq<char>,
)
    requires
        !is_dictionary_key(k),
    ensures
        ({
            let r = spec_inject_dictionary(provider_id, Some(options), terms, context)->Some_0;
            &&& r.contains_key(k) == options.contains_key(k)
            &&& options.contains_key(k) ==> r[k] == options[k]
        }),
{
}

/// A provider that takes no dictionary gets its options as they are (an
/// empty object where it had none and there is a dictionary).
pub proof fn lemma_inject_other_provider(
    provider_id: Seq<char>,
    options: Option<Map<Seq<char>, OptionValueView>>,
    terms: Seq<Seq<char>>,
    context: Seq<char>,
)
    requires
        !(provider_id == "openai_stt"@ || provider_id == "groq"@ || provider_id == "fireworks"@
            || provider_id == "deepgram"@ || provider_id == "assemblyai"@ || provider_id == "mistral"@
            || provider_id == "elevenlabs"@ || provider_id == "doubao"@ || provider_id == "soniox"@),
    ensures
        spec_inject_dictionary(provider_id, options, terms, context) == (if terms.len() == 0 && context.len() == 0 {
            options
        } else {
            Some(
                match options {
                    Some(o) => o,
                    None => Map::empty(),
                },
            )
        }),
{
}

/// The ids of the registry's providers, in order.
pub proof fn lemma_registry_ids()
    ensures
        ({
            let reg = crate::stt_provider::spec_cloud_provider_registry();
            &&& reg.len() == 10
            &&& reg[0].id == "openai_stt"@ && reg[0].supports_dictionary_terms && reg[0].supports_dictionary_context
            &&& reg[1].id == "cartesia"@ && !reg[1].supports_dictionary_terms && !reg[1].supports_dictionary_context
            &&& reg[2].id == "elevenlabs"@ && reg[2].supports_dictionary_terms && !reg[2].supports_dictionary_context
            &&& reg[3].id == "groq"@ && reg[3].supports_dictionary_terms && reg[3].supports_dictionary_context
            &&& reg[4].id == "mistral"@ && reg[4].supports_dictionary_terms && !reg[4].supports_dictionary_context
            &&& reg[5].id == "soniox"@ && reg[5].supports_dictionary_terms && reg[5].supports_dictionary_context
            &&& reg[6].id == "deepgram"@ && reg[6].supports_dictionary_terms && !reg[6].supports_dictionary_context
            &&& reg[7].id == "assemblyai"@ && reg[7].supports_dictionary_terms && !reg[7].supports_dictionary_context
            &&& reg[8].id == "fireworks"@ && reg[8].supports_dictionary_terms && reg[8].supports_dictionary_context
            &&& reg[9].id == "doubao"@ && reg[9].supports_dictionary_terms && reg[9].supports_dictionary_context
        }),
{
    reveal(crate::stt_provider::spec_cloud_provider_registry);
}

/// The provider ids of the registry are told apart by their length and first character.
pub proof fn lemma_provider_ids_differ()
    ensures
        "openai_stt"@.len() == 10 && "openai_stt"@[0] == 'o',
        "cartesia"@.len() == 8 && "cartesia"@[0] == 'c',
        "elevenlabs"@.len() == 10 && "elevenlabs"@[0] == 'e',
        "groq"@.len() == 4,
        "mistral"@.len() == 7,
        "soniox"@.len() == 6 && "soniox"@[0] == 's',
        "deepgram"@.len() == 8 && "deepgram"@[0] == 'd',
        "assemblyai"@.len() == 10 && "assemblyai"@[0] == 'a',
        "fireworks"@.len() == 9,
        "doubao"@.len() == 6 && "doubao"@[0] == 'd',
{
    reveal_strlit("openai_stt");
    reveal_strlit("cartesia");
    reveal_strlit("elevenlabs");
    reveal_strlit("groq");
    reveal_strlit("mistral");
    reveal_strlit("soniox");
    reveal_strlit("deepgram");
    reveal_strlit("assemblyai");
    reveal_strlit("fireworks");
    reveal_strlit("doubao");
}

/// For every provider of the registry, dictionary terms change empty options
/// exactly when the provider supports dictionary terms, and a dictionary
/// context changes them exactly when it supports a context.
pub proof fn lemma_registry_dictionary_support(
    i: int,
    terms: Seq<Seq<char>>,
    context: Seq<char>,
)
    requires
        0 <= i < crate::stt_provider::spec_cloud_provider_registry().len(),
        terms.len() > 0,
        context.len() > 0,
    ensures
        ({
            let p = crate::stt_provider::spec_cloud_provider_registry()[i];
            let none = Map::<Seq<char>, OptionValueView>::empty();
            &&& (spec_inject_dictionary(p.id, Some(none), terms, Seq::empty()) != Some(none))
                == p.supports_dictionary_terms
            &&& (spec_inject_dictionary(p.id, Some(none), Seq::empty(), context) != Some(none))
                == p.supports_dictionary_context
        }),
{
    lemma_registry_ids();
    lemma_provider_ids_differ();
    let reg = crate::stt_provider::spec_cloud_provider_registry();
    let none = Map::<Seq<char>, OptionValueView>::empty();
    let e: Seq<Seq<char>> = Seq::empty();
    let id = reg[i].id;
    let with_terms = spec_inject_dictionary(id, Some(none), terms, Seq::empty());
    let with_context = spec_inject_dictionary(id, Some(none), e, context);
    if i == 0 || i == 3 || i == 8 {
        assert(with_terms->Some_0.contains_key("prompt"@));
        assert(with_context->Some_0.contains_key("prompt"@));
    } else if i == 1 {
        assert(with_terms->Some_0 =~= none);
        assert(with_context->Some_0 =~= none);
    } else if i == 2 {
        assert(with_terms->Some_0.contains_key("keyterms"@));
        assert(with_context->Some_0 =~= none);
    } else if i == 4 {
        assert(with_terms->Some_0.contains_key("context_bias"@));
        assert(with_context->Some_0 =~= none);
    } else if i == 5 {
        assert(with_terms->Some_0.contains_key("context_terms"@));
        assert(with_context->Some_0.contains_key("context_description"@));
    } else if i == 6 {
        assert(with_terms->Some_0.contains_key("keyterm"@));
        assert(with_context->Some_0 =~= none);
    } else if i == 7 {
        assert(with_terms->Some_0.contains_key("keyterms_prompt"@));
        assert(with_context->Some_0 =~= none);
    } else {
        assert(with_terms->Some_0.contains_key("hotwords"@));
        assert(with_context->Some_0.contains_key("dialog_context"@));
    }
}

/// The option keys the dictionary is written to are told apart by their length.
proof fn lemma_dictionary_keys_differ()
    ensures
        "keyterm"@.len() == 7,
        "context_bias"@.len() == 12,
        "hotwords"@.len() == 8,
        "dialog_context"@.len() == 14,
        "context_terms"@.len() == 13,
        "context_description"@.len() == 19,
{
    reveal_strlit("keyterm");
    reveal_strlit("context_bias");
    reveal_strlit("hotwords");
    reveal_strlit("dialog_context");
    reveal_strlit("context_terms");
    reveal_strlit("context_description");
}

/// The text option that a provider merges dictionary terms into, and the
/// separator it puts between terms and before what the option held:
/// Deepgram's `keyterm`, Mistral's `context_bias`, Doubao's `hotwords` and
/// Soniox's `context_terms`.
pub open spec fn merged_term_option(provider_id: Seq<char>) -> Option<(Seq<char>, Seq<char>)> {
    if provider_id == "deepgram"@ {
        Some(("keyterm"@, ", "@))
    } else if provider_id == "mistral"@ {
        Some(("context_bias"@, ","@))
    } else if provider_id == "doubao"@ {
        Some(("hotwords"@, ", "@))
    } else if provider_id == "soniox"@ {
        Some(("context_terms"@, ", "@))
    } else {
        None
    }
}

/// A provider that merges dictionary terms into a text option keeps what
/// the option held: the new value is the terms joined by the separator, then
/// the separator and the old value (just the joined terms where the option
/// was empty), so a non-empty old value is a suffix of the new one.
pub proof fn lemma_term_merge_keeps_existing(
    provider_id: Seq<char>,
    options: Map<Seq<char>, OptionValueView>,
    terms: Seq<Seq<char>>,
    context: Seq<char>,
)
    requires
        merged_term_option(provider_id) is Some,
        terms.len() > 0,
    ensures
        ({
            let (key, sep) = merged_term_option(provider_id)->Some_0;
            let old_value = spec_text_field(options, key);
            let merged = spec_inject_dictionary(provider_id, Some(options), terms, context)->Some_0;
            let new_value = spec_text_field(merged, key);
            &&& merged.contains_key(key)
            &&& old_value.len() == 0 ==> new_value == spec_join(terms, sep)
            &&& old_value.len() > 0 ==> new_value == spec_join(terms, sep) + sep + old_value
            &&& old_value.len() > 0 ==> new_value.len() >= old_value.len() + sep.len()
                && new_value.subrange(new_value.len() - old_value.len(), new_value.len() as int) == old_value
        }),
{
    lemma_provider_ids_differ();
    lemma_dictionary_keys_differ();
    reveal_strlit(", ");
    reveal_strlit(",");
    let (key, sep) = merged_term_option(provider_id)->Some_0;
    let old_value = spec_text_field(options, key);
    let new_value = spec_text_field(spec_inject_dictionary(provider_id, Some(options), terms, context)->Some_0, key);
    if old_value.len() > 0 {
        let j = spec_join(terms, sep);
        assert((j + sep + old_value).subrange((j + sep + old_value).len() - old_value.len(), (j + sep + old_value).len() as int) =~= old_value);
    }
}

} // verus!
