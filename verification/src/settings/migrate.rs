//! Normalising stored settings against the built-in definitions and
//! migrating older settings.
use vstd::prelude::*;
use crate::settings::enums::Platform;
use crate::settings::app_settings::{AppSettings, spec_find_stt_provider, default_post_process_provider_id};
use crate::settings::bindings::{
    ShortcutBindingView, normalized_bindings, same_binding_maps, spec_normalized_bindings,
    spec_default_bindings, lemma_default_shortcuts_non_empty,
};
use crate::settings::stt_catalog::{
    providers_view, default_stt_providers, spec_default_stt_providers, default_stt_provider_id,
};
use crate::settings::post_process::{
    PostProcessCatalog, pp_providers_view, prompts_view, normalized_post_process_providers,
    same_pp_providers, spec_normalized_pp_providers, normalized_prompts, same_prompts,
    spec_normalized_prompts, spec_find_pp_provider,
};
use crate::settings::stt_defaults::{
    lemma_stt_fields_settle, lemma_defaults_synced_with_themselves, ensure_stt_defaults,
    stt_defaults_change, stt_fields_change, sync_providers, fill_cloud, fill_realtime, fill_key,
};
use crate::settings::stt_catalog::{cloud_default_fn, CloudDefault, PARAKEET_UNIFIED_MODEL_ID};
use crate::stt_provider::spec_cloud_provider_registry;
use crate::text::owned;

verus! {

broadcast use vstd::string::group_string_axioms;

/// Replaces both provider catalogs by the built-in ones, keeping the custom
/// post-processing provider's base URL; says whether that changed anything.
pub fn normalize_provider_catalogs(settings: &mut AppSettings, catalog: &PostProcessCatalog) -> (changed: bool)
    ensures
        providers_view(final(settings).stt_providers@) == spec_default_stt_providers(),
        pp_providers_view(final(settings).post_process_providers@) == spec_normalized_pp_providers(
            pp_providers_view(catalog.providers@),
            pp_providers_view(old(settings).post_process_providers@),
        ),
        changed == (providers_view(old(settings).stt_providers@) != spec_default_stt_providers()
            || pp_providers_view(old(settings).post_process_providers@) != spec_normalized_pp_providers(
            pp_providers_view(catalog.providers@),
            pp_providers_view(old(settings).post_process_providers@),
        )),
        *final(settings) == (AppSettings {
            stt_providers: final(settings).stt_providers,
            post_process_providers: final(settings).post_process_providers,
            ..*old(settings)
        }),
{
    let mut changed = false;
    let current_stt_providers = default_stt_providers();
    if !crate::settings::stt_catalog::same_providers(&settings.stt_providers, &current_stt_providers) {
        settings.stt_providers = current_stt_providers;
        changed = true;
    }
    let current_post_process_providers = normalized_post_process_providers(
        catalog,
        &settings.post_process_providers,
    );
    if !same_pp_providers(&settings.post_process_providers, &current_post_process_providers) {
        settings.post_process_providers = current_post_process_providers;
        changed = true;
    }
    changed
}

/// Rebuilds the built-in bindings and prompts, keeping the user's own and the
/// user's choices for the built-in ones; says whether that changed anything.
pub fn normalize_settings_definitions(
    settings: &mut AppSettings,
    platform: Platform,
    catalog: &PostProcessCatalog,
) -> (changed: bool)
    ensures
        final(settings).bindings@ == spec_normalized_bindings(old(settings).bindings@, spec_default_bindings(platform)),
        prompts_view(final(settings).post_process_prompts@) == spec_normalized_prompts(
            prompts_view(catalog.prompts@),
            prompts_view(old(settings).post_process_prompts@),
        ),
        changed == (old(settings).bindings@ != spec_normalized_bindings(old(settings).bindings@, spec_default_bindings(platform))
            || prompts_view(old(settings).post_process_prompts@) != spec_normalized_prompts(
            prompts_view(catalog.prompts@),
            prompts_view(old(settings).post_process_prompts@),
        )),
        *final(settings) == (AppSettings {
            bindings: final(settings).bindings,
            post_process_prompts: final(settings).post_process_prompts,
            ..*old(settings)
        }),
{
    let mut changed = false;
    let current_bindings = normalized_bindings(&settings.bindings, platform);
    if !same_binding_maps(&settings.bindings, &current_bindings) {
        settings.bindings = current_bindings;
        changed = true;
    }
    let current_prompts = normalized_prompts(catalog, &settings.post_process_prompts);
    if !same_prompts(&settings.post_process_prompts, &current_prompts) {
        settings.post_process_prompts = current_prompts;
        changed = true;
    }
    changed
}

/// The binding that transcribes with post-processing, given a prompt where it
/// has none: the selected prompt, or else the prompt that corrects.
pub open spec fn with_default_post_process_prompt(
    b: Map<Seq<char>, ShortcutBindingView>,
    selected: Option<Seq<char>>,
    correct: Seq<char>,
) -> Map<Seq<char>, ShortcutBindingView> {
    let k = "transcribe_with_post_process"@;
    if b.contains_key(k) && b[k].post_process_prompt_id is None {
        b.insert(
            k,
            ShortcutBindingView {
                post_process_prompt_id: Some(
                    match selected {
                        Some(p) => p,
                        None => correct,
                    },
                ),
                ..b[k]
            },
        )
    } else {
        b
    }
}

/// The settings after migration: catalogs and definitions normalised, a
/// single selected microphone turned into the priority list, a prompt for
/// the post-processing binding, a selected provider that exists, and the
/// speech-to-text settings brought up to date.
pub open spec fn migrations_applied(
    o: AppSettings,
    n: AppSettings,
    platform: Platform,
    catalog: PostProcessCatalog,
) -> bool {
    let ds = spec_default_stt_providers();
    let pps = spec_normalized_pp_providers(
        pp_providers_view(catalog.providers@),
        pp_providers_view(o.post_process_providers@),
    );
    let nb = spec_normalized_bindings(o.bindings@, spec_default_bindings(platform));
    let realtime = fill_realtime(o.stt_realtime_enabled@, spec_cloud_provider_registry());
    &&& providers_view(n.stt_providers@) == sync_providers(ds, ds)
    &&& pp_providers_view(n.post_process_providers@) == pps
    &&& n.bindings@ == with_default_post_process_prompt(
        nb,
        o.post_process_selected_prompt_id.deep_view(),
        catalog.correct_prompt_id@,
    )
    &&& prompts_view(n.post_process_prompts@) == spec_normalized_prompts(
        prompts_view(catalog.prompts@),
        prompts_view(o.post_process_prompts@),
    )
    &&& n.microphone_priority@.map_values(|m: String| m@) == (if o.microphone_priority@.len() == 0
        && o.selected_microphone is Some {
        seq![o.selected_microphone->Some_0@]
    } else {
        o.microphone_priority@.map_values(|m: String| m@)
    })
    &&& n.stt_provider_id@ == (if spec_find_stt_provider(ds, o.stt_provider_id@) is None {
        "local"@
    } else {
        o.stt_provider_id@
    })
    &&& n.post_process_provider_id@ == (if spec_find_pp_provider(pps, o.post_process_provider_id@) is None {
        "openai"@
    } else {
        o.post_process_provider_id@
    })
    &&& n.stt_api_keys@ == fill_cloud(o.stt_api_keys@, ds, cloud_default_fn(CloudDefault::EmptyKey))
    &&& n.stt_cloud_models@ == fill_cloud(o.stt_cloud_models@, ds, cloud_default_fn(CloudDefault::DefaultModel))
    &&& n.stt_cloud_options@ == fill_cloud(o.stt_cloud_options@, ds, cloud_default_fn(CloudDefault::EmptyOptions))
    &&& n.stt_realtime_enabled@ == fill_key(realtime, PARAKEET_UNIFIED_MODEL_ID@, true)
    &&& n.stt_realtime_chunk_ms@ == fill_key(o.stt_realtime_chunk_ms@, PARAKEET_UNIFIED_MODEL_ID@, 560u64)
    &&& n == (AppSettings {
        stt_providers: n.stt_providers,
        post_process_providers: n.post_process_providers,
        bindings: n.bindings,
        post_process_prompts: n.post_process_prompts,
        microphone_priority: n.microphone_priority,
        stt_provider_id: n.stt_provider_id,
        post_process_provider_id: n.post_process_provider_id,
        stt_api_keys: n.stt_api_keys,
        stt_cloud_models: n.stt_cloud_models,
        stt_cloud_options: n.stt_cloud_options,
        stt_realtime_enabled: n.stt_realtime_enabled,
        stt_realtime_chunk_ms: n.stt_realtime_chunk_ms,
        ..o
    })
}

/// Whether migrating the settings changes anything.
pub open spec fn migrations_change(o: AppSettings, platform: Platform, catalog: PostProcessCatalog) -> bool {
    let ds = spec_default_stt_providers();
    let pps = spec_normalized_pp_providers(
        pp_providers_view(catalog.providers@),
        pp_providers_view(o.post_process_providers@),
    );
    let nb = spec_normalized_bindings(o.bindings@, spec_default_bindings(platform));
    let np = spec_normalized_prompts(prompts_view(catalog.prompts@), prompts_view(o.post_process_prompts@));
    let k = "transcribe_with_post_process"@;
    ||| providers_view(o.stt_providers@) != ds
    ||| pp_providers_view(o.post_process_providers@) != pps
    ||| o.bindings@ != nb
    ||| prompts_view(o.post_process_prompts@) != np
    ||| (o.microphone_priority@.len() == 0 && o.selected_microphone is Some)
    ||| (nb.contains_key(k) && nb[k].post_process_prompt_id is None)
    ||| spec_find_stt_provider(ds, o.stt_provider_id@) is None
    ||| spec_find_pp_provider(pps, o.post_process_provider_id@) is None
    ||| stt_fields_change(
        ds,
        o.stt_api_keys@,
        o.stt_cloud_models@,
        o.stt_cloud_options@,
        o.stt_realtime_enabled@,
        o.stt_realtime_chunk_ms@,
    )
}

/// The field changes of a migration that follow the normalisation.
pub open spec fn field_migrations_applied(o: AppSettings, n: AppSettings, correct: Seq<char>) -> bool {
    &&& n.bindings@ == with_default_post_process_prompt(
        o.bindings@,
        o.post_process_selected_prompt_id.deep_view(),
        correct,
    )
    &&& n.microphone_priority@.map_values(|m: String| m@) == (if o.microphone_priority@.len() == 0
        && o.selected_microphone is Some {
        seq![o.selected_microphone->Some_0@]
    } else {
        o.microphone_priority@.map_values(|m: String| m@)
    })
    &&& n.stt_provider_id@ == (if spec_find_stt_provider(providers_view(o.stt_providers@), o.stt_provider_id@) is None {
        "local"@
    } else {
        o.stt_provider_id@
    })
    &&& n.post_process_provider_id@ == (if spec_find_pp_provider(
        pp_providers_view(o.post_process_providers@),
        o.post_process_provider_id@,
    ) is None {
        "openai"@
    } else {
        o.post_process_provider_id@
    })
    &&& n == (AppSettings {
        bindings: n.bindings,
        microphone_priority: n.microphone_priority,
        stt_provider_id: n.stt_provider_id,
        post_process_provider_id: n.post_process_provider_id,
        ..o
    })
}

pub open spec fn field_migrations_change(o: AppSettings) -> bool {
    let k = "transcribe_with_post_process"@;
    ||| (o.microphone_priority@.len() == 0 && o.selected_microphone is Some)
    ||| (o.bindings@.contains_key(k) && o.bindings@[k].post_process_prompt_id is None)
    ||| spec_find_stt_provider(providers_view(o.stt_providers@), o.stt_provider_id@) is None
    ||| spec_find_pp_provider(pp_providers_view(o.post_process_providers@), o.post_process_provider_id@) is None
}

fn migrate_microphone(settings: &mut AppSettings) -> (updated: bool)
    ensures
        final(settings).microphone_priority@.map_values(|m: String| m@) == (if old(settings).microphone_priority@.len() == 0
            && old(settings).selected_microphone is Some {
            seq![old(settings).selected_microphone->Some_0@]
        } else {
            old(settings).microphone_priority@.map_values(|m: String| m@)
        }),
        updated == (old(settings).microphone_priority@.len() == 0 && old(settings).selected_microphone is Some),
        *final(settings) == (AppSettings { microphone_priority: final(settings).microphone_priority, ..*old(settings) }),
{
    if settings.microphone_priority.len() == 0 {
        if let Some(mic) = &settings.selected_microphone {
            let mut priority: Vec<String> = Vec::new();
            priority.push(mic.clone());
            settings.microphone_priority = priority;
            proof {
                assert(settings.microphone_priority@.map_values(|m: String| m@) =~= seq![mic@]);
            }
            return true;
        }
    }
    false
}

fn migrate_post_process_binding(settings: &mut AppSettings, correct: &String) -> (updated: bool)
    ensures
        final(settings).bindings@ == with_default_post_process_prompt(
            old(settings).bindings@,
            old(settings).post_process_selected_prompt_id.deep_view(),
            correct@,
        ),
        updated == (old(settings).bindings@.contains_key("transcribe_with_post_process"@)
            && old(settings).bindings@["transcribe_with_post_process"@].post_process_prompt_id is None),
        *final(settings) == (AppSettings { bindings: final(settings).bindings, ..*old(settings) }),
{
    match settings.bindings.get("transcribe_with_post_process") {
        Some(b) => {
            if b.post_process_prompt_id.is_none() {
                let prompt_id = match &settings.post_process_selected_prompt_id {
                    Some(p) => p.clone(),
                    None => correct.clone(),
                };
                let mut nb = b.duplicate();
                nb.post_process_prompt_id = Some(prompt_id);
                settings.bindings.insert(owned("transcribe_with_post_process"), nb);
                true
            } else {
                false
            }
        },
        None => false,
    }
}

fn migrate_stt_provider_id(settings: &mut AppSettings) -> (updated: bool)
    ensures
        final(settings).stt_provider_id@ == (if spec_find_stt_provider(
            providers_view(old(settings).stt_providers@),
            old(settings).stt_provider_id@,
        ) is None {
            "local"@
        } else {
            old(settings).stt_provider_id@
        }),
        updated == spec_find_stt_provider(providers_view(old(settings).stt_providers@), old(settings).stt_provider_id@) is None,
        *final(settings) == (AppSettings { stt_provider_id: final(settings).stt_provider_id, ..*old(settings) }),
{
    if settings.stt_provider(settings.stt_provider_id.as_str()).is_none() {
        settings.stt_provider_id = default_stt_provider_id();
        true
    } else {
        false
    }
}

fn migrate_post_process_provider_id(settings: &mut AppSettings) -> (updated: bool)
    ensures
        final(settings).post_process_provider_id@ == (if spec_find_pp_provider(
            pp_providers_view(old(settings).post_process_providers@),
            old(settings).post_process_provider_id@,
        ) is None {
            "openai"@
        } else {
            old(settings).post_process_provider_id@
        }),
        updated == spec_find_pp_provider(
            pp_providers_view(old(settings).post_process_providers@),
            old(settings).post_process_provider_id@,
        ) is None,
        *final(settings) == (AppSettings {
            post_process_provider_id: final(settings).post_process_provider_id,
            ..*old(settings)
        }),
{
    if settings.post_process_provider(settings.post_process_provider_id.as_str()).is_none() {
        settings.post_process_provider_id = default_post_process_provider_id();
        true
    } else {
        false
    }
}

fn migrate_fields(settings: &mut AppSettings, catalog: &PostProcessCatalog) -> (updated: bool)
    ensures
        field_migrations_applied(*old(settings), *final(settings), catalog.correct_prompt_id@),
        updated == field_migrations_change(*old(settings)),
{
    let c1 = migrate_microphone(settings);
    let c2 = migrate_post_process_binding(settings, &catalog.correct_prompt_id);
    let c3 = migrate_stt_provider_id(settings);
    let c4 = migrate_post_process_provider_id(settings);
    c1 || c2 || c3 || c4
}

/// Migrates stored settings to the current definitions; says whether that
/// changed anything.
pub fn apply_settings_migrations(
    settings: &mut AppSettings,
    platform: Platform,
    catalog: &PostProcessCatalog,
) -> (updated: bool)
    ensures
        migrations_applied(*old(settings), *final(settings), platform, *catalog),
        updated == migrations_change(*old(settings), platform, *catalog),
{
    let ghost s0 = *settings;
    let c1 = normalize_provider_catalogs(settings, catalog);
    let c2 = normalize_settings_definitions(settings, platform, catalog);
    let ghost s2 = *settings;
    let c3 = migrate_fields(settings, catalog);
    let ghost s3 = *settings;
    let c4 = ensure_stt_defaults(settings);
    proof {
        assert(providers_view(s3.stt_providers@) == spec_default_stt_providers());
        assert(s3.stt_api_keys@ == s0.stt_api_keys@);
        assert(s3.stt_cloud_models@ == s0.stt_cloud_models@);
        assert(s3.stt_cloud_options@ == s0.stt_cloud_options@);
        assert(s3.stt_realtime_enabled@ == s0.stt_realtime_enabled@);
        assert(s3.stt_realtime_chunk_ms@ == s0.stt_realtime_chunk_ms@);
        assert(stt_defaults_change(s3) == stt_fields_change(
            spec_default_stt_providers(),
            s0.stt_api_keys@,
            s0.stt_cloud_models@,
            s0.stt_cloud_options@,
            s0.stt_realtime_enabled@,
            s0.stt_realtime_chunk_ms@,
        ));
    }
    c1 || c2 || c3 || c4
}

/// Whether the catalog has the post-processing provider that a selection of
/// a missing provider falls back to.
pub open spec fn has_fallback_pp_provider(catalog: PostProcessCatalog) -> bool {
    spec_find_pp_provider(pp_providers_view(catalog.providers@), "openai"@) is Some
}

/// Normalised bindings keep their normal form when the post-processing
/// binding is given a prompt.
proof fn lemma_bindings_with_prompt_normalized(
    stored: Map<Seq<char>, ShortcutBindingView>,
    p: Platform,
    selected: Option<Seq<char>>,
    correct: Seq<char>,
)
    ensures
        ({
            let d = spec_default_bindings(p);
            let b = with_default_post_process_prompt(spec_normalized_bindings(stored, d), selected, correct);
            spec_normalized_bindings(b, d) == b
        }),
{
    reveal(spec_normalized_bindings);
    lemma_default_shortcuts_non_empty(p);
    let d = spec_default_bindings(p);
    let b = with_default_post_process_prompt(spec_normalized_bindings(stored, d), selected, correct);
    assert(spec_normalized_bindings(b, d) =~= b);
}

/// Migrating settings that were just migrated finds nothing to change, so a
/// store is rewritten at most once per migration. This needs the catalog to
/// have the provider that a missing selection falls back to; without it, a
/// fallback selection would itself be missing the next time.
pub proof fn lemma_migrations_settle(o: AppSettings, n: AppSettings, platform: Platform, catalog: PostProcessCatalog)
    requires
        migrations_applied(o, n, platform, catalog),
        has_fallback_pp_provider(catalog),
    ensures
        !migrations_change(n, platform, catalog),
{
    let ds = spec_default_stt_providers();
    let cat = pp_providers_view(catalog.providers@);
    let pps = spec_normalized_pp_providers(cat, pp_providers_view(o.post_process_providers@));
    lemma_defaults_synced_with_themselves();
    crate::settings::post_process::lemma_normalized_pp_providers_idempotent(
        cat,
        pp_providers_view(o.post_process_providers@),
    );
    lemma_bindings_with_prompt_normalized(
        o.bindings@,
        platform,
        o.post_process_selected_prompt_id.deep_view(),
        catalog.correct_prompt_id@,
    );
    crate::settings::post_process::lemma_normalized_prompts_idempotent(
        prompts_view(catalog.prompts@),
        prompts_view(o.post_process_prompts@),
    );
    lemma_stt_fields_settle(
        ds,
        o.stt_api_keys@,
        o.stt_cloud_models@,
        o.stt_cloud_options@,
        o.stt_realtime_enabled@,
        o.stt_realtime_chunk_ms@,
    );
    // the fallback speech-to-text provider is built in
    reveal(spec_default_stt_providers);
    reveal_strlit("local");
    crate::settings::stt_catalog::lemma_first_stt_provider_index_unique(ds, "local"@, 0);
    // the fallback post-processing provider survives normalisation
    reveal(spec_normalized_pp_providers);
    crate::settings::post_process::lemma_first_pp_provider_index(cat, "openai"@);
    crate::settings::post_process::lemma_first_pp_provider_index(pps, "openai"@);
    match spec_find_pp_provider(pp_providers_view(o.post_process_providers@), "custom"@) {
        Some(c) => {
            crate::settings::post_process::lemma_set_base_url_keeps_ids(cat, "custom"@, c.base_url, "openai"@);
        },
        None => {},
    }
    // a microphone list that was filled in is no longer empty
    assert(n.microphone_priority@.map_values(|m: String| m@).len() == n.microphone_priority@.len());
    assert(o.microphone_priority@.map_values(|m: String| m@).len() == o.microphone_priority@.len());
}

/// After migration the post-processing binding has a prompt. Where the
/// stored binding had none (or was missing), it gets the prompt the user had
/// selected, and the built-in correcting prompt only when none was selected;
/// a prompt the stored binding had is kept.
pub proof fn lemma_post_process_binding_prompt(
    o: AppSettings,
    n: AppSettings,
    platform: Platform,
    catalog: PostProcessCatalog,
)
    requires
        migrations_applied(o, n, platform, catalog),
    ensures
        ({
            let k = "transcribe_with_post_process"@;
            let stored = if o.bindings@.contains_key(k) {
                o.bindings@[k].post_process_prompt_id
            } else {
                None
            };
            &&& n.bindings@.contains_key(k)
            &&& stored matches Some(q) ==> n.bindings@[k].post_process_prompt_id == Some(q)
            &&& stored is None && o.post_process_selected_prompt_id is Some
                ==> n.bindings@[k].post_process_prompt_id == Some(o.post_process_selected_prompt_id->Some_0@)
            &&& stored is None && o.post_process_selected_prompt_id is None
                ==> n.bindings@[k].post_process_prompt_id == Some(catalog.correct_prompt_id@)
        }),
{
    reveal(spec_normalized_bindings);
    let k = "transcribe_with_post_process"@;
    let d = spec_default_bindings(platform);
    assert(d.contains_key(k));
    assert(d[k].post_process_prompt_id is None);
}

} // verus!
