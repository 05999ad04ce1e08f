//! What of the settings is written back to the settings store, and what the
//! stored form tells about the settings.
use vstd::prelude::*;
use crate::settings::enums::Platform;
use crate::settings::app_settings::{AppSettings, apply_custom_post_process_base_url, custom_base_url_changes};
use crate::settings::enums::OverlayPosition;
use crate::settings::bindings::{is_builtin_binding_id, spec_is_builtin_binding_id};
use crate::settings::post_process::{pp_providers_view, set_base_url};
use crate::settings::bindings::{
    ShortcutBinding, ShortcutBindingView, default_bindings, spec_default_bindings,
};
use crate::settings::post_process::{
    LLMPrompt, LLMPromptView, PostProcessCatalog, PostProcessProviderView, prompts_view,
    custom_prompts, custom_prompts_of, is_builtin_prompt, spec_is_builtin_prompt,
    spec_normalized_prompts, spec_normalized_pp_providers, spec_find_pp_provider,
};
use crate::settings::app_settings::{applied_custom_url, lemma_custom_base_url_settles};
use crate::settings::bindings::{spec_normalized_bindings, lemma_default_shortcuts_non_empty};
use crate::str_map::{StrMap, entries_view, lemma_prefix_view_step, lemma_take_full};
use crate::text::{clone_opt_string, opt_string_eq, str_eq};

verus! {

broadcast use vstd::string::group_string_axioms;

/// How a binding is written to the store: a built-in binding only by what the
/// user changed, a user-defined binding whole.
#[derive(Debug, Clone)]
pub enum PersistedBinding {
    Override { id: String, current_binding: String, post_process_prompt_id: Option<String> },
    Full(ShortcutBinding),
}

pub enum PersistedBindingView {
    Override { id: Seq<char>, current_binding: Seq<char>, post_process_prompt_id: Option<Seq<char>> },
    Full(ShortcutBindingView),
}

impl View for PersistedBinding {
    type V = PersistedBindingView;

    open spec fn view(&self) -> PersistedBindingView {
        match self {
            PersistedBinding::Override { id, current_binding, post_process_prompt_id } => PersistedBindingView::Override {
                id: id@,
                current_binding: current_binding@,
                post_process_prompt_id: post_process_prompt_id.deep_view(),
            },
            PersistedBinding::Full(b) => PersistedBindingView::Full(b@),
        }
    }
}

/// Whether the user changed a built-in binding's key combination or prompt.
pub open spec fn has_override(b: ShortcutBindingView, d: ShortcutBindingView) -> bool {
    b.current_binding != d.current_binding || b.post_process_prompt_id != d.post_process_prompt_id
}

/// The bindings as written to the store: built-in bindings the user changed,
/// as overrides, and every user-defined binding, whole.
pub open spec fn spec_persisted_bindings(
    b: Map<Seq<char>, ShortcutBindingView>,
    d: Map<Seq<char>, ShortcutBindingView>,
) -> Map<Seq<char>, PersistedBindingView> {
    Map::new(
        |k: Seq<char>| b.contains_key(k) && (!d.contains_key(k) || has_override(b[k], d[k])),
        |k: Seq<char>|
            if d.contains_key(k) {
                PersistedBindingView::Override {
                    id: b[k].id,
                    current_binding: b[k].current_binding,
                    post_process_prompt_id: b[k].post_process_prompt_id,
                }
            } else {
                PersistedBindingView::Full(b[k])
            },
    )
}

/// The bindings to write to the store.
pub fn persisted_bindings(settings: &AppSettings, platform: Platform) -> (r: StrMap<PersistedBinding>)
    ensures
        r@ == spec_persisted_bindings(settings.bindings@, spec_default_bindings(platform)),
{
    let defaults = default_bindings(platform);
    let mut r: StrMap<PersistedBinding> = StrMap::new();
    let n = settings.bindings.entries.len();
    let ghost s = settings.bindings.entries@;
    proof {
        assert(entries_view(s.take(0)) =~= Map::<Seq<char>, ShortcutBindingView>::empty());
        assert(r@ =~= spec_persisted_bindings(entries_view(s.take(0)), defaults@));
    }
    for i in 0..n
        invariant
            n == s.len(),
            s == settings.bindings.entries@,
            defaults@ == spec_default_bindings(platform),
            r@ == spec_persisted_bindings(entries_view(s.take(i as int)), defaults@),
    {
        let key = &settings.bindings.entries[i].0;
        let b = &settings.bindings.entries[i].1;
        let ghost prefix = entries_view(s.take(i as int));
        proof {
            lemma_prefix_view_step(s, i as int);
        }
        let first = match settings.bindings.find(key.as_str()) {
            Some(j) => j == i,
            None => false,
        };
        if first {
            match defaults.get(key.as_str()) {
                Some(d) => {
                    let changed = !str_eq(b.current_binding.as_str(), d.current_binding.as_str())
                        || !opt_string_eq(&b.post_process_prompt_id, &d.post_process_prompt_id);
                    if changed {
                        let p = PersistedBinding::Override {
                            id: b.id.clone(),
                            current_binding: b.current_binding.clone(),
                            post_process_prompt_id: clone_opt_string(&b.post_process_prompt_id),
                        };
                        let ghost pv = p@;
                        r.insert(key.clone(), p);
                        proof {
                            assert(spec_persisted_bindings(prefix.insert(key@, b@), defaults@) =~= spec_persisted_bindings(
                                prefix,
                                defaults@,
                            ).insert(key@, pv));
                        }
                    } else {
                        proof {
                            assert(spec_persisted_bindings(prefix.insert(key@, b@), defaults@) =~= spec_persisted_bindings(
                                prefix,
                                defaults@,
                            ));
                        }
                    }
                },
                None => {
                    let p = PersistedBinding::Full(b.duplicate());
                    let ghost pv = p@;
                    r.insert(key.clone(), p);
                    proof {
                        assert(spec_persisted_bindings(prefix.insert(key@, b@), defaults@) =~= spec_persisted_bindings(
                            prefix,
                            defaults@,
                        ).insert(key@, pv));
                    }
                },
            }
        }
    }
    proof {
        lemma_take_full(s);
    }
    r
}

/// The prompts to write to the store: those that are not built in.
pub fn persisted_prompts(settings: &AppSettings, catalog: &PostProcessCatalog) -> (r: Vec<LLMPrompt>)
    ensures
        prompts_view(r@) == custom_prompts(prompts_view(catalog.prompts@), prompts_view(settings.post_process_prompts@)),
{
    custom_prompts_of(catalog, &settings.post_process_prompts)
}

/// What a stored binding entry shows: its id, whether it is a JSON object, and
/// which of the built-in binding's descriptive fields it holds.
#[derive(Debug, Clone)]
pub struct StoredBindingShape {
    pub id: String,
    pub is_object: bool,
    pub has_name: bool,
    pub has_description: bool,
    pub has_default_binding: bool,
}

/// What a stored settings value shows of the parts that decide whether it must
/// be written again.
#[derive(Debug, Clone)]
pub struct StoredSettingsShape {
    /// Whether the stored value is a JSON object at all.
    pub is_object: bool,
    pub has_stt_providers: bool,
    pub has_post_process_providers: bool,
    /// The `id` of each stored prompt that has a string id, where the prompts are a JSON array.
    pub prompt_ids: Option<Vec<Option<String>>>,
    /// The stored bindings, where they are a JSON object.
    pub bindings: Option<Vec<StoredBindingShape>>,
}

/// Whether a stored prompt id is present and names a built-in prompt.
pub open spec fn is_builtin_prompt_id(builtin: Seq<crate::settings::post_process::LLMPromptView>, id: Option<String>) -> bool {
    match id {
        Some(id) => spec_is_builtin_prompt(builtin, id@),
        None => false,
    }
}

pub open spec fn stored_binding_is_stale(b: StoredBindingShape) -> bool {
    spec_is_builtin_binding_id(b.id@) && b.is_object && (b.has_name || b.has_description || b.has_default_binding)
}

/// Whether stored settings hold what is no longer written: a provider catalog,
/// a built-in prompt, or a built-in binding's descriptive fields.
pub open spec fn spec_requires_rewrite(shape: StoredSettingsShape, builtin: Seq<crate::settings::post_process::LLMPromptView>) -> bool {
    shape.is_object && (shape.has_stt_providers || shape.has_post_process_providers || (match shape.prompt_ids {
        Some(ids) => exists|i: int| 0 <= i < ids@.len() && is_builtin_prompt_id(builtin, #[trigger] ids@[i]),
        None => false,
    }) || (match shape.bindings {
        Some(bs) => exists|i: int| 0 <= i < bs@.len() && stored_binding_is_stale(#[trigger] bs@[i]),
        None => false,
    }))
}

/// Whether stored settings must be written again in the current form.
pub fn persisted_settings_requires_rewrite(shape: &StoredSettingsShape, catalog: &PostProcessCatalog) -> (r: bool)
    ensures
        r == spec_requires_rewrite(*shape, prompts_view(catalog.prompts@)),
{
    if !shape.is_object {
        return false;
    }
    if shape.has_stt_providers || shape.has_post_process_providers {
        return true;
    }
    if let Some(ids) = &shape.prompt_ids {
        let n = ids.len();
        for i in 0..n
            invariant
                n == ids@.len(),
                shape.prompt_ids == Some(*ids),
                shape.is_object,
                forall|j: int| 0 <= j < i ==> !is_builtin_prompt_id(prompts_view(catalog.prompts@), #[trigger] ids@[j]),
        {
            if let Some(id) = &ids[i] {
                if is_builtin_prompt(catalog, id.as_str()) {
                    proof {
                        assert(is_builtin_prompt_id(prompts_view(catalog.prompts@), ids@[i as int]));
                        let ghost ids_v = shape.prompt_ids->Some_0;
                        assert(ids_v@[i as int] == ids@[i as int]);
                        assert(exists|j: int| 0 <= j < ids_v@.len() && is_builtin_prompt_id(prompts_view(catalog.prompts@), #[trigger] ids_v@[j]));
                    }
                    return true;
                }
            }
        }
    }
    if let Some(bs) = &shape.bindings {
        let n = bs.len();
        for i in 0..n
            invariant
                n == bs@.len(),
                shape.bindings == Some(*bs),
                shape.is_object,
                forall|j: int| 0 <= j < i ==> !stored_binding_is_stale(#[trigger] bs@[j]),
        {
            let b = &bs[i];
            if is_builtin_binding_id(b.id.as_str()) && b.is_object && (b.has_name || b.has_description
                || b.has_default_binding) {
                proof {
                    assert(stored_binding_is_stale(bs@[i as int]));
                    let ghost bs_v = shape.bindings->Some_0;
                    assert(bs_v@[i as int] == bs@[i as int]);
                    assert(exists|j: int| 0 <= j < bs_v@.len() && stored_binding_is_stale(#[trigger] bs_v@[j]));
                }
                return true;
            }
        }
    }
    false
}

/// What a stored post-processing provider entry shows: its `id` and
/// `base_url`, where they are strings in a JSON object.
#[derive(Debug, Clone)]
pub struct StoredProviderShape {
    pub id: Option<String>,
    pub base_url: Option<String>,
}

pub open spec fn is_custom_with_url(p: StoredProviderShape) -> bool {
    p.id matches Some(id) && id@ == "custom"@ && p.base_url is Some
}

/// The base URL of the first stored provider that is the custom one and has a URL.
pub open spec fn spec_recover_custom_base_url(providers: Option<Vec<StoredProviderShape>>) -> Option<Seq<char>> {
    match providers {
        Some(ps) => if exists|i: int| 0 <= i < ps@.len() && is_custom_with_url(#[trigger] ps@[i]) {
            let i = choose|i: int| 0 <= i < ps@.len() && is_custom_with_url(#[trigger] ps@[i]) && forall|j: int|
                0 <= j < i ==> !is_custom_with_url(#[trigger] ps@[j]);
            Some(ps@[i].base_url->Some_0@)
        } else {
            None
        },
        None => None,
    }
}

/// Finds the custom provider's base URL in a stored provider list (a JSON array).
pub fn recover_custom_post_process_base_url(providers: &Option<Vec<StoredProviderShape>>) -> (r: Option<String>)
    ensures
        r.deep_view() == spec_recover_custom_base_url(*providers),
{
    match providers {
        Some(ps) => {
            let n = ps.len();
            for i in 0..n
                invariant
                    n == ps@.len(),
                    *providers == Some(*ps),
                    forall|j: int| 0 <= j < i ==> !is_custom_with_url(#[trigger] ps@[j]),
            {
                let p = &ps[i];
                if let Some(id) = &p.id {
                    if str_eq(id.as_str(), "custom") {
                        if let Some(url) = &p.base_url {
                            proof {
                                assert(is_custom_with_url(ps@[i as int]));
                                assert(exists|k: int| 0 <= k < ps@.len() && is_custom_with_url(#[trigger] ps@[k]) && forall|j: int|
                                    0 <= j < k ==> !is_custom_with_url(#[trigger] ps@[j]));
                                let k = choose|k: int| 0 <= k < ps@.len() && is_custom_with_url(#[trigger] ps@[k]) && forall|j: int|
                                    0 <= j < k ==> !is_custom_with_url(#[trigger] ps@[j]);
                                assert(k == i) by {
                                    if k < i {
                                        assert(!is_custom_with_url(ps@[k]));
                                    }
                                    if k > i {
                                        assert(!is_custom_with_url(ps@[i as int]));
                                    }
                                }
                            }
                            return Some(url.clone());
                        }
                    }
                }
            }
            None
        },
        None => None,
    }
}

/// The custom provider's base URL as stored: the dedicated field where it holds
/// a string, or else the URL in a stored provider list.
pub open spec fn spec_configured_custom_base_url(
    field: Option<Seq<char>>,
    providers: Option<Vec<StoredProviderShape>>,
) -> Option<Seq<char>> {
    match field {
        Some(u) => Some(u),
        None => spec_recover_custom_base_url(providers),
    }
}

pub fn configured_custom_post_process_base_url(
    field: &Option<String>,
    providers: &Option<Vec<StoredProviderShape>>,
) -> (r: Option<String>)
    ensures
        r.deep_view() == spec_configured_custom_base_url(field.deep_view(), *providers),
{
    match field {
        Some(u) => Some(u.clone()),
        None => recover_custom_post_process_base_url(providers),
    }
}

/// Settings read from the store without error, reconciled with what the stored
/// value says: the custom provider gets the stored base URL, and where no
/// overlay switch was stored, the overlay is on unless its position is none.
/// Says whether that changed anything that must be written back.
pub fn reconcile_loaded_settings(
    settings: &mut AppSettings,
    is_object: bool,
    has_overlay_enabled: bool,
    custom_base_url: Option<String>,
) -> (updated: bool)
    ensures
        is_object ==> pp_providers_view(final(settings).post_process_providers@) == (if custom_base_url_changes(
            *old(settings),
            custom_base_url.deep_view(),
        ) {
            set_base_url(
                pp_providers_view(old(settings).post_process_providers@),
                "custom"@,
                custom_base_url->Some_0@,
            )
        } else {
            pp_providers_view(old(settings).post_process_providers@)
        }),
        final(settings).overlay_enabled == (if is_object && !has_overlay_enabled {
            old(settings).overlay_position != OverlayPosition::Hidden
        } else {
            old(settings).overlay_enabled
        }),
        !is_object ==> *final(settings) == *old(settings),
        *final(settings) == (AppSettings {
            post_process_providers: final(settings).post_process_providers,
            overlay_enabled: final(settings).overlay_enabled,
            ..*old(settings)
        }),
        updated == (is_object && (custom_base_url_changes(*old(settings), custom_base_url.deep_view())
            || !has_overlay_enabled)),
{
    if !is_object {
        return false;
    }
    let mut updated = apply_custom_post_process_base_url(settings, custom_base_url);
    if !has_overlay_enabled {
        settings.overlay_enabled = settings.overlay_position != OverlayPosition::Hidden;
        updated = true;
    }
    updated
}

/// The binding that a stored binding entry reads back as: an override gets
/// empty name, description and default key combination (the fields it does
/// not hold), a whole binding is itself.
pub open spec fn reloaded_binding(p: PersistedBindingView) -> ShortcutBindingView {
    match p {
        PersistedBindingView::Override { id, current_binding, post_process_prompt_id } => ShortcutBindingView {
            id,
            name: Seq::empty(),
            description: Seq::empty(),
            default_binding: Seq::empty(),
            current_binding,
            post_process_prompt_id,
        },
        PersistedBindingView::Full(b) => b,
    }
}

/// The bindings that stored binding entries read back as.
pub open spec fn reloaded_bindings(m: Map<Seq<char>, PersistedBindingView>) -> Map<Seq<char>, ShortcutBindingView> {
    m.map_values(|p: PersistedBindingView| reloaded_binding(p))
}

/// Normalised bindings written to the store and read back are normalised to
/// the same bindings: the built-in ones the user did not change come back
/// from the catalog, the changed ones with the user's key combination and
/// prompt, and the user's own whole.
pub proof fn lemma_persisted_bindings_round_trip(stored: Map<Seq<char>, ShortcutBindingView>, p: Platform)
    ensures
        ({
            let d = spec_default_bindings(p);
            let b = spec_normalized_bindings(stored, d);
            spec_normalized_bindings(reloaded_bindings(spec_persisted_bindings(b, d)), d) == b
        }),
{
    reveal(spec_normalized_bindings);
    lemma_default_shortcuts_non_empty(p);
    let d = spec_default_bindings(p);
    let b = spec_normalized_bindings(stored, d);
    let w = spec_persisted_bindings(b, d);
    let r = reloaded_bindings(w);
    let n = spec_normalized_bindings(r, d);
    assert forall|k: Seq<char>| #[trigger] n.contains_key(k) == b.contains_key(k) by {}
    assert forall|k: Seq<char>| #[trigger] n.contains_key(k) implies n[k] == b[k] by {
        if d.contains_key(k) {
            if w.contains_key(k) {
                assert(r[k] == reloaded_binding(w[k]));
            }
        } else {
            assert(w.contains_key(k));
            assert(r[k] == b[k]);
        }
    }
    assert(n =~= b);
}

/// Normalised prompts written to the store (their custom ones) and read
/// back are normalised to the same prompts.
pub proof fn lemma_persisted_prompts_round_trip(builtin: Seq<LLMPromptView>, stored: Seq<LLMPromptView>)
    ensures
        ({
            let n = spec_normalized_prompts(builtin, stored);
            spec_normalized_prompts(builtin, custom_prompts(builtin, n)) == n
        }),
{
    crate::settings::post_process::lemma_normalized_prompts_idempotent(builtin, stored);
    let n = spec_normalized_prompts(builtin, stored);
    crate::settings::post_process::lemma_custom_prompts_idempotent(builtin, n);
    reveal(spec_normalized_prompts);
}

/// The custom provider's base URL in a provider list, if it has a custom provider.
pub open spec fn custom_url_of(ps: Seq<PostProcessProviderView>) -> Option<Seq<char>> {
    match spec_find_pp_provider(ps, "custom"@) {
        Some(c) => Some(c.base_url),
        None => None,
    }
}

/// Normalised post-processing providers, written to the store as the custom
/// provider's base URL alone and read back as the built-in providers given
/// that URL, are the providers that were written.
pub proof fn lemma_persisted_pp_providers_round_trip(
    defaults: Seq<PostProcessProviderView>,
    stored: Seq<PostProcessProviderView>,
)
    ensures
        ({
            let n = spec_normalized_pp_providers(defaults, stored);
            applied_custom_url(defaults, custom_url_of(n)) == n
        }),
{
    reveal(spec_normalized_pp_providers);
    let n = spec_normalized_pp_providers(defaults, stored);
    crate::settings::post_process::lemma_first_pp_provider_index(defaults, "custom"@);
    let i = crate::settings::post_process::first_pp_provider_index(defaults, "custom"@);
    match spec_find_pp_provider(stored, "custom"@) {
        Some(c) => {
            crate::settings::post_process::lemma_set_base_url_found(defaults, "custom"@, c.base_url);
            if i < defaults.len() && defaults[i].base_url == c.base_url {
                assert(n =~= defaults);
            }
        },
        None => {
            if i < defaults.len() {
                assert(crate::settings::post_process::set_base_url(defaults, "custom"@, defaults[i].base_url) =~= defaults);
            }
        },
    }
}

/// A custom base URL written with the settings comes back: the stored field
/// is the URL read, and giving it to the custom provider of the settings read
/// back leaves that provider with the URL.
pub proof fn lemma_custom_base_url_round_trip(
    saved: AppSettings,
    loaded: Seq<PostProcessProviderView>,
    providers: Option<Vec<StoredProviderShape>>,
)
    requires
        crate::settings::app_settings::spec_custom_base_url(saved) is Some,
        spec_find_pp_provider(loaded, "custom"@) is Some,
    ensures
        spec_find_pp_provider(
            applied_custom_url(
                loaded,
                spec_configured_custom_base_url(crate::settings::app_settings::spec_custom_base_url(saved), providers),
            ),
            "custom"@,
        )->Some_0.base_url == crate::settings::app_settings::spec_custom_base_url(saved)->Some_0,
{
    let u = crate::settings::app_settings::spec_custom_base_url(saved)->Some_0;
    lemma_custom_base_url_settles(loaded, u);
}

/// What the store is written with in place of the catalogs that the settings
/// hold: the bindings as written, the custom prompts, and the custom
/// provider's base URL. The provider catalogs themselves are not written.
#[derive(Debug)]
pub struct PersistedParts {
    pub bindings: StrMap<PersistedBinding>,
    pub prompts: Vec<LLMPrompt>,
    pub custom_base_url: Option<String>,
}

/// The parts of the settings that are written to the store in their own form.
pub fn persisted_settings_parts(
    settings: &AppSettings,
    platform: Platform,
    catalog: &PostProcessCatalog,
) -> (r: PersistedParts)
    ensures
        r.bindings@ == spec_persisted_bindings(settings.bindings@, spec_default_bindings(platform)),
        prompts_view(r.prompts@) == custom_prompts(prompts_view(catalog.prompts@), prompts_view(settings.post_process_prompts@)),
        r.custom_base_url.deep_view() == crate::settings::app_settings::spec_custom_base_url(*settings),
{
    PersistedParts {
        bindings: persisted_bindings(settings, platform),
        prompts: persisted_prompts(settings, catalog),
        custom_base_url: crate::settings::app_settings::custom_post_process_base_url(settings),
    }
}

/// Settings written to the store do not call for a rewrite when read back:
/// the written value holds no provider catalog, only custom prompts, and
/// only user-defined bindings whole (built-in ones as overrides without
/// their descriptive fields). `shape` is what the written value shows.
pub proof fn lemma_written_settings_need_no_rewrite(
    settings: AppSettings,
    platform: Platform,
    catalog: PostProcessCatalog,
    shape: StoredSettingsShape,
)
    requires
        !shape.has_stt_providers,
        !shape.has_post_process_providers,
        shape.prompt_ids matches Some(ids) && {
            let custom = custom_prompts(prompts_view(catalog.prompts@), prompts_view(settings.post_process_prompts@));
            &&& ids@.len() == custom.len()
            &&& forall|i: int| 0 <= i < ids@.len() ==> ((#[trigger] ids@[i]) matches Some(id) && id@ == custom[i].id)
        },
        shape.bindings matches Some(bs) && {
            let written = spec_persisted_bindings(settings.bindings@, spec_default_bindings(platform));
            forall|i: int| 0 <= i < bs@.len() ==> {
                let b = #[trigger] bs@[i];
                &&& written.contains_key(b.id@)
                &&& (b.has_name || b.has_description || b.has_default_binding) ==> written[b.id@] is Full
            }
        },
    ensures
        !spec_requires_rewrite(shape, prompts_view(catalog.prompts@)),
{
    let builtin = prompts_view(catalog.prompts@);
    let custom = custom_prompts(builtin, prompts_view(settings.post_process_prompts@));
    let pred = |p: crate::settings::post_process::LLMPromptView| !spec_is_builtin_prompt(builtin, p.id);
    let ids = shape.prompt_ids->Some_0;
    assert forall|i: int| 0 <= i < ids@.len() implies !is_builtin_prompt_id(builtin, #[trigger] ids@[i]) by {
        prompts_view(settings.post_process_prompts@).lemma_filter_pred(pred, i);
    }
    let bs = shape.bindings->Some_0;
    let d = spec_default_bindings(platform);
    assert forall|i: int| 0 <= i < bs@.len() implies !stored_binding_is_stale(#[trigger] bs@[i]) by {
        crate::settings::bindings::lemma_builtin_ids(platform, bs@[i].id@);
    }
}

/// A stored value that is not an object never calls for a rewrite; an object
/// that still holds a provider catalog (as settings written out whole do)
/// always does.
pub proof fn lemma_requires_rewrite_cases(shape: StoredSettingsShape, builtin: Seq<LLMPromptView>)
    ensures
        !shape.is_object ==> !spec_requires_rewrite(shape, builtin),
        shape.is_object && (shape.has_stt_providers || shape.has_post_process_providers) ==> spec_requires_rewrite(
            shape,
            builtin,
        ),
{
}

/// What the value written for these settings shows of the parts that decide
/// a rewrite: an object with no provider catalog, the ids of the custom
/// prompts in order, and one entry per written binding, which holds the
/// descriptive fields exactly when the binding is written whole. Such a
/// value never calls for a rewrite.
pub fn written_settings_shape(
    settings: &AppSettings,
    platform: Platform,
    catalog: &PostProcessCatalog,
) -> (r: StoredSettingsShape)
    ensures
        r.is_object,
        !r.has_stt_providers,
        !r.has_post_process_providers,
        r.prompt_ids matches Some(ids) && {
            let custom = custom_prompts(prompts_view(catalog.prompts@), prompts_view(settings.post_process_prompts@));
            &&& ids@.len() == custom.len()
            &&& forall|i: int| 0 <= i < ids@.len() ==> ((#[trigger] ids@[i]) matches Some(id) && id@ == custom[i].id)
        },
        r.bindings matches Some(bs) && {
            let written = spec_persisted_bindings(settings.bindings@, spec_default_bindings(platform));
            &&& forall|i: int| 0 <= i < bs@.len() ==> {
                let b = #[trigger] bs@[i];
                &&& written.contains_key(b.id@)
                &&& b.is_object
                &&& b.has_name == (written[b.id@] is Full)
                &&& b.has_description == (written[b.id@] is Full)
                &&& b.has_default_binding == (written[b.id@] is Full)
            }
            &&& forall|k: Seq<char>| #[trigger] written.contains_key(k) ==> exists|i: int| 0 <= i < bs@.len() && bs@[i].id@ == k
        },
        !spec_requires_rewrite(r, prompts_view(catalog.prompts@)),
{
    let parts = persisted_settings_parts(settings, platform, catalog);
    let ghost custom = custom_prompts(prompts_view(catalog.prompts@), prompts_view(settings.post_process_prompts@));
    let ghost written = spec_persisted_bindings(settings.bindings@, spec_default_bindings(platform));
    let mut ids: Vec<Option<String>> = Vec::new();
    let np = parts.prompts.len();
    for i in 0..np
        invariant
            np == parts.prompts@.len(),
            prompts_view(parts.prompts@) == custom,
            ids@.len() == i,
            forall|j: int| 0 <= j < i ==> ((#[trigger] ids@[j]) matches Some(id) && id@ == custom[j].id),
    {
        proof {
            assert(prompts_view(parts.prompts@)[i as int] == parts.prompts@[i as int]@);
        }
        ids.push(Some(parts.prompts[i].id.clone()));
    }
    let mut bs: Vec<StoredBindingShape> = Vec::new();
    let nb = parts.bindings.entries.len();
    let ghost es = parts.bindings.entries@;
    for i in 0..nb
        invariant
            nb == es.len(),
            es == parts.bindings.entries@,
            parts.bindings@ == written,
            bs@.len() == i,
            forall|j: int| 0 <= j < i ==> {
                let b = #[trigger] bs@[j];
                &&& b.id@ == es[j].0@
                &&& written.contains_key(b.id@)
                &&& b.is_object
                &&& b.has_name == (written[b.id@] is Full)
                &&& b.has_description == (written[b.id@] is Full)
                &&& b.has_default_binding == (written[b.id@] is Full)
            },
    {
        let key = &parts.bindings.entries[i].0;
        proof {
            crate::str_map::lemma_first_key_index(es, key@);
        }
        let whole = match parts.bindings.get(key.as_str()) {
            Some(PersistedBinding::Full(_)) => true,
            _ => false,
        };
        bs.push(
            StoredBindingShape {
                id: key.clone(),
                is_object: true,
                has_name: whole,
                has_description: whole,
                has_default_binding: whole,
            },
        );
    }
    proof {
        assert forall|k: Seq<char>| #[trigger] written.contains_key(k) implies exists|i: int|
            0 <= i < bs@.len() && bs@[i].id@ == k by {
            crate::str_map::lemma_first_key_index(es, k);
            let f = crate::str_map::first_key_index(es, k);
            assert(bs@[f].id@ == k);
        }
    }
    let r = StoredSettingsShape {
        is_object: true,
        has_stt_providers: false,
        has_post_process_providers: false,
        prompt_ids: Some(ids),
        bindings: Some(bs),
    };
    proof {
        lemma_written_settings_need_no_rewrite(*settings, platform, *catalog, r);
    }
    r
}

} // verus!
