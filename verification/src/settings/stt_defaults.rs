//! Bringing stored speech-to-text settings up to date with the built-in
//! provider catalog.
use vstd::prelude::*;
use crate::settings::app_settings::AppSettings;
use crate::settings::enums::SttProviderType;
use crate::settings::stt_catalog::{
    SttProvider, SttProviderView, providers_view, default_stt_providers, spec_default_stt_providers,
    first_stt_provider_index, find_stt_provider, cloud_default_fn, CloudDefault,
    lemma_first_stt_provider_index, lemma_first_stt_provider_index_unique,
    PARAKEET_UNIFIED_MODEL_ID, PARAKEET_DEFAULT_CHUNK_MS,
};
use crate::stt_provider::{
    SttProviderInfo, SttProviderInfoView, cloud_provider_registry, registry_view,
    spec_cloud_provider_registry,
};
use crate::str_map::StrMap;
use crate::text::{owned, str_eq};

verus! {

broadcast use vstd::string::group_string_axioms;

/// Whether syncing a stored provider list with one built-in provider changes it:
/// the provider is missing, or its first entry has another default model.
pub open spec fn sync_step_changes(ps: Seq<SttProviderView>, d: SttProviderView) -> bool {
    let f = first_stt_provider_index(ps, d.id);
    f >= ps.len() || ps[f].default_model != d.default_model
}

/// The stored providers synced with one built-in provider: its first entry takes
/// the built-in default model, or the built-in provider is appended if missing.
pub open spec fn sync_provider(ps: Seq<SttProviderView>, d: SttProviderView) -> Seq<SttProviderView> {
    let f = first_stt_provider_index(ps, d.id);
    if f < ps.len() {
        if ps[f].default_model != d.default_model {
            ps.update(f, SttProviderView { default_model: d.default_model, ..ps[f] })
        } else {
            ps
        }
    } else {
        ps.push(d)
    }
}

/// The stored providers synced with each built-in provider in turn.
#[verifier::opaque]
pub open spec fn sync_providers(ps: Seq<SttProviderView>, ds: Seq<SttProviderView>) -> Seq<SttProviderView>
    decreases ds.len(),
{
    if ds.len() == 0 {
        ps
    } else {
        sync_provider(sync_providers(ps, ds.drop_last()), ds.last())
    }
}

/// Whether any step of syncing changes the list.
#[verifier::opaque]
pub open spec fn sync_changes(ps: Seq<SttProviderView>, ds: Seq<SttProviderView>) -> bool
    decreases ds.len(),
{
    if ds.len() == 0 {
        false
    } else {
        sync_changes(ps, ds.drop_last()) || sync_step_changes(sync_providers(ps, ds.drop_last()), ds.last())
    }
}

/// A per-provider map with the starting value added for each cloud provider
/// that has none.
#[verifier::opaque]
pub open spec fn fill_cloud(
    m: Map<Seq<char>, Seq<char>>,
    ds: Seq<SttProviderView>,
    f: spec_fn(SttProviderView) -> Seq<char>,
) -> Map<Seq<char>, Seq<char>>
    decreases ds.len(),
{
    if ds.len() == 0 {
        m
    } else {
        let m0 = fill_cloud(m, ds.drop_last(), f);
        let d = ds.last();
        if d.provider_type == SttProviderType::Cloud && !m0.contains_key(d.id) {
            m0.insert(d.id, f(d))
        } else {
            m0
        }
    }
}

/// Whether filling adds any entry.
#[verifier::opaque]
pub open spec fn fill_cloud_changes(
    m: Map<Seq<char>, Seq<char>>,
    ds: Seq<SttProviderView>,
    f: spec_fn(SttProviderView) -> Seq<char>,
) -> bool
    decreases ds.len(),
{
    if ds.len() == 0 {
        false
    } else {
        let m0 = fill_cloud(m, ds.drop_last(), f);
        let d = ds.last();
        fill_cloud_changes(m, ds.drop_last(), f) || (d.provider_type == SttProviderType::Cloud
            && !m0.contains_key(d.id))
    }
}

/// The realtime switches with `true` added for each provider of the registry
/// that can stream and has no switch yet.
#[verifier::opaque]
pub open spec fn fill_realtime(m: Map<Seq<char>, bool>, infos: Seq<SttProviderInfoView>) -> Map<Seq<char>, bool>
    decreases infos.len(),
{
    if infos.len() == 0 {
        m
    } else {
        let m0 = fill_realtime(m, infos.drop_last());
        let i = infos.last();
        if i.supports_realtime && !m0.contains_key(i.id) {
            m0.insert(i.id, true)
        } else {
            m0
        }
    }
}

#[verifier::opaque]
pub open spec fn fill_realtime_changes(m: Map<Seq<char>, bool>, infos: Seq<SttProviderInfoView>) -> bool
    decreases infos.len(),
{
    if infos.len() == 0 {
        false
    } else {
        let m0 = fill_realtime(m, infos.drop_last());
        let i = infos.last();
        fill_realtime_changes(m, infos.drop_last()) || (i.supports_realtime && !m0.contains_key(i.id))
    }
}

/// The map with `v` under `k`, unless `k` already has a value.
pub open spec fn fill_key<V>(m: Map<Seq<char>, V>, k: Seq<char>, v: V) -> Map<Seq<char>, V> {
    if m.contains_key(k) {
        m
    } else {
        m.insert(k, v)
    }
}

/// The speech-to-text part of the settings after bringing it up to date.
pub open spec fn stt_defaults_applied(old_s: AppSettings, new_s: AppSettings) -> bool {
    let ds = spec_default_stt_providers();
    let realtime = fill_realtime(old_s.stt_realtime_enabled@, spec_cloud_provider_registry());
    &&& providers_view(new_s.stt_providers@) == sync_providers(providers_view(old_s.stt_providers@), ds)
    &&& new_s.stt_api_keys@ == fill_cloud(old_s.stt_api_keys@, ds, cloud_default_fn(CloudDefault::EmptyKey))
    &&& new_s.stt_cloud_models@ == fill_cloud(old_s.stt_cloud_models@, ds, cloud_default_fn(CloudDefault::DefaultModel))
    &&& new_s.stt_cloud_options@ == fill_cloud(old_s.stt_cloud_options@, ds, cloud_default_fn(CloudDefault::EmptyOptions))
    &&& new_s.stt_realtime_enabled@ == fill_key(realtime, PARAKEET_UNIFIED_MODEL_ID@, true)
    &&& new_s.stt_realtime_chunk_ms@ == fill_key(old_s.stt_realtime_chunk_ms@, PARAKEET_UNIFIED_MODEL_ID@, 560u64)
    &&& new_s == (AppSettings {
        stt_providers: new_s.stt_providers,
        stt_api_keys: new_s.stt_api_keys,
        stt_cloud_models: new_s.stt_cloud_models,
        stt_cloud_options: new_s.stt_cloud_options,
        stt_realtime_enabled: new_s.stt_realtime_enabled,
        stt_realtime_chunk_ms: new_s.stt_realtime_chunk_ms,
        ..old_s
    })
}

/// Whether bringing speech-to-text settings with these providers and maps up
/// to date changes anything.
pub open spec fn stt_fields_change(
    ps: Seq<SttProviderView>,
    api_keys: Map<Seq<char>, Seq<char>>,
    models: Map<Seq<char>, Seq<char>>,
    options: Map<Seq<char>, Seq<char>>,
    realtime_enabled: Map<Seq<char>, bool>,
    chunk_ms: Map<Seq<char>, u64>,
) -> bool {
    let ds = spec_default_stt_providers();
    let realtime = fill_realtime(realtime_enabled, spec_cloud_provider_registry());
    ||| sync_changes(ps, ds)
    ||| fill_cloud_changes(api_keys, ds, cloud_default_fn(CloudDefault::EmptyKey))
    ||| fill_cloud_changes(models, ds, cloud_default_fn(CloudDefault::DefaultModel))
    ||| fill_cloud_changes(options, ds, cloud_default_fn(CloudDefault::EmptyOptions))
    ||| fill_realtime_changes(realtime_enabled, spec_cloud_provider_registry())
    ||| !realtime.contains_key(PARAKEET_UNIFIED_MODEL_ID@)
    ||| !chunk_ms.contains_key(PARAKEET_UNIFIED_MODEL_ID@)
}

/// Whether bringing the speech-to-text settings up to date changes anything.
pub open spec fn stt_defaults_change(s: AppSettings) -> bool {
    stt_fields_change(
        providers_view(s.stt_providers@),
        s.stt_api_keys@,
        s.stt_cloud_models@,
        s.stt_cloud_options@,
        s.stt_realtime_enabled@,
        s.stt_realtime_chunk_ms@,
    )
}

fn sync_stt_provider(ps: &mut Vec<SttProvider>, d: &SttProvider) -> (changed: bool)
    ensures
        providers_view(final(ps)@) == sync_provider(providers_view(old(ps)@), d@),
        changed == sync_step_changes(providers_view(old(ps)@), d@),
{
    let ghost before = providers_view(ps@);
    match find_stt_provider(ps, d.id.as_str()) {
        Some(i) => {
            if !str_eq(ps[i].default_model.as_str(), d.default_model.as_str()) {
                let mut p = ps[i].duplicate();
                p.default_model = d.default_model.clone();
                let ghost pv = p@;
                ps.set(i, p);
                proof {
                    assert(providers_view(ps@) =~= before.update(i as int, pv));
                }
                true
            } else {
                false
            }
        },
        None => {
            let p = d.duplicate();
            ps.push(p);
            proof {
                assert(providers_view(ps@) =~= before.push(d@));
            }
            true
        },
    }
}

fn fill_missing_string(m: &mut StrMap<String>, key: &String, value: String) -> (changed: bool)
    ensures
        final(m)@ == fill_key(old(m)@, key@, value@),
        changed == !old(m)@.contains_key(key@),
{
    if m.contains_key(key.as_str()) {
        false
    } else {
        m.insert(key.clone(), value);
        true
    }
}

fn sync_providers_exec(ps: &mut Vec<SttProvider>, defaults: &Vec<SttProvider>) -> (changed: bool)
    ensures
        providers_view(final(ps)@) == sync_providers(providers_view(old(ps)@), providers_view(defaults@)),
        changed == sync_changes(providers_view(old(ps)@), providers_view(defaults@)),
{
    let ghost p0 = providers_view(ps@);
    let ghost ds = providers_view(defaults@);
    let mut changed = false;
    let n = defaults.len();
    proof {
        reveal(sync_providers);
        reveal(sync_changes);
        reveal(fill_cloud);
        reveal(fill_cloud_changes);
        assert(ds.take(0) =~= Seq::<SttProviderView>::empty());
    }
    for i in 0..n
        invariant
            n == defaults@.len(),
            ds == providers_view(defaults@),
            providers_view(ps@) == sync_providers(p0, ds.take(i as int)),
            changed == sync_changes(p0, ds.take(i as int)),
    {
        proof {
            reveal(sync_providers);
            reveal(sync_changes);
            assert(ds.take(i + 1).drop_last() =~= ds.take(i as int));
            assert(ds.take(i + 1).last() == defaults@[i as int]@);
        }
        let c = sync_stt_provider(ps, &defaults[i]);
        changed = changed || c;
    }
    proof {
        assert(ds.take(n as int) =~= ds);
    }
    changed
}

fn fill_cloud_exec(m: &mut StrMap<String>, defaults: &Vec<SttProvider>, which: CloudDefault) -> (changed: bool)
    ensures
        final(m)@ == fill_cloud(old(m)@, providers_view(defaults@), cloud_default_fn(which)),
        changed == fill_cloud_changes(old(m)@, providers_view(defaults@), cloud_default_fn(which)),
{
    let ghost m0 = m@;
    let ghost ds = providers_view(defaults@);
    let mut changed = false;
    let n = defaults.len();
    proof {
        reveal(sync_providers);
        reveal(sync_changes);
        reveal(fill_cloud);
        reveal(fill_cloud_changes);
        assert(ds.take(0) =~= Seq::<SttProviderView>::empty());
    }
    for i in 0..n
        invariant
            n == defaults@.len(),
            ds == providers_view(defaults@),
            m@ == fill_cloud(m0, ds.take(i as int), cloud_default_fn(which)),
            changed == fill_cloud_changes(m0, ds.take(i as int), cloud_default_fn(which)),
    {
        let d = &defaults[i];
        proof {
            reveal(fill_cloud);
            reveal(fill_cloud_changes);
            assert(ds.take(i + 1).drop_last() =~= ds.take(i as int));
            assert(ds.take(i + 1).last() == d@);
        }
        if d.provider_type == SttProviderType::Cloud {
            let v = match which {
                CloudDefault::EmptyKey => String::new(),
                CloudDefault::EmptyOptions => owned("{}"),
                CloudDefault::DefaultModel => d.default_model.clone(),
            };
            let c = fill_missing_string(m, &d.id, v);
            changed = changed || c;
        }
    }
    proof {
        assert(ds.take(n as int) =~= ds);
    }
    changed
}

fn fill_realtime_exec(m: &mut StrMap<bool>, infos: &Vec<SttProviderInfo>) -> (changed: bool)
    ensures
        final(m)@ == fill_realtime(old(m)@, registry_view(infos@)),
        changed == fill_realtime_changes(old(m)@, registry_view(infos@)),
{
    let ghost m0 = m@;
    let ghost rs = registry_view(infos@);
    let mut changed = false;
    let n = infos.len();
    proof {
        reveal(fill_realtime);
        reveal(fill_realtime_changes);
        assert(rs.take(0) =~= Seq::<SttProviderInfoView>::empty());
    }
    for j in 0..n
        invariant
            n == infos@.len(),
            rs == registry_view(infos@),
            m@ == fill_realtime(m0, rs.take(j as int)),
            changed == fill_realtime_changes(m0, rs.take(j as int)),
    {
        let info = &infos[j];
        proof {
            reveal(fill_realtime);
            reveal(fill_realtime_changes);
            assert(rs.take(j + 1).drop_last() =~= rs.take(j as int));
            assert(rs.take(j + 1).last() == info@);
        }
        if info.supports_realtime && !m.contains_key(info.id.as_str()) {
            m.insert(info.id.clone(), true);
            changed = true;
        }
    }
    proof {
        assert(rs.take(n as int) =~= rs);
    }
    changed
}

/// The updates of `ensure_stt_defaults`, field by field.
fn update_stt_fields(settings: &mut AppSettings) -> (changed: bool)
    ensures
        stt_defaults_applied(*old(settings), *final(settings)),
        changed == stt_defaults_change(*old(settings)),
{
    let defaults = default_stt_providers();
    let c1 = sync_providers_exec(&mut settings.stt_providers, &defaults);
    let c2 = fill_cloud_exec(&mut settings.stt_api_keys, &defaults, CloudDefault::EmptyKey);
    let c3 = fill_cloud_exec(&mut settings.stt_cloud_models, &defaults, CloudDefault::DefaultModel);
    let c4 = fill_cloud_exec(&mut settings.stt_cloud_options, &defaults, CloudDefault::EmptyOptions);
    let registry = cloud_provider_registry();
    let c5 = fill_realtime_exec(&mut settings.stt_realtime_enabled, &registry);
    let mut changed = c1 || c2 || c3 || c4 || c5;
    if !settings.stt_realtime_enabled.contains_key(PARAKEET_UNIFIED_MODEL_ID) {
        settings.stt_realtime_enabled.insert(owned(PARAKEET_UNIFIED_MODEL_ID), true);
        changed = true;
    }
    if !settings.stt_realtime_chunk_ms.contains_key(PARAKEET_UNIFIED_MODEL_ID) {
        settings.stt_realtime_chunk_ms.insert(owned(PARAKEET_UNIFIED_MODEL_ID), PARAKEET_DEFAULT_CHUNK_MS);
        changed = true;
    }
    changed
}

/// Brings the speech-to-text settings up to date with the built-in catalog:
/// syncs the default model of each built-in provider and adds the ones that
/// are missing, gives every cloud provider an API key, a model and options
/// where it has none, and switches realtime streaming on for the providers that
/// support it and have no switch yet. Says whether anything changed.
pub fn ensure_stt_defaults(settings: &mut AppSettings) -> (changed: bool)
    ensures
        stt_defaults_applied(*old(settings), *final(settings)),
        changed == stt_defaults_change(*old(settings)),
        changed == !stt_fields_same(*old(settings), *final(settings)),
{
    let changed = update_stt_fields(settings);
    proof {
        lemma_stt_defaults_change_iff(*old(settings), *settings);
    }
    changed
}

/// Whether no two providers share an id.
pub open spec fn distinct_ids(ds: Seq<SttProviderView>) -> bool {
    forall|i: int, j: int| 0 <= i < j < ds.len() ==> #[trigger] ds[i].id != #[trigger] ds[j].id
}

/// Whether every provider of `ds` is present in `ps`, its first entry with the
/// provider's default model.
pub open spec fn synced_with(ps: Seq<SttProviderView>, ds: Seq<SttProviderView>) -> bool {
    forall|j: int| 0 <= j < ds.len() ==> {
        let f = #[trigger] first_stt_provider_index(ps, ds[j].id);
        f < ps.len() && ps[f].default_model == ds[j].default_model
    }
}

/// The built-in providers have distinct ids.
proof fn lemma_default_ids_distinct()
    ensures
        distinct_ids(spec_default_stt_providers()),
{
    reveal(spec_default_stt_providers);
    reveal_strlit("local");
    reveal_strlit("openai_stt");
    reveal_strlit("cartesia");
    reveal_strlit("mistral");
    reveal_strlit("elevenlabs");
    reveal_strlit("groq");
    reveal_strlit("soniox");
    reveal_strlit("deepgram");
    reveal_strlit("assemblyai");
    reveal_strlit("fireworks");
    reveal_strlit("doubao");
    let ds = spec_default_stt_providers();
    assert forall|i: int, j: int| 0 <= i < j < ds.len() implies #[trigger] ds[i].id != #[trigger] ds[j].id by {
        let a = ds[i].id;
        let b = ds[j].id;
        if a.len() == b.len() {
            assert(a[0] != b[0] || a[1] != b[1]);
        }
    }
}

/// Syncing with one provider keeps the ids at every place and may only append.
proof fn lemma_sync_provider_shape(ps: Seq<SttProviderView>, d: SttProviderView)
    ensures
        sync_provider(ps, d).len() >= ps.len(),
        forall|x: int| 0 <= x < ps.len() ==> #[trigger] sync_provider(ps, d)[x].id == ps[x].id,
        forall|x: int| 0 <= x < ps.len() && ps[x].id != d.id ==> #[trigger] sync_provider(ps, d)[x] == ps[x],
{
    lemma_first_stt_provider_index(ps, d.id);
}

/// After syncing with a list of distinct providers, the list is synced with each of them.
proof fn lemma_sync_establishes(ps: Seq<SttProviderView>, ds: Seq<SttProviderView>)
    requires
        distinct_ids(ds),
    ensures
        synced_with(sync_providers(ps, ds), ds),
    decreases ds.len(),
{
    if ds.len() > 0 {
        let dp = ds.drop_last();
        let d = ds.last();
        lemma_sync_establishes(ps, dp);
        reveal(sync_providers);
        let s0 = sync_providers(ps, dp);
        let t = sync_providers(ps, ds);
        assert(t == sync_provider(s0, d));
        lemma_sync_provider_shape(s0, d);
        lemma_first_stt_provider_index(s0, d.id);
        assert forall|j: int| 0 <= j < ds.len() implies {
            let f = #[trigger] first_stt_provider_index(t, ds[j].id);
            f < t.len() && t[f].default_model == ds[j].default_model
        } by {
            let k = ds[j].id;
            if j < ds.len() - 1 {
                assert(dp[j] == ds[j]);
                let f0 = first_stt_provider_index(s0, k);
                assert(f0 < s0.len() && s0[f0].default_model == ds[j].default_model);
                lemma_first_stt_provider_index(s0, k);
                assert(k != d.id);
                assert forall|x: int| 0 <= x < f0 implies t[x].id != k by {
                    assert(t[x].id == s0[x].id);
                }
                lemma_first_stt_provider_index_unique(t, k, f0);
                assert(t[f0] == s0[f0]);
            } else {
                let fd = first_stt_provider_index(s0, d.id);
                assert forall|x: int| 0 <= x < fd implies t[x].id != d.id by {
                    assert(t[x].id == s0[x].id);
                }
                if fd < s0.len() {
                    lemma_first_stt_provider_index_unique(t, d.id, fd);
                } else {
                    assert(t == s0.push(d));
                    lemma_first_stt_provider_index_unique(t, d.id, s0.len() as int);
                }
            }
        }
    }
}

/// Syncing a list that is already synced with each provider changes nothing.
proof fn lemma_sync_noop(ps: Seq<SttProviderView>, ds: Seq<SttProviderView>)
    requires
        synced_with(ps, ds),
    ensures
        sync_providers(ps, ds) == ps,
        !sync_changes(ps, ds),
    decreases ds.len(),
{
    reveal(sync_providers);
    reveal(sync_changes);
    if ds.len() > 0 {
        let dp = ds.drop_last();
        assert forall|j: int| 0 <= j < dp.len() implies {
            let f = #[trigger] first_stt_provider_index(ps, dp[j].id);
            f < ps.len() && ps[f].default_model == dp[j].default_model
        } by {
            assert(dp[j] == ds[j]);
            assert(first_stt_provider_index(ps, ds[j].id) < ps.len());
        }
        lemma_sync_noop(ps, dp);
        let last = ds.len() - 1;
        assert(first_stt_provider_index(ps, ds[last].id) < ps.len());
    }
}

/// Filling keeps every key and gives every cloud provider of the list a value.
proof fn lemma_fill_cloud_covers(
    m: Map<Seq<char>, Seq<char>>,
    ds: Seq<SttProviderView>,
    f: spec_fn(SttProviderView) -> Seq<char>,
)
    ensures
        forall|k: Seq<char>| m.contains_key(k) ==> #[trigger] fill_cloud(m, ds, f).contains_key(k),
        forall|j: int|
            0 <= j < ds.len() && ds[j].provider_type == SttProviderType::Cloud ==> fill_cloud(
                m,
                ds,
                f,
            ).contains_key(#[trigger] ds[j].id),
    decreases ds.len(),
{
    reveal(fill_cloud);
    if ds.len() > 0 {
        lemma_fill_cloud_covers(m, ds.drop_last(), f);
        assert forall|k: Seq<char>| m.contains_key(k) implies #[trigger] fill_cloud(m, ds, f).contains_key(k) by {
            assert(fill_cloud(m, ds.drop_last(), f).contains_key(k));
        }
        assert forall|j: int|
            0 <= j < ds.len() && ds[j].provider_type == SttProviderType::Cloud implies fill_cloud(
                m,
                ds,
                f,
            ).contains_key(#[trigger] ds[j].id) by {
            if j < ds.len() - 1 {
                assert(ds.drop_last()[j] == ds[j]);
            }
        }
    }
}

/// Filling a map that has a value for every cloud provider changes nothing.
proof fn lemma_fill_cloud_noop(
    m: Map<Seq<char>, Seq<char>>,
    ds: Seq<SttProviderView>,
    f: spec_fn(SttProviderView) -> Seq<char>,
)
    requires
        forall|j: int|
            0 <= j < ds.len() && ds[j].provider_type == SttProviderType::Cloud ==> m.contains_key(
                #[trigger] ds[j].id,
            ),
    ensures
        fill_cloud(m, ds, f) == m,
        !fill_cloud_changes(m, ds, f),
    decreases ds.len(),
{
    reveal(fill_cloud);
    reveal(fill_cloud_changes);
    if ds.len() > 0 {
        let dp = ds.drop_last();
        assert forall|j: int|
            0 <= j < dp.len() && dp[j].provider_type == SttProviderType::Cloud implies m.contains_key(
                #[trigger] dp[j].id,
            ) by {
            assert(dp[j] == ds[j]);
        }
        lemma_fill_cloud_noop(m, dp, f);
        let last = ds.len() - 1;
        assert(ds[last] == ds.last());
    }
}

/// Filling keeps every switch and gives every provider that can stream one.
proof fn lemma_fill_realtime_covers(m: Map<Seq<char>, bool>, infos: Seq<SttProviderInfoView>)
    ensures
        forall|k: Seq<char>| m.contains_key(k) ==> #[trigger] fill_realtime(m, infos).contains_key(k),
        forall|j: int|
            0 <= j < infos.len() && infos[j].supports_realtime ==> fill_realtime(m, infos).contains_key(
                #[trigger] infos[j].id,
            ),
    decreases infos.len(),
{
    reveal(fill_realtime);
    if infos.len() > 0 {
        lemma_fill_realtime_covers(m, infos.drop_last());
        assert forall|k: Seq<char>| m.contains_key(k) implies #[trigger] fill_realtime(m, infos).contains_key(k) by {
            assert(fill_realtime(m, infos.drop_last()).contains_key(k));
        }
        assert forall|j: int|
            0 <= j < infos.len() && infos[j].supports_realtime implies fill_realtime(m, infos).contains_key(
                #[trigger] infos[j].id,
            ) by {
            if j < infos.len() - 1 {
                assert(infos.drop_last()[j] == infos[j]);
            }
        }
    }
}

/// Filling switches that every streaming provider already has changes nothing.
proof fn lemma_fill_realtime_noop(m: Map<Seq<char>, bool>, infos: Seq<SttProviderInfoView>)
    requires
        forall|j: int| 0 <= j < infos.len() && infos[j].supports_realtime ==> m.contains_key(#[trigger] infos[j].id),
    ensures
        fill_realtime(m, infos) == m,
        !fill_realtime_changes(m, infos),
    decreases infos.len(),
{
    reveal(fill_realtime);
    reveal(fill_realtime_changes);
    if infos.len() > 0 {
        let ip = infos.drop_last();
        assert forall|j: int| 0 <= j < ip.len() && ip[j].supports_realtime implies m.contains_key(#[trigger] ip[j].id) by {
            assert(ip[j] == infos[j]);
        }
        lemma_fill_realtime_noop(m, ip);
        let last = infos.len() - 1;
        assert(infos[last] == infos.last());
    }
}

/// The speech-to-text fields, once brought up to date from any starting
/// values, need no further change.
pub proof fn lemma_stt_fields_settle(
    ps: Seq<SttProviderView>,
    api_keys: Map<Seq<char>, Seq<char>>,
    models: Map<Seq<char>, Seq<char>>,
    options: Map<Seq<char>, Seq<char>>,
    realtime_enabled: Map<Seq<char>, bool>,
    chunk_ms: Map<Seq<char>, u64>,
)
    ensures
        ({
            let ds = spec_default_stt_providers();
            let reg = spec_cloud_provider_registry();
            let ps2 = sync_providers(ps, ds);
            let k2 = fill_cloud(api_keys, ds, cloud_default_fn(CloudDefault::EmptyKey));
            let m2 = fill_cloud(models, ds, cloud_default_fn(CloudDefault::DefaultModel));
            let o2 = fill_cloud(options, ds, cloud_default_fn(CloudDefault::EmptyOptions));
            let r2 = fill_key(fill_realtime(realtime_enabled, reg), PARAKEET_UNIFIED_MODEL_ID@, true);
            let c2 = fill_key(chunk_ms, PARAKEET_UNIFIED_MODEL_ID@, 560u64);
            &&& !stt_fields_change(ps2, k2, m2, o2, r2, c2)
            &&& sync_providers(ps2, ds) == ps2
            &&& fill_cloud(k2, ds, cloud_default_fn(CloudDefault::EmptyKey)) == k2
            &&& fill_cloud(m2, ds, cloud_default_fn(CloudDefault::DefaultModel)) == m2
            &&& fill_cloud(o2, ds, cloud_default_fn(CloudDefault::EmptyOptions)) == o2
            &&& fill_key(fill_realtime(r2, reg), PARAKEET_UNIFIED_MODEL_ID@, true) == r2
            &&& fill_key(c2, PARAKEET_UNIFIED_MODEL_ID@, 560u64) == c2
        }),
{
    let ds = spec_default_stt_providers();
    let reg = spec_cloud_provider_registry();
    lemma_default_ids_distinct();
    lemma_sync_establishes(ps, ds);
    lemma_sync_noop(sync_providers(ps, ds), ds);
    let fk = cloud_default_fn(CloudDefault::EmptyKey);
    let fm = cloud_default_fn(CloudDefault::DefaultModel);
    let fo = cloud_default_fn(CloudDefault::EmptyOptions);
    lemma_fill_cloud_covers(api_keys, ds, fk);
    lemma_fill_cloud_noop(fill_cloud(api_keys, ds, fk), ds, fk);
    lemma_fill_cloud_covers(models, ds, fm);
    lemma_fill_cloud_noop(fill_cloud(models, ds, fm), ds, fm);
    lemma_fill_cloud_covers(options, ds, fo);
    lemma_fill_cloud_noop(fill_cloud(options, ds, fo), ds, fo);
    lemma_fill_realtime_covers(realtime_enabled, reg);
    let r0 = fill_realtime(realtime_enabled, reg);
    let r2 = fill_key(r0, PARAKEET_UNIFIED_MODEL_ID@, true);
    assert forall|j: int| 0 <= j < reg.len() && reg[j].supports_realtime implies r2.contains_key(#[trigger] reg[j].id) by {
        assert(r0.contains_key(reg[j].id));
    }
    lemma_fill_realtime_noop(r2, reg);
}

/// The built-in providers, synced with themselves, stay as they are.
pub proof fn lemma_defaults_synced_with_themselves()
    ensures
        sync_providers(spec_default_stt_providers(), spec_default_stt_providers()) == spec_default_stt_providers(),
{
    let ds = spec_default_stt_providers();
    lemma_default_ids_distinct();
    assert forall|j: int| 0 <= j < ds.len() implies {
        let f = #[trigger] first_stt_provider_index(ds, ds[j].id);
        f < ds.len() && ds[f].default_model == ds[j].default_model
    } by {
        assert forall|x: int| 0 <= x < j implies ds[x].id != ds[j].id by {}
        lemma_first_stt_provider_index_unique(ds, ds[j].id, j);
    }
    lemma_sync_noop(ds, ds);
}

/// Bringing the speech-to-text settings up to date a second time finds
/// nothing to do: it reports no change and leaves every field as it is.
pub proof fn lemma_ensure_stt_defaults_idempotent(o: AppSettings, n: AppSettings, n2: AppSettings)
    requires
        stt_defaults_applied(o, n),
        stt_defaults_applied(n, n2),
    ensures
        !stt_defaults_change(n),
        providers_view(n2.stt_providers@) == providers_view(n.stt_providers@),
        n2.stt_api_keys@ == n.stt_api_keys@,
        n2.stt_cloud_models@ == n.stt_cloud_models@,
        n2.stt_cloud_options@ == n.stt_cloud_options@,
        n2.stt_realtime_enabled@ == n.stt_realtime_enabled@,
        n2.stt_realtime_chunk_ms@ == n.stt_realtime_chunk_ms@,
{
    lemma_stt_fields_settle(
        providers_view(o.stt_providers@),
        o.stt_api_keys@,
        o.stt_cloud_models@,
        o.stt_cloud_options@,
        o.stt_realtime_enabled@,
        o.stt_realtime_chunk_ms@,
    );
}

/// Whether two settings hold the same speech-to-text providers, keys,
/// models, options, realtime switches and chunk lengths.
#[verifier::opaque]
pub open spec fn stt_fields_same(a: AppSettings, b: AppSettings) -> bool {
    &&& providers_view(a.stt_providers@) == providers_view(b.stt_providers@)
    &&& a.stt_api_keys@ == b.stt_api_keys@
    &&& a.stt_cloud_models@ == b.stt_cloud_models@
    &&& a.stt_cloud_options@ == b.stt_cloud_options@
    &&& a.stt_realtime_enabled@ == b.stt_realtime_enabled@
    &&& a.stt_realtime_chunk_ms@ == b.stt_realtime_chunk_ms@
}

/// Syncing keeps every stored provider's id at its place and never shortens the list.
proof fn lemma_sync_keeps_ids(ps: Seq<SttProviderView>, ds: Seq<SttProviderView>)
    ensures
        sync_providers(ps, ds).len() >= ps.len(),
        forall|x: int| 0 <= x < ps.len() ==> #[trigger] sync_providers(ps, ds)[x].id == ps[x].id,
    decreases ds.len(),
{
    reveal(sync_providers);
    if ds.len() > 0 {
        lemma_sync_keeps_ids(ps, ds.drop_last());
        lemma_sync_provider_shape(sync_providers(ps, ds.drop_last()), ds.last());
    }
}

/// Syncing with distinct providers reports a change exactly when the list
/// comes out different: it grew, or a provider that is synced got another
/// default model.
proof fn lemma_sync_changes_iff(ps: Seq<SttProviderView>, ds: Seq<SttProviderView>)
    requires
        distinct_ids(ds),
    ensures
        !sync_changes(ps, ds) ==> sync_providers(ps, ds) == ps,
        sync_changes(ps, ds) ==> sync_providers(ps, ds).len() > ps.len() || exists|x: int, j: int|
            #![trigger sync_providers(ps, ds)[x], ds[j]]
            0 <= x < ps.len() && 0 <= j < ds.len() && ds[j].id == ps[x].id
                && sync_providers(ps, ds)[x].default_model != ps[x].default_model,
        sync_changes(ps, ds) == (sync_providers(ps, ds) != ps),
    decreases ds.len(),
{
    reveal(sync_providers);
    reveal(sync_changes);
    if ds.len() > 0 {
        let dp = ds.drop_last();
        let d = ds.last();
        let last = ds.len() - 1;
        assert(ds[last] == d);
        assert forall|i: int, j: int| 0 <= i < j < dp.len() implies #[trigger] dp[i].id != #[trigger] dp[j].id by {
            assert(dp[i] == ds[i] && dp[j] == ds[j]);
        }
        lemma_sync_changes_iff(ps, dp);
        lemma_sync_keeps_ids(ps, dp);
        let s0 = sync_providers(ps, dp);
        let s1 = sync_providers(ps, ds);
        assert(s1 == sync_provider(s0, d));
        lemma_sync_provider_shape(s0, d);
        lemma_first_stt_provider_index(s0, d.id);
        if sync_changes(ps, dp) {
            if s0.len() <= ps.len() {
                let (x, j) = choose|x: int, j: int|
                    #![trigger s0[x], dp[j]]
                    0 <= x < ps.len() && 0 <= j < dp.len() && dp[j].id == ps[x].id
                        && s0[x].default_model != ps[x].default_model;
                assert(dp[j] == ds[j]);
                assert(s0[x].id == ps[x].id);
                assert(s0[x].id != d.id);
                assert(s1[x] == s0[x]);
                assert(s1[x].default_model != ps[x].default_model);
            }
        } else if sync_step_changes(s0, d) {
            let f = first_stt_provider_index(s0, d.id);
            if f < s0.len() {
                assert(s1[f].default_model == d.default_model);
                assert(ds[last].id == ps[f].id);
                assert(s1[f].default_model != ps[f].default_model);
            }
        }
        if sync_changes(ps, ds) {
            if s1.len() == ps.len() {
                let (x, j) = choose|x: int, j: int|
                    #![trigger s1[x], ds[j]]
                    0 <= x < ps.len() && 0 <= j < ds.len() && ds[j].id == ps[x].id
                        && s1[x].default_model != ps[x].default_model;
                assert(s1[x] != ps[x]);
            }
        }
    }
}

/// Filling a map reports a change exactly when the map comes out different:
/// it gained a key.
proof fn lemma_fill_cloud_changes_iff(
    m: Map<Seq<char>, Seq<char>>,
    ds: Seq<SttProviderView>,
    f: spec_fn(SttProviderView) -> Seq<char>,
)
    ensures
        !fill_cloud_changes(m, ds, f) ==> fill_cloud(m, ds, f) == m,
        fill_cloud_changes(m, ds, f) ==> exists|k: Seq<char>|
            #[trigger] fill_cloud(m, ds, f).contains_key(k) && !m.contains_key(k),
        fill_cloud_changes(m, ds, f) == (fill_cloud(m, ds, f) != m),
    decreases ds.len(),
{
    reveal(fill_cloud);
    reveal(fill_cloud_changes);
    if ds.len() > 0 {
        let dp = ds.drop_last();
        lemma_fill_cloud_changes_iff(m, dp, f);
        lemma_fill_cloud_covers(m, dp, f);
        let m0 = fill_cloud(m, dp, f);
        if fill_cloud_changes(m, dp, f) {
            let k = choose|k: Seq<char>| #[trigger] m0.contains_key(k) && !m.contains_key(k);
            assert(fill_cloud(m, ds, f).contains_key(k));
        } else if ds.last().provider_type == SttProviderType::Cloud && !m0.contains_key(ds.last().id) {
            assert(fill_cloud(m, ds, f).contains_key(ds.last().id));
        }
    }
}

/// Filling realtime switches reports a change exactly when the switches come
/// out different: they gained a key.
proof fn lemma_fill_realtime_changes_iff(m: Map<Seq<char>, bool>, infos: Seq<SttProviderInfoView>)
    ensures
        !fill_realtime_changes(m, infos) ==> fill_realtime(m, infos) == m,
        fill_realtime_changes(m, infos) ==> exists|k: Seq<char>|
            #[trigger] fill_realtime(m, infos).contains_key(k) && !m.contains_key(k),
    decreases infos.len(),
{
    reveal(fill_realtime);
    reveal(fill_realtime_changes);
    if infos.len() > 0 {
        let ip = infos.drop_last();
        lemma_fill_realtime_changes_iff(m, ip);
        lemma_fill_realtime_covers(m, ip);
        let m0 = fill_realtime(m, ip);
        if fill_realtime_changes(m, ip) {
            let k = choose|k: Seq<char>| #[trigger] m0.contains_key(k) && !m.contains_key(k);
            assert(fill_realtime(m, infos).contains_key(k));
        } else if infos.last().supports_realtime && !m0.contains_key(infos.last().id) {
            assert(fill_realtime(m, infos).contains_key(infos.last().id));
        }
    }
}

/// Bringing the speech-to-text settings up to date reports a change exactly
/// when one of its fields comes out different.
pub proof fn lemma_stt_defaults_change_iff(o: AppSettings, n: AppSettings)
    requires
        stt_defaults_applied(o, n),
    ensures
        stt_defaults_change(o) == !stt_fields_same(o, n),
{
    reveal(stt_fields_same);
    let ds = spec_default_stt_providers();
    let reg = spec_cloud_provider_registry();
    lemma_default_ids_distinct();
    lemma_sync_changes_iff(providers_view(o.stt_providers@), ds);
    lemma_fill_cloud_changes_iff(o.stt_api_keys@, ds, cloud_default_fn(CloudDefault::EmptyKey));
    lemma_fill_cloud_changes_iff(o.stt_cloud_models@, ds, cloud_default_fn(CloudDefault::DefaultModel));
    lemma_fill_cloud_changes_iff(o.stt_cloud_options@, ds, cloud_default_fn(CloudDefault::EmptyOptions));
    lemma_fill_realtime_changes_iff(o.stt_realtime_enabled@, reg);
    let r0 = fill_realtime(o.stt_realtime_enabled@, reg);
    let p = PARAKEET_UNIFIED_MODEL_ID@;
    if fill_realtime_changes(o.stt_realtime_enabled@, reg) {
        let k = choose|k: Seq<char>| #[trigger] r0.contains_key(k) && !o.stt_realtime_enabled@.contains_key(k);
        assert(n.stt_realtime_enabled@.contains_key(k));
    } else if !r0.contains_key(p) {
        assert(n.stt_realtime_enabled@.contains_key(p));
    }
    if !o.stt_realtime_chunk_ms@.contains_key(p) {
        assert(n.stt_realtime_chunk_ms@.contains_key(p));
    }
}

} // verus!
