//! Loading the settings from the store: the settings that result from what
//! is stored, and whether they must be written back.
use vstd::prelude::*;
use crate::settings::enums::Platform;
use crate::settings::app_settings::{
    AppSettings, get_default_settings, is_default_settings, custom_base_url_changes,
};
use crate::settings::migrate::{apply_settings_migrations, migrations_applied, migrations_change};
use crate::settings::persist::{
    StoredProviderShape, StoredSettingsShape, configured_custom_post_process_base_url, persisted_settings_requires_rewrite,
    reconcile_loaded_settings, spec_configured_custom_base_url, spec_requires_rewrite,
};
use crate::settings::post_process::{PostProcessCatalog, pp_providers_view, prompts_view, set_base_url};
use crate::settings::enums::OverlayPosition;
use crate::settings::recover::{RecoveredFields, recover_settings_from_value, recovered_onto};

verus! {

/// What the store holds under the settings key.
pub enum StoredSettings {
    /// Nothing is stored yet.
    Missing,
    /// The stored value parses as settings. Beside them: what the value shows
    /// of the parts that decide a rewrite, whether it holds an overlay switch,
    /// its custom base URL field (where that is a string), and what its stored
    /// provider list shows (where that is an array).
    Parsed {
        settings: AppSettings,
        shape: StoredSettingsShape,
        has_overlay_enabled: bool,
        custom_base_url_field: Option<String>,
        provider_shapes: Option<Vec<StoredProviderShape>>,
    },
    /// The stored value does not parse as a whole: the fields that parse on their own.
    Unparsable(RecoveredFields),
}

/// The settings read from a value that parses, reconciled with the value,
/// and whether that alone calls for a rewrite.
pub open spec fn reconciled(
    o: AppSettings,
    n: AppSettings,
    is_object: bool,
    has_overlay_enabled: bool,
    url: Option<Seq<char>>,
) -> bool {
    &&& is_object ==> pp_providers_view(n.post_process_providers@) == (if custom_base_url_changes(o, url) {
        set_base_url(pp_providers_view(o.post_process_providers@), "custom"@, url->Some_0)
    } else {
        pp_providers_view(o.post_process_providers@)
    })
    &&& !is_object ==> n == o
    &&& n.overlay_enabled == (if is_object && !has_overlay_enabled {
        o.overlay_position != OverlayPosition::Hidden
    } else {
        o.overlay_enabled
    })
    &&& n == (AppSettings { post_process_providers: n.post_process_providers, overlay_enabled: n.overlay_enabled, ..o })
}

/// The settings before migration that a stored value gives, and whether the
/// store must be rewritten for what the value itself holds: the settings of a
/// new installation where nothing is stored; the parsed settings reconciled
/// with the value, rewritten where the value is in an older form or the
/// reconciliation changed them; the recovered fields on the settings of a new
/// installation where the value does not parse, always rewritten.
#[verifier::opaque]
pub open spec fn loaded_before_migration(
    stored: StoredSettings,
    m: AppSettings,
    u: bool,
    platform: Platform,
    locale: Option<Seq<char>>,
    catalog: PostProcessCatalog,
) -> bool {
    match stored {
        StoredSettings::Missing => is_default_settings(m, platform, locale, catalog) && u,
        StoredSettings::Parsed { settings, shape, has_overlay_enabled, custom_base_url_field, provider_shapes } => {
            let url = spec_configured_custom_base_url(custom_base_url_field.deep_view(), provider_shapes);
            &&& reconciled(settings, m, shape.is_object, has_overlay_enabled, url)
            &&& u == (spec_requires_rewrite(shape, prompts_view(catalog.prompts@)) || (shape.is_object && (
            custom_base_url_changes(settings, url) || !has_overlay_enabled)))
        },
        StoredSettings::Unparsable(fields) => (exists|d: AppSettings|
            is_default_settings(d, platform, locale, catalog) && recovered_onto(d, m, fields, catalog)) && u,
    }
}

/// Settings read from a value that parses, reconciled with it, and whether
/// the value calls for a rewrite.
#[verifier::spinoff_prover]
#[verifier::rlimit(50)]
fn parsed_before_migration(
    settings: AppSettings,
    shape: &StoredSettingsShape,
    has_overlay_enabled: bool,
    custom_base_url_field: &Option<String>,
    provider_shapes: &Option<Vec<StoredProviderShape>>,
    catalog: &PostProcessCatalog,
) -> (r: (AppSettings, bool))
    ensures
        ({
            let url = spec_configured_custom_base_url(custom_base_url_field.deep_view(), *provider_shapes);
            &&& reconciled(settings, r.0, shape.is_object, has_overlay_enabled, url)
            &&& r.1 == (spec_requires_rewrite(*shape, prompts_view(catalog.prompts@)) || (shape.is_object && (
            custom_base_url_changes(settings, url) || !has_overlay_enabled)))
        }),
{
    reveal(reconciled);
    let mut s = settings;
    let url = configured_custom_post_process_base_url(custom_base_url_field, provider_shapes);
    let changed = reconcile_loaded_settings(&mut s, shape.is_object, has_overlay_enabled, url);
    let rewrite = persisted_settings_requires_rewrite(shape, catalog);
    (s, rewrite || changed)
}

/// The settings before migration that a stored value gives, and whether the
/// value itself calls for a rewrite.
fn settings_before_migration(
    stored: StoredSettings,
    platform: Platform,
    locale: Option<String>,
    catalog: &PostProcessCatalog,
) -> (r: (AppSettings, bool))
    requires
        catalog.wf(),
    ensures
        loaded_before_migration(stored, r.0, r.1, platform, locale.deep_view(), *catalog),
{
    reveal(loaded_before_migration);
    match stored {
        StoredSettings::Missing => (get_default_settings(platform, locale, catalog), true),
        StoredSettings::Parsed { settings, shape, has_overlay_enabled, custom_base_url_field, provider_shapes } => {
            parsed_before_migration(
                settings,
                &shape,
                has_overlay_enabled,
                &custom_base_url_field,
                &provider_shapes,
                catalog,
            )
        },
        StoredSettings::Unparsable(fields) => (recover_settings_from_value(fields, platform, locale, catalog), true),
    }
}

/// Loads the settings from what the store holds: reads them (or starts from
/// the settings of a new installation, or recovers what parses), migrates
/// them, and says whether they must be written back.
pub fn load_settings(
    stored: StoredSettings,
    platform: Platform,
    locale: Option<String>,
    catalog: &PostProcessCatalog,
) -> (r: (AppSettings, bool))
    requires
        catalog.wf(),
    ensures
        exists|m: AppSettings, u: bool|
            loaded_before_migration(stored, m, u, platform, locale.deep_view(), *catalog) && migrations_applied(
                m,
                r.0,
                platform,
                *catalog,
            ) && r.1 == (u || migrations_change(m, platform, *catalog)),
{
    let ghost stored_g = stored;
    let (mut settings, updated) = settings_before_migration(stored, platform, locale, catalog);
    let ghost m = settings;
    let migrated = apply_settings_migrations(&mut settings, platform, catalog);
    proof {
        assert(loaded_before_migration(stored_g, m, updated, platform, locale.deep_view(), *catalog));
    }
    (settings, updated || migrated)
}

/// The file of the store that holds the settings.
pub const SETTINGS_STORE_PATH: &'static str = "settings_store.json";

/// The name of the copy kept of a store whose settings do not parse, for the
/// local time at which it is made, written as `YYYYmmdd-HHMMSS`.
pub fn invalid_store_backup_name(stamp: &str) -> (r: String)
    ensures
        r@ == "settings_store.invalid-"@ + stamp@ + ".json"@,
{
    let r = String::from_str("settings_store.invalid-");
    let r = r.concat(stamp);
    r.concat(".json")
}

} // verus!
