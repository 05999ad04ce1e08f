//! The application's settings: enumerations, shortcut bindings, provider
//! catalogs and the rules that normalise, migrate and persist them.
pub mod enums;
pub mod bindings;
pub mod stt_catalog;
pub mod post_process;
pub mod app_settings;
pub mod stt_defaults;
pub mod migrate;
pub mod persist;
pub mod recover;
pub mod parse;
pub mod keys;
pub mod load;
