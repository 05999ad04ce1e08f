//! Settings model, provider catalogs and transcription decisions of the
//! Handless speech-to-text application, with their contracts.
pub mod settings;
pub mod text;
pub mod str_map;
pub mod cloud_stt;
pub mod stt_provider;
pub mod actions;
