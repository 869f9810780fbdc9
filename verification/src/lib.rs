//! Domain logic of the Verba translation and proofreading assistant.
pub mod text;
pub mod presentation;
pub mod capture;
pub mod shortcut;
pub mod cancellation;
pub mod translation;
pub mod preferences;
pub mod validation;
pub mod proofreading;
pub mod failure_presentation;
pub mod coordinator;
pub mod coordinator_runs;
pub mod capture_order;
pub mod keycodes;
pub mod accessibility;
pub mod pasteboard;
pub mod selection_capture;
pub mod openai;
pub mod endpoint;
pub mod shortcut_text;
pub mod settings;
pub mod secrets;
pub mod view_model;
pub mod processing;
pub mod shortcut_settings;
pub mod api_key_settings;
pub mod runtime;
pub mod hot_keys;
