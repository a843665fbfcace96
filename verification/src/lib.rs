pub mod assoc;
pub mod json;
pub mod text;
pub mod provider;
pub mod form;
pub mod draft;
pub mod draft_json;
pub mod opencode_config;
pub mod draft_laws;
pub mod settings_laws;
pub mod reload_laws;
pub mod config_laws;
pub mod form_load;
pub mod tui_types;
pub mod model_keys;
pub mod model_view;
pub mod page_laws;
