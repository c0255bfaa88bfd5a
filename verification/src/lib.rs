//! Verified core of the Bexo Studio desktop services.
pub mod autostart;
pub mod capture;
pub mod codex_auth;
pub mod error;
pub mod history;
pub mod hotkey;
pub mod hotkey_bindings;
pub mod hotkey_prefs;
pub mod hotkey_repair;
pub mod ids;
pub mod json;
pub mod message_page;
pub mod native;
pub mod native_lifecycle;
pub mod native_overlay;
pub mod oss;
pub mod oss_ops;
pub mod oss_tasks;
pub mod oss_transfer;
pub mod planner;
pub mod preferences;
pub mod prompt_transfer;
pub mod quick_paste;
pub mod session_parse;
pub mod stable_sort;
pub mod prefs_service;
pub mod prefs_update;
pub mod terminal_prefs;
pub mod text;
pub mod timestamps;
pub mod tool_prefs;
pub mod view_prefs;
