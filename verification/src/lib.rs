//! Show/hide state machines, render caches and text layout decisions of the
//! compositor's on-screen notification and exit dialog.

pub mod animation;
pub mod scale_cache;
pub mod message;
pub mod config_error_notification;
pub mod exit_confirm_dialog;
pub mod text_renderer;
