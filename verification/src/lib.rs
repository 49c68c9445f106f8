use vstd::prelude::*;

pub mod text;
pub mod clock;
pub mod context_menu;
pub mod config;
pub mod ipc_types;
pub mod app_registry;
pub mod wallpaper_engine;
pub mod settings_model;
pub mod json;
pub mod daemon;
pub mod process_collector;
pub mod network_monitor;
pub mod service_manager;
pub mod notification_service;
pub mod lock_screen;
pub mod manager;
mod locations;
pub mod ids;
pub mod position;
pub mod desktop_object;
pub mod desktop_registry;
pub mod file_browser;

verus! {
} // verus!
