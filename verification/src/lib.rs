//! NapCat: protocol, message, plugin and API logic of a OneBot-compatible QQ bot runtime.

pub mod text;
pub mod json;
pub mod message;
pub mod config;
pub mod runtime;
pub mod storage;
pub mod qq_client;
pub mod protocol;
pub mod channels;
pub mod event;
pub mod qq_backend;
pub mod onebot;
pub mod mock_protocol;
pub mod plugin;
pub mod plugin_registry;
pub mod desktop;
pub mod api;
pub mod api_events;
pub mod cli;
