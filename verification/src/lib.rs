//! Keyboard, mouse, clipboard and file sharing between two desktops.
pub mod agent;
pub mod agent_drag;
pub mod bulk_events;
pub mod bulk_wire;
pub mod clipboard;
pub mod clipboard_formats;
pub mod clipboard_reading;
pub mod clipboard_sync;
pub mod codec;
pub mod config;
pub mod control;
pub mod controller;
pub mod controller_drag;
pub mod desktop_windows;
pub mod diagnostics;
pub mod drag_coordinator;
pub mod drag_drop;
pub mod drag_events;
pub mod drop_authorization;
pub mod file_sender;
pub mod file_transfer;
pub mod geometry;
pub mod hashing;
pub mod heartbeat;
pub mod hooks;
pub mod ids;
pub mod injection;
pub mod input_event;
pub mod latest_pointer;
pub mod link;
pub mod lists;
pub mod octets;
pub mod paths;
pub mod pointer;
pub mod protocol;
pub mod purposes;
pub mod receiving;
pub mod root_names;
pub mod runtime;
pub mod send_buffer;
pub mod sending;
pub mod session;
pub mod session_plan;
pub mod sources;
pub mod stale_pointer;
pub mod status;
pub mod status_updates;
pub mod text;
pub mod transport;
pub mod ui_model;
pub mod ui_settings;
pub mod wire;
