//! Core data logic of the flight-telemetry overlay: configuration
//! S-expressions, telemetry text scanners, accessor registries and the small
//! configuration models built from them.
pub mod blkx;
pub mod config_api;
pub mod config_loader;
pub mod number;
pub mod shared;
pub mod string_helper;
pub mod text;
pub mod java_number;
pub mod map_obj;
pub mod sexp_parser;
pub mod overlay_context;
pub mod reflect_binder;
pub mod row_def;
pub mod row_renderer_registry;
pub mod focus_monitor;
pub mod http;
pub mod hud_msg;
pub mod state;
pub mod indicators;
pub mod telemetry_indicators;
pub mod map_info;
pub mod ui_model;
