//! Data models of the overlay panels: field definitions, panel configurations
//! and the configuration rows they are built from.
pub mod config_stub;
pub mod data_field;
pub mod engine_info_config;
pub mod field_definition;
pub mod field_manager;
pub mod flight_info_config;
pub mod gauge_field;
