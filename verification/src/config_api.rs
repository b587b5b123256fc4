//! Shared access to configuration values.
use vstd::prelude::*;

verus! {

/// Access to configuration values through a shared handle; implemented by
/// the configuration service.
pub trait ConfigProvider {
    /// The value stored under `key`, or `None` when it is not set.
    fn get_config(&self, key: &str) -> Option<String>;

    /// Stores `value` under `key`.
    fn set_config(&self, key: &str, value: &str);

    /// True when the field under `key` is disabled by configuration.
    fn is_field_disabled(&self, key: &str) -> bool;
}

} // verus!
