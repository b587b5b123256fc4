//! The configuration interface and the layout rows the panel models read.
use vstd::prelude::*;
use crate::text::owned;

verus! {

/// Access to configuration values, implemented by the configuration store.
pub trait ConfigProvider {
    /// The value stored under `key`, or `None` when it is not set.
    fn get_config(&self, key: &str) -> Option<String>;

    /// Stores `value` under `key`.
    fn set_config(&mut self, key: &str, value: &str);

    /// True when the field under `key` is disabled by configuration.
    fn is_field_disabled(&self, key: &str) -> bool;
}

/// One row of a layout group.
pub struct RowConfig {
    pub label: String,
    /// Display name used instead of the label when set.
    pub target_name: Option<String>,
    /// Unit text (e.g. `Hp`).
    pub unit: String,
    /// Value shown in previews.
    pub preview_value: Option<String>,
    /// Hide the field while its value is zero.
    pub hide_when_zero: bool,
    /// Row kind: `DATA`, `HEADER`, `SLIDER`, `COMBO`, `SWITCH`, `BUTTON`, ...
    pub row_type: String,
    /// Bound property (telemetry target) of a data row.
    pub property: Option<String>,
    /// Nested rows.
    pub children: Vec<RowConfig>,
}

impl RowConfig {
    /// A data row with the given label and every other setting at its default.
    pub fn new(label: &str) -> (r: RowConfig)
        ensures
            r.label@ == label@,
            r.target_name is None,
            r.unit@ == Seq::<char>::empty(),
            r.preview_value is None,
            !r.hide_when_zero,
            r.row_type@ == "DATA"@,
            r.property is None,
            r.children@.len() == 0,
    {
        RowConfig {
            label: owned(label),
            target_name: None,
            unit: String::new(),
            preview_value: None,
            hide_when_zero: false,
            row_type: owned("DATA"),
            property: None,
            children: Vec::new(),
        }
    }
}

/// A layout group: a title and its rows.
pub struct GroupConfig {
    pub title: String,
    pub rows: Vec<RowConfig>,
}

impl GroupConfig {
    pub fn new(title: &str) -> (r: GroupConfig)
        ensures
            r.title@ == title@,
            r.rows@.len() == 0,
    {
        GroupConfig { title: owned(title), rows: Vec::new() }
    }
}

} // verus!
