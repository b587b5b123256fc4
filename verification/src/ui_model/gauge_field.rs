//! Data-side state of the gauge components of a gauge field.
use vstd::prelude::*;
use crate::text::owned;
use crate::ui_model::data_field::{disable_key, DataField};

verus! {

/// Construction parameters of a labelled linear gauge.
#[derive(Debug)]
pub struct LinearGaugePlaceholder {
    /// Displayed label.
    pub label: String,
    /// Upper end of the scale.
    pub max_value: i32,
    /// True for a vertical bar.
    pub vertical: bool,
}

impl LinearGaugePlaceholder {
    pub fn new(label: &str, max_value: i32, vertical: bool) -> (r: LinearGaugePlaceholder)
        ensures
            r.label@ == label@,
            r.max_value == max_value,
            r.vertical == vertical,
    {
        LinearGaugePlaceholder { label: owned(label), max_value, vertical }
    }
}

/// Stands in for a gauge with markers (state set by its panel).
#[derive(Debug, Clone, Default)]
pub struct MarkedGaugePlaceholder;

/// A data field drawn as a gauge.
pub struct GaugeField {
    pub base: DataField,
    /// Kind of gauge.
    pub gauge_type: i32,
    /// Upper end of the scale.
    pub max_value: i32,
    /// The value the gauge shows.
    pub current_int_value: i32,
    pub is_horizontal: bool,
    /// The linear gauge component.
    pub gauge: Option<LinearGaugePlaceholder>,
    /// The gauge with markers, set by the panel when it uses one.
    pub marked_gauge: Option<MarkedGaugePlaceholder>,
}

impl GaugeField {
    /// A gauge field whose configuration key is `disable` + `key`, with a
    /// linear gauge of the same label and scale that is vertical unless the
    /// field is horizontal.
    pub fn new(
        key: &str,
        label: &str,
        unit: &str,
        gauge_type: i32,
        max_value: i32,
        is_horizontal: bool,
    ) -> (r: GaugeField)
        ensures
            r.base.key@ == key@,
            r.base.label@ == label@,
            r.base.unit@ == unit@,
            r.base.config_key@ == "disable"@ + key@,
            !r.base.hide_when_na,
            !r.base.hide_when_zero,
            r.base.visible,
            r.base.current_value@ == "---"@,
            r.base.length == 0 && r.base.precision == 0,
            r.base.format is None,
            r.gauge_type == gauge_type,
            r.max_value == max_value,
            r.current_int_value == 0,
            r.is_horizontal == is_horizontal,
            r.gauge matches Some(g) && g.label@ == label@ && g.max_value == max_value
                && g.vertical == !is_horizontal,
            r.marked_gauge is None,
    {
        let ck = disable_key(key);
        let base = DataField::new(key, label, unit, ck.as_str(), false, false);
        GaugeField {
            base,
            gauge_type,
            max_value,
            current_int_value: 0,
            is_horizontal,
            gauge: Some(LinearGaugePlaceholder::new(label, max_value, !is_horizontal)),
            marked_gauge: None,
        }
    }

    /// Sets the gauge value and shows `display_text` as it is.
    pub fn update_gauge(&mut self, value: i32, display_text: &str)
        ensures
            final(self).current_int_value == value,
            final(self).base.current_value@ == display_text@,
            final(self).base.same_setup(&old(self).base),
            final(self).base.unit == old(self).base.unit,
            final(self).base.visible == old(self).base.visible,
            final(self).gauge_type == old(self).gauge_type,
            final(self).max_value == old(self).max_value,
            final(self).is_horizontal == old(self).is_horizontal,
    {
        self.current_int_value = value;
        self.base.current_value = owned(display_text);
    }
}

} // verus!
