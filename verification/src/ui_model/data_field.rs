//! The text rules of a displayed data field.
use vstd::prelude::*;
use crate::text::{owned, push_char, push_text, to_chars};

verus! {

/// Stands in for the evaluator of a field's `:na-when` expression.
#[derive(Debug, Clone)]
pub struct VisibilityExpressionEvaluatorPlaceholder;

/// `n` spaces.
pub open spec fn spaces(n: nat) -> Seq<char>
    decreases n,
{
    if n == 0 {
        Seq::empty()
    } else {
        spaces((n - 1) as nat).push(' ')
    }
}

/// `value` right-aligned in five characters: spaces in front of it when it
/// is shorter, unchanged otherwise (`{:>5}`).
pub open spec fn right_aligned5(value: Seq<char>) -> Seq<char> {
    if value.len() >= 5 {
        value
    } else {
        spaces((5 - value.len()) as nat) + value
    }
}

/// The displayed form of a field value (see [`right_aligned5`]).
pub fn right_align5(value: &str) -> (r: String)
    ensures
        r@ == right_aligned5(value@),
{
    let n = to_chars(value).len();
    let mut r = String::new();
    if n < 5 {
        let mut i: usize = 0;
        while i < 5 - n
            invariant
                n < 5,
                i <= 5 - n,
                r@ == spaces(i as nat),
            decreases 5 - n - i,
        {
            push_char(&mut r, ' ');
            i += 1;
        }
    }
    push_text(&mut r, value);
    r
}

/// Whether a field is visible after showing `value`: a field hidden when N/A
/// is visible exactly when the value is not the N/A text; any other field
/// keeps its visibility.
pub open spec fn visible_after(hide_when_na: bool, visible: bool, value: Seq<char>, na_string: Seq<char>) -> bool {
    if hide_when_na {
        value != na_string
    } else {
        visible
    }
}

/// Computes [`visible_after`].
pub fn visibility_after(hide_when_na: bool, visible: bool, value: &str, na_string: &str) -> (r: bool)
    ensures
        r == visible_after(hide_when_na, visible, value@, na_string@),
{
    if hide_when_na {
        !crate::text::str_eq(value, na_string)
    } else {
        visible
    }
}

/// The configuration key that disables the field `key`: `disable` + `key`.
pub fn disable_key(key: &str) -> (r: String)
    ensures
        r@ == "disable"@ + key@,
{
    let mut r = owned("disable");
    push_text(&mut r, key);
    r
}

/// A displayed data field: what the panel shows for one telemetry value.
/// The suppliers that feed a bound field live with the panel.
pub struct DataField {
    /// Telemetry key of the field.
    pub key: String,
    /// Displayed label.
    pub label: String,
    /// Displayed unit.
    pub unit: String,
    /// Configuration key that can disable the field.
    pub config_key: String,
    /// Hide the field while it shows the N/A text.
    pub hide_when_na: bool,
    /// Hide the field while its value is zero.
    pub hide_when_zero: bool,
    pub visible: bool,
    /// The displayed value text.
    pub current_value: String,
    pub buffer: String,
    pub length: i32,
    /// Number of decimals shown.
    pub precision: i32,
    /// Custom format name (such as `TIME_MM_SS`).
    pub format: Option<String>,
    pub na_when_evaluator: Option<VisibilityExpressionEvaluatorPlaceholder>,
}

impl DataField {
    /// A visible field showing `---`, with no format and no precision.
    pub fn new(
        key: &str,
        label: &str,
        unit: &str,
        config_key: &str,
        hide_when_na: bool,
        hide_when_zero: bool,
    ) -> (r: DataField)
        ensures
            r.key@ == key@,
            r.label@ == label@,
            r.unit@ == unit@,
            r.config_key@ == config_key@,
            r.hide_when_na == hide_when_na,
            r.hide_when_zero == hide_when_zero,
            r.visible,
            r.current_value@ == "---"@,
            r.buffer@ == Seq::<char>::empty(),
            r.length == 0,
            r.precision == 0,
            r.format is None,
            r.na_when_evaluator is None,
    {
        DataField {
            key: owned(key),
            label: owned(label),
            unit: owned(unit),
            config_key: owned(config_key),
            hide_when_na,
            hide_when_zero,
            visible: true,
            current_value: owned("---"),
            buffer: String::new(),
            length: 0,
            precision: 0,
            format: None,
            na_when_evaluator: None,
        }
    }

    /// True when `self` and `other` agree on every field but the displayed
    /// value, the unit and the visibility.
    pub open spec fn same_setup(&self, other: &DataField) -> bool {
        &&& self.key == other.key
        &&& self.label == other.label
        &&& self.config_key == other.config_key
        &&& self.hide_when_na == other.hide_when_na
        &&& self.hide_when_zero == other.hide_when_zero
        &&& self.buffer == other.buffer
        &&& self.length == other.length
        &&& self.precision == other.precision
        &&& self.format == other.format
        &&& self.na_when_evaluator == other.na_when_evaluator
    }

    /// Shows `value`, right-aligned in five characters.
    pub fn set_value(&mut self, value: &str)
        ensures
            final(self).current_value@ == right_aligned5(value@),
            final(self).unit == old(self).unit,
            final(self).visible == old(self).visible,
            final(self).same_setup(&*old(self)),
    {
        self.current_value = right_align5(value);
    }

    /// Replaces the unit.
    pub fn set_unit(&mut self, unit: &str)
        ensures
            final(self).unit@ == unit@,
            final(self).current_value == old(self).current_value,
            final(self).visible == old(self).visible,
            final(self).same_setup(&*old(self)),
    {
        self.unit = owned(unit);
    }

    /// Shows `value`; a field hidden when N/A becomes visible exactly when
    /// `value` is not `na_string` (see [`visible_after`]).
    pub fn set_value_with_visibility(&mut self, value: &str, na_string: &str)
        ensures
            final(self).current_value@ == right_aligned5(value@),
            final(self).visible == visible_after(
                old(self).hide_when_na,
                old(self).visible,
                value@,
                na_string@,
            ),
            final(self).unit == old(self).unit,
            final(self).same_setup(&*old(self)),
    {
        self.set_value(value);
        self.visible = visibility_after(self.hide_when_na, self.visible, value, na_string);
    }
}

} // verus!
