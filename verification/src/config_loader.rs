//! Layout rows and groups as the layout file describes them.
use std::rc::Rc;
use vstd::prelude::*;
use crate::sexp_parser::SExp;
use crate::text::owned;

verus! {

/// One layout row.
pub struct RowConfig {
    pub label: String,
    /// The formula that computes the row's value.
    pub formula: Option<String>,
    /// Display format (`:format`), such as `TIME_MM_SS`.
    pub format: String,
    /// Row kind: `DATA`, `HEADER`, `SLIDER`, `COMBO`, `SWITCH` or `BUTTON`.
    pub row_type: String,
    /// The bound property, or the value source of a data row (`:target`).
    pub property: Option<String>,
    /// Display name when it differs from the label.
    pub target_name: Option<String>,
    pub unit: String,
    /// The value shown in preview mode.
    pub preview_value: Option<String>,
    /// Number of decimals.
    pub precision: i32,
    pub unit_source: Option<String>,
    pub precision_source: Option<String>,
    /// When the row is shown (`:visible-when`).
    pub visible_when: Option<Rc<SExp>>,
    /// When the row shows no value (`:na-when`).
    pub na_when: Option<Rc<SExp>>,
    /// Nested rows of a header row.
    pub children: Vec<RowConfig>,
}

impl RowConfig {
    /// A data row with the given label, formula and format, every other
    /// setting at its default.
    pub fn new(label: String, formula: Option<String>, format: String) -> (r: RowConfig)
        ensures
            r.label == label,
            r.formula == formula,
            r.format == format,
            r.row_type@ == "DATA"@,
            r.property is None,
            r.target_name is None,
            r.unit@ == Seq::<char>::empty(),
            r.preview_value is None,
            r.precision == 0,
            r.unit_source is None,
            r.precision_source is None,
            r.visible_when is None,
            r.na_when is None,
            r.children@.len() == 0,
    {
        RowConfig {
            label,
            formula,
            format,
            row_type: owned("DATA"),
            property: None,
            target_name: None,
            unit: String::new(),
            preview_value: None,
            precision: 0,
            unit_source: None,
            precision_source: None,
            visible_when: None,
            na_when: None,
            children: Vec::new(),
        }
    }
}

/// A titled group of layout rows.
pub struct GroupConfig {
    pub title: String,
    pub rows: Vec<RowConfig>,
}

impl GroupConfig {
    /// A group with the given title and no rows.
    pub fn new(title: String) -> (r: GroupConfig)
        ensures
            r.title == title,
            r.rows@.len() == 0,
    {
        GroupConfig { title, rows: Vec::new() }
    }
}

} // verus!
