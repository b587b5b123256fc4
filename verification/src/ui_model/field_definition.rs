//! Definition of one overlay field.
use vstd::prelude::*;
use crate::text::{owned, str_eq};
use crate::ui_model::config_stub::RowConfig;

verus! {

/// Definition of a field shown by an info panel.
pub struct FieldDefinition {
    pub key: String,
    pub label: String,
    pub unit: String,
    pub config_key: String,
    pub hide_when_na: bool,
    pub hide_when_zero: bool,
    pub preview_value: String,
    pub format: Option<String>,
}

/// The mathematical value of a field definition.
pub struct FieldDefModel {
    pub key: Seq<char>,
    pub label: Seq<char>,
    pub unit: Seq<char>,
    pub config_key: Seq<char>,
    pub hide_when_na: bool,
    pub hide_when_zero: bool,
    pub preview_value: Seq<char>,
    pub format: Option<Seq<char>>,
}

/// The model of a definition without a format.
pub open spec fn def_model(
    key: Seq<char>,
    label: Seq<char>,
    unit: Seq<char>,
    config_key: Seq<char>,
    hide_when_na: bool,
    hide_when_zero: bool,
    preview_value: Seq<char>,
) -> FieldDefModel {
    FieldDefModel {
        key,
        label,
        unit,
        config_key,
        hide_when_na,
        hide_when_zero,
        preview_value,
        format: None,
    }
}

impl FieldDefinition {
    pub open spec fn model(&self) -> FieldDefModel {
        FieldDefModel {
            key: self.key@,
            label: self.label@,
            unit: self.unit@,
            config_key: self.config_key@,
            hide_when_na: self.hide_when_na,
            hide_when_zero: self.hide_when_zero,
            preview_value: self.preview_value@,
            format: match self.format {
                Some(f) => Some(f@),
                None => None,
            },
        }
    }

    /// A definition with every setting given and no format.
    pub fn new(
        key: &str,
        label: &str,
        unit: &str,
        config_key: &str,
        hide_when_na: bool,
        hide_when_zero: bool,
        preview_value: &str,
    ) -> (r: FieldDefinition)
        ensures
            r.model() == def_model(
                key@,
                label@,
                unit@,
                config_key@,
                hide_when_na,
                hide_when_zero,
                preview_value@,
            ),
    {
        FieldDefinition {
            key: owned(key),
            label: owned(label),
            unit: owned(unit),
            config_key: owned(config_key),
            hide_when_na,
            hide_when_zero,
            preview_value: owned(preview_value),
            format: None,
        }
    }

    /// A definition with a display format (e.g. `TIME_MM_SS`).
    pub fn with_format(
        key: &str,
        label: &str,
        unit: &str,
        config_key: &str,
        hide_when_na: bool,
        hide_when_zero: bool,
        preview_value: &str,
        format: Option<&str>,
    ) -> (r: FieldDefinition)
        ensures
            r.model() == (FieldDefModel {
                format: match format {
                    Some(f) => Some(f@),
                    None => None,
                },
                ..def_model(
                    key@,
                    label@,
                    unit@,
                    config_key@,
                    hide_when_na,
                    hide_when_zero,
                    preview_value@,
                )
            }),
    {
        let mut def = FieldDefinition::new(
            key,
            label,
            unit,
            config_key,
            hide_when_na,
            hide_when_zero,
            preview_value,
        );
        def.format = match format {
            Some(f) => Some(owned(f)),
            None => None,
        };
        def
    }

    /// A definition that is not hidden at zero.
    pub fn new_without_hide_zero(
        key: &str,
        label: &str,
        unit: &str,
        config_key: &str,
        hide_when_na: bool,
        preview_value: &str,
    ) -> (r: FieldDefinition)
        ensures
            r.model() == def_model(
                key@,
                label@,
                unit@,
                config_key@,
                hide_when_na,
                false,
                preview_value@,
            ),
    {
        FieldDefinition::new(key, label, unit, config_key, hide_when_na, false, preview_value)
    }

    /// A definition that is not hidden at zero and previews as `-`.
    pub fn new_with_default_preview(
        key: &str,
        label: &str,
        unit: &str,
        config_key: &str,
        hide_when_na: bool,
    ) -> (r: FieldDefinition)
        ensures
            r.model() == def_model(key@, label@, unit@, config_key@, hide_when_na, false, "-"@),
    {
        FieldDefinition::new_without_hide_zero(key, label, unit, config_key, hide_when_na, "-")
    }
}

/// The models of a sequence of definitions.
pub open spec fn defs_model(v: Seq<FieldDefinition>) -> Seq<FieldDefModel> {
    v.map_values(|d: FieldDefinition| d.model())
}

/// A data row bound to a non-empty property produces a field.
pub open spec fn is_data_row(r: RowConfig) -> bool {
    &&& r.row_type@ == "DATA"@
    &&& r.property matches Some(p) && p@.len() > 0
}

/// The label a row's field shows: its target name when set and non-empty, its label otherwise.
pub open spec fn display_label(r: RowConfig) -> Seq<char> {
    match r.target_name {
        Some(t) => if t@.len() > 0 {
            t@
        } else {
            r.label@
        },
        None => r.label@,
    }
}

/// The preview value of a row's field, `fallback` when the row has none.
pub open spec fn preview_or(r: RowConfig, fallback: Seq<char>) -> Seq<char> {
    match r.preview_value {
        Some(p) => p@,
        None => fallback,
    }
}

/// The field a data row produces: keyed and configured by its property,
/// hidden when N/A.
pub open spec fn row_definition(r: RowConfig, fallback: Seq<char>) -> FieldDefModel {
    let p = r.property.unwrap()@;
    def_model(p, display_label(r), r.unit@, p, true, r.hide_when_zero, preview_or(r, fallback))
}

/// The fields of a sequence of rows and all their nested rows, in order.
pub open spec fn row_definitions(rows: Seq<RowConfig>, fallback: Seq<char>) -> Seq<FieldDefModel>
    decreases rows,
{
    if rows.len() == 0 {
        Seq::empty()
    } else {
        row_definitions(rows.drop_last(), fallback) + row_tree_definitions(rows.last(), fallback)
    }
}

/// The fields of a row (when it is a data row) followed by those of its nested rows.
pub open spec fn row_tree_definitions(r: RowConfig, fallback: Seq<char>) -> Seq<FieldDefModel>
    decreases r,
{
    let own = if is_data_row(r) {
        seq![row_definition(r, fallback)]
    } else {
        Seq::empty()
    };
    own + row_definitions(r.children@, fallback)
}

/// Appends to `defs` the fields of `rows` and of all their nested rows.
pub fn append_row_definitions(defs: &mut Vec<FieldDefinition>, rows: &[RowConfig], fallback: &str)
    ensures
        defs_model(final(defs)@) == defs_model(old(defs)@) + row_definitions(rows@, fallback@),
    decreases rows@,
{
    let ghost start = defs_model(defs@);
    let mut i: usize = 0;
    while i < rows.len()
        invariant
            i <= rows.len(),
            defs_model(defs@) == start + row_definitions(rows@.take(i as int), fallback@),
        decreases rows.len() - i,
    {
        let row = &rows[i];
        let ghost mid = defs_model(defs@);
        let is_data = str_eq(row.row_type.as_str(), "DATA") && match &row.property {
            Some(p) => !p.as_str().is_empty(),
            None => false,
        };
        if is_data {
            let label: &str = match &row.target_name {
                Some(t) => if !t.as_str().is_empty() {
                    t.as_str()
                } else {
                    row.label.as_str()
                },
                None => row.label.as_str(),
            };
            let preview: &str = match &row.preview_value {
                Some(p) => p.as_str(),
                None => fallback,
            };
            let property: &str = match &row.property {
                Some(p) => p.as_str(),
                None => fallback,
            };
            let def = FieldDefinition::new(
                property,
                label,
                row.unit.as_str(),
                property,
                true,
                row.hide_when_zero,
                preview,
            );
            defs.push(def);
            assert(defs_model(defs@) =~= mid.push(row_definition(*row, fallback@)));
        } else {
            assert(defs_model(defs@) =~= mid);
        }
        let ghost with_own = defs_model(defs@);
        assert(decreases_to!(rows@ => rows@[i as int]));
        append_row_definitions(defs, row.children.as_slice(), fallback);
        proof {
            let prefix = rows@.take(i + 1);
            assert(prefix.drop_last() =~= rows@.take(i as int));
            assert(prefix.last() == rows@[i as int]);
            let own = with_own.subrange(mid.len() as int, with_own.len() as int);
            assert(with_own =~= mid + own);
            assert(own + row_definitions(rows@[i as int].children@, fallback@)
                =~= row_tree_definitions(rows@[i as int], fallback@));
            assert(row_definitions(prefix, fallback@) == row_definitions(
                rows@.take(i as int),
                fallback@,
            ) + row_tree_definitions(rows@[i as int], fallback@));
            assert(defs_model(defs@) =~= start + row_definitions(prefix, fallback@));
        }
        i += 1;
    }
    assert(rows@.take(rows@.len() as int) =~= rows@);
}

/// The fields of a flat list of data rows follow the rows in layout order:
/// the `i`-th field is keyed and configured by the `i`-th row's property,
/// labelled with its display label, and previews its preview value (or
/// `fallback`).
pub proof fn law_flat_rows_in_order(rows: Seq<RowConfig>, fallback: Seq<char>)
    requires
        forall|i: int| 0 <= i < rows.len() ==> is_data_row(#[trigger] rows[i]) && rows[i].children@.len() == 0,
    ensures
        row_definitions(rows, fallback).len() == rows.len(),
        forall|i: int| 0 <= i < rows.len() ==> {
            let d = #[trigger] row_definitions(rows, fallback)[i];
            &&& d.key == rows[i].property.unwrap()@
            &&& d.config_key == rows[i].property.unwrap()@
            &&& d.label == display_label(rows[i])
            &&& d.unit == rows[i].unit@
            &&& d.preview_value == preview_or(rows[i], fallback)
            &&& d.hide_when_zero == rows[i].hide_when_zero
        },
    decreases rows.len(),
{
    if rows.len() > 0 {
        let init = rows.drop_last();
        assert forall|i: int| 0 <= i < init.len() implies is_data_row(#[trigger] init[i]) && init[i].children@.len() == 0 by {
            assert(init[i] == rows[i]);
        }
        law_flat_rows_in_order(init, fallback);
        let last = rows.last();
        assert(is_data_row(rows[rows.len() - 1]));
        assert(row_definitions(last.children@, fallback) =~= Seq::<FieldDefModel>::empty());
        assert(row_tree_definitions(last, fallback) =~= seq![row_definition(last, fallback)]);
        let all = row_definitions(rows, fallback);
        assert(all == row_definitions(init, fallback) + seq![row_definition(last, fallback)]);
        assert forall|i: int| 0 <= i < rows.len() implies {
            let d = #[trigger] row_definitions(rows, fallback)[i];
            &&& d.key == rows[i].property.unwrap()@
            &&& d.config_key == rows[i].property.unwrap()@
            &&& d.label == display_label(rows[i])
            &&& d.unit == rows[i].unit@
            &&& d.preview_value == preview_or(rows[i], fallback)
            &&& d.hide_when_zero == rows[i].hide_when_zero
        } by {
            if i < init.len() {
                assert(all[i] == row_definitions(init, fallback)[i]);
                assert(init[i] == rows[i]);
            } else {
                assert(all[i] == row_definition(last, fallback));
            }
        }
    }
}

} // verus!
