//! Configuration of the engine information panel.
use vstd::prelude::*;
use crate::number::{parse_i32_spec, parse_i32_str};
use crate::text::{opt_view, owned, str_eq};
use crate::ui_model::config_stub::{ConfigProvider, GroupConfig};
use crate::ui_model::field_definition::{
    append_row_definitions, def_model, defs_model, row_definitions, FieldDefModel, FieldDefinition,
};

verus! {

/// Configuration of the engine information panel: its fields, style settings
/// and the configuration keys it reads.
pub struct EngineInfoConfig {
    /// The fields shown, in order.
    pub field_definitions: Vec<FieldDefinition>,
    pub title: String,
    pub show_edge: bool,
    /// Number of columns (2 unless configured).
    pub column_num: i32,
    pub num_font_key: String,
    pub label_font_key: String,
    pub font_add_key: String,
    pub column_key: String,
    pub pos_x_key: String,
    pub pos_y_key: String,
    pub edge_key: String,
    /// The layout group the fields were read from.
    pub group_config: Option<GroupConfig>,
}

/// The edge setting after reading `edge_value`: set only by the exact value `true`.
pub open spec fn engine_edge(current: bool, edge_value: Option<Seq<char>>) -> bool {
    if edge_value == Some("true"@) {
        true
    } else {
        current
    }
}

/// The column text in use: `hudColumns` when set and non-empty, else the legacy `columns`.
pub open spec fn engine_column_text(
    hud_columns: Option<Seq<char>>,
    legacy_columns: Option<Seq<char>>,
) -> Option<Seq<char>> {
    match hud_columns {
        Some(h) => if h.len() > 0 {
            Some(h)
        } else {
            legacy_columns
        },
        None => legacy_columns,
    }
}

/// The column count after reading `text`: unchanged when absent or empty,
/// its integer value when it is one, 2 otherwise.
pub open spec fn columns_from(current: i32, text: Option<Seq<char>>, fallback: i32) -> i32 {
    match text {
        Some(t) => if t.len() > 0 {
            match parse_i32_spec(t) {
                Some(v) => v,
                None => fallback,
            }
        } else {
            current
        },
        None => current,
    }
}

impl EngineInfoConfig {
    /// The models of the field definitions, in order.
    pub open spec fn definitions(&self) -> Seq<FieldDefModel> {
        defs_model(self.field_definitions@)
    }

    /// True when `self` has the title and keys of `other`.
    pub open spec fn same_texts(&self, other: &EngineInfoConfig) -> bool {
        &&& self.title == other.title
        &&& self.num_font_key == other.num_font_key
        &&& self.label_font_key == other.label_font_key
        &&& self.font_add_key == other.font_add_key
        &&& self.column_key == other.column_key
        &&& self.pos_x_key == other.pos_x_key
        &&& self.pos_y_key == other.pos_y_key
        &&& self.edge_key == other.edge_key
    }

    /// The settings every new configuration starts from.
    pub open spec fn has_default_keys(&self) -> bool {
        &&& self.title@ == "EngineInfo"@
        &&& self.num_font_key@ == "GlobalNumFont"@
        &&& self.label_font_key@ == "fontName"@
        &&& self.font_add_key@ == "fontSize"@
        &&& self.column_key@ == "hudColumns"@
        &&& self.pos_x_key@ == "engineInfoX"@
        &&& self.pos_y_key@ == "engineInfoY"@
        &&& self.edge_key@ == "engineInfoEdge"@
    }

    /// A configuration with no fields, no edge, two columns and the default keys.
    pub fn new() -> (r: EngineInfoConfig)
        ensures
            r.has_default_keys(),
            r.definitions().len() == 0,
            !r.show_edge,
            r.column_num == 2,
            r.group_config is None,
    {
        let r = EngineInfoConfig {
            field_definitions: Vec::new(),
            title: owned("EngineInfo"),
            show_edge: false,
            column_num: 2,
            num_font_key: owned("GlobalNumFont"),
            label_font_key: owned("fontName"),
            font_add_key: owned("fontSize"),
            column_key: owned("hudColumns"),
            pos_x_key: owned("engineInfoX"),
            pos_y_key: owned("engineInfoY"),
            edge_key: owned("engineInfoEdge"),
            group_config: None,
        };
        assert(defs_model(r.field_definitions@) =~= Seq::empty());
        r
    }

    /// The field definitions, in the order they were added.
    pub fn get_field_definitions(&self) -> (r: &[FieldDefinition])
        ensures
            defs_model(r@) == self.definitions(),
    {
        self.field_definitions.as_slice()
    }

    /// Appends a field definition with every setting given.
    pub fn add_field_definition(
        &mut self,
        key: &str,
        label: &str,
        unit: &str,
        config_key: &str,
        hide_when_na: bool,
        hide_when_zero: bool,
        example_value: &str,
    )
        ensures
            final(self).definitions() == old(self).definitions().push(
                def_model(
                    key@,
                    label@,
                    unit@,
                    config_key@,
                    hide_when_na,
                    hide_when_zero,
                    example_value@,
                ),
            ),
            final(self).same_texts(old(self)),
            final(self).show_edge == old(self).show_edge,
            final(self).column_num == old(self).column_num,
            final(self).group_config == old(self).group_config,
    {
        let ghost before = self.field_definitions@;
        self.field_definitions.push(
            FieldDefinition::new(
                key,
                label,
                unit,
                config_key,
                hide_when_na,
                hide_when_zero,
                example_value,
            ),
        );
        assert(defs_model(self.field_definitions@) =~= defs_model(before).push(
            def_model(key@, label@, unit@, config_key@, hide_when_na, hide_when_zero, example_value@),
        ));
    }

    /// Appends a field definition that is not hidden at zero.
    pub fn add_field_definition_simple(
        &mut self,
        key: &str,
        label: &str,
        unit: &str,
        config_key: &str,
        hide_when_na: bool,
        example_value: &str,
    )
        ensures
            final(self).definitions() == old(self).definitions().push(
                def_model(key@, label@, unit@, config_key@, hide_when_na, false, example_value@),
            ),
            final(self).same_texts(old(self)),
            final(self).show_edge == old(self).show_edge,
            final(self).column_num == old(self).column_num,
            final(self).group_config == old(self).group_config,
    {
        self.add_field_definition(key, label, unit, config_key, hide_when_na, false, example_value);
    }

    /// Applies the configured values: the edge switch `engineInfoEdge`, the
    /// column count `hudColumns` and its legacy key `columns`.
    pub fn apply_settings(
        &mut self,
        edge_value: Option<String>,
        hud_columns: Option<String>,
        legacy_columns: Option<String>,
    )
        ensures
            final(self).show_edge == engine_edge(old(self).show_edge, opt_view(edge_value)),
            final(self).column_num == columns_from(
                old(self).column_num,
                engine_column_text(opt_view(hud_columns), opt_view(legacy_columns)),
                2,
            ),
            final(self).definitions() == old(self).definitions(),
            final(self).same_texts(old(self)),
            final(self).group_config == old(self).group_config,
    {
        if let Some(e) = &edge_value {
            if str_eq(e.as_str(), "true") {
                self.show_edge = true;
            }
        }
        let col_str: Option<String> = match hud_columns {
            Some(h) => if !h.as_str().is_empty() {
                Some(h)
            } else {
                legacy_columns
            },
            None => legacy_columns,
        };
        if let Some(c) = &col_str {
            if !c.as_str().is_empty() {
                self.column_num = match parse_i32_str(c.as_str()) {
                    Some(v) => v,
                    None => 2,
                };
            }
        }
    }

    /// The default configuration: settings read from `config` when given,
    /// fields built from the data rows of `group_config` (previewing `0`
    /// where a row gives no preview value).
    pub fn create_default<P: ConfigProvider + ?Sized>(config: Option<&P>, group_config: Option<GroupConfig>) -> (r:
        EngineInfoConfig)
        ensures
            r.has_default_keys(),
            r.group_config == group_config,
            r.definitions() == match group_config {
                Some(g) => row_definitions(g.rows@, "0"@),
                None => Seq::empty(),
            },
            config is None ==> !r.show_edge && r.column_num == 2,
            config matches Some(cp) ==> exists|e: Option<String>, h: Option<String>, l: Option<String>|
                {
                    &&& call_ensures(P::get_config, (cp, "engineInfoEdge"), e)
                    &&& call_ensures(P::get_config, (cp, "hudColumns"), h)
                    &&& if h matches Some(t) && t@.len() > 0 {
                        l is None
                    } else {
                        call_ensures(P::get_config, (cp, "columns"), l)
                    }
                    &&& r.show_edge == engine_edge(false, opt_view(e))
                    &&& r.column_num == columns_from(2, engine_column_text(opt_view(h), opt_view(l)), 2)
                },
    {
        let mut cfg = EngineInfoConfig::new();
        if let Some(cp) = config {
            let edge_value = cp.get_config("engineInfoEdge");
            let hud_columns = cp.get_config("hudColumns");
            let needs_legacy = match &hud_columns {
                Some(h) => h.as_str().is_empty(),
                None => true,
            };
            let legacy_columns = if needs_legacy {
                cp.get_config("columns")
            } else {
                None
            };
            let ghost (e, h, l) = (edge_value, hud_columns, legacy_columns);
            cfg.apply_settings(edge_value, hud_columns, legacy_columns);
        }
        if let Some(gc) = &group_config {
            append_row_definitions(&mut cfg.field_definitions, gc.rows.as_slice(), "0");
            assert(defs_model(cfg.field_definitions@) =~= row_definitions(gc.rows@, "0"@));
        }
        cfg.group_config = group_config;
        cfg
    }
}

} // verus!

