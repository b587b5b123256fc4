//! Configuration of the flight information panel.
use vstd::prelude::*;
use crate::number::parse_i32_str;
use crate::text::{opt_view, owned, str_eq};
use crate::ui_model::config_stub::{ConfigProvider, GroupConfig};
use crate::ui_model::engine_info_config::columns_from;
use crate::ui_model::field_definition::{
    append_row_definitions, def_model, defs_model, row_definitions, FieldDefModel, FieldDefinition,
};

verus! {

/// Configuration of the flight information panel: its fields, style settings
/// and the configuration keys it reads.
pub struct FlightInfoConfig {
    /// The fields shown, in order.
    pub field_definitions: Vec<FieldDefinition>,
    pub title: String,
    pub show_edge: bool,
    /// Number of columns (3 unless configured).
    pub column_num: i32,
    pub num_font_key: String,
    pub label_font_key: String,
    pub column_key: String,
    pub pos_x_key: String,
    pub pos_y_key: String,
    pub edge_key: String,
    /// The layout group the fields were read from.
    pub group_config: Option<GroupConfig>,
}

/// The edge setting after reading `edge_value`: any value sets it, to
/// whether that value is exactly `true`.
pub open spec fn flight_edge(current: bool, edge_value: Option<Seq<char>>) -> bool {
    match edge_value {
        Some(v) => v == "true"@,
        None => current,
    }
}

impl FlightInfoConfig {
    /// The models of the field definitions, in order.
    pub open spec fn definitions(&self) -> Seq<FieldDefModel> {
        defs_model(self.field_definitions@)
    }

    /// True when `self` has the title and keys of `other`.
    pub open spec fn same_texts(&self, other: &FlightInfoConfig) -> bool {
        &&& self.title == other.title
        &&& self.num_font_key == other.num_font_key
        &&& self.label_font_key == other.label_font_key
        &&& self.column_key == other.column_key
        &&& self.pos_x_key == other.pos_x_key
        &&& self.pos_y_key == other.pos_y_key
        &&& self.edge_key == other.edge_key
    }

    /// The settings every new configuration starts from.
    pub open spec fn has_default_keys(&self) -> bool {
        &&& self.title@ == "FlightInfo"@
        &&& self.num_font_key@ == "GlobalNumFont"@
        &&& self.label_font_key@ == "flightInfoFontC"@
        &&& self.column_key@ == "flightInfoColumn"@
        &&& self.pos_x_key@ == "flightInfoX"@
        &&& self.pos_y_key@ == "flightInfoY"@
        &&& self.edge_key@ == "flightInfoEdge"@
    }

    /// A configuration with no fields, no edge, three columns and the default keys.
    pub fn new() -> (r: FlightInfoConfig)
        ensures
            r.has_default_keys(),
            r.definitions().len() == 0,
            !r.show_edge,
            r.column_num == 3,
            r.group_config is None,
    {
        let r = FlightInfoConfig {
            field_definitions: Vec::new(),
            title: owned("FlightInfo"),
            show_edge: false,
            column_num: 3,
            num_font_key: owned("GlobalNumFont"),
            label_font_key: owned("flightInfoFontC"),
            column_key: owned("flightInfoColumn"),
            pos_x_key: owned("flightInfoX"),
            pos_y_key: owned("flightInfoY"),
            edge_key: owned("flightInfoEdge"),
            group_config: None,
        };
        assert(defs_model(r.field_definitions@) =~= Seq::empty());
        r
    }

    /// The field definitions, in the order they were added.
    pub fn get_field_definitions(&self) -> (r: &[FieldDefinition])
        ensures
            defs_model(r@) == self.definitions(),
    {
        self.field_definitions.as_slice()
    }

    /// Appends a field definition with every setting given.
    pub fn add_field_definition_full(
        &mut self,
        key: &str,
        label: &str,
        unit: &str,
        config_key: &str,
        hide_when_na: bool,
        hide_when_zero: bool,
        example_value: &str,
    )
        ensures
            final(self).definitions() == old(self).definitions().push(
                def_model(
                    key@,
                    label@,
                    unit@,
                    config_key@,
                    hide_when_na,
                    hide_when_zero,
                    example_value@,
                ),
            ),
            final(self).same_texts(old(self)),
            final(self).show_edge == old(self).show_edge,
            final(self).column_num == old(self).column_num,
            final(self).group_config == old(self).group_config,
    {
        let ghost before = self.field_definitions@;
        self.field_definitions.push(
            FieldDefinition::new(
                key,
                label,
                unit,
                config_key,
                hide_when_na,
                hide_when_zero,
                example_value,
            ),
        );
        assert(defs_model(self.field_definitions@) =~= defs_model(before).push(
            def_model(key@, label@, unit@, config_key@, hide_when_na, hide_when_zero, example_value@),
        ));
    }

    /// Appends a field definition that is not hidden at zero.
    pub fn add_field_definition(
        &mut self,
        key: &str,
        label: &str,
        unit: &str,
        config_key: &str,
        hide_when_na: bool,
        example_value: &str,
    )
        ensures
            final(self).definitions() == old(self).definitions().push(
                def_model(key@, label@, unit@, config_key@, hide_when_na, false, example_value@),
            ),
            final(self).same_texts(old(self)),
            final(self).show_edge == old(self).show_edge,
            final(self).column_num == old(self).column_num,
            final(self).group_config == old(self).group_config,
    {
        self.add_field_definition_full(key, label, unit, config_key, hide_when_na, false, example_value);
    }

    /// Applies the configured values: the edge switch `flightInfoEdge` and
    /// the column count `flightInfoColumn`.
    pub fn apply_settings(&mut self, edge_value: Option<String>, columns: Option<String>)
        ensures
            final(self).show_edge == flight_edge(old(self).show_edge, opt_view(edge_value)),
            final(self).column_num == columns_from(old(self).column_num, opt_view(columns), 3),
            final(self).definitions() == old(self).definitions(),
            final(self).same_texts(old(self)),
            final(self).group_config == old(self).group_config,
    {
        if let Some(e) = &edge_value {
            self.show_edge = str_eq(e.as_str(), "true");
        }
        if let Some(c) = &columns {
            if !c.as_str().is_empty() {
                self.column_num = match parse_i32_str(c.as_str()) {
                    Some(v) => v,
                    None => 3,
                };
            }
        }
    }

    /// The default configuration: settings read from `config_provider` when
    /// given, fields built from the data rows of `group_config` (previewing
    /// `-` where a row gives no preview value).
    pub fn create_default<P: ConfigProvider + ?Sized>(
        config_provider: Option<&P>,
        group_config: Option<GroupConfig>,
    ) -> (r: FlightInfoConfig)
        ensures
            r.has_default_keys(),
            r.group_config == group_config,
            r.definitions() == match group_config {
                Some(g) => row_definitions(g.rows@, "-"@),
                None => Seq::empty(),
            },
            config_provider is None ==> !r.show_edge && r.column_num == 3,
            config_provider matches Some(cp) ==> exists|e: Option<String>, c: Option<String>|
                {
                    &&& call_ensures(P::get_config, (cp, "flightInfoEdge"), e)
                    &&& call_ensures(P::get_config, (cp, "flightInfoColumn"), c)
                    &&& r.show_edge == flight_edge(false, opt_view(e))
                    &&& r.column_num == columns_from(3, opt_view(c), 3)
                },
    {
        let mut cfg = FlightInfoConfig::new();
        if let Some(cp) = config_provider {
            let edge_value = cp.get_config("flightInfoEdge");
            let columns = cp.get_config("flightInfoColumn");
            let ghost (e, c) = (edge_value, columns);
            cfg.apply_settings(edge_value, columns);
        }
        if let Some(gc) = &group_config {
            append_row_definitions(&mut cfg.field_definitions, gc.rows.as_slice(), "-");
            assert(defs_model(cfg.field_definitions@) =~= row_definitions(gc.rows@, "-"@));
        }
        cfg.group_config = group_config;
        cfg
    }
}

} // verus!
