use std::collections::{HashMap, HashSet};

use vm_core::ui_model::config_stub::{ConfigProvider, GroupConfig, RowConfig};
use vm_core::ui_model::engine_info_config::EngineInfoConfig;
use vm_core::ui_model::field_definition::FieldDefinition;
use vm_core::ui_model::flight_info_config::FlightInfoConfig;

/// In-memory configuration values.
struct MockConfigProvider {
    values: HashMap<String, String>,
    disabled: HashSet<String>,
}

impl MockConfigProvider {
    fn new() -> Self {
        MockConfigProvider { values: HashMap::new(), disabled: HashSet::new() }
    }
}

impl ConfigProvider for MockConfigProvider {
    fn get_config(&self, key: &str) -> Option<String> {
        self.values.get(key).cloned()
    }

    fn set_config(&mut self, key: &str, value: &str) {
        self.values.insert(key.to_string(), value.to_string());
    }

    fn is_field_disabled(&self, key: &str) -> bool {
        self.disabled.contains(key)
    }
}


#[test]
fn row_config_defaults_match_java() {
    let row = RowConfig::new("转半径");
    assert_eq!(row.label, "转半径");
    assert_eq!(row.target_name, None);
    assert_eq!(row.unit, "");
    assert_eq!(row.preview_value, None);
    assert!(!row.hide_when_zero);
    assert_eq!(row.row_type, "DATA");
    assert_eq!(row.property, None);
    assert!(row.children.is_empty());
}

#[test]
fn group_config_new() {
    let gc = GroupConfig::new("飞行信息");
    assert_eq!(gc.title, "飞行信息");
    assert!(gc.rows.is_empty());
}

#[test]
fn new_full_constructor() {
    let def = FieldDefinition::new("getIAS", "表  速", "Km/h", "disableFlightInfoIAS", true, true, "500");
    assert_eq!(def.key, "getIAS");
    assert_eq!(def.label, "表  速");
    assert_eq!(def.unit, "Km/h");
    assert_eq!(def.config_key, "disableFlightInfoIAS");
    assert!(def.hide_when_na);
    assert!(def.hide_when_zero);
    assert_eq!(def.preview_value, "500");
    assert_eq!(def.format, None);
}

#[test]
fn with_format_delegates_then_sets() {
    let def = FieldDefinition::with_format(
        "getFuelTime", "燃油时间", "M:s", "disableFuelTime", false, false, "45:00", Some("TIME_MM_SS"),
    );
    assert_eq!(def.preview_value, "45:00");
    assert_eq!(def.format.as_deref(), Some("TIME_MM_SS"));
    assert!(!def.hide_when_na);
}

#[test]
fn without_hide_zero_defaults_false() {
    let def = FieldDefinition::new_without_hide_zero("getTAS", "真空速", "Km/h", "disableTAS", true, "550");
    assert!(def.hide_when_na);
    assert!(!def.hide_when_zero, "缺省 hideWhenZero 必须 false");
    assert_eq!(def.preview_value, "550");
    assert_eq!(def.format, None);
}

#[test]
fn with_default_preview_uses_dash() {
    let def = FieldDefinition::new_with_default_preview("getX", "X", "", "disableX", true);
    assert_eq!(def.preview_value, "-");
    assert!(!def.hide_when_zero);
}

#[test]
fn defaults_match_java_field_initializers() {
    let cfg = EngineInfoConfig::new();
    assert_eq!(cfg.title, "EngineInfo");
    assert!(!cfg.show_edge);
    assert_eq!(cfg.column_num, 2);
    assert_eq!(cfg.num_font_key, "GlobalNumFont");
    assert_eq!(cfg.label_font_key, "fontName");
    assert_eq!(cfg.font_add_key, "fontSize");
    assert_eq!(cfg.column_key, "hudColumns");
    assert_eq!(cfg.pos_x_key, "engineInfoX");
    assert_eq!(cfg.pos_y_key, "engineInfoY");
    assert_eq!(cfg.edge_key, "engineInfoEdge");
    assert!(cfg.group_config.is_none());
    assert!(cfg.get_field_definitions().is_empty());
}

#[test]
fn edge_only_true_enables() {
    let mut mock = MockConfigProvider::new();
    mock.values.insert("engineInfoEdge".to_string(), "true".to_string());
    assert!(EngineInfoConfig::create_default(Some(&mock), None).show_edge);

    let mut mock = MockConfigProvider::new();
    mock.values.insert("engineInfoEdge".to_string(), "false".to_string());
    assert!(!EngineInfoConfig::create_default(Some(&mock), None).show_edge);

    assert!(!EngineInfoConfig::create_default(Some(&MockConfigProvider::new()), None).show_edge);
    let mut mock = MockConfigProvider::new();
    mock.values.insert("engineInfoEdge".to_string(), "TRUE".to_string());
    assert!(!EngineInfoConfig::create_default(Some(&mock), None).show_edge);
}

#[test]
fn column_new_key_first_legacy_fallback() {
    let mut mock = MockConfigProvider::new();
    mock.values.insert("hudColumns".to_string(), "4".to_string());
    mock.values.insert("columns".to_string(), "3".to_string());
    assert_eq!(EngineInfoConfig::create_default(Some(&mock), None).column_num, 4);

    let mut mock = MockConfigProvider::new();
    mock.values.insert("columns".to_string(), "3".to_string());
    assert_eq!(EngineInfoConfig::create_default(Some(&mock), None).column_num, 3);

    let mut mock = MockConfigProvider::new();
    mock.values.insert("hudColumns".to_string(), String::new());
    mock.values.insert("columns".to_string(), "6".to_string());
    assert_eq!(EngineInfoConfig::create_default(Some(&mock), None).column_num, 6);

    assert_eq!(EngineInfoConfig::create_default(Some(&MockConfigProvider::new()), None).column_num, 2);

    let mut mock = MockConfigProvider::new();
    mock.values.insert("hudColumns".to_string(), "NaN".to_string());
    assert_eq!(EngineInfoConfig::create_default(Some(&mock), None).column_num, 2);
}

#[test]
fn populate_from_group_defaults_to_zero_preview() {
    let mut group = GroupConfig::new("引擎信息");
    let mut row = RowConfig::new("功率");
    row.property = Some("S.sTotalHp".to_string());
    row.unit = "Hp".to_string();
    group.rows.push(row);

    let cfg = EngineInfoConfig::create_default(None::<&MockConfigProvider>, Some(group));
    let defs = cfg.get_field_definitions();
    assert_eq!(defs.len(), 1);
    assert_eq!(defs[0].preview_value, "0", "EngineInfo 兜底 '0' (FlightInfo 为 '-')");
    assert_eq!(defs[0].config_key, "S.sTotalHp");
    assert!(defs[0].hide_when_na);

    let mut group = GroupConfig::new("g");
    let mut row = RowConfig::new("油温");
    row.property = Some("oilTemp".to_string());
    row.preview_value = Some("85".to_string());
    row.target_name = Some("油  温".to_string());
    group.rows.push(row);
    let cfg2 = EngineInfoConfig::create_default(None::<&MockConfigProvider>, Some(group));
    let defs = cfg2.get_field_definitions();
    assert_eq!(defs[0].preview_value, "85");
    assert_eq!(defs[0].label, "油  温");
}

#[test]
fn populate_from_group_skips_non_data_and_recurses() {
    let mut group = GroupConfig::new("g");
    let mut slider = RowConfig::new("字号");
    slider.row_type = "SLIDER".to_string();
    slider.property = Some("fontSize".to_string());
    group.rows.push(slider);
    let mut child_container = RowConfig::new("容器");
    let mut child = RowConfig::new("水温");
    child.property = Some("waterTemp".to_string());
    child_container.children.push(child);
    group.rows.push(child_container);

    let cfg3 = EngineInfoConfig::create_default(None::<&MockConfigProvider>, Some(group));
    let defs = cfg3.get_field_definitions();
    assert_eq!(defs.len(), 1);
    assert_eq!(defs[0].key, "waterTemp");
}

#[test]
fn add_field_definition_simple_delegates_with_false() {
    let mut cfg = EngineInfoConfig::new();
    cfg.add_field_definition_simple("k", "标签", "Hp", "c", true, "1200");
    cfg.add_field_definition("k2", "标签2", "Kgf", "c2", true, true, "1800");
    let defs = cfg.get_field_definitions();
    assert_eq!(defs.len(), 2);
    assert!(!defs[0].hide_when_zero);
    assert_eq!(defs[0].preview_value, "1200");
    assert!(defs[1].hide_when_zero);
    assert_eq!(defs[1].preview_value, "1800");
}

#[test]
fn create_default_with_null_inputs_keeps_defaults() {
    let cfg = FlightInfoConfig::create_default(None::<&MockConfigProvider>, None);
    assert_eq!(cfg.title, "FlightInfo");
    assert!(!cfg.show_edge);
    assert_eq!(cfg.column_num, 3);
    assert_eq!(cfg.num_font_key, "GlobalNumFont");
    assert_eq!(cfg.label_font_key, "flightInfoFontC");
    assert_eq!(cfg.column_key, "flightInfoColumn");
    assert_eq!(cfg.pos_x_key, "flightInfoX");
    assert_eq!(cfg.pos_y_key, "flightInfoY");
    assert_eq!(cfg.edge_key, "flightInfoEdge");
    assert!(cfg.group_config.is_none());
    assert!(cfg.get_field_definitions().is_empty());
}

#[test]
fn edge_switch_parsing() {
    let mut mock = MockConfigProvider::new();
    mock.values.insert("flightInfoEdge".to_string(), "true".to_string());
    let cfg = FlightInfoConfig::create_default(Some(&mock), None);
    assert!(cfg.show_edge);

    let mut mock = MockConfigProvider::new();
    mock.values.insert("flightInfoEdge".to_string(), "false".to_string());
    assert!(!FlightInfoConfig::create_default(Some(&mock), None).show_edge);

    assert!(!FlightInfoConfig::create_default(Some(&MockConfigProvider::new()), None).show_edge);

    let mut mock = MockConfigProvider::new();
    mock.values.insert("flightInfoEdge".to_string(), String::new());
    assert!(!FlightInfoConfig::create_default(Some(&mock), None).show_edge);

    let mut mock = MockConfigProvider::new();
    mock.values.insert("flightInfoEdge".to_string(), "TRUE".to_string());
    assert!(!FlightInfoConfig::create_default(Some(&mock), None).show_edge);
}

#[test]
fn column_parsing() {
    let mut mock = MockConfigProvider::new();
    mock.values.insert("flightInfoColumn".to_string(), "5".to_string());
    assert_eq!(FlightInfoConfig::create_default(Some(&mock), None).column_num, 5);

    for bad in ["abc", " 4", "3.5", "1e2"] {
        let mut mock = MockConfigProvider::new();
        mock.values.insert("flightInfoColumn".to_string(), bad.to_string());
        assert_eq!(
            FlightInfoConfig::create_default(Some(&mock), None).column_num,
            3,
            "非法值 {bad} 应回落 3"
        );
    }

    let mut mock = MockConfigProvider::new();
    mock.values.insert("flightInfoColumn".to_string(), String::new());
    assert_eq!(FlightInfoConfig::create_default(Some(&mock), None).column_num, 3, "空串跳过解析");
}

#[test]
fn populate_from_group_basic() {
    let mut group = GroupConfig::new("飞行信息");
    let mut row = RowConfig::new("转半径");
    row.property = Some("getTurnRadius".to_string());
    row.unit = "M".to_string();
    row.hide_when_zero = true;
    group.rows.push(row);

    let cfg = FlightInfoConfig::create_default(None::<&MockConfigProvider>, Some(group));
    let defs = cfg.get_field_definitions();
    assert_eq!(defs.len(), 1);
    assert_eq!(defs[0].key, "getTurnRadius");
    assert_eq!(defs[0].label, "转半径", "无 targetName 时回退 label");
    assert_eq!(defs[0].unit, "M");
    assert_eq!(defs[0].config_key, "getTurnRadius", "configKey = property");
    assert!(defs[0].hide_when_na, "populateFromGroup 固定传 true");
    assert!(defs[0].hide_when_zero);
    assert_eq!(defs[0].preview_value, "-", "previewValue 缺省兜底 '-'");
}

#[test]
fn populate_from_group_prefers_target_name() {
    let mut group = GroupConfig::new("g");
    let mut row = RowConfig::new("原始标签");
    row.property = Some("getIAS".to_string());
    row.target_name = Some("表  速".to_string());
    row.preview_value = Some("500".to_string());
    row.unit = "Km/h".to_string();
    group.rows.push(row);

    let cfg = FlightInfoConfig::create_default(None::<&MockConfigProvider>, Some(group));
    let defs = cfg.get_field_definitions();
    assert_eq!(defs[0].label, "表  速");
    assert_eq!(defs[0].preview_value, "500");
    let mut group = GroupConfig::new("g");
    let mut row = RowConfig::new("L");
    row.property = Some("p".to_string());
    row.target_name = Some(String::new());
    group.rows.push(row);
    assert_eq!(FlightInfoConfig::create_default(None::<&MockConfigProvider>, Some(group)).get_field_definitions()[0].label, "L");
}

#[test]
fn populate_from_group_skips_and_recurses() {
    let mut group = GroupConfig::new("g");
    let mut header = RowConfig::new("标题行");
    header.row_type = "HEADER".to_string();
    header.property = Some("h".to_string());
    group.rows.push(header);

    let no_prop = RowConfig::new("无属性");
    group.rows.push(no_prop);

    let mut empty_prop = RowConfig::new("空属性");
    empty_prop.property = Some(String::new());
    group.rows.push(empty_prop);

    let mut parent = RowConfig::new("容器");
    let mut child = RowConfig::new("子行");
    child.property = Some("childProp".to_string());
    child.unit = "%".to_string();
    parent.children.push(child);
    group.rows.push(parent);

    let cfg = FlightInfoConfig::create_default(None::<&MockConfigProvider>, Some(group));
    let defs = cfg.get_field_definitions();
    assert_eq!(defs.len(), 1, "仅子行 DATA 命中");
    assert_eq!(defs[0].key, "childProp");
    assert_eq!(defs[0].unit, "%");
}

#[test]
fn add_field_definition_overloads() {
    let mut cfg = FlightInfoConfig::new();
    cfg.add_field_definition("a", "A", "u", "ca", true, "1");
    cfg.add_field_definition_full("b", "B", "u", "cb", true, true, "2");
    let defs = cfg.get_field_definitions();
    assert_eq!(defs.len(), 2);
    assert!(!defs[0].hide_when_zero, "6 参重载缺省 hideWhenZero=false");
    assert!(defs[1].hide_when_zero);
    assert_eq!(defs[1].preview_value, "2");
}

#[test]
fn group_config_stored() {
    let cfg = FlightInfoConfig::create_default(None::<&MockConfigProvider>, Some(GroupConfig::new("飞行信息")));
    assert_eq!(cfg.group_config.as_ref().unwrap().title, "飞行信息");
}
