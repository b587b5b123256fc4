use vm_core::ui_model::gauge_field::{GaugeField, MarkedGaugePlaceholder};

#[test]
fn constructor_derives_config_key() {
    let gf = GaugeField::new("throttle", "油门", "%", 3, 110, false);
    assert_eq!(gf.base.config_key, "disablethrottle", "configKey = \"disable\" + key");
    assert_eq!(gf.base.key, "throttle");
    assert_eq!(gf.base.label, "油门");
    assert_eq!(gf.base.unit, "%");
    assert!(!gf.base.hide_when_na);
    assert!(!gf.base.hide_when_zero);
    assert!(gf.base.visible);
    assert_eq!(gf.base.current_value, "---");
    assert_eq!(gf.gauge_type, 3);
    assert_eq!(gf.max_value, 110);
    assert_eq!(gf.current_int_value, 0);
    assert!(!gf.is_horizontal);
}

#[test]
fn constructor_gauge_component_params() {
    let gf = GaugeField::new("compressor", "增压器", "", 0, 1, true);
    let gauge = gf.gauge.as_ref().expect("the gauge component comes with the field");
    assert_eq!(gauge.label, "增压器");
    assert_eq!(gauge.max_value, 1);
    assert!(!gauge.vertical, "vertical = !is_horizontal = false");
    assert!(gf.marked_gauge.is_none(), "no marked gauge by default");

    let gf2 = GaugeField::new("rpm", "转速", "RPM", 1, 3000, false);
    assert!(gf2.gauge.as_ref().unwrap().vertical);
}

#[test]
fn update_gauge_sets_int_and_raw_text() {
    let mut gf = GaugeField::new("fuel", "燃油", "%", 2, 100, true);
    gf.update_gauge(64, " 64%");
    assert_eq!(gf.current_int_value, 64);
    assert_eq!(gf.base.current_value, " 64%", "the display text is shown as it is");
    gf.update_gauge(7, "7");
    assert_eq!(gf.base.current_value, "7");
}

#[test]
fn marked_gauge_external_assignment() {
    let mut gf = GaugeField::new("compressor", "增压器", "", 0, 1, true);
    gf.marked_gauge = Some(MarkedGaugePlaceholder);
    assert!(gf.marked_gauge.is_some());
}

#[test]
fn update_gauge_keeps_the_setup() {
    let mut gf = GaugeField::new("rpm", "转速", "RPM", 1, 3000, false);
    gf.update_gauge(-5, "");
    assert_eq!(gf.current_int_value, -5);
    assert_eq!(gf.base.current_value, "");
    assert_eq!(gf.base.config_key, "disablerpm");
    assert_eq!(gf.base.unit, "RPM");
    assert_eq!(gf.max_value, 3000);
}
