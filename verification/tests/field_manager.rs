use std::collections::HashSet;
use vm_core::ui_model::config_stub::ConfigProvider;
use vm_core::ui_model::field_manager::DefaultFieldManager;

struct DisablingConfig {
    disabled: HashSet<String>,
}

impl ConfigProvider for DisablingConfig {
    fn get_config(&self, _key: &str) -> Option<String> {
        None
    }

    fn set_config(&mut self, _key: &str, _value: &str) {}

    fn is_field_disabled(&self, key: &str) -> bool {
        self.disabled.contains(key)
    }
}

fn manager_disabling(keys: &[&str]) -> DefaultFieldManager {
    let disabled = keys.iter().map(|k| k.to_string()).collect();
    DefaultFieldManager::new(Some(Box::new(DisablingConfig { disabled })))
}

#[test]
fn added_fields_keep_their_order_and_are_found() {
    let mut m: DefaultFieldManager = DefaultFieldManager::new(None);
    m.add_field("ias", "IAS", "km/h", Some("disableIAS"), true, false, None, None);
    m.add_field("tas", "TAS", "km/h", None, false, true, Some("123"), Some("TIME_MM_SS"));
    assert_eq!(m.size(), 2);
    let fields = m.get_fields();
    assert_eq!(fields[0].key, "ias");
    assert_eq!(fields[0].config_key, "disableIAS");
    assert_eq!(fields[0].current_value, "---");
    assert!(fields[0].hide_when_na);
    assert_eq!(fields[1].key, "tas");
    assert_eq!(fields[1].config_key, "");
    // the preview value is shown as it is, not right-aligned
    assert_eq!(fields[1].current_value, "123");
    assert_eq!(fields[1].format.as_deref(), Some("TIME_MM_SS"));
    assert!(fields[1].hide_when_zero);
    assert_eq!(m.index_of("tas"), Some(1));
    assert_eq!(m.get_field("ias").unwrap().label, "IAS");
    assert!(m.get_field("alt").is_none());
}

#[test]
fn disabled_fields_are_not_added() {
    let mut m = manager_disabling(&["disableIAS"]);
    m.add_field("ias", "IAS", "km/h", Some("disableIAS"), true, false, None, None);
    m.add_field("tas", "TAS", "km/h", Some("disableTAS"), true, false, None, None);
    // without a configuration key the configuration is not asked
    m.add_field("alt", "ALT", "m", None, true, false, None, None);
    assert_eq!(m.size(), 2);
    assert!(m.get_field("ias").is_none());
    assert_eq!(m.index_of("tas"), Some(0));
    assert_eq!(m.index_of("alt"), Some(1));
}

#[test]
fn adding_a_key_again_points_it_at_the_new_field() {
    let mut m: DefaultFieldManager = DefaultFieldManager::new(None);
    m.add_field("k", "first", "", None, false, false, None, None);
    m.add_field("k", "second", "", None, false, false, None, None);
    assert_eq!(m.size(), 2);
    assert_eq!(m.get_field("k").unwrap().label, "second");
    m.update_field("k", "7", "-");
    assert_eq!(m.get_fields()[0].current_value, "---");
    assert_eq!(m.get_fields()[1].current_value, "    7");
}

#[test]
fn updates_reach_the_field_of_the_key() {
    let mut m: DefaultFieldManager = DefaultFieldManager::new(None);
    m.add_field("a", "A", "u", None, true, false, None, None);
    m.add_field("b", "B", "u", None, false, false, None, None);
    m.update_field("a", "-", "-");
    assert!(!m.get_field("a").unwrap().visible);
    assert_eq!(m.get_field("a").unwrap().current_value, "    -");
    m.update_field_unit("b", "Ata");
    assert_eq!(m.get_field("b").unwrap().unit, "Ata");
    m.set_field_visible("b", false);
    assert_eq!(m.visible_count(), 0);
    m.set_field_visible("a", true);
    assert_eq!(m.visible_count(), 1);
    m.set_display("b", 2, Some("PCT"));
    assert_eq!(m.get_field("b").unwrap().precision, 2);
    assert_eq!(m.get_field("b").unwrap().format.as_deref(), Some("PCT"));
    // unknown keys change nothing
    m.update_field("zz", "1", "-");
    m.set_field_visible("zz", false);
    assert_eq!(m.visible_count(), 1);
}

#[test]
fn field_mut_changes_one_field() {
    let mut m: DefaultFieldManager = DefaultFieldManager::new(None);
    m.add_field("a", "A", "u", None, false, false, None, None);
    m.field_mut(0).set_value("12");
    assert_eq!(m.get_field("a").unwrap().current_value, "   12");
}

#[test]
fn clear_all_empties_the_manager() {
    let mut m: DefaultFieldManager = DefaultFieldManager::new(None);
    m.add_field("a", "A", "u", None, false, false, None, None);
    m.clear_all();
    assert_eq!(m.size(), 0);
    assert!(m.get_field("a").is_none());
    assert_eq!(m.visible_count(), 0);
}

#[test]
fn add_field_unless_follows_the_decision() {
    let mut m: DefaultFieldManager = DefaultFieldManager::new(None);
    m.add_field_unless(true, "a", "A", "u", Some("disableA"), false, false, None, None);
    assert_eq!(m.size(), 0);
    m.add_field_unless(false, "a", "A", "u", Some("disableA"), false, false, None, None);
    assert_eq!(m.size(), 1);
    assert_eq!(m.get_field("a").unwrap().config_key, "disableA");
}
