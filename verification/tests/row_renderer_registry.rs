use std::cell::RefCell;
use std::sync::Arc;

use vm_core::config_loader::{GroupConfig, RowConfig};
use vm_core::row_renderer_registry::{RenderContext, RowRenderer, RowRendererRegistry, BUILTIN_ROW_TYPES};

struct FakeRenderer(Option<&'static str>);

impl RowRenderer<&'static str> for FakeRenderer {
    fn render(
        &self,
        _row: &RowConfig,
        _group_config: &GroupConfig,
        _context: &dyn RenderContext,
    ) -> Option<&'static str> {
        self.0
    }
}

struct ProbingRenderer;

impl RowRenderer<&'static str> for ProbingRenderer {
    fn render(
        &self,
        _row: &RowConfig,
        _group_config: &GroupConfig,
        context: &dyn RenderContext,
    ) -> Option<&'static str> {
        if context.is_updating() {
            None
        } else {
            Some("rendered")
        }
    }
}

struct RecordingContext {
    updating: bool,
    calls: RefCell<Vec<String>>,
}

impl RecordingContext {
    fn new(updating: bool) -> Self {
        RecordingContext {
            updating,
            calls: RefCell::new(Vec::new()),
        }
    }
}

impl RenderContext for RecordingContext {
    fn on_save(&self) {
        self.calls.borrow_mut().push("on_save".to_string());
    }

    fn on_rebuild(&self) {
        self.calls.borrow_mut().push("on_rebuild".to_string());
    }

    fn is_updating(&self) -> bool {
        self.updating
    }

    fn sync_to_config_service(&self, key: &str, value: bool) {
        self.calls
            .borrow_mut()
            .push(format!("sync:{key}={value}"));
    }

    fn get_from_config_service(&self, key: &str, default_val: bool) -> bool {
        self.calls.borrow_mut().push(format!("getBool:{key}"));
        default_val
    }

    fn sync_string_to_config_service(&self, key: &str, value: &str) {
        self.calls
            .borrow_mut()
            .push(format!("syncStr:{key}={value}"));
    }

    fn get_string_from_config_service(&self, key: &str, default_val: &str) -> String {
        self.calls.borrow_mut().push(format!("getStr:{key}"));
        default_val.to_string()
    }
}

fn row_and_group() -> (RowConfig, GroupConfig) {
    (
        RowConfig::new("label".to_string(), None, "%.0f".to_string()),
        GroupConfig::new("group".to_string()),
    )
}

#[test]
fn row_renderer_registry_get_unknown_type_falls_back_to_default() {
    let default: Arc<dyn RowRenderer<&'static str>> = Arc::new(FakeRenderer(Some("default")));
    let mut reg = RowRendererRegistry::new(Arc::clone(&default));
    reg.register("SLIDER", Arc::new(FakeRenderer(Some("slider"))));

    let (row, group) = row_and_group();
    let ctx = RecordingContext::new(false);
    let got = reg.get("NO_SUCH_TYPE");
    assert!(Arc::ptr_eq(&got, &default));
    assert_eq!(got.render(&row, &group, &ctx), Some("default"));
}

#[test]
fn row_renderer_registry_get_returns_registered_shared_instance() {
    let default: Arc<dyn RowRenderer<&'static str>> = Arc::new(FakeRenderer(Some("default")));
    let mut reg = RowRendererRegistry::new(default);
    let shared: Arc<dyn RowRenderer<&'static str>> = Arc::new(FakeRenderer(Some("combo-impl")));
    reg.register("COMBO", Arc::clone(&shared));

    let a = reg.get("COMBO");
    let b = reg.get("COMBO");
    assert!(Arc::ptr_eq(&a, &b));
    assert!(Arc::ptr_eq(&a, &shared));

    let (row, group) = row_and_group();
    let ctx = RecordingContext::new(false);
    assert_eq!(a.render(&row, &group, &ctx), Some("combo-impl"));
}

#[test]
fn row_renderer_registry_register_overwrites_existing_mapping() {
    let default: Arc<dyn RowRenderer<&'static str>> = Arc::new(FakeRenderer(Some("default")));
    let mut reg = RowRendererRegistry::new(default);
    reg.register("SWITCH", Arc::new(FakeRenderer(Some("old"))));
    reg.register("SWITCH", Arc::new(FakeRenderer(Some("new"))));

    let (row, group) = row_and_group();
    let ctx = RecordingContext::new(false);
    assert_eq!(reg.get("SWITCH").render(&row, &group, &ctx), Some("new"));
}

#[test]
fn row_renderer_registry_render_none_path_and_context_dispatch() {
    let default: Arc<dyn RowRenderer<&'static str>> = Arc::new(ProbingRenderer);
    let reg = RowRendererRegistry::new(default);
    let (row, group) = row_and_group();

    let idle = RecordingContext::new(false);
    assert_eq!(reg.get("ANY").render(&row, &group, &idle), Some("rendered"));

    let updating = RecordingContext::new(true);
    assert_eq!(reg.get("ANY").render(&row, &group, &updating), None);
}

#[test]
fn row_renderer_registry_builtin_table_matches_java_static_block() {
    let expected: &[(&str, &str)] = &[
        ("SLIDER", "SliderRowRenderer"),
        ("COMBO", "ComboRowRenderer"),
        ("SWITCH", "SwitchRowRenderer"),
        ("SWITCH_INV", "SwitchInvRowRenderer"),
        ("FILELIST", "FileListRowRenderer"),
        ("FMLIST", "FMListRowRenderer"),
        ("HOTKEY", "HotkeyRowRenderer"),
        ("COLOR", "ColorRowRenderer"),
        ("BUTTON", "ButtonRowRenderer"),
        ("DATA", "DataRowRenderer"),
        ("INPUT", "TextRowRenderer"),
        ("TEXT", "TextRowRenderer"),
        ("VOICE", "VoiceRowRenderer"),
        ("VOICE_GLOBAL", "VoiceGlobalRenderer"),
        ("INFO", "InfoRowRenderer"),
    ];
    assert_eq!(BUILTIN_ROW_TYPES, expected);
}

#[test]
fn row_renderer_registry_lookup_is_exact_case_sensitive_match() {
    let default: Arc<dyn RowRenderer<&'static str>> = Arc::new(FakeRenderer(Some("default")));
    let mut reg = RowRendererRegistry::new(default);
    reg.register("SLIDER", Arc::new(FakeRenderer(Some("slider"))));

    let (row, group) = row_and_group();
    let ctx = RecordingContext::new(false);
    assert_eq!(
        reg.get("slider").render(&row, &group, &ctx),
        Some("default"),
        "小写未命中 (精确匹配) → defaultRenderer"
    );
}

#[test]
fn row_renderer_registry_render_context_default_reset_to_defaults_is_noop() {
    let ctx = RecordingContext::new(false);
    ctx.on_save();
    ctx.reset_to_defaults();
    let calls = ctx.calls.borrow();
    assert_eq!(*calls, vec!["on_save".to_string()]);
}

#[test]
fn tests_get_unknown_type_falls_back_to_default() {
    let default: Arc<dyn RowRenderer<&'static str>> = Arc::new(FakeRenderer(Some("default")));
    let mut reg = RowRendererRegistry::new(Arc::clone(&default));
    reg.register("SLIDER", Arc::new(FakeRenderer(Some("slider"))));

    let (row, group) = row_and_group();
    let ctx = RecordingContext::new(false);
    let got = reg.get("NO_SUCH_TYPE");
    assert!(Arc::ptr_eq(&got, &default));
    assert_eq!(got.render(&row, &group, &ctx), Some("default"));
}

#[test]
fn tests_get_returns_registered_shared_instance() {
    let default: Arc<dyn RowRenderer<&'static str>> = Arc::new(FakeRenderer(Some("default")));
    let mut reg = RowRendererRegistry::new(default);
    let shared: Arc<dyn RowRenderer<&'static str>> = Arc::new(FakeRenderer(Some("combo-impl")));
    reg.register("COMBO", Arc::clone(&shared));

    let a = reg.get("COMBO");
    let b = reg.get("COMBO");
    assert!(Arc::ptr_eq(&a, &b));
    assert!(Arc::ptr_eq(&a, &shared));

    let (row, group) = row_and_group();
    let ctx = RecordingContext::new(false);
    assert_eq!(a.render(&row, &group, &ctx), Some("combo-impl"));
}

#[test]
fn tests_register_overwrites_existing_mapping() {
    let default: Arc<dyn RowRenderer<&'static str>> = Arc::new(FakeRenderer(Some("default")));
    let mut reg = RowRendererRegistry::new(default);
    reg.register("SWITCH", Arc::new(FakeRenderer(Some("old"))));
    reg.register("SWITCH", Arc::new(FakeRenderer(Some("new"))));

    let (row, group) = row_and_group();
    let ctx = RecordingContext::new(false);
    assert_eq!(reg.get("SWITCH").render(&row, &group, &ctx), Some("new"));
}

#[test]
fn tests_render_none_path_and_context_dispatch() {
    let default: Arc<dyn RowRenderer<&'static str>> = Arc::new(ProbingRenderer);
    let reg = RowRendererRegistry::new(default);
    let (row, group) = row_and_group();

    let idle = RecordingContext::new(false);
    assert_eq!(reg.get("ANY").render(&row, &group, &idle), Some("rendered"));

    let updating = RecordingContext::new(true);
    assert_eq!(reg.get("ANY").render(&row, &group, &updating), None);
}

#[test]
fn tests_builtin_table_matches_java_static_block() {
    let expected: &[(&str, &str)] = &[
        ("SLIDER", "SliderRowRenderer"),
        ("COMBO", "ComboRowRenderer"),
        ("SWITCH", "SwitchRowRenderer"),
        ("SWITCH_INV", "SwitchInvRowRenderer"),
        ("FILELIST", "FileListRowRenderer"),
        ("FMLIST", "FMListRowRenderer"),
        ("HOTKEY", "HotkeyRowRenderer"),
        ("COLOR", "ColorRowRenderer"),
        ("BUTTON", "ButtonRowRenderer"),
        ("DATA", "DataRowRenderer"),
        ("INPUT", "TextRowRenderer"),
        ("TEXT", "TextRowRenderer"),
        ("VOICE", "VoiceRowRenderer"),
        ("VOICE_GLOBAL", "VoiceGlobalRenderer"),
        ("INFO", "InfoRowRenderer"),
    ];
    assert_eq!(BUILTIN_ROW_TYPES, expected);
}

#[test]
fn tests_lookup_is_exact_case_sensitive_match() {
    let default: Arc<dyn RowRenderer<&'static str>> = Arc::new(FakeRenderer(Some("default")));
    let mut reg = RowRendererRegistry::new(default);
    reg.register("SLIDER", Arc::new(FakeRenderer(Some("slider"))));

    let (row, group) = row_and_group();
    let ctx = RecordingContext::new(false);
    assert_eq!(
        reg.get("slider").render(&row, &group, &ctx),
        Some("default"),
        "小写未命中 (精确匹配) → defaultRenderer"
    );
}

#[test]
fn tests_render_context_default_reset_to_defaults_is_noop() {
    let ctx = RecordingContext::new(false);
    ctx.on_save();
    ctx.reset_to_defaults();
    let calls = ctx.calls.borrow();
    assert_eq!(*calls, vec!["on_save".to_string()]);
}

#[test]
fn last_registration_for_a_type_wins() {
    let default: Arc<dyn RowRenderer<&'static str>> = Arc::new(FakeRenderer(Some("default")));
    let first: Arc<dyn RowRenderer<&'static str>> = Arc::new(FakeRenderer(Some("first")));
    let other: Arc<dyn RowRenderer<&'static str>> = Arc::new(FakeRenderer(Some("other")));
    let last: Arc<dyn RowRenderer<&'static str>> = Arc::new(FakeRenderer(Some("last")));
    let mut reg = RowRendererRegistry::new(Arc::clone(&default));
    reg.register("A", Arc::clone(&first));
    reg.register("B", Arc::clone(&other));
    reg.register("A", Arc::clone(&last));
    assert!(Arc::ptr_eq(&reg.get("A"), &last));
    assert!(Arc::ptr_eq(&reg.get("B"), &other));
    assert!(Arc::ptr_eq(&reg.get("C"), &default));
}
