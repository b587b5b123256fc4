#![allow(clippy::arc_with_non_send_sync)]

use std::cell::RefCell;
use std::collections::HashMap;
use std::sync::Arc;

use vm_core::blkx::Blkx;
use vm_core::config_api::ConfigProvider;
use vm_core::overlay_context::{parse_boolean, Builder, ControllerRef, OverlayContext};

/// In-memory configuration values behind a shared handle.
struct MapConfig {
    values: RefCell<HashMap<String, String>>,
}

impl MapConfig {
    fn new() -> Self {
        MapConfig { values: RefCell::new(HashMap::new()) }
    }
}

impl ConfigProvider for MapConfig {
    fn get_config(&self, key: &str) -> Option<String> {
        self.values.borrow().get(key).cloned()
    }

    fn set_config(&self, key: &str, value: &str) {
        self.values.borrow_mut().insert(key.to_string(), value.to_string());
    }

    fn is_field_disabled(&self, _key: &str) -> bool {
        false
    }
}

struct MockService;

struct MockController {
    config: Arc<MapConfig>,
    service: Option<Arc<MockService>>,
}

impl ControllerRef<MockService> for MockController {
    fn service(&self) -> Option<Arc<MockService>> {
        self.service.clone()
    }
    fn get_config_service(&self) -> Option<Arc<dyn ConfigProvider>> {
        Some(self.config.clone())
    }
}

fn mock_controller(k: &str, v: &str, with_service: bool) -> Arc<MockController> {
    let config = Arc::new(MapConfig::new());
    config.set_config(k, v);
    Arc::new(MockController {
        config,
        service: if with_service { Some(Arc::new(MockService)) } else { None },
    })
}

#[test]
fn test_builder_defaults_match_java() {
    let ctx: OverlayContext<MockController, MockService> = Builder::new().build();
    assert!(ctx.tc.is_none(), "tc 默认 null");
    assert!(ctx.s.is_none(), "S 默认 null");
    assert!(ctx.blkx.is_none(), "Blkx 默认 null");
    assert!(!ctx.is_preview_mode, "isPreviewMode 默认 false");
    assert!(ctx.config_provider.is_none(), "configProvider 默认 null");
    let _: Builder<MockController, MockService> = OverlayContext::builder();
}

#[test]
fn test_get_bool_parse_boolean_semantics() {
    let cases: &[(&str, Option<&str>, bool)] = &[
        ("lower-true", Some("true"), true),
        ("upper-true", Some("TRUE"), true),
        ("mixed-true", Some("True"), true),
        ("false", Some("false"), false),
        ("empty", Some(""), false),
        ("leading-space", Some(" true"), false),
        ("trailing-space", Some("true "), false),
        ("yes", Some("yes"), false),
        ("one", Some("1"), false),
        ("cjk", Some("真"), false),
        ("missing-key-null", None, false),
    ];
    for (name, stored, expect) in cases {
        let config = Arc::new(MapConfig::new());
        if let Some(v) = stored {
            config.set_config("k", v);
        }
        let ctx: OverlayContext<MockController, MockService> = OverlayContext::<MockController, MockService>::builder()
            .config_provider(Some(config))
            .build();
        assert_eq!(ctx.get_bool("k"), *expect, "case {name}");
    }
}

#[test]
fn test_get_string_passthrough() {
    let config = Arc::new(MapConfig::new());
    config.set_config("k", "v");
    let ctx: OverlayContext<MockController, MockService> = OverlayContext::<MockController, MockService>::builder()
        .config_provider(Some(config))
        .build();
    assert_eq!(ctx.get_string("k"), Some("v".to_string()));
    assert_eq!(ctx.get_string("nope"), None, "缺键 → null 透传");
}

#[test]
fn test_is_jet_null_short_circuit() {
    let ctx: OverlayContext<MockController, MockService> = OverlayContext::builder().build();
    assert!(!ctx.is_jet());

    let ctx: OverlayContext<MockController, MockService> = OverlayContext::builder()
        .blkx(Some(Blkx::default()))
        .build();
    assert!(!ctx.is_jet());

    let mut jet_blkx = Blkx::default();
    jet_blkx.is_jet = true;
    let ctx: OverlayContext<MockController, MockService> = OverlayContext::builder()
        .blkx(Some(jet_blkx))
        .build();
    assert!(ctx.is_jet());
}

#[test]
fn test_is_debug_constant_false() {
    let ctx: OverlayContext<MockController, MockService> = OverlayContext::builder().build();
    assert!(!ctx.is_debug());
}

#[test]
fn test_build_fallback_pulls_config_from_controller() {
    let tc = mock_controller("enableVoiceWarn", "true", true);
    let ctx = OverlayContext::builder()
        .controller(Some(Arc::clone(&tc)))
        .service(tc.service())
        .build();
    assert!(ctx.config_provider.is_some(), "回退应写入 configProvider");
    assert!(ctx.get_bool("enableVoiceWarn"), "经回退的配置服务读到 true");
    let svc = tc.service().unwrap();
    assert!(ctx.s.is_some() && Arc::ptr_eq(ctx.s.as_ref().unwrap(), &svc));
}

#[test]
fn test_build_explicit_provider_wins() {
    let explicit: Arc<dyn ConfigProvider> = Arc::new(MapConfig::new());
    explicit.set_config("k", "false");
    let ctx = OverlayContext::builder()
        .controller(Some(mock_controller("k", "true", false)))
        .config_provider(Some(explicit))
        .build();
    assert!(!ctx.get_bool("k"), "显式 configProvider (false) 优先于 Controller 回退 (true)");
}

#[test]
fn test_builder_reusable_after_build() {
    let mut b = OverlayContext::<MockController, MockService>::builder();
    b.controller(Some(mock_controller("k", "true", false)));
    let c1 = b.build();
    let c2 = b.build();
    assert!(c1.get_bool("k"));
    assert!(c2.get_bool("k"), "二次 build 同样携带回退的 configProvider");
}

#[test]
fn test_for_game_mode_wiring() {
    let tc = mock_controller("showSpeedBar", "TRUE", true);
    let svc = tc.service().unwrap();
    let ctx = OverlayContext::for_game_mode(None, Arc::clone(&tc));
    assert!(ctx.tc.is_some() && Arc::ptr_eq(ctx.tc.as_ref().unwrap(), &tc));
    assert!(ctx.s.is_some() && Arc::ptr_eq(ctx.s.as_ref().unwrap(), &svc));
    assert!(ctx.blkx.is_none());
    assert!(!ctx.is_preview_mode, "游戏模式 previewMode=false");
    assert!(ctx.get_bool("showSpeedBar"), "configProvider 自动取自 getConfigService");
}

#[test]
fn test_for_preview_mode_wiring() {
    let tc = mock_controller("k", "true", false);
    let ctx = OverlayContext::for_preview_mode(None, Arc::clone(&tc));
    assert!(ctx.is_preview_mode, "预览模式 previewMode=true");
    assert!(ctx.blkx.is_none());
    assert!(ctx.s.is_none(), "tc.S 为 null 时如实透传 null");
    assert!(ctx.get_bool("k"));
}

#[test]
fn parse_boolean_reads_true_in_any_case_only() {
    assert!(parse_boolean(Some("tRuE".to_string())));
    assert!(!parse_boolean(Some("truee".to_string())));
    assert!(!parse_boolean(Some("tru".to_string())));
    assert!(!parse_boolean(None));
}

#[test]
fn game_mode_keeps_given_aircraft_data() {
    let tc = mock_controller("k", "true", false);
    let mut jet = Blkx::default();
    jet.is_jet = true;
    let ctx = OverlayContext::for_game_mode(Some(jet), tc);
    assert!(ctx.is_jet());
}
