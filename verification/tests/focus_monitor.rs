use std::sync::atomic::{AtomicBool, AtomicUsize, Ordering};
use std::sync::{Arc, Mutex};

use vm_core::focus_monitor::{
    current_time_millis, focus_transition, AlwaysOnTopCoordinatorApi, FocusAction, FocusDetector,
    FocusMonitor, CHECK_INTERVAL_MS,
};

struct MockDetector {
    focus: AtomicBool,
    calls: AtomicUsize,
}

impl MockDetector {
    fn new(focus: bool) -> Self {
        MockDetector {
            focus: AtomicBool::new(focus),
            calls: AtomicUsize::new(0),
        }
    }

    fn set_focus(&self, focus: bool) {
        self.focus.store(focus, Ordering::SeqCst);
    }

    fn calls(&self) -> usize {
        self.calls.load(Ordering::SeqCst)
    }
}

impl FocusDetector for MockDetector {
    fn is_war_thunder_focused(&self) -> bool {
        self.calls.fetch_add(1, Ordering::SeqCst);
        self.focus.load(Ordering::SeqCst)
    }
}

struct MockCoordinator {
    calls: Mutex<Vec<String>>,
    hidden: AtomicBool,
}

impl MockCoordinator {
    fn new() -> Self {
        MockCoordinator {
            calls: Mutex::new(Vec::new()),
            hidden: AtomicBool::new(false),
        }
    }

    fn set_hidden(&self, hidden: bool) {
        self.hidden.store(hidden, Ordering::SeqCst);
    }

    fn calls(&self) -> Vec<String> {
        self.calls.lock().unwrap().clone()
    }
}

impl AlwaysOnTopCoordinatorApi for MockCoordinator {
    fn is_overlays_hidden(&self) -> bool {
        self.hidden.load(Ordering::SeqCst)
    }

    fn hide_all_overlays(&self) {
        self.calls.lock().unwrap().push("hide".to_string());
        self.hidden.store(true, Ordering::SeqCst);
    }

    fn show_all_overlays(&self) {
        self.calls.lock().unwrap().push("show".to_string());
        self.hidden.store(false, Ordering::SeqCst);
    }
}

fn monitor(focus: bool) -> (FocusMonitor, Arc<MockDetector>, Arc<MockCoordinator>) {
    let detector = Arc::new(MockDetector::new(focus));
    let coordinator = Arc::new(MockCoordinator::new());
    let m: FocusMonitor = FocusMonitor::new(detector.clone(), coordinator.clone());
    (m, detector, coordinator)
}

fn advance_past_interval(m: &mut FocusMonitor) {
    m.last_check_time = current_time_millis() - CHECK_INTERVAL_MS;
}

#[test]
fn test_defaults_disabled_and_tick_short_circuits() {
    let (mut m, det, coord) = monitor(true);
    assert!(!m.is_enabled(), "默认未启用");
    m.tick();
    assert_eq!(det.calls(), 0, "未启用时 tick 立即返回, 不做进程检测");
    assert!(coord.calls().is_empty());
}

#[test]
fn test_enable_resets_state_and_detects_immediately() {
    let (mut m, det, coord) = monitor(true);
    m.set_enabled(true);
    assert!(m.is_enabled());
    m.tick();
    assert_eq!(det.calls(), 1, "计时器重置后首个 tick 立即检测");
    assert!(
        coord.calls().is_empty(),
        "lastFocusState 重置 true 与检测值 true 相等 ⇒ 无显示/隐藏动作"
    );
}

#[test]
fn test_disable_restores_hidden_overlays() {
    let (mut m, _det, coord) = monitor(true);
    coord.set_hidden(true);
    m.set_enabled(false);
    assert_eq!(coord.calls(), vec!["show".to_string()], "禁用时确保overlay可见");
    assert!(!coord.is_overlays_hidden());

    let (mut m2, _d2, coord2) = monitor(true);
    m2.set_enabled(false);
    assert!(coord2.calls().is_empty(), "overlay 本来可见 ⇒ 不调 showAllOverlays");
}

#[test]
fn test_tick_throttled_within_interval() {
    let (mut m, det, coord) = monitor(false);
    m.set_enabled(true);
    m.tick();
    assert_eq!(det.calls(), 1);
    m.last_check_time = current_time_millis() + 3_600_000;
    m.tick();
    assert_eq!(det.calls(), 1, "间隔内的 tick 直接返回, 不做检测");
    assert_eq!(coord.calls(), vec!["hide".to_string()], "只有首次检测的失焦动作");
}

#[test]
fn test_tick_boundary_exactly_interval_fires() {
    let (mut m, det, _coord) = monitor(true);
    m.set_enabled(true);
    advance_past_interval(&mut m);
    m.tick();
    assert_eq!(det.calls(), 1, "now - last == 200 不满足 < 200 ⇒ 放行");
}

#[test]
fn test_focus_loss_hides_and_regain_shows() {
    let (mut m, det, coord) = monitor(false);
    m.set_enabled(true);
    m.tick();
    assert_eq!(coord.calls(), vec!["hide".to_string()]);
    assert!(coord.is_overlays_hidden());
    advance_past_interval(&mut m);
    det.set_focus(true);
    m.tick();
    assert_eq!(
        coord.calls(),
        vec!["hide".to_string(), "show".to_string()],
        "变化分支按方向分派 show/hide"
    );
    assert!(!coord.is_overlays_hidden());
}

#[test]
fn test_no_action_when_focus_unchanged() {
    let (mut m, _det, coord) = monitor(false);
    m.set_enabled(true);
    m.tick();
    advance_past_interval(&mut m);
    m.tick();
    assert_eq!(
        coord.calls(),
        vec!["hide".to_string()],
        "hasFocus == lastFocusState ⇒ 不动作 (但检测照常发生)"
    );
}

#[test]
fn test_reenable_assumes_focus_then_redetects() {
    let (mut m, det, coord) = monitor(false);
    m.set_enabled(true);
    m.tick();
    m.set_enabled(false);
    assert_eq!(coord.calls(), vec!["hide".to_string(), "show".to_string()]);
    m.set_enabled(true);
    det.set_focus(true);
    m.tick();
    assert_eq!(det.calls(), 2, "计时器随重启用清零 ⇒ 立即检测");
    assert_eq!(coord.calls().len(), 2, "焦点与重置假设一致 ⇒ 无新动作");
    advance_past_interval(&mut m);
    det.set_focus(false);
    m.tick();
    assert_eq!(coord.calls()[2], "hide");
    assert_eq!(det.calls(), 3);
}

#[test]
fn tick_at_fires_only_when_due() {
    let (mut m, det, coord) = monitor(false);
    m.set_enabled(true);
    m.tick_at(1_000);
    assert_eq!(det.calls(), 1);
    assert_eq!(m.last_check_time, 1_000);
    m.tick_at(1_199);
    assert_eq!(det.calls(), 1);
    m.tick_at(1_200);
    assert_eq!(det.calls(), 2);
    assert_eq!(coord.calls(), vec!["hide".to_string()]);
    assert!(!m.last_focus_state);
}

#[test]
fn focus_transition_table() {
    assert_eq!(focus_transition(true, true), (true, FocusAction::Nothing));
    assert_eq!(focus_transition(false, false), (false, FocusAction::Nothing));
    assert_eq!(focus_transition(true, false), (false, FocusAction::Hide));
    assert_eq!(focus_transition(false, true), (true, FocusAction::Show));
}
