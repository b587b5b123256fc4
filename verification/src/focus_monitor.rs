//! Hiding the overlays while the game window is not in front.
//!
//! When enabled, the monitor asks at most every [`CHECK_INTERVAL_MS`]
//! milliseconds whether the game has the focus; when the answer changes it
//! hides the overlays (focus lost) or shows them again (focus regained).
use std::sync::Arc;
use vstd::prelude::*;

verus! {

/// Tells whether the game window has the keyboard focus.
pub trait FocusDetector {
    fn is_war_thunder_focused(&self) -> bool;
}

/// Shows and hides all overlays at once.
pub trait AlwaysOnTopCoordinatorApi {
    fn is_overlays_hidden(&self) -> bool;

    fn hide_all_overlays(&self);

    fn show_all_overlays(&self);
}

/// The shortest time between two focus checks, in milliseconds.
pub const CHECK_INTERVAL_MS: i64 = 200;

/// The current time in milliseconds since the Unix epoch.
///
/// Reads `std::time::SystemTime::now()`; the value depends on the clock, so
/// nothing is stated of it.
#[verifier::external_body]
pub fn current_time_millis() -> i64 {
    match std::time::SystemTime::now().duration_since(std::time::UNIX_EPOCH) {
        Ok(d) => d.as_millis() as i64,
        Err(_) => 0,
    }
}

/// What to do with the overlays after a focus check.
#[derive(Debug, Clone, Copy, PartialEq, Eq, Structural)]
pub enum FocusAction {
    Nothing,
    Show,
    Hide,
}

/// The focus state kept and the action taken when a check finds `has_focus`
/// after `last_focus_state`: nothing when it did not change, else the new
/// state and showing (focus regained) or hiding (focus lost).
pub fn focus_transition(last_focus_state: bool, has_focus: bool) -> (r: (bool, FocusAction))
    ensures
        r.0 == has_focus,
        r.1 == (if has_focus == last_focus_state {
            FocusAction::Nothing
        } else if has_focus {
            FocusAction::Show
        } else {
            FocusAction::Hide
        }),
{
    if has_focus == last_focus_state {
        (last_focus_state, FocusAction::Nothing)
    } else if has_focus {
        (true, FocusAction::Show)
    } else {
        (false, FocusAction::Hide)
    }
}

/// True when a tick at time `now` checks the focus: the monitor is enabled
/// and at least the interval has passed since the last check.
pub open spec fn check_due(enabled: bool, last_check_time: i64, now: i64) -> bool {
    enabled && now - last_check_time >= CHECK_INTERVAL_MS
}

/// Watches the game's focus and hides the overlays while it is lost.
pub struct FocusMonitor<
    D: ?Sized + FocusDetector = dyn FocusDetector,
    C: ?Sized + AlwaysOnTopCoordinatorApi = dyn AlwaysOnTopCoordinatorApi,
> {
    detector: Arc<D>,
    coordinator: Arc<C>,
    enabled: bool,
    /// The focus state found by the last check (assumed present on enabling).
    pub last_focus_state: bool,
    /// Time of the last check, in milliseconds (0 right after enabling).
    pub last_check_time: i64,
}

impl<D: ?Sized + FocusDetector, C: ?Sized + AlwaysOnTopCoordinatorApi> FocusMonitor<D, C> {
    /// True when the monitor is enabled.
    pub closed spec fn enabled_view(&self) -> bool {
        self.enabled
    }

    /// The focus state found by the last check.
    /// The focus detector the monitor asks.
    pub closed spec fn detector_view(&self) -> &D {
        &*self.detector
    }

    pub closed spec fn focus_view(&self) -> bool {
        self.last_focus_state
    }

    /// The time of the last check.
    pub closed spec fn checked_at(&self) -> i64 {
        self.last_check_time
    }

    /// A disabled monitor.
    pub fn new(detector: Arc<D>, coordinator: Arc<C>) -> (r: FocusMonitor<D, C>)
        ensures
            !r.enabled_view(),
            r.focus_view(),
            r.checked_at() == 0,
    {
        FocusMonitor {
            detector,
            coordinator,
            enabled: false,
            last_focus_state: true,
            last_check_time: 0,
        }
    }

    pub fn is_enabled(&self) -> (r: bool)
        ensures
            r == self.enabled_view(),
    {
        self.enabled
    }

    /// Enables the monitor (assuming the focus present and checking at the
    /// next tick), or disables it, showing the overlays if they are hidden.
    pub fn set_enabled(&mut self, enabled: bool)
        ensures
            final(self).enabled_view() == enabled,
            enabled ==> final(self).focus_view() && final(self).checked_at() == 0,
            !enabled ==> final(self).focus_view() == old(self).focus_view()
                && final(self).checked_at() == old(self).checked_at(),
    {
        self.enabled = enabled;
        if enabled {
            self.last_focus_state = true;
            self.last_check_time = 0;
        } else if self.coordinator.is_overlays_hidden() {
            self.coordinator.show_all_overlays();
        }
    }

    /// One step at time `now`: when a check is due (see [`check_due`]), asks
    /// the detector, keeps its answer as the focus state, and shows or hides
    /// the overlays as [`focus_transition`] says.
    pub fn tick_at(&mut self, now: i64)
        ensures
            final(self).enabled_view() == old(self).enabled_view(),
            check_due(old(self).enabled_view(), old(self).checked_at(), now)
                ==> final(self).checked_at() == now,
            check_due(old(self).enabled_view(), old(self).checked_at(), now) ==> call_ensures(
                D::is_war_thunder_focused,
                (old(self).detector_view(),),
                final(self).focus_view(),
            ),
            final(self).detector_view() == old(self).detector_view(),
            !check_due(old(self).enabled_view(), old(self).checked_at(), now)
                ==> final(self).checked_at() == old(self).checked_at()
                && final(self).focus_view() == old(self).focus_view(),
    {
        if !self.enabled {
            return;
        }
        let elapsed: i128 = now as i128 - self.last_check_time as i128;
        if elapsed < CHECK_INTERVAL_MS as i128 {
            return;
        }
        self.last_check_time = now;
        let has_focus = self.detector.is_war_thunder_focused();
        let (state, action) = focus_transition(self.last_focus_state, has_focus);
        self.last_focus_state = state;
        match action {
            FocusAction::Show => self.coordinator.show_all_overlays(),
            FocusAction::Hide => self.coordinator.hide_all_overlays(),
            FocusAction::Nothing => {},
        }
    }

    /// True when `after` is what one step of [`Self::tick_at`] at time `now`
    /// can make of `before`: when a check is due its time is recorded and the
    /// focus state is the detector's answer; nothing changes otherwise.
    pub open spec fn stepped_at(after: &Self, before: &Self, now: i64) -> bool {
        &&& after.enabled_view() == before.enabled_view()
        &&& check_due(before.enabled_view(), before.checked_at(), now) ==> after.checked_at() == now
            && call_ensures(D::is_war_thunder_focused, (before.detector_view(),), after.focus_view())
        &&& !check_due(before.enabled_view(), before.checked_at(), now) ==> after.checked_at()
            == before.checked_at() && after.focus_view() == before.focus_view()
    }

    /// One step at the current time: the step of [`Self::tick_at`] at the
    /// time the clock reads (the clock is not read by a disabled monitor).
    pub fn tick(&mut self)
        ensures
            final(self).enabled_view() == old(self).enabled_view(),
            !old(self).enabled_view() ==> final(self).checked_at() == old(self).checked_at()
                && final(self).focus_view() == old(self).focus_view(),
            exists|now: i64| Self::stepped_at(&*final(self), &*old(self), now),
    {
        if !self.enabled {
            assert(Self::stepped_at(&*self, &*old(self), 0));
            return;
        }
        let now = current_time_millis();
        self.tick_at(now);
        assert(Self::stepped_at(&*self, &*old(self), now));
    }
}

/// Checks are spaced: after a check at `now`, a tick earlier than the
/// interval later checks nothing; a disabled monitor never checks.
pub proof fn law_checks_are_spaced(enabled: bool, now: i64, later: i64)
    ensures
        later - now < CHECK_INTERVAL_MS ==> !check_due(enabled, now, later),
        !check_due(false, now, later),
{
}

} // verus!
