//! Decisions behind the status-indicator (tray) surface.
//!
//! The tray icon, menu and windowing calls live outside the engine; what is
//! here is everything the indicator decides: which icon state a control
//! request names, which tooltip and menu label each state carries, which
//! menu event maps to which action, whether an update is worth sending at
//! all, and the throttle on icon updates.

use vstd::prelude::*;

verus! {

/// The states the status indicator can show.
#[derive(Debug, Clone, Copy, PartialEq, Eq, Structural)]
pub enum TrayIconState {
    Active,
    Paused,
    Warning,
    Error,
}

/// What a tray menu entry asks for.
#[derive(Debug, Clone, Copy, PartialEq, Eq, Structural)]
pub enum MenuAction {
    ToggleExpansions,
    OpenWindow,
    OpenDiagnostics,
    Quit,
    Unknown,
}

/// Maps a state name from the control surface to an icon state; any other
/// name is invalid control input and is reported back, not acted on.
pub fn parse_tray_icon_state(s: &String) -> (r: Option<TrayIconState>)
    ensures
        r == (if s@ == "active"@ {
            Some(TrayIconState::Active)
        } else if s@ == "paused"@ {
            Some(TrayIconState::Paused)
        } else if s@ == "warning"@ {
            Some(TrayIconState::Warning)
        } else if s@ == "error"@ {
            Some(TrayIconState::Error)
        } else {
            None
        }),
{
    if s.eq(&String::from_str("active")) {
        Some(TrayIconState::Active)
    } else if s.eq(&String::from_str("paused")) {
        Some(TrayIconState::Paused)
    } else if s.eq(&String::from_str("warning")) {
        Some(TrayIconState::Warning)
    } else if s.eq(&String::from_str("error")) {
        Some(TrayIconState::Error)
    } else {
        None
    }
}

/// Maps a menu event identifier to the action it requests.
pub fn parse_menu_event(id: &String) -> (r: MenuAction)
    ensures
        r == (if id@ == "toggle_expansions"@ {
            MenuAction::ToggleExpansions
        } else if id@ == "open_window"@ {
            MenuAction::OpenWindow
        } else if id@ == "diagnostics"@ {
            MenuAction::OpenDiagnostics
        } else if id@ == "quit"@ {
            MenuAction::Quit
        } else {
            MenuAction::Unknown
        }),
{
    if id.eq(&String::from_str("toggle_expansions")) {
        MenuAction::ToggleExpansions
    } else if id.eq(&String::from_str("open_window")) {
        MenuAction::OpenWindow
    } else if id.eq(&String::from_str("diagnostics")) {
        MenuAction::OpenDiagnostics
    } else if id.eq(&String::from_str("quit")) {
        MenuAction::Quit
    } else {
        MenuAction::Unknown
    }
}

/// The tooltip each icon state carries.
pub open spec fn tooltip_view(state: TrayIconState) -> Seq<char> {
    match state {
        TrayIconState::Active => "DotDash - Active"@,
        TrayIconState::Paused => "DotDash - Paused"@,
        TrayIconState::Warning => "DotDash - Warning (Check permissions)"@,
        TrayIconState::Error => "DotDash - Error"@,
    }
}

pub fn tooltip_for(state: TrayIconState) -> (r: &'static str)
    ensures
        r@ == tooltip_view(state),
{
    match state {
        TrayIconState::Active => "DotDash - Active",
        TrayIconState::Paused => "DotDash - Paused",
        TrayIconState::Warning => "DotDash - Warning (Check permissions)",
        TrayIconState::Error => "DotDash - Error",
    }
}

/// The pause entry of the tray menu offers the opposite of the current state.
pub fn toggle_menu_label(is_paused: bool) -> (r: &'static str)
    ensures
        is_paused ==> r@ == "Resume Expansions"@,
        !is_paused ==> r@ == "Pause Expansions"@,
{
    if is_paused {
        "Resume Expansions"
    } else {
        "Pause Expansions"
    }
}

/// Icon updates are throttled: one may go out only once the throttle
/// interval has elapsed since the last update.
pub fn icon_update_allowed(last_update_ms: u64, now_ms: u64, throttle_ms: u64) -> (r: bool)
    requires
        last_update_ms <= now_ms,
    ensures
        r == (now_ms - last_update_ms >= throttle_ms),
{
    now_ms - last_update_ms >= throttle_ms
}

/// The indicator's own record of whether expansion is enabled, kept so a
/// no-op update can be skipped.
pub struct TrayState {
    pub expansion_enabled: bool,
}

impl TrayState {
    pub fn new() -> (t: Self)
        ensures
            t.expansion_enabled,
    {
        TrayState { expansion_enabled: true }
    }

    /// Records the new state and reports whether it changed, so the caller
    /// can skip rebuilding the menu when nothing moved.
    pub fn update_expansion_state(&mut self, enabled: bool) -> (changed: bool)
        ensures
            final(self).expansion_enabled == enabled,
            changed == (old(self).expansion_enabled != enabled),
    {
        let old_state = self.expansion_enabled;
        self.expansion_enabled = enabled;
        old_state != enabled
    }
}

} // verus!
