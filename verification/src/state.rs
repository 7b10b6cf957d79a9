//! Shared engine flags and pause control.
//!
//! `EngineState` gathers the flags every component reads: whether the engine
//! runs, whether it is verbose or in dry-run mode, the reentrancy guard
//! raised while an injection is in flight, an event counter, and the two
//! independent pause sources (user request and secure-input detection).

use vstd::prelude::*;
use crate::tray::TrayIconState;

verus! {

/// Why expansion is currently paused, derived from the two pause flags.
#[derive(Debug, Clone, Copy, PartialEq, Eq, Structural)]
pub enum PauseReason {
    UserRequested,
    SecureInput,
    Both,
    NotPaused,
}

/// A point-in-time report of the pause state.
///
/// `pause_timestamp` carries a wall-clock stamp exactly when paused;
/// `can_resume` says whether the user may clear the pause themselves —
/// only a user-requested pause can be, a secure-input pause must be
/// cleared by the detector.
#[derive(Debug, Clone)]
pub struct PauseStateInfo {
    pub is_paused: bool,
    pub paused_by_user: bool,
    pub paused_by_secure_input: bool,
    pub pause_timestamp: Option<String>,
    pub can_resume: bool,
}

/// What a start request decided.
///
/// `accepted` is the answer reported to the caller; starting is idempotent,
/// so it is always true.  `install_listener` is true only on the first start:
/// the caller must then install the platform key listener.
#[derive(Debug, Clone, Copy, PartialEq, Eq, Structural)]
pub struct StartOutcome {
    pub accepted: bool,
    pub install_listener: bool,
}

/// The engine's shared flags.
///
/// Expansion is disabled while either pause flag is set; `injecting` is the
/// reentrancy guard that keeps the engine's own synthetic keystrokes out of
/// the rolling buffer.
pub struct EngineState {
    pub running: bool,
    pub verbose: bool,
    pub dry_run: bool,
    pub injecting: bool,
    pub event_count: u64,
    pub paused_by_user: bool,
    pub paused_by_secure_input: bool,
}

impl EngineState {
    /// Expansion is suppressed while either pause source is active.
    pub open spec fn spec_is_paused(self) -> bool {
        self.paused_by_user || self.paused_by_secure_input
    }

    /// Only a user-requested pause can be cleared by the user.
    pub open spec fn spec_can_resume(self) -> bool {
        self.paused_by_user
    }

    pub open spec fn spec_pause_reason(self) -> PauseReason {
        if self.paused_by_user && self.paused_by_secure_input {
            PauseReason::Both
        } else if self.paused_by_user {
            PauseReason::UserRequested
        } else if self.paused_by_secure_input {
            PauseReason::SecureInput
        } else {
            PauseReason::NotPaused
        }
    }

    pub fn pause_expansions(&mut self, by_user: bool)
        ensures
            by_user ==> *final(self) == (EngineState {
                paused_by_user: true,
                ..*old(self)
            }),
            !by_user ==> *final(self) == (EngineState {
                paused_by_secure_input: true,
                ..*old(self)
            }),
            final(self).spec_is_paused(),
    {
        if by_user {
            self.paused_by_user = true;
        } else {
            self.paused_by_secure_input = true;
        }
    }

    pub fn resume_expansions(&mut self, by_user: bool)
        ensures
            by_user ==> *final(self) == (EngineState {
                paused_by_user: false,
                ..*old(self)
            }),
            !by_user ==> *final(self) == (EngineState {
                paused_by_secure_input: false,
                ..*old(self)
            }),
    {
        if by_user {
            self.paused_by_user = false;
        } else {
            self.paused_by_secure_input = false;
        }
    }

    pub fn is_paused(&self) -> (r: bool)
        ensures
            r == self.spec_is_paused(),
    {
        self.paused_by_user || self.paused_by_secure_input
    }

    pub fn get_pause_reason(&self) -> (r: PauseReason)
        ensures
            r == self.spec_pause_reason(),
    {
        let user_paused = self.paused_by_user;
        let secure_paused = self.paused_by_secure_input;
        match (user_paused, secure_paused) {
            (true, true) => PauseReason::Both,
            (true, false) => PauseReason::UserRequested,
            (false, true) => PauseReason::SecureInput,
            (false, false) => PauseReason::NotPaused,
        }
    }

    pub fn get_pause_state_info(&self) -> (r: PauseStateInfo)
        ensures
            r.is_paused == self.spec_is_paused(),
            r.paused_by_user == self.paused_by_user,
            r.paused_by_secure_input == self.paused_by_secure_input,
            r.can_resume == self.spec_can_resume(),
            r.pause_timestamp is Some <==> self.spec_is_paused(),
    {
        let user_paused = self.paused_by_user;
        let secure_paused = self.paused_by_secure_input;
        let is_paused = user_paused || secure_paused;
        PauseStateInfo {
            is_paused,
            paused_by_user: user_paused,
            paused_by_secure_input: secure_paused,
            pause_timestamp: if is_paused {
                Some(now_rfc3339())
            } else {
                None
            },
            can_resume: user_paused,
        }
    }

    /// Idempotent start.  The first start raises `running`, applies the
    /// requested verbosity and asks the caller to install the key listener;
    /// a start while already running changes nothing and installs nothing.
    pub fn start_engine(&mut self, verbose: Option<bool>) -> (r: StartOutcome)
        ensures
            r.accepted,
            r.install_listener == !old(self).running,
            final(self).running,
            old(self).running ==> *final(self) == *old(self),
            !old(self).running ==> *final(self) == (EngineState {
                running: true,
                verbose: (match verbose {
                    Some(v) => v,
                    None => old(self).verbose,
                }),
                ..*old(self)
            }),
    {
        if self.running {
            return StartOutcome { accepted: true, install_listener: false };
        }
        if let Some(v) = verbose {
            self.verbose = v;
        }
        self.running = true;
        StartOutcome { accepted: true, install_listener: true }
    }

    /// Lowers `running`; the callback then passes every event through.
    /// The platform listener itself stays installed.
    pub fn stop_engine(&mut self)
        ensures
            *final(self) == (EngineState { running: false, ..*old(self) }),
    {
        self.running = false;
    }

    /// Flips whether the callback buffers and matches at all.
    pub fn toggle_running(&mut self) -> (r: bool)
        ensures
            final(self).running == !old(self).running,
            r == final(self).running,
            *final(self) == (EngineState {
                running: !old(self).running,
                ..*old(self)
            }),
    {
        let new_state = !self.running;
        self.running = new_state;
        new_state
    }

    /// Flips the user-requested pause; the secure-input pause is untouched.
    /// Returns the new user-pause state.
    pub fn toggle_pause(&mut self) -> (r: bool)
        ensures
            *final(self) == (EngineState {
                paused_by_user: !old(self).paused_by_user,
                ..*old(self)
            }),
            r == final(self).paused_by_user,
    {
        let currently_paused = self.paused_by_user;
        let new_state = !currently_paused;
        if new_state {
            self.pause_expansions(true);
        } else {
            self.resume_expansions(true);
        }
        new_state
    }

    /// A pause or resume request from the control surface, attributed to
    /// the user unless said otherwise.  Returns which icon state the
    /// indicator should now show: pausing always shows the paused icon;
    /// resuming shows the active icon only once no pause source is left.
    pub fn set_pause_state(&mut self, paused: bool, by_user: Option<bool>) -> (r: Option<
        TrayIconState,
    >)
        ensures
            ({
                let is_user = (match by_user {
                    Some(b) => b,
                    None => true,
                });
                &&& paused ==> {
                    &&& (if is_user {
                        *final(self) == (EngineState { paused_by_user: true, ..*old(self) })
                    } else {
                        *final(self) == (EngineState {
                            paused_by_secure_input: true,
                            ..*old(self)
                        })
                    })
                    &&& r == Some(TrayIconState::Paused)
                }
                &&& !paused ==> {
                    &&& (if is_user {
                        *final(self) == (EngineState { paused_by_user: false, ..*old(self) })
                    } else {
                        *final(self) == (EngineState {
                            paused_by_secure_input: false,
                            ..*old(self)
                        })
                    })
                    &&& r == (if final(self).spec_is_paused() {
                        None
                    } else {
                        Some(TrayIconState::Active)
                    })
                }
            }),
    {
        let is_user_action = match by_user {
            Some(b) => b,
            None => true,
        };
        if paused {
            self.pause_expansions(is_user_action);
            Some(TrayIconState::Paused)
        } else {
            self.resume_expansions(is_user_action);
            if !self.is_paused() {
                Some(TrayIconState::Active)
            } else {
                None
            }
        }
    }

    pub fn set_engine_options(&mut self, verbose: Option<bool>, dry_run: Option<bool>)
        ensures
            *final(self) == (EngineState {
                verbose: (match verbose {
                    Some(v) => v,
                    None => old(self).verbose,
                }),
                dry_run: (match dry_run {
                    Some(d) => d,
                    None => old(self).dry_run,
                }),
                ..*old(self)
            }),
    {
        if let Some(v) = verbose {
            self.verbose = v;
        }
        if let Some(d) = dry_run {
            self.dry_run = d;
        }
    }

    /// Raises the reentrancy guard.  The caller must do this before the
    /// first synthetic keystroke of an injection.
    pub fn begin_injection(&mut self)
        ensures
            *final(self) == (EngineState { injecting: true, ..*old(self) }),
    {
        self.injecting = true;
    }

    /// Lowers the reentrancy guard, after the whole synthetic sequence
    /// (and its settling delay) has completed.
    pub fn end_injection(&mut self)
        ensures
            *final(self) == (EngineState { injecting: false, ..*old(self) }),
    {
        self.injecting = false;
    }
}

impl Default for EngineState {
    /// A fresh engine: stopped, quiet, not paused — and in dry-run mode,
    /// so nothing is injected until explicitly enabled.
    fn default() -> (s: Self)
        ensures
            !s.running,
            !s.verbose,
            s.dry_run,
            !s.injecting,
            s.event_count == 0,
            !s.paused_by_user,
            !s.paused_by_secure_input,
    {
        EngineState {
            running: false,
            verbose: false,
            dry_run: true,
            injecting: false,
            event_count: 0,
            paused_by_user: false,
            paused_by_secure_input: false,
        }
    }
}

/// The pause-state report carries a wall-clock stamp.
/// Relies on `chrono::Utc::now` and `chrono::DateTime::to_rfc3339`: the
/// current time rendered as an RFC 3339 string.  Nothing is assumed of the
/// result, since it depends on the clock.
#[verifier::external_body]
fn now_rfc3339() -> String {
    chrono::Utc::now().to_rfc3339()
}

/// The two pause sources act independently: a user pause alone is paused
/// and user-clearable; a secure-input pause alone is paused but not
/// user-clearable.
pub proof fn law_pause_semantics(s: EngineState)
    ensures
        (s.paused_by_user && !s.paused_by_secure_input) ==> (s.spec_is_paused()
            && s.spec_can_resume()),
        (!s.paused_by_user && s.paused_by_secure_input) ==> (s.spec_is_paused()
            && !s.spec_can_resume()),
{
}

} // verus!
