//! The per-keystroke callback and injection planning.
//!
//! `CallbackContext` gathers what the interception callback touches: the
//! engine flags, the rule store, the rolling buffer and the diagnostics
//! ring.  `handle_key_event` is the callback's whole decision: it guards,
//! counts, buffers, matches, and either logs a dry run or raises the
//! injection guard and hands the caller a plan — the caller emits the
//! synthetic keystrokes and lowers the guard afterwards.

use vstd::prelude::*;
use crate::buffer::{BUFFER_CAPACITY, RollingBuffer, clamped, popped};
use crate::diagnostics::{EventV, LogEvent, LogRing, clone_chars, ring_after};
use crate::matcher::{
    event_delimiter, event_delimiter_char, event_is_backspace, find_match, first_match,
    is_backspace_event,
    law_first_match, trigger_views,
};
use crate::rules::RuleStore;
use crate::state::EngineState;

verus! {

/// What the callback decided for one key event.
#[derive(Debug)]
pub enum KeyAction {
    /// The engine is stopped, injecting, or paused: the event passes
    /// through untouched.
    PassThrough,
    /// The event was folded into the rolling buffer; no rule fired.
    Buffered,
    /// A rule fired in dry-run mode: nothing is typed, the intended
    /// counts were logged instead.
    DryRunLogged { backspace_count: usize, replacement_len: usize },
    /// A rule fired: the caller must emit `backspace_count` synthetic
    /// backspaces, type `replacement`, then lower the injection guard.
    Inject { rule_index: usize, backspace_count: usize, replacement: String },
}

/// The hot-path guards, cheapest first: a stopped, injecting or paused
/// engine buffers and matches nothing.
pub open spec fn guards_pass(s: EngineState) -> bool {
    s.running && !s.injecting && !s.spec_is_paused()
}

/// The event counter after one processed event; it wraps at the top.
pub open spec fn bumped(c: u64) -> u64 {
    if c == u64::MAX {
        0
    } else {
        (c + 1) as u64
    }
}

/// The log after the verbose-only record of the decoded event.
pub open spec fn after_key_log(log: Seq<EventV>, verbose: bool, chars: Seq<char>) -> Seq<
    EventV,
> {
    if verbose {
        ring_after(log, EventV::Key(chars))
    } else {
        log
    }
}

/// Everything the interception callback works on.
pub struct CallbackContext {
    pub state: EngineState,
    pub store: RuleStore,
    pub buffer: RollingBuffer,
    pub log: LogRing,
}

impl CallbackContext {
    /// A fresh context: default flags, no rules, empty buffer, empty log.
    pub fn new() -> (ctx: Self)
        ensures
            !ctx.state.running,
            !ctx.state.verbose,
            ctx.state.dry_run,
            !ctx.state.injecting,
            ctx.state.event_count == 0,
            !ctx.state.paused_by_user,
            !ctx.state.paused_by_secure_input,
            ctx.store.rules@.len() == 0,
            ctx.buffer@ == Seq::<char>::empty(),
            ctx.log@ == Seq::<EventV>::empty(),
    {
        CallbackContext {
            state: Default::default(),
            store: RuleStore::new(),
            buffer: RollingBuffer::new(),
            log: LogRing::new(),
        }
    }

    /// One decoded key-down event.
    ///
    /// A stopped, injecting or paused engine passes the event through with
    /// nothing recorded, nothing buffered and nothing matched.  Otherwise
    /// the event is counted; a backspace pops the newest buffered
    /// character and never evaluates a match; any other event is appended
    /// to the buffer (oldest characters dropped beyond the capacity), and
    /// a lone delimiter asks the matcher for the first rule whose trigger
    /// plus the delimiter is exactly the buffer's suffix.  On a match the
    /// buffer is cleared and the trigger's length plus one — the delimiter
    /// — is the backspace count; dry-run mode only logs the intended
    /// counts, otherwise the injection guard goes up and the plan is
    /// returned.
    pub fn handle_key_event(&mut self, chars: &Vec<char>) -> (r: KeyAction)
        ensures
            !guards_pass(old(self).state) ==> (*final(self) == *old(self) && r is PassThrough),
            guards_pass(old(self).state) ==> ({
                let pushed = clamped(old(self).buffer@ + chars@);
                let log1 = after_key_log(old(self).log@, old(self).state.verbose, chars@);
                let triggers = trigger_views(old(self).store.rules@);
                &&& final(self).store.rules@ == old(self).store.rules@
                &&& final(self).state.event_count == bumped(old(self).state.event_count)
                &&& final(self).state.running == old(self).state.running
                &&& final(self).state.verbose == old(self).state.verbose
                &&& final(self).state.dry_run == old(self).state.dry_run
                &&& final(self).state.paused_by_user == old(self).state.paused_by_user
                &&& final(self).state.paused_by_secure_input == old(
                    self,
                ).state.paused_by_secure_input
                &&& (if is_backspace_event(chars@) {
                    &&& r is Buffered
                    &&& final(self).buffer@ == popped(old(self).buffer@)
                    &&& final(self).log@ == log1
                    &&& final(self).state.injecting == old(self).state.injecting
                } else {
                    match event_delimiter(chars@) {
                        Some(d) => match first_match(triggers, pushed, d) {
                            Some(i) => {
                                let bc = triggers[i].len() + 1;
                                let rlen = old(self).store.rules@[i].replacement@.len();
                                &&& final(self).buffer@ == Seq::<char>::empty()
                                &&& (if old(self).state.dry_run {
                                    &&& (r matches KeyAction::DryRunLogged {
                                        backspace_count,
                                        replacement_len,
                                    } && backspace_count == bc && replacement_len == rlen)
                                    &&& final(self).log@ == ring_after(
                                        ring_after(log1, EventV::RuleMatched(i)),
                                        EventV::DryRun {
                                            backspace_count: bc as int,
                                            replacement_len: rlen as int,
                                        },
                                    )
                                    &&& final(self).state.injecting == old(self).state.injecting
                                } else {
                                    &&& (r matches KeyAction::Inject {
                                        rule_index,
                                        backspace_count,
                                        replacement,
                                    } && rule_index == i && backspace_count == bc
                                        && replacement@ == old(self).store.rules@[i].replacement@)
                                    &&& final(self).log@ == ring_after(
                                        log1,
                                        EventV::RuleMatched(i),
                                    )
                                    &&& final(self).state.injecting
                                })
                            },
                            None => {
                                &&& r is Buffered
                                &&& final(self).buffer@ == pushed
                                &&& final(self).log@ == log1
                                &&& final(self).state.injecting == old(self).state.injecting
                            },
                        },
                        None => {
                            &&& r is Buffered
                            &&& final(self).buffer@ == pushed
                            &&& final(self).log@ == log1
                            &&& final(self).state.injecting == old(self).state.injecting
                        },
                    }
                })
            }),
    {
        if !self.state.running {
            return KeyAction::PassThrough;
        }
        if self.state.injecting {
            return KeyAction::PassThrough;
        }
        if self.state.paused_by_user || self.state.paused_by_secure_input {
            return KeyAction::PassThrough;
        }
        let c0 = self.state.event_count;
        self.state.event_count = if c0 == u64::MAX {
            0
        } else {
            c0 + 1
        };
        if self.state.verbose {
            self.log.push_event(LogEvent::Key { chars: clone_chars(chars) });
        }
        if event_is_backspace(chars) {
            self.buffer.pop();
            return KeyAction::Buffered;
        }
        self.buffer.push_chars(chars);
        let delim_opt = event_delimiter_char(chars);
        if let Some(d) = delim_opt {
            let snap = self.store.snapshot();
            proof {
                assert(trigger_views(snap@) =~= trigger_views(self.store.rules@));
            }
            if let Some(idx) = find_match(&snap, &self.buffer, d) {
                self.log.push_event(LogEvent::RuleMatched { rule_index: idx });
                let tlen = snap[idx].trigger.as_str().unicode_len();
                proof {
                    law_first_match(trigger_views(snap@), self.buffer@, d);
                    assert(self.buffer@.len() <= BUFFER_CAPACITY);
                    assert(tlen + 1 <= BUFFER_CAPACITY);
                }
                let bc = tlen + 1;
                let replacement = snap[idx].replacement.clone();
                self.buffer.clear();
                if self.state.dry_run {
                    let rlen = replacement.as_str().unicode_len();
                    self.log.push_event(
                        LogEvent::DryRun { backspace_count: bc, replacement_len: rlen },
                    );
                    return KeyAction::DryRunLogged {
                        backspace_count: bc,
                        replacement_len: rlen,
                    };
                } else {
                    self.state.begin_injection();
                    return KeyAction::Inject {
                        rule_index: idx,
                        backspace_count: bc,
                        replacement,
                    };
                }
            }
        }
        KeyAction::Buffered
    }

    /// One liveness record for the heartbeat task: how many events have
    /// been processed and whether the engine still runs.
    pub fn heartbeat(&mut self)
        ensures
            final(self).log@ == ring_after(
                old(self).log@,
                EventV::Heartbeat {
                    events: old(self).state.event_count,
                    running: old(self).state.running,
                },
            ),
            final(self).state == old(self).state,
            final(self).store.rules@ == old(self).store.rules@,
            final(self).buffer@ == old(self).buffer@,
    {
        let e = LogEvent::Heartbeat {
            events: self.state.event_count,
            running: self.state.running,
        };
        self.log.push_event(e);
    }
}

} // verus!
