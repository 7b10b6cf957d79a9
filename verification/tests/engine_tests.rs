use dotdash::diagnostics::LogEvent;
use dotdash::engine::{CallbackContext, KeyAction};
use dotdash::matcher::BACKSPACE_CHAR;
use dotdash::rules::Rule;

fn rule(trigger: &str, replacement: &str) -> Rule {
    Rule { trigger: trigger.to_string(), replacement: replacement.to_string() }
}

/// Feeds the text one character per event, as the key listener would.
fn feed(ctx: &mut CallbackContext, text: &str) -> KeyAction {
    let mut last = KeyAction::PassThrough;
    for c in text.chars() {
        last = ctx.handle_key_event(&vec![c]);
    }
    last
}

fn started(rules: Vec<Rule>, dry_run: bool) -> CallbackContext {
    let mut ctx = CallbackContext::new();
    ctx.store.replace_all(rules);
    ctx.state.start_engine(None);
    ctx.state.set_engine_options(None, Some(dry_run));
    ctx
}

#[test]
fn email_scenario_plans_the_injection() {
    let mut ctx = started(vec![rule(";email", "me@example.com")], false);
    let action = feed(&mut ctx, "hi ;email ");
    match action {
        KeyAction::Inject { rule_index, backspace_count, replacement } => {
            assert_eq!(rule_index, 0);
            // Six trigger characters plus the delimiter itself.
            assert_eq!(backspace_count, 7);
            assert_eq!(replacement, "me@example.com");
        }
        other => panic!("expected an injection plan, got {:?}", other),
    }
    // The buffer is cleared on a match, and the guard is up until the
    // caller finishes typing the replacement.
    assert_eq!(ctx.buffer.len(), 0);
    assert!(ctx.state.injecting);
    ctx.state.end_injection();
    assert!(!ctx.state.injecting);
}

#[test]
fn dry_run_logs_counts_and_injects_nothing() {
    let mut ctx = started(vec![rule(";email", "me@example.com")], true);
    let action = feed(&mut ctx, "hi ;email ");
    match action {
        KeyAction::DryRunLogged { backspace_count, replacement_len } => {
            assert_eq!(backspace_count, 7);
            assert_eq!(replacement_len, 14);
        }
        other => panic!("expected a dry-run record, got {:?}", other),
    }
    assert!(!ctx.state.injecting);
    assert_eq!(ctx.buffer.len(), 0);
    // The intended counts are on the log.
    let logs = ctx.log.get_logs();
    assert!(logs.iter().any(|e| matches!(
        e,
        LogEvent::DryRun { backspace_count: 7, replacement_len: 14 }
    )));
    assert!(logs.iter().any(|e| matches!(e, LogEvent::RuleMatched { rule_index: 0 })));
}

#[test]
fn backspace_shrinks_buffer_and_never_matches() {
    let mut ctx = started(vec![rule("ab", "x")], false);
    feed(&mut ctx, "ab");
    assert_eq!(ctx.buffer.len(), 2);
    let action = ctx.handle_key_event(&vec![BACKSPACE_CHAR]);
    assert!(matches!(action, KeyAction::Buffered));
    assert_eq!(ctx.buffer.len(), 1);
    // Even with a full trigger and delimiter in front of it, a backspace
    // event itself evaluates no match.
    feed(&mut ctx, "ab ");
    ctx.state.end_injection();
    let before = ctx.buffer.len();
    let action = ctx.handle_key_event(&vec![BACKSPACE_CHAR]);
    assert!(matches!(action, KeyAction::Buffered));
    assert_eq!(ctx.buffer.len(), before.saturating_sub(1));
}

#[test]
fn no_match_while_injecting() {
    let mut ctx = started(vec![rule(";email", "me@example.com")], false);
    ctx.state.begin_injection();
    let count_before = ctx.state.event_count;
    let action = feed(&mut ctx, ";email ");
    assert!(matches!(action, KeyAction::PassThrough));
    // Nothing was buffered, counted or matched.
    assert_eq!(ctx.buffer.len(), 0);
    assert_eq!(ctx.state.event_count, count_before);
}

#[test]
fn no_match_while_paused() {
    let mut ctx = started(vec![rule(";email", "me@example.com")], false);
    ctx.state.pause_expansions(true);
    assert!(matches!(feed(&mut ctx, ";email "), KeyAction::PassThrough));
    ctx.state.resume_expansions(true);
    ctx.state.pause_expansions(false);
    assert!(matches!(feed(&mut ctx, ";email "), KeyAction::PassThrough));
    // Once both pauses clear, the same input matches again.
    ctx.state.resume_expansions(false);
    assert!(matches!(feed(&mut ctx, ";email "), KeyAction::Inject { .. }));
}

#[test]
fn stopped_engine_passes_through() {
    let mut ctx = CallbackContext::new();
    ctx.store.replace_all(vec![rule(";email", "me@example.com")]);
    let action = feed(&mut ctx, ";email ");
    assert!(matches!(action, KeyAction::PassThrough));
    assert_eq!(ctx.state.event_count, 0);
}

#[test]
fn events_are_counted_once_per_event() {
    let mut ctx = started(Vec::new(), true);
    feed(&mut ctx, "abc");
    assert_eq!(ctx.state.event_count, 3);
    // A second start installs no second listener, so a keystroke is still
    // one event, not two.
    let outcome = ctx.state.start_engine(None);
    assert!(outcome.accepted);
    assert!(!outcome.install_listener);
    feed(&mut ctx, "d");
    assert_eq!(ctx.state.event_count, 4);
}

#[test]
fn verbose_mode_records_keys() {
    let mut ctx = started(Vec::new(), true);
    ctx.state.set_engine_options(Some(true), None);
    feed(&mut ctx, "hi");
    let logs = ctx.log.get_logs();
    let keys: Vec<&LogEvent> =
        logs.iter().filter(|e| matches!(e, LogEvent::Key { .. })).collect();
    assert_eq!(keys.len(), 2);
    assert!(matches!(keys[0], LogEvent::Key { chars } if *chars == vec!['h']));
    assert!(matches!(keys[1], LogEvent::Key { chars } if *chars == vec!['i']));
}

#[test]
fn quiet_mode_records_no_keys() {
    let mut ctx = started(Vec::new(), true);
    feed(&mut ctx, "hi");
    assert!(ctx.log.get_logs().iter().all(|e| !matches!(e, LogEvent::Key { .. })));
}

#[test]
fn long_input_still_matches_at_the_tail() {
    let mut ctx = started(vec![rule(";sig", "regards")], false);
    let long = "x".repeat(300);
    feed(&mut ctx, &long);
    let action = feed(&mut ctx, ";sig ");
    assert!(matches!(
        action,
        KeyAction::Inject { backspace_count: 5, .. }
    ));
}

#[test]
fn first_rule_wins_through_the_engine() {
    let mut ctx = started(
        vec![rule(";x", "first"), rule(";x", "second")],
        false,
    );
    match feed(&mut ctx, ";x ") {
        KeyAction::Inject { rule_index, replacement, .. } => {
            assert_eq!(rule_index, 0);
            assert_eq!(replacement, "first");
        }
        other => panic!("expected an injection plan, got {:?}", other),
    }
}

#[test]
fn multi_character_event_is_buffered_but_not_a_delimiter() {
    let mut ctx = started(vec![rule("ab", "x")], false);
    // One event carrying two characters, as dead-key composition can.
    let action = ctx.handle_key_event(&vec!['a', 'b']);
    assert!(matches!(action, KeyAction::Buffered));
    assert_eq!(ctx.buffer.len(), 2);
    // An event of two spaces is not a delimiter event.
    let action = ctx.handle_key_event(&vec![' ', ' ']);
    assert!(matches!(action, KeyAction::Buffered));
    assert_eq!(ctx.buffer.len(), 4);
}

#[test]
fn heartbeat_reports_count_and_running() {
    let mut ctx = started(Vec::new(), true);
    feed(&mut ctx, "abc");
    ctx.heartbeat();
    let logs = ctx.log.get_logs();
    assert!(matches!(
        logs.last(),
        Some(LogEvent::Heartbeat { events: 3, running: true })
    ));
}
