use persway::events::Config;
use persway::events::Engine;
use persway::events::WindowChange;

fn config(leave: Option<&str>, enter: Option<&str>, renaming: bool, autolayout: bool) -> Config {
    Config {
        autolayout,
        workspace_renaming: renaming,
        on_window_focus: enter.map(|s| s.to_string()),
        on_window_focus_leave: leave.map(|s| s.to_string()),
        on_exit: None,
    }
}

#[test]
fn tracker_follows_focus_events() {
    let mut engine = Engine::new(config(None, None, false, false));
    assert_eq!(engine.prev_focused, None);
    engine.on_event(&WindowChange::Focus, 7);
    assert_eq!(engine.prev_focused, Some(7));
    engine.on_event(&WindowChange::Focus, 9);
    assert_eq!(engine.prev_focused, Some(9));
}

#[test]
fn tracker_clears_on_close() {
    let mut engine = Engine::new(config(None, None, false, false));
    engine.on_event(&WindowChange::Focus, 7);
    engine.on_event(&WindowChange::Close, 7);
    assert_eq!(engine.prev_focused, None);
}

#[test]
fn ignored_events_change_nothing() {
    let mut engine = Engine::new(config(Some("x"), Some("y"), true, true));
    engine.on_event(&WindowChange::Focus, 7);
    let plan = engine.on_event(&WindowChange::Ignored, 42);
    assert_eq!(engine.prev_focused, Some(7));
    assert!(plan.commands.is_empty());
    assert!(!plan.run_renaming);
    assert!(!plan.run_autolayout);
}

#[test]
fn leave_hook_is_scoped_and_comes_first() {
    let mut engine = Engine::new(config(
        Some("mark --add _prev"),
        Some("opacity 1"),
        true,
        true,
    ));
    engine.on_event(&WindowChange::Focus, 7);
    let plan = engine.on_event(&WindowChange::Focus, 8);
    assert_eq!(
        plan.commands,
        vec![
            "[con_id=7] mark --add _prev".to_string(),
            "opacity 1".to_string(),
        ]
    );
    assert_eq!(engine.prev_focused, Some(8));
}

#[test]
fn no_leave_hook_without_previous_focus() {
    let mut engine = Engine::new(config(Some("mark --add _prev"), None, false, false));
    let plan = engine.on_event(&WindowChange::Focus, 8);
    assert!(plan.commands.is_empty());
}

#[test]
fn close_sends_leave_hook_but_no_enter_hook() {
    let mut engine = Engine::new(config(Some("mark --add _prev"), Some("opacity 1"), false, false));
    engine.on_event(&WindowChange::Focus, 7);
    let plan = engine.on_event(&WindowChange::Close, 7);
    assert_eq!(plan.commands, vec!["[con_id=7] mark --add _prev".to_string()]);
}

#[test]
fn enter_hook_is_sent_verbatim() {
    let mut engine = Engine::new(config(None, Some("[tiling] opacity 0.8; opacity 1"), false, false));
    let plan = engine.on_event(&WindowChange::Focus, 3);
    assert_eq!(
        plan.commands,
        vec!["[tiling] opacity 0.8; opacity 1".to_string()]
    );
}

#[test]
fn run_flags_follow_configuration_and_change_kind() {
    let mut engine = Engine::new(config(None, None, true, true));
    let focus_plan = engine.on_event(&WindowChange::Focus, 1);
    assert!(focus_plan.run_renaming);
    assert!(focus_plan.run_autolayout);
    let close_plan = engine.on_event(&WindowChange::Close, 1);
    assert!(close_plan.run_renaming);
    assert!(!close_plan.run_autolayout);

    let mut off = Engine::new(config(None, None, false, false));
    let plan = off.on_event(&WindowChange::Focus, 1);
    assert!(!plan.run_renaming);
    assert!(!plan.run_autolayout);
}
