use persway::hooks::scoped_hook_command;
use persway::numfmt::i64_to_dec;
use persway::numfmt::u64_to_dec;
use persway::signals::shutdown_plan;
use persway::signals::SignalKind;

#[test]
fn termination_signal_sends_shutdown_hook_once_and_exits_zero() {
    let hook = Some("[tiling] opacity 1".to_string());
    let plan = shutdown_plan(&SignalKind::Terminate, &hook).unwrap();
    assert_eq!(plan.command, Some("[tiling] opacity 1".to_string()));
    assert_eq!(plan.exit_status, 0);
}

#[test]
fn every_registered_signal_shuts_down() {
    let hook = Some("reset".to_string());
    for kind in [
        SignalKind::Hangup,
        SignalKind::Interrupt,
        SignalKind::Quit,
        SignalKind::Terminate,
    ] {
        let plan = shutdown_plan(&kind, &hook).unwrap();
        assert_eq!(plan.command, Some("reset".to_string()));
        assert_eq!(plan.exit_status, 0);
    }
}

#[test]
fn unregistered_signal_yields_no_plan() {
    assert!(shutdown_plan(&SignalKind::Other, &Some("reset".to_string())).is_none());
}

#[test]
fn shutdown_without_hook_sends_nothing() {
    let plan = shutdown_plan(&SignalKind::Interrupt, &None).unwrap();
    assert_eq!(plan.command, None);
    assert_eq!(plan.exit_status, 0);
}

#[test]
fn scoped_hook_formats_the_selector() {
    assert_eq!(
        scoped_hook_command(7, "mark --add _prev"),
        "[con_id=7] mark --add _prev"
    );
    assert_eq!(scoped_hook_command(-3, "focus"), "[con_id=-3] focus");
}

#[test]
fn decimal_rendering_matches_std() {
    assert_eq!(u64_to_dec(0), "0");
    assert_eq!(u64_to_dec(7), "7");
    assert_eq!(u64_to_dec(10), "10");
    assert_eq!(u64_to_dec(1234567890), "1234567890");
    assert_eq!(u64_to_dec(u64::MAX), u64::MAX.to_string());
    assert_eq!(i64_to_dec(0), "0");
    assert_eq!(i64_to_dec(42), "42");
    assert_eq!(i64_to_dec(-1), "-1");
    assert_eq!(i64_to_dec(i64::MIN), i64::MIN.to_string());
    assert_eq!(i64_to_dec(i64::MAX), i64::MAX.to_string());
}
