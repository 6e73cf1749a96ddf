use system_theme::{
    global_default_theme, has_prefix, theme_for_value, Action, Event, Handle, Probe, Theme,
    MATCH_TEXT, PREFERENCE_KEY,
};

/// Runs a query against an in-memory backend and returns the answer with the
/// log of actions that the query asked for.
fn drive(key_ok: bool, matcher_ok: bool, stored: Option<&str>) -> (Option<Theme>, Vec<Action>) {
    let mut probe = Probe::new();
    let mut log = Vec::new();
    for _ in 0..32 {
        let action = probe.next_action();
        log.push(action);
        let event = match action {
            Action::Acquire(Handle::Key) => Event::Acquired(key_ok),
            Action::Acquire(Handle::Matcher) => Event::Acquired(matcher_ok),
            Action::Acquire(Handle::Value) => Event::Acquired(stored.is_some()),
            Action::TestPrefix => Event::Tested(has_prefix(stored.unwrap(), MATCH_TEXT)),
            Action::Release(_) => Event::Released,
            Action::Finish(answer) => return (answer, log),
        };
        probe.advance(event);
    }
    panic!("the query did not finish");
}

fn count(log: &[Action], wanted: Action) -> usize {
    log.iter().filter(|a| **a == wanted).count()
}

fn assert_balanced(log: &[Action]) {
    for h in [Handle::Key, Handle::Matcher, Handle::Value] {
        assert!(count(log, Action::Release(h)) <= 1);
    }
}

#[test]
fn test() {
    global_default_theme();
}

#[test]
fn entry_point_without_backend_is_unsupported() {
    assert_eq!(global_default_theme(), None);
    assert_eq!(global_default_theme(), global_default_theme());
}

#[test]
fn prefix_test_cases() {
    assert!(has_prefix("Dark", "Dark"));
    assert!(has_prefix("DarkHighContrast", "Dark"));
    assert!(!has_prefix("Light", "Dark"));
    assert!(!has_prefix("Dar", "Dark"));
    assert!(!has_prefix("dark", "Dark"));
    assert!(has_prefix("anything", ""));
    assert!(has_prefix("", ""));
    assert!(!has_prefix("", "Dark"));
    assert!(has_prefix("Dürer", "Dü"));
}

#[test]
fn stored_value_decides_theme() {
    assert_eq!(theme_for_value(None), Theme::Default);
    assert_eq!(theme_for_value(Some("Dark")), Theme::Dark);
    assert_eq!(theme_for_value(Some("DarkHighContrast")), Theme::Dark);
    assert_eq!(theme_for_value(Some("Light")), Theme::Default);
    assert_eq!(theme_for_value(Some("")), Theme::Default);
}

#[test]
fn constants_name_the_preference() {
    assert_eq!(PREFERENCE_KEY, "AppleInterfaceStyle");
    assert_eq!(MATCH_TEXT, "Dark");
    assert_eq!(Probe::text(Handle::Key), Some("AppleInterfaceStyle"));
    assert_eq!(Probe::text(Handle::Matcher), Some("Dark"));
    assert_eq!(Probe::text(Handle::Value), None);
}

#[test]
fn simulated_store_absent_key_is_default() {
    let (answer, log) = drive(true, true, None);
    assert_eq!(answer, Some(Theme::Default));
    assert_eq!(count(&log, Action::TestPrefix), 0);
    assert_eq!(count(&log, Action::Release(Handle::Value)), 0);
    assert_eq!(count(&log, Action::Release(Handle::Matcher)), 1);
    assert_eq!(count(&log, Action::Release(Handle::Key)), 1);
}

#[test]
fn simulated_store_dark_is_dark() {
    let (answer, log) = drive(true, true, Some("Dark"));
    assert_eq!(answer, Some(Theme::Dark));
    assert_eq!(count(&log, Action::TestPrefix), 1);
    assert_eq!(count(&log, Action::Release(Handle::Value)), 1);
}

#[test]
fn simulated_store_dark_high_contrast_is_dark() {
    assert_eq!(drive(true, true, Some("DarkHighContrast")).0, Some(Theme::Dark));
}

#[test]
fn simulated_store_light_is_default() {
    assert_eq!(drive(true, true, Some("Light")).0, Some(Theme::Default));
}

#[test]
fn key_string_failure_gives_none_and_releases_nothing() {
    let (answer, log) = drive(false, true, Some("Dark"));
    assert_eq!(answer, None);
    assert_eq!(log, vec![Action::Acquire(Handle::Key), Action::Finish(None)]);
}

#[test]
fn match_string_failure_gives_default_without_prefix_test() {
    let (answer, log) = drive(true, false, Some("Dark"));
    assert_eq!(answer, Some(Theme::Default));
    assert_eq!(count(&log, Action::TestPrefix), 0);
    assert_eq!(count(&log, Action::Release(Handle::Matcher)), 0);
    assert_eq!(count(&log, Action::Release(Handle::Value)), 1);
    assert_eq!(count(&log, Action::Release(Handle::Key)), 1);
}

#[test]
fn release_order_is_value_then_match_then_key() {
    let (_, log) = drive(true, true, Some("Dark"));
    assert_eq!(
        log,
        vec![
            Action::Acquire(Handle::Key),
            Action::Acquire(Handle::Matcher),
            Action::Acquire(Handle::Value),
            Action::TestPrefix,
            Action::Release(Handle::Value),
            Action::Release(Handle::Matcher),
            Action::Release(Handle::Key),
            Action::Finish(Some(Theme::Dark)),
        ]
    );
}

#[test]
fn repeated_queries_agree_and_never_leak() {
    let first = drive(true, true, Some("DarkHighContrast"));
    for _ in 0..10_000 {
        let again = drive(true, true, Some("DarkHighContrast"));
        assert_eq!(again, first);
        let acquired = count(&again.1, Action::Acquire(Handle::Key))
            + count(&again.1, Action::Acquire(Handle::Matcher))
            + count(&again.1, Action::Acquire(Handle::Value));
        let released = count(&again.1, Action::Release(Handle::Key))
            + count(&again.1, Action::Release(Handle::Matcher))
            + count(&again.1, Action::Release(Handle::Value));
        assert_eq!(acquired, released);
        assert_balanced(&again.1);
    }
}

#[test]
fn reports_that_do_not_answer_are_ignored() {
    let mut probe = Probe::new();
    probe.advance(Event::Released);
    assert_eq!(probe, Probe::CreatingKey);
    probe.advance(Event::Tested(true));
    assert_eq!(probe.next_action(), Action::Acquire(Handle::Key));
    let mut done = Probe::Failed;
    done.advance(Event::Acquired(true));
    assert_eq!(done.next_action(), Action::Finish(None));
}
