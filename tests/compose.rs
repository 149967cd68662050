use keytext::compose::{normalize_newline, resolve_press, ComposeStatus, PressResult};
use keytext::event::{InputEvent, EV_KEY};
use keytext::keys::plan_event;

fn s(t: &str) -> String {
    t.to_string()
}

#[test]
fn carriage_return_becomes_line_feed() {
    assert_eq!(normalize_newline(s("\r")), "\n");
    assert_eq!(normalize_newline(s("a")), "a");
    assert_eq!(normalize_newline(s("")), "");
    assert_eq!(normalize_newline(s("\r\r")), "\r\r");
    assert_eq!(normalize_newline(s("\n")), "\n");
}

#[test]
fn idle_press_types_key_text() {
    assert_eq!(
        resolve_press(ComposeStatus::Nothing, None, s("q")),
        PressResult { text: Some(s("q")), reset: false }
    );
    assert_eq!(
        resolve_press(ComposeStatus::Nothing, None, s("")),
        PressResult { text: Some(s("")), reset: false }
    );
}

#[test]
fn composing_press_is_silent() {
    assert_eq!(
        resolve_press(ComposeStatus::Composing, None, s("^")),
        PressResult { text: None, reset: false }
    );
}

#[test]
fn composed_press_emits_composed_text_and_resets() {
    assert_eq!(
        resolve_press(ComposeStatus::Composed, Some(s("ñ")), s("n")),
        PressResult { text: Some(s("ñ")), reset: true }
    );
}

#[test]
fn cancelling_press_is_silent_and_resets() {
    assert_eq!(
        resolve_press(ComposeStatus::Cancelled, None, s("x")),
        PressResult { text: None, reset: true }
    );
}

#[test]
fn scenario_plain_letter() {
    let ev = InputEvent { time_sec: 1, time_usec: 0, type_: EV_KEY, code: 30, value: 1 };
    let plan = plan_event(&ev).unwrap();
    assert!(plan.press);
    let r = resolve_press(ComposeStatus::Nothing, None, s("a"));
    assert_eq!(r.text.as_deref(), Some("a"));
}

#[test]
fn scenario_dead_key_accent() {
    let dead = resolve_press(ComposeStatus::Composing, None, s(""));
    assert_eq!(dead.text, None);
    assert!(!dead.reset);
    let vowel = resolve_press(ComposeStatus::Composed, Some(s("ê")), s("e"));
    assert_eq!(vowel.text.as_deref(), Some("ê"));
    assert!(vowel.reset);
}

#[test]
fn scenario_enter_gives_line_feed() {
    let ev = InputEvent { time_sec: 1, time_usec: 0, type_: EV_KEY, code: 28, value: 1 };
    assert_eq!(plan_event(&ev).unwrap().keycode, 36);
    let r = resolve_press(ComposeStatus::Nothing, None, s("\r"));
    assert_eq!(r.text.as_deref(), Some("\n"));
}
