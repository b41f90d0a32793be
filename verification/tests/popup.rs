use chimera_tui::popup::{hex_string, PopupKind, PopupStack, Severity};
use chimera_tui::text::LineTone;

#[test]
fn test_popup_stack_push_pop() {
    let mut stack = PopupStack::new();
    assert!(stack.is_empty());
    stack.push(PopupKind::Notification { message: "hello".into(), severity: Severity::Info });
    assert!(!stack.is_empty());
    assert_eq!(
        stack.current(),
        Some(&PopupKind::Notification { message: "hello".into(), severity: Severity::Info })
    );
    let popped = stack.pop();
    assert_eq!(popped, Some(PopupKind::Notification { message: "hello".into(), severity: Severity::Info }));
    assert!(stack.is_empty());
    assert_eq!(stack, PopupStack::default());
}

#[test]
fn test_popup_stack_current_returns_last() {
    let mut stack = PopupStack::new();
    stack.push(PopupKind::Detail { title: "first".into(), content: "content".into(), scroll: 0 });
    stack.push(PopupKind::Notification { message: "second".into(), severity: Severity::Warning });
    assert_eq!(
        stack.current(),
        Some(&PopupKind::Notification { message: "second".into(), severity: Severity::Warning })
    );
}

#[test]
fn test_popup_stack_clear() {
    let mut stack = PopupStack::new();
    stack.push(PopupKind::Notification { message: "x".into(), severity: Severity::Error });
    stack.clear();
    assert!(stack.is_empty());
    assert_eq!(stack.pop(), None);
}

#[test]
fn test_detail_scroll() {
    let mut stack = PopupStack::new();
    stack.push(PopupKind::Detail { title: "detail".into(), content: "line1\nline2\nline3".into(), scroll: 0 });
    stack.scroll_current(1);
    assert_eq!(stack.current().unwrap().detail_scroll(), Some(1));
    stack.scroll_current(-3);
    assert_eq!(stack.current().unwrap().detail_scroll(), Some(0));
    stack.scroll_current(10);
    assert_eq!(stack.current().unwrap().detail_scroll(), Some(10));
}

#[test]
fn test_confirm_toggle() {
    let mut stack = PopupStack::new();
    stack.push(PopupKind::Confirm { prompt: "quit?".into(), on_confirm: "quit".into(), confirmed: true });
    assert!(stack.current().unwrap().is_confirmed());
    stack.toggle_confirm();
    assert!(!stack.current().unwrap().is_confirmed());
    stack.toggle_confirm();
    assert!(stack.current().unwrap().is_confirmed());
}

#[test]
fn control_confirm_builds_prompt() {
    match PopupKind::control_confirm("Pause quest", "q-1", "pause:q-1".into()) {
        PopupKind::Confirm { prompt, on_confirm, confirmed } => {
            assert_eq!(prompt, "Pause quest q-1?");
            assert_eq!(on_confirm, "pause:q-1");
            assert!(confirmed);
        }
        other => panic!("expected confirm, got {other:?}"),
    }
}

#[test]
fn hex_string_two_digits_per_byte() {
    assert_eq!(hex_string(&[0x00, 0x0f, 0xab, 0xff]), "00 0f ab ff");
    assert_eq!(hex_string(&[]), "");
}

#[test]
fn scrolling_a_non_detail_popup_changes_nothing() {
    let mut stack = PopupStack::new();
    stack.push(PopupKind::Notification { message: "n".into(), severity: Severity::Info });
    stack.scroll_current(5);
    assert_eq!(stack.current().unwrap().detail_scroll(), None);
    assert!(!stack.current().unwrap().is_confirmed());
}

fn body_texts(p: &PopupKind) -> Vec<String> {
    p.body_lines(None).iter().map(|l| l.iter().map(|s| s.text.as_str()).collect::<String>()).collect()
}

#[test]
fn popup_titles_and_borders() {
    let n = PopupKind::Notification { message: "m".into(), severity: Severity::Error };
    assert_eq!(n.title_text(), " Notification ");
    assert_eq!(n.border_tone(), LineTone::Alert);
    let d = PopupKind::Detail { title: "Quest".into(), content: "x".into(), scroll: 0 };
    assert_eq!(d.title_text(), " Quest ");
    assert_eq!(d.border_tone(), LineTone::Plain);
    assert_eq!(PopupKind::help_overlay().title_text(), " Help (?/Esc) ");
}

#[test]
fn popup_paragraph_lines_follow_str_lines() {
    let d = PopupKind::Detail { title: "t".into(), content: "line1\nline2\r\nline3\n".into(), scroll: 0 };
    assert_eq!(body_texts(&d), vec!["line1", "line2", "line3"]);
    let e = PopupKind::Detail { title: "t".into(), content: String::new(), scroll: 0 };
    assert_eq!(body_texts(&e), vec![""]);
    let n = PopupKind::Notification { message: "a\n\nb".into(), severity: Severity::Info };
    assert_eq!(body_texts(&n), vec!["a", "", "b"]);
}

#[test]
fn popup_confirm_body_marks_choice() {
    let mut c = PopupKind::Confirm { prompt: "quit?".into(), on_confirm: "quit".into(), confirmed: false };
    let lines = c.body_lines(None);
    assert_eq!(
        body_texts(&c),
        vec!["quit?", "", "[Yes]   [No]", "", "Left/Right to select, Enter to confirm, Esc to cancel."]
    );
    assert_eq!(lines[2][0].tone, LineTone::Good);
    assert_eq!(lines[2][2].tone, LineTone::Highlight);
    if let PopupKind::Confirm { confirmed, .. } = &mut c {
        *confirmed = true;
    }
    let lines = c.body_lines(None);
    assert_eq!(lines[2][0].tone, LineTone::Highlight);
    assert_eq!(lines[2][2].tone, LineTone::Alert);
}

#[test]
fn popup_help_lines_pad_keys() {
    let h = PopupKind::HelpOverlay { entries: vec![("q".into(), "退出".into())], scroll: 0 };
    let lines = h.body_lines(None);
    assert_eq!(lines[0][0].text, format!("{:20}", "q"));
    assert_eq!(lines[0][0].tone, LineTone::Info);
    assert_eq!(lines[0][1].text, "退出");
}

#[test]
fn new_stack_equals_default() {
    let s = PopupStack::new();
    assert!(s.is_empty());
    assert!(s.current().is_none());
    assert_eq!(s, PopupStack::default());
}
