use refactor_view::aggregate::FileMatches;
use refactor_view::session::{
    is_unsupported, step, summary_text, Effect, Info, Key, Resolution, SessionState, Status,
};
use refactor_view::view::RefactorView;

fn cmd(name: &str) -> Option<Resolution> {
    Some(Resolution::Command(name.to_string()))
}

fn session() -> RefactorView {
    RefactorView::new(vec![FileMatches {
        path: "a.txt".to_string(),
        entries: vec![(0, "foo".to_string())],
    }])
}

#[test]
fn unsupported_command_keeps_state() {
    for state in [SessionState::Browsing, SessionState::StickyNavigation(3)] {
        let r = step(state, Key::Char('g'), None, cmd("goto_file"));
        assert_eq!(r.state, state);
        assert_eq!(r.status, Some(Status::NotSupported));
        assert_eq!(r.effect, Effect::Consumed);
    }
    let r = step(SessionState::StickyNavigation(3), Key::Char('d'), cmd("goto_definition"), None);
    assert_eq!(r.state, SessionState::StickyNavigation(3));
    assert_eq!(r.status, Some(Status::NotSupported));
}

#[test]
fn confirm_prompt_abort_returns_to_browsing() {
    let mut v = session();
    let r = v.handle_key(Key::Char(':'), None, cmd("command_mode"));
    assert_eq!(r.state, SessionState::ConfirmPending);
    assert_eq!(r.status, Some(Status::ConfirmPrompt));
    assert_eq!(v.state, SessionState::ConfirmPending);
    for key in [Key::Char('n'), Key::Char('q'), Key::Other, Key::Escape] {
        let r = step(SessionState::ConfirmPending, key, None, None);
        assert_eq!(r.state, SessionState::Browsing);
        assert_eq!(r.status, Some(Status::Aborted));
        assert_eq!(r.effect, Effect::Consumed);
    }
    let r = v.handle_key(Key::Char('n'), None, None);
    assert_eq!(r.effect, Effect::Consumed);
    assert_eq!(v.state, SessionState::Browsing);
}

#[test]
fn confirm_prompt_yes_commits() {
    for c in ['y', 'Y'] {
        let r = step(SessionState::ConfirmPending, Key::Char(c), None, None);
        assert_eq!(r.effect, Effect::Commit);
    }
}

#[test]
fn inner_node_starts_sticky_navigation() {
    let mut v = session();
    let r = v.handle_key(Key::Char('g'), None, Some(Resolution::Node(7)));
    assert_eq!(r.state, SessionState::StickyNavigation(7));
    assert_eq!(r.info, Info::Show(7));
    assert_eq!(r.effect, Effect::Consumed);
    assert_eq!(v.sticky_node(), Some(7));
    let r = v.handle_key(Key::Escape, None, None);
    assert_eq!(r.state, SessionState::Browsing);
    assert_eq!(r.effect, Effect::Ignored);
    assert_eq!(v.sticky_node(), None);
}

#[test]
fn ordinary_command_passes_through() {
    let r = step(SessionState::StickyNavigation(2), Key::Char('x'), cmd("move_char_left"), None);
    assert_eq!(r.state, SessionState::Browsing);
    assert_eq!(r.info, Info::Clear);
    assert_eq!(r.effect, Effect::Ignored);
    assert_eq!(r.status, None);
}

#[test]
fn sticky_node_falls_back_to_mode_bindings() {
    let r = step(SessionState::StickyNavigation(2), Key::Char('x'), None, cmd("wclose"));
    assert_eq!(r.effect, Effect::Close);
    let r = step(SessionState::Browsing, Key::Char('x'), cmd("wclose"), None);
    assert_eq!(r.effect, Effect::Ignored);
    assert_eq!(r.state, SessionState::Browsing);
}

#[test]
fn close_sequence_and_unbound_keys() {
    let r = step(SessionState::Browsing, Key::Char('q'), None, cmd("wclose"));
    assert_eq!(r.effect, Effect::Close);
    let r = step(SessionState::Browsing, Key::Char('@'), None, Some(Resolution::Sequence));
    assert_eq!((r.state, r.effect), (SessionState::Browsing, Effect::Ignored));
    let r = step(SessionState::StickyNavigation(1), Key::Other, None, None);
    assert_eq!((r.state, r.effect), (SessionState::StickyNavigation(1), Effect::Ignored));
}

#[test]
fn unsupported_set_membership() {
    assert!(is_unsupported(&"global_search".to_string()));
    assert!(is_unsupported(&"command_palette".to_string()));
    assert!(is_unsupported(&"dap_launch".to_string()));
    assert!(!is_unsupported(&"command_mode".to_string()));
    assert!(!is_unsupported(&"wclose".to_string()));
    assert!(!is_unsupported(&"move_char_left".to_string()));
}

#[test]
fn status_texts() {
    assert_eq!(Status::NotSupported.text(), "Command not supported in refactor view");
    assert_eq!(Status::Aborted.text(), "Aborted");
    assert_eq!(Status::ConfirmPrompt.text(), "Apply changes to documents? (y/n): ");
    assert_eq!(summary_text(1, 1), "Refactored 1 documents, 1 lines changed.");
    assert_eq!(summary_text(12, 0), "Refactored 12 documents, 0 lines changed.");
}
