use jinn_domain::intent_result::{IntentResult, Message, SliceScopeId};
use jinn_domain::line_input::{splice, LineEdit, LineInput};
use jinn_domain::session::SessionId;

fn input(s: &str, cursor_pos: usize) -> LineInput {
    LineInput { input: s.to_owned(), cursor_pos }
}

#[test]
fn splice_replaces_a_char_range() {
    assert_eq!(splice(&"héllo".to_owned(), 1, 2, "EY"), "hEYlo");
    assert_eq!(splice(&"abc".to_owned(), 3, 0, "d"), "abcd");
}

#[test]
fn edits_move_the_cursor_by_characters() {
    let mut t = input("hé", 2);
    t.apply(LineEdit::InsertChar('!'));
    assert_eq!((t.input.as_str(), t.cursor_pos), ("hé!", 3));
    t.apply(LineEdit::Left);
    t.apply(LineEdit::DeleteBack);
    assert_eq!((t.input.as_str(), t.cursor_pos), ("h!", 1));
    t.apply(LineEdit::DeleteForward);
    assert_eq!((t.input.as_str(), t.cursor_pos), ("h", 1));
    t.apply(LineEdit::Right);
    assert_eq!(t.cursor_pos, 1);
}

#[test]
fn edits_at_the_ends_are_noops() {
    let mut t = input("ab", 0);
    t.apply(LineEdit::DeleteBack);
    t.apply(LineEdit::Left);
    assert_eq!((t.input.as_str(), t.cursor_pos), ("ab", 0));
    let mut u = input("ab", 2);
    u.apply(LineEdit::DeleteForward);
    u.apply(LineEdit::Right);
    assert_eq!((u.input.as_str(), u.cursor_pos), ("ab", 2));
}

#[test]
fn paste_inserts_at_cursor() {
    let mut t = input("old", 1);
    t.paste("XY");
    assert_eq!((t.input.as_str(), t.cursor_pos), ("oXYld", 3));
}

#[test]
fn set_and_clear_place_the_cursor() {
    let mut t = LineInput::new();
    assert!(t.is_empty());
    t.set("abc".to_owned());
    assert_eq!(t.cursor_pos, 3);
    t.clear();
    assert!(t.is_empty());
    assert_eq!(t.cursor_pos, 0);
}

#[test]
fn merge_keeps_order_and_later_scope_signal() {
    let sid = SessionId { id: 3 };
    let a = IntentResult::new_message(Message::PersistSession { session_id: sid });
    let b = IntentResult::empty().with_message(Message::CloseSession { session_id: sid });
    let merged = a.merge(b);
    assert_eq!(
        merged.message_names,
        vec!["jinn_domain::protocol::PersistSession".to_owned(), "jinn_domain::protocol::CloseSession".to_owned()]
    );
    assert!(merged.scope_signal.is_none());
}

#[test]
fn scope_ids_compare_by_both_parts() {
    let a = SliceScopeId::new("dashboard", "tab");
    assert!(a.same(&SliceScopeId::new("dashboard", "tab")));
    assert!(!a.same(&SliceScopeId::new("dashboard", "other")));
    assert!(!a.same(&SliceScopeId::new("other", "tab")));
}
