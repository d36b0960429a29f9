use lazytodo::keys::Key;
use lazytodo::modal::Modal;
use lazytodo::modal::ModalOutcome;

fn type_text(modal: &mut Modal, text: &str) {
    for c in text.chars() {
        assert!(matches!(modal.handle_key(Key::Char(c)), ModalOutcome::Editing));
    }
}

#[test]
fn new_modal_is_hidden_and_empty() {
    let modal = Modal::new();
    assert!(!modal.is_editing());
    assert_eq!(modal.editor().text(), "");
    assert_eq!(modal.editor().cursor(), 0);
}

#[test]
fn hidden_modal_takes_no_key() {
    let mut modal = Modal::new();
    assert!(matches!(modal.handle_key(Key::Char('a')), ModalOutcome::Ignored));
    assert!(matches!(modal.handle_key(Key::Enter), ModalOutcome::Ignored));
    assert!(matches!(modal.handle_key(Key::Esc), ModalOutcome::Ignored));
    assert!(!modal.is_editing());
    assert_eq!(modal.editor().text(), "");
}

#[test]
fn enter_hands_the_text_over_and_closes() {
    let mut modal = Modal::new();
    modal.open();
    assert!(modal.is_editing());
    type_text(&mut modal, "Buy milk");
    assert_eq!(modal.editor().text(), "Buy milk");
    match modal.handle_key(Key::Enter) {
        ModalOutcome::Submitted(text) => assert_eq!(text, "Buy milk"),
        other => panic!("unexpected outcome {:?}", other),
    }
    assert!(!modal.is_editing());
    assert_eq!(modal.editor().text(), "");
    assert_eq!(modal.editor().cursor(), 0);
}

#[test]
fn escape_drops_the_text_and_closes() {
    let mut modal = Modal::new();
    modal.open();
    type_text(&mut modal, "half a thou");
    assert!(matches!(modal.handle_key(Key::Esc), ModalOutcome::Cancelled));
    assert!(!modal.is_editing());
    assert_eq!(modal.editor().text(), "");
    modal.open();
    assert_eq!(modal.editor().text(), "");
}

#[test]
fn editing_keys_reach_the_editor() {
    let mut modal = Modal::new();
    modal.open();
    type_text(&mut modal, "abd");
    assert!(matches!(modal.handle_key(Key::Left), ModalOutcome::Editing));
    assert!(matches!(modal.handle_key(Key::Char('c')), ModalOutcome::Editing));
    assert_eq!(modal.editor().text(), "abcd");
    assert_eq!(modal.editor().cursor(), 3);
    assert!(matches!(modal.handle_key(Key::Right), ModalOutcome::Editing));
    assert!(matches!(modal.handle_key(Key::Backspace), ModalOutcome::Editing));
    assert_eq!(modal.editor().text(), "abc");
    assert!(modal.is_editing());
}

#[test]
fn other_keys_are_swallowed() {
    let mut modal = Modal::new();
    modal.open();
    type_text(&mut modal, "x");
    for key in [Key::Up, Key::Down, Key::Tab, Key::Other] {
        assert!(matches!(modal.handle_key(key), ModalOutcome::Editing));
    }
    assert!(modal.is_editing());
    assert_eq!(modal.editor().text(), "x");
    assert_eq!(modal.editor().cursor(), 1);
}

#[test]
fn opening_twice_keeps_the_text() {
    let mut modal = Modal::new();
    modal.open();
    type_text(&mut modal, "ab");
    modal.open();
    assert!(modal.is_editing());
    assert_eq!(modal.editor().text(), "ab");
}

#[test]
fn enter_on_empty_text_submits_an_empty_string() {
    let mut modal = Modal::new();
    modal.open();
    match modal.handle_key(Key::Enter) {
        ModalOutcome::Submitted(text) => assert_eq!(text, ""),
        other => panic!("unexpected outcome {:?}", other),
    }
}
