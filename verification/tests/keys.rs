use lazytodo::keys::command_for;
use lazytodo::keys::Command;
use lazytodo::keys::Key;
use lazytodo::keys::Tab;

#[test]
fn tab_key_cycles_through_the_four_tabs() {
    assert_eq!(Tab::Status.next(), Tab::Inbox);
    assert_eq!(Tab::Inbox.next(), Tab::Workspaces);
    assert_eq!(Tab::Workspaces.next(), Tab::Todos);
    assert_eq!(Tab::Todos.next(), Tab::Status);
}

#[test]
fn digits_name_the_tabs() {
    assert_eq!(Tab::from_digit('1'), Some(Tab::Status));
    assert_eq!(Tab::from_digit('2'), Some(Tab::Inbox));
    assert_eq!(Tab::from_digit('3'), Some(Tab::Workspaces));
    assert_eq!(Tab::from_digit('4'), Some(Tab::Todos));
    assert_eq!(Tab::from_digit('0'), None);
    assert_eq!(Tab::from_digit('5'), None);
    assert_eq!(Tab::from_digit('a'), None);
}

#[test]
fn key_bindings() {
    assert_eq!(command_for(Key::Char('q')), Command::Quit);
    assert_eq!(command_for(Key::Tab), Command::NextTab);
    assert_eq!(command_for(Key::Char('1')), Command::GoTo(Tab::Status));
    assert_eq!(command_for(Key::Char('4')), Command::GoTo(Tab::Todos));
    assert_eq!(command_for(Key::Char('n')), Command::OpenModal);
    assert_eq!(command_for(Key::Char('a')), Command::OpenModal);
    assert_eq!(command_for(Key::Char('j')), Command::SelectNext);
    assert_eq!(command_for(Key::Down), Command::SelectNext);
    assert_eq!(command_for(Key::Char('k')), Command::SelectPrevious);
    assert_eq!(command_for(Key::Up), Command::SelectPrevious);
    assert_eq!(command_for(Key::Char('d')), Command::DeleteSelected);
    assert_eq!(command_for(Key::Char(' ')), Command::ToggleSelected);
}

#[test]
fn keys_without_binding() {
    for key in [
        Key::Char('x'),
        Key::Char('Q'),
        Key::Char('5'),
        Key::Enter,
        Key::Esc,
        Key::Backspace,
        Key::Left,
        Key::Right,
        Key::Other,
    ] {
        assert_eq!(command_for(key), Command::Nothing);
    }
}
