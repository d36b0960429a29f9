use lazytodo::app::AppController;
use lazytodo::entities::Todo;
use lazytodo::entities::Workspace;
use lazytodo::keys::Effect;
use lazytodo::keys::Key;
use lazytodo::keys::Notice;
use lazytodo::keys::Tab;
use lazytodo::task_store::TaskStore;
use lazytodo::workspace_store::WorkspaceStore;

fn press(app: &mut AppController, text: &str) {
    for c in text.chars() {
        app.handle_key_at(Key::Char(c), 0);
    }
}

fn three_tasks() -> TaskStore {
    TaskStore::from_tasks(vec![
        Todo::with_timestamps(0, String::from("zero"), String::new(), 1, 1),
        Todo::with_timestamps(1, String::from("one"), String::new(), 2, 2),
        Todo::with_timestamps(2, String::from("two"), String::new(), 3, 3),
    ])
}

#[test]
fn a_session_starts_on_the_todos_tab_with_the_first_task_selected() {
    let app = AppController::with_stores(three_tasks(), WorkspaceStore::new());
    assert_eq!(app.tab(), Tab::Todos);
    assert!(!app.todo_modal().is_editing());
    assert!(!app.workspace_modal().is_editing());
    assert_eq!(app.tasks().selected(), Some(0));
    assert_eq!(app.workspaces().selected(), None);
    assert_eq!(app.notice(), Notice::Quiet);

    let empty = AppController::new();
    assert_eq!(empty.tab(), Tab::Todos);
    assert_eq!(empty.tasks().len(), 0);
    assert_eq!(empty.tasks().selected(), None);
}

#[test]
fn typing_buy_milk_and_enter_adds_the_task() {
    let mut app = AppController::new();
    assert_eq!(app.handle_key_at(Key::Char('n'), 5), Effect::Redraw);
    assert!(app.todo_modal().is_editing());
    for c in "Buy milk".chars() {
        assert_eq!(app.handle_key_at(Key::Char(c), 5), Effect::Redraw);
    }
    assert_eq!(app.todo_modal().editor().text(), "Buy milk");
    assert_eq!(app.tasks().len(), 0);
    assert_eq!(app.handle_key_at(Key::Enter, 42), Effect::SaveTasks);
    assert!(!app.todo_modal().is_editing());
    assert_eq!(app.todo_modal().editor().text(), "");
    assert_eq!(app.todo_modal().editor().cursor(), 0);
    assert_eq!(app.tasks().len(), 1);
    let todo = &app.tasks().list()[0];
    assert_eq!(todo.id, 0);
    assert_eq!(todo.title, "Buy milk");
    assert_eq!(todo.content, "");
    assert!(!todo.done);
    assert_eq!(todo.created_at, 42);
    assert_eq!(todo.updated_at, 42);
}

#[test]
fn a_also_opens_the_task_modal_and_the_new_task_goes_last() {
    let mut app = AppController::with_stores(three_tasks(), WorkspaceStore::new());
    app.handle_key_at(Key::Char('4'), 0);
    app.handle_key_at(Key::Char('a'), 0);
    assert!(app.todo_modal().is_editing());
    press(&mut app, "three");
    assert_eq!(app.handle_key_at(Key::Enter, 0), Effect::SaveTasks);
    assert_eq!(app.tasks().len(), 4);
    assert_eq!(app.tasks().list()[3].title, "three");
    assert_eq!(app.tasks().list()[3].id, 3);
    assert_eq!(app.tasks().selected(), Some(0));
}

#[test]
fn an_open_modal_takes_the_keys_of_all_commands() {
    let mut app = AppController::with_stores(three_tasks(), WorkspaceStore::new());
    app.handle_key_at(Key::Char('n'), 0);
    for c in "qjkd 1234na".chars() {
        assert_eq!(app.handle_key_at(Key::Char(c), 0), Effect::Redraw);
    }
    assert_eq!(app.handle_key_at(Key::Tab, 0), Effect::Redraw);
    assert_eq!(app.handle_key_at(Key::Up, 0), Effect::Redraw);
    assert_eq!(app.handle_key_at(Key::Down, 0), Effect::Redraw);
    assert_eq!(app.tab(), Tab::Todos);
    assert_eq!(app.tasks().len(), 3);
    assert_eq!(app.tasks().selected(), Some(0));
    assert!(app.todo_modal().is_editing());
    assert!(!app.workspace_modal().is_editing());
    assert_eq!(app.todo_modal().editor().text(), "qjkd 1234na");
}

#[test]
fn escape_cancels_without_a_new_task() {
    let mut app = AppController::new();
    app.handle_key_at(Key::Char('n'), 0);
    press(&mut app, "never mind");
    assert_eq!(app.handle_key_at(Key::Esc, 0), Effect::Redraw);
    assert!(!app.todo_modal().is_editing());
    assert_eq!(app.todo_modal().editor().text(), "");
    assert_eq!(app.tasks().len(), 0);
    assert_eq!(app.handle_key_at(Key::Char('q'), 0), Effect::Quit);
}

#[test]
fn editing_keys_work_inside_the_modal() {
    let mut app = AppController::new();
    app.handle_key_at(Key::Char('n'), 0);
    press(&mut app, "cafe");
    app.handle_key_at(Key::Backspace, 0);
    press(&mut app, "é");
    app.handle_key_at(Key::Left, 0);
    app.handle_key_at(Key::Left, 0);
    app.handle_key_at(Key::Left, 0);
    app.handle_key_at(Key::Left, 0);
    app.handle_key_at(Key::Left, 0);
    press(&mut app, "a ");
    app.handle_key_at(Key::Right, 0);
    assert_eq!(app.todo_modal().editor().text(), "a café");
    assert_eq!(app.todo_modal().editor().cursor(), 3);
    app.handle_key_at(Key::Enter, 0);
    assert_eq!(app.tasks().list()[0].title, "a café");
}

#[test]
fn q_quits_and_changes_nothing() {
    let mut app = AppController::with_stores(three_tasks(), WorkspaceStore::new());
    assert_eq!(app.handle_key_at(Key::Char('q'), 0), Effect::Quit);
    assert_eq!(app.tab(), Tab::Todos);
    assert_eq!(app.tasks().len(), 3);
    assert_eq!(app.tasks().selected(), Some(0));
}

#[test]
fn digits_and_tab_key_switch_tabs() {
    let mut app = AppController::new();
    assert_eq!(app.handle_key_at(Key::Char('1'), 0), Effect::Redraw);
    assert_eq!(app.tab(), Tab::Status);
    app.handle_key_at(Key::Char('3'), 0);
    assert_eq!(app.tab(), Tab::Workspaces);
    app.handle_key_at(Key::Char('4'), 0);
    assert_eq!(app.tab(), Tab::Todos);
    app.handle_key_at(Key::Char('2'), 0);
    assert_eq!(app.tab(), Tab::Inbox);
    assert_eq!(app.handle_key_at(Key::Tab, 0), Effect::Redraw);
    assert_eq!(app.tab(), Tab::Workspaces);
    app.handle_key_at(Key::Tab, 0);
    assert_eq!(app.tab(), Tab::Todos);
    app.handle_key_at(Key::Tab, 0);
    assert_eq!(app.tab(), Tab::Status);
    app.handle_key_at(Key::Tab, 0);
    assert_eq!(app.tab(), Tab::Inbox);
}

#[test]
fn j_k_and_arrows_move_the_selection_with_wraparound() {
    let mut app = AppController::with_stores(three_tasks(), WorkspaceStore::new());
    assert_eq!(app.handle_key_at(Key::Char('j'), 0), Effect::Redraw);
    assert_eq!(app.tasks().selected(), Some(1));
    app.handle_key_at(Key::Down, 0);
    assert_eq!(app.tasks().selected(), Some(2));
    app.handle_key_at(Key::Char('j'), 0);
    assert_eq!(app.tasks().selected(), Some(0));
    app.handle_key_at(Key::Char('k'), 0);
    assert_eq!(app.tasks().selected(), Some(2));
    app.handle_key_at(Key::Up, 0);
    assert_eq!(app.tasks().selected(), Some(1));
}

#[test]
fn d_deletes_the_selected_task_and_asks_for_a_save() {
    let mut app = AppController::with_stores(three_tasks(), WorkspaceStore::new());
    app.handle_key_at(Key::Char('k'), 0);
    assert_eq!(app.handle_key_at(Key::Char('d'), 0), Effect::SaveTasks);
    assert_eq!(app.tasks().len(), 2);
    assert_eq!(app.tasks().list()[1].title, "one");
    assert_eq!(app.tasks().selected(), Some(1));
    assert_eq!(app.handle_key_at(Key::Char('d'), 0), Effect::SaveTasks);
    assert_eq!(app.handle_key_at(Key::Char('d'), 0), Effect::SaveTasks);
    assert_eq!(app.tasks().len(), 0);
    assert_eq!(app.tasks().selected(), None);
    assert_eq!(app.handle_key_at(Key::Char('d'), 0), Effect::Redraw);
    assert_eq!(app.tasks().len(), 0);
}

#[test]
fn space_toggles_on_the_todos_tab_only() {
    let mut app = AppController::with_stores(three_tasks(), WorkspaceStore::new());
    app.handle_key_at(Key::Char('2'), 0);
    assert_eq!(app.tab(), Tab::Inbox);
    assert_eq!(app.handle_key_at(Key::Char(' '), 0), Effect::Redraw);
    assert!(!app.tasks().list()[0].done);
    app.handle_key_at(Key::Char('3'), 0);
    assert_eq!(app.handle_key_at(Key::Char(' '), 0), Effect::Redraw);
    app.handle_key_at(Key::Char('1'), 0);
    assert_eq!(app.handle_key_at(Key::Char(' '), 0), Effect::Redraw);
    assert!(!app.tasks().list()[0].done);
    app.handle_key_at(Key::Char('4'), 0);
    app.handle_key_at(Key::Char('j'), 0);
    assert_eq!(app.handle_key_at(Key::Char(' '), 0), Effect::SaveTasks);
    assert!(!app.tasks().list()[0].done);
    assert!(app.tasks().list()[1].done);
    assert!(!app.tasks().list()[2].done);
    assert_eq!(app.handle_key_at(Key::Char(' '), 0), Effect::SaveTasks);
    assert!(!app.tasks().list()[1].done);
}

#[test]
fn toggle_and_delete_without_selection_do_nothing() {
    let mut app = AppController::new();
    app.handle_key_at(Key::Char('4'), 0);
    app.handle_key_at(Key::Char('n'), 0);
    press(&mut app, "only");
    app.handle_key_at(Key::Enter, 0);
    assert_eq!(app.tasks().selected(), None);
    assert_eq!(app.handle_key_at(Key::Char(' '), 0), Effect::Redraw);
    assert_eq!(app.handle_key_at(Key::Char('d'), 0), Effect::Redraw);
    assert_eq!(app.tasks().len(), 1);
    assert!(!app.tasks().list()[0].done);
    app.handle_key_at(Key::Char('j'), 0);
    assert_eq!(app.tasks().selected(), Some(0));
    assert_eq!(app.handle_key_at(Key::Char(' '), 0), Effect::SaveTasks);
    assert!(app.tasks().list()[0].done);
}

#[test]
fn the_status_tab_has_no_list_commands() {
    let mut app = AppController::with_stores(three_tasks(), WorkspaceStore::new());
    app.handle_key_at(Key::Char('1'), 0);
    for c in "najkd ".chars() {
        assert_eq!(app.handle_key_at(Key::Char(c), 0), Effect::Redraw);
    }
    assert!(!app.todo_modal().is_editing());
    assert!(!app.workspace_modal().is_editing());
    assert_eq!(app.tasks().len(), 3);
    assert_eq!(app.tasks().selected(), Some(0));
    assert_eq!(app.tab(), Tab::Status);
}

#[test]
fn the_workspaces_tab_adds_and_deletes_workspaces() {
    let mut app = AppController::with_stores(three_tasks(), WorkspaceStore::new());
    app.handle_key_at(Key::Char('3'), 0);
    assert_eq!(app.handle_key_at(Key::Char('n'), 0), Effect::Redraw);
    assert!(app.workspace_modal().is_editing());
    assert!(!app.todo_modal().is_editing());
    press(&mut app, "home");
    assert_eq!(app.handle_key_at(Key::Enter, 0), Effect::SaveWorkspaces);
    assert!(!app.workspace_modal().is_editing());
    assert_eq!(app.workspace_modal().editor().text(), "");
    app.handle_key_at(Key::Char('a'), 0);
    press(&mut app, "work");
    assert_eq!(app.handle_key_at(Key::Enter, 0), Effect::SaveWorkspaces);
    assert_eq!(app.workspaces().len(), 2);
    assert_eq!(app.workspaces().list()[0].id, 0);
    assert_eq!(app.workspaces().list()[0].title, "home");
    assert_eq!(app.workspaces().list()[1].id, 1);
    assert_eq!(app.workspaces().list()[1].title, "work");
    assert_eq!(app.tasks().len(), 3);

    assert_eq!(app.handle_key_at(Key::Char(' '), 0), Effect::Redraw);
    assert_eq!(app.handle_key_at(Key::Char('d'), 0), Effect::Redraw);
    app.handle_key_at(Key::Char('j'), 0);
    app.handle_key_at(Key::Char('k'), 0);
    assert_eq!(app.workspaces().selected(), Some(1));
    assert_eq!(app.handle_key_at(Key::Char('d'), 0), Effect::SaveWorkspaces);
    assert_eq!(app.workspaces().len(), 1);
    assert_eq!(app.workspaces().selected(), Some(0));
    assert_eq!(app.tasks().len(), 3);
}

#[test]
fn a_save_failure_is_shown_until_the_next_key() {
    let mut app = AppController::with_stores(three_tasks(), WorkspaceStore::new());
    assert_eq!(app.handle_key_at(Key::Char('d'), 0), Effect::SaveTasks);
    app.report_save_failure();
    assert_eq!(app.notice(), Notice::SaveFailed);
    assert_eq!(app.tasks().len(), 2);
    assert_eq!(app.handle_key_at(Key::Other, 0), Effect::Redraw);
    assert_eq!(app.notice(), Notice::Quiet);
    assert_eq!(app.tasks().len(), 2);
}

#[test]
fn used_up_ids_are_reported_and_nothing_is_added() {
    let tasks =
        TaskStore::from_tasks(vec![Todo::with_timestamps(usize::MAX, String::from("last"), String::new(), 0, 0)]);
    let workspaces =
        WorkspaceStore::from_workspaces(vec![Workspace::with_id(usize::MAX, String::from("w"))]);
    let mut app = AppController::with_stores(tasks, workspaces);
    app.handle_key_at(Key::Char('n'), 0);
    press(&mut app, "more");
    assert_eq!(app.handle_key_at(Key::Enter, 0), Effect::Redraw);
    assert_eq!(app.notice(), Notice::IdsExhausted);
    assert!(!app.todo_modal().is_editing());
    assert_eq!(app.todo_modal().editor().text(), "");
    assert_eq!(app.tasks().len(), 1);

    app.handle_key_at(Key::Char('3'), 0);
    assert_eq!(app.notice(), Notice::Quiet);
    app.handle_key_at(Key::Char('n'), 0);
    press(&mut app, "more");
    assert_eq!(app.handle_key_at(Key::Enter, 0), Effect::Redraw);
    assert_eq!(app.notice(), Notice::IdsExhausted);
    assert_eq!(app.workspaces().len(), 1);
}

#[test]
fn handle_key_stamps_a_new_task_with_the_present() {
    let mut app = AppController::new();
    assert_eq!(app.handle_key(Key::Char('n')), Effect::Redraw);
    assert_eq!(app.handle_key(Key::Char('x')), Effect::Redraw);
    assert_eq!(app.handle_key(Key::Enter), Effect::SaveTasks);
    let todo = &app.tasks().list()[0];
    assert_eq!(todo.title, "x");
    // 2020-01-01 in milliseconds; the clock of any machine that runs this is later
    assert!(todo.created_at > 1_577_836_800_000);
    assert_eq!(todo.updated_at, todo.created_at);
    assert_eq!(app.handle_key(Key::Char('q')), Effect::Quit);
}

#[test]
fn the_inbox_lists_the_tasks_and_takes_new_ones() {
    let mut app = AppController::with_stores(three_tasks(), WorkspaceStore::new());
    app.handle_key_at(Key::Char('2'), 0);
    assert_eq!(app.tab(), Tab::Inbox);
    app.handle_key_at(Key::Char('j'), 0);
    assert_eq!(app.tasks().selected(), Some(1));
    assert_eq!(app.handle_key_at(Key::Char('n'), 0), Effect::Redraw);
    assert!(app.todo_modal().is_editing());
    press(&mut app, "four");
    assert_eq!(app.handle_key_at(Key::Enter, 0), Effect::SaveTasks);
    assert_eq!(app.tasks().list()[3].title, "four");
    assert_eq!(app.handle_key_at(Key::Char('d'), 0), Effect::SaveTasks);
    assert_eq!(app.tasks().len(), 3);
    assert_eq!(app.tasks().list()[1].title, "two");
}

#[test]
fn a_session_toggles_the_third_task_and_the_next_one_finds_it_done() {
    let file = three_tasks().encode().unwrap();
    let mut app = AppController::load(Some(&file), None);
    assert_eq!(app.tasks().selected(), Some(0));
    assert!(!app.todo_modal().is_editing());
    assert!(app.tasks().list().iter().all(|todo| !todo.done));

    let mut written = file.clone();
    let mut quit = false;
    for key in [Key::Char('j'), Key::Char('j'), Key::Char(' '), Key::Char('q')] {
        assert!(!quit);
        match app.handle_key(key) {
            Effect::Redraw => {}
            Effect::SaveTasks => written = app.tasks().encode().unwrap(),
            Effect::SaveWorkspaces => panic!("no workspace was touched"),
            Effect::Quit => quit = true,
        }
    }
    assert!(quit);
    assert_ne!(written, file);

    let again = AppController::load(Some(&written), None);
    assert_eq!(again.tab(), Tab::Todos);
    let found: Vec<(usize, bool)> =
        again.tasks().list().iter().map(|todo| (todo.id, todo.done)).collect();
    assert_eq!(found, vec![(0, false), (1, false), (2, true)]);
    assert_eq!(again.tasks().list()[2].title, "two");
    assert_eq!(again.tasks().selected(), Some(0));
}

#[test]
fn a_missing_or_damaged_file_starts_an_empty_session() {
    let app = AppController::load(None, None);
    assert_eq!(app.tasks().len(), 0);
    assert_eq!(app.workspaces().len(), 0);
    assert_eq!(app.tasks().selected(), None);
    assert_eq!(app.tab(), Tab::Todos);

    let app = AppController::load(Some(&[7, 7, 7]), Some(&[1]));
    assert_eq!(app.tasks().len(), 0);
    assert_eq!(app.workspaces().len(), 0);

    let mut workspaces = WorkspaceStore::new();
    workspaces.create(String::from("home")).unwrap();
    let file = workspaces.encode().unwrap();
    let app = AppController::load(None, Some(&file));
    assert_eq!(app.tasks().len(), 0);
    assert_eq!(app.workspaces().len(), 1);
    assert_eq!(app.workspaces().list()[0].title, "home");
    assert_eq!(app.workspaces().selected(), Some(0));
}

#[test]
fn a_toggle_survives_saving_and_loading_again() {
    let mut app = AppController::with_stores(three_tasks(), WorkspaceStore::new());
    app.handle_key_at(Key::Char('4'), 0);
    app.handle_key_at(Key::Char('k'), 0);
    assert_eq!(app.tasks().list()[2].id, 2);
    assert_eq!(app.handle_key_at(Key::Char(' '), 0), Effect::SaveTasks);
    let written = app.tasks().encode().unwrap();
    assert_eq!(app.handle_key_at(Key::Char('q'), 0), Effect::Quit);

    let again = AppController::with_stores(TaskStore::decode(&written), WorkspaceStore::new());
    assert_eq!(again.tasks().len(), 3);
    let todo = &again.tasks().list()[2];
    assert_eq!(todo.id, 2);
    assert!(todo.done);
    assert_eq!(todo.title, "two");
    assert!(!again.tasks().list()[0].done);
    assert!(!again.tasks().list()[1].done);
}
