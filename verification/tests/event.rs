use tui_launcher::actions::{Action, Task};
use tui_launcher::app::{App, AppView, Popup};
use tui_launcher::components::stateful_list::StatefulList;
use tui_launcher::event::{
    complete_task, execute_action, handle_key_event, handle_menu_keys, handle_popup_keys,
    TaskRequest,
};
use tui_launcher::keys::{Key, KeyCode, ALT, CONTROL, SHIFT};

fn press(app: &mut App<'_>, code: KeyCode) -> Option<TaskRequest> {
    handle_key_event(app, Key::plain(code))
}

fn at_snapshot_entry<'a>() -> App<'a> {
    let mut app = App::new();
    assert_eq!(press(&mut app, KeyCode::Enter), None);
    assert_eq!(app.current_view, AppView::Replicator);
    app
}

#[test]
fn a_new_session_starts_at_the_main_menu() {
    let app = App::new();
    assert_eq!(app.current_view, AppView::MainMenu);
    assert_eq!(app.active_popup, Popup::Closed);
    assert!(!app.should_quit);
    assert_eq!(app.main_menu.items().len(), 5);
    assert_eq!(app.replicator_menu.items().len(), 2);
    assert_eq!(app.cloner_menu.items().len(), 1);
    assert_eq!(app.utilities_menu.items().len(), 3);
    assert_eq!(app.manual_install_menu.items().len(), 6);
    assert_eq!(app.main_menu.selected(), Some(0));
    assert_eq!(app.replicator_menu.selected(), Some(0));
    assert_eq!(app.cloner_menu.selected(), Some(0));
    assert_eq!(app.utilities_menu.selected(), Some(0));
    assert_eq!(app.manual_install_menu.selected(), Some(0));
    assert_eq!(app.popup_title, "");
    assert_eq!(app.popup_text, "");
    assert_eq!(app.popup_list.selected(), None);
    assert_eq!(app.popup_input.value(), "");
    assert_eq!(app.popup_input.cursor(), 0);
    assert_eq!(app.popup_action, None);
}

#[test]
fn the_catalog_binds_each_entry_to_its_action() {
    let app = App::new();
    let main: Vec<Action> = app.main_menu.items().iter().map(|i| i.action).collect();
    assert_eq!(
        main,
        vec![
            Action::SetView(AppView::Replicator),
            Action::SetView(AppView::Cloner),
            Action::SetView(AppView::Utilities),
            Action::SetView(AppView::HelpManual),
            Action::Quit,
        ]
    );
    let first = &app.main_menu.items()[0];
    assert_eq!(first.icon, "[R]");
    assert_eq!(first.text, "Replicator (Recommended)");
    assert_eq!(
        first.help,
        "Captures the 'recipe' of your system to perform a clean, fresh installation on new hardware."
    );
    let replicator: Vec<Action> = app.replicator_menu.items().iter().map(|i| i.action).collect();
    assert_eq!(
        replicator,
        vec![Action::Execute(Task::CreateSnapshot), Action::Execute(Task::DeploySnapshot)]
    );
    let cloner: Vec<Action> = app.cloner_menu.items().iter().map(|i| i.action).collect();
    assert_eq!(cloner, vec![Action::Execute(Task::CreateIso)]);
    let utilities: Vec<Action> = app.utilities_menu.items().iter().map(|i| i.action).collect();
    assert_eq!(
        utilities,
        vec![
            Action::Execute(Task::InspectSystem),
            Action::Execute(Task::FlashIso),
            Action::SetView(AppView::ManualInstaller),
        ]
    );
    let manual: Vec<Action> = app.manual_install_menu.items().iter().map(|i| i.action).collect();
    assert_eq!(
        manual,
        vec![
            Action::Execute(Task::ManualWipeDisk),
            Action::Execute(Task::ManualPartitionDisk),
            Action::Execute(Task::ManualFormatPartitions),
            Action::Execute(Task::ManualMountPartitions),
            Action::Execute(Task::ManualPacstrap),
            Action::Execute(Task::ManualChrootGrub),
        ]
    );
    assert_eq!(app.manual_install_menu.items()[5].text, "Setup Bootloader");
}

#[test]
fn down_four_times_reaches_the_last_entry_and_once_more_wraps() {
    let mut app = App::new();
    assert_eq!(app.main_menu.items().len(), 5);
    assert_eq!(app.main_menu.selected(), Some(0));
    for _ in 0..4 {
        assert_eq!(press(&mut app, KeyCode::Down), None);
    }
    assert_eq!(app.main_menu.selected(), Some(4));
    assert_eq!(press(&mut app, KeyCode::Down), None);
    assert_eq!(app.main_menu.selected(), Some(0));
    assert_eq!(app.current_view, AppView::MainMenu);
    assert_eq!(app.active_popup, Popup::Closed);
}

#[test]
fn up_and_the_vim_keys_move_the_selection() {
    let mut app = App::new();
    press(&mut app, KeyCode::Up);
    assert_eq!(app.main_menu.selected(), Some(4));
    press(&mut app, KeyCode::Char('k'));
    assert_eq!(app.main_menu.selected(), Some(3));
    press(&mut app, KeyCode::Char('j'));
    assert_eq!(app.main_menu.selected(), Some(4));
    press(&mut app, KeyCode::Char('j'));
    assert_eq!(app.main_menu.selected(), Some(0));
}

#[test]
fn keys_without_a_meaning_change_nothing() {
    let mut app = App::new();
    for code in [
        KeyCode::Char('q'),
        KeyCode::Char('x'),
        KeyCode::Left,
        KeyCode::Right,
        KeyCode::Backspace,
        KeyCode::Delete,
        KeyCode::Home,
        KeyCode::End,
        KeyCode::Other,
        KeyCode::Esc,
    ] {
        assert_eq!(press(&mut app, code), None);
        assert_eq!(app.current_view, AppView::MainMenu);
        assert_eq!(app.active_popup, Popup::Closed);
        assert_eq!(app.main_menu.selected(), Some(0));
        assert!(!app.should_quit);
    }
}

#[test]
fn confirm_on_an_execute_entry_shows_working_then_the_result() {
    let mut app = at_snapshot_entry();
    app.main_menu.next();
    let main_before = app.main_menu.selected();
    let selection_before = app.replicator_menu.selected();

    let request = press(&mut app, KeyCode::Enter);
    assert_eq!(request, Some(TaskRequest { task: Task::CreateSnapshot, close_popup: false }));
    assert_eq!(app.active_popup, Popup::Action);
    assert_eq!(app.popup_title, "Working...");
    assert_eq!(app.popup_text, "Please wait while the task completes.");
    assert_eq!(app.current_view, AppView::Replicator);

    complete_task(&mut app, request.unwrap(), Ok("done".to_string()));
    assert_eq!(app.active_popup, Popup::Action);
    assert_eq!(app.popup_title, "Success");
    assert_eq!(app.popup_text, "done");

    assert_eq!(press(&mut app, KeyCode::Char('x')), None);
    assert_eq!(app.active_popup, Popup::Closed);
    assert_eq!(app.current_view, AppView::Replicator);
    assert_eq!(app.replicator_menu.selected(), selection_before);
    assert_eq!(app.main_menu.selected(), main_before);
    assert!(!app.should_quit);
}

#[test]
fn a_failed_task_shows_its_reason_and_the_session_goes_on() {
    let mut app = at_snapshot_entry();
    press(&mut app, KeyCode::Down);
    assert_eq!(app.replicator_menu.selected(), Some(1));

    let request = press(&mut app, KeyCode::Enter);
    assert_eq!(request, Some(TaskRequest { task: Task::DeploySnapshot, close_popup: false }));
    complete_task(&mut app, request.unwrap(), Err("disk full".to_string()));
    assert_eq!(app.active_popup, Popup::Action);
    assert_eq!(app.popup_title, "Error");
    assert_eq!(app.popup_text, "An error occurred: disk full");
    assert!(!app.should_quit);
    assert_eq!(app.current_view, AppView::Replicator);
    assert_eq!(app.replicator_menu.selected(), Some(1));

    assert_eq!(press(&mut app, KeyCode::Enter), None);
    assert_eq!(app.active_popup, Popup::Closed);
    assert_eq!(app.current_view, AppView::Replicator);
    assert_eq!(app.replicator_menu.selected(), Some(1));
    press(&mut app, KeyCode::Down);
    assert_eq!(app.replicator_menu.selected(), Some(0));
    assert!(!app.should_quit);
}

#[test]
fn an_error_text_that_looks_like_navigation_is_only_text() {
    let mut app = at_snapshot_entry();
    let request = press(&mut app, KeyCode::Enter).unwrap();
    complete_task(&mut app, request, Err("quit".to_string()));
    assert!(!app.should_quit);
    assert_eq!(app.popup_text, "An error occurred: quit");
    press(&mut app, KeyCode::Esc);
    let request = press(&mut app, KeyCode::Enter).unwrap();
    complete_task(&mut app, request, Err("view:replicator".to_string()));
    assert_eq!(app.current_view, AppView::Replicator);
    assert_eq!(app.active_popup, Popup::Action);
    assert_eq!(app.popup_text, "An error occurred: view:replicator");
}

#[test]
fn declining_a_confirm_popup_discards_the_pending_action() {
    for code in [KeyCode::Char('n'), KeyCode::Char('N'), KeyCode::Esc] {
        let mut app = App::new();
        app.active_popup = Popup::Confirm;
        app.popup_action = Some(Action::Execute(Task::ManualWipeDisk));
        assert_eq!(press(&mut app, code), None);
        assert_eq!(app.active_popup, Popup::Closed);
        assert_eq!(app.popup_action, None);
        assert_eq!(app.popup_title, "");
        assert_eq!(app.popup_text, "");
        assert!(!app.should_quit);
        assert_eq!(app.current_view, AppView::MainMenu);
        // A later confirm key meets no popup and no pending action.
        assert_eq!(press(&mut app, KeyCode::Char('y')), None);
        assert_eq!(app.active_popup, Popup::Closed);
    }
}

#[test]
fn accepting_a_confirm_popup_runs_the_pending_task_and_then_closes() {
    for code in [KeyCode::Char('y'), KeyCode::Char('Y')] {
        let mut app = App::new();
        app.active_popup = Popup::Confirm;
        app.popup_action = Some(Action::Execute(Task::ManualWipeDisk));
        let request = press(&mut app, code);
        assert_eq!(request, Some(TaskRequest { task: Task::ManualWipeDisk, close_popup: true }));
        assert_eq!(app.popup_action, None);
        assert_eq!(app.active_popup, Popup::Action);
        assert_eq!(app.popup_title, "Working...");
        complete_task(&mut app, request.unwrap(), Ok("wiped".to_string()));
        assert_eq!(app.active_popup, Popup::Closed);
        assert_eq!(app.popup_title, "Success");
        assert_eq!(app.popup_text, "wiped");
    }
}

#[test]
fn accepting_a_confirm_popup_applies_a_pending_navigation() {
    let mut app = App::new();
    app.active_popup = Popup::Confirm;
    app.popup_action = Some(Action::Quit);
    assert_eq!(press(&mut app, KeyCode::Char('y')), None);
    assert!(app.should_quit);
    assert_eq!(app.active_popup, Popup::Closed);
    assert_eq!(app.popup_action, None);

    let mut app = App::new();
    app.active_popup = Popup::Confirm;
    app.popup_text = "Go?".to_string();
    app.popup_action = Some(Action::SetView(AppView::Utilities));
    assert_eq!(press(&mut app, KeyCode::Char('y')), None);
    assert_eq!(app.current_view, AppView::Utilities);
    assert_eq!(app.active_popup, Popup::Closed);
    assert_eq!(app.popup_text, "");

    let mut app = App::new();
    app.active_popup = Popup::Confirm;
    assert_eq!(press(&mut app, KeyCode::Char('y')), None);
    assert_eq!(app.active_popup, Popup::Closed);
    assert_eq!(app.current_view, AppView::MainMenu);
}

#[test]
fn other_keys_leave_a_confirm_popup_open() {
    let mut app = App::new();
    app.active_popup = Popup::Confirm;
    app.popup_action = Some(Action::Quit);
    for code in [KeyCode::Enter, KeyCode::Down, KeyCode::Char('?'), KeyCode::Char('q')] {
        assert_eq!(press(&mut app, code), None);
        assert_eq!(app.active_popup, Popup::Confirm);
        assert_eq!(app.popup_action, Some(Action::Quit));
        assert_eq!(app.main_menu.selected(), Some(0));
        assert!(!app.should_quit);
    }
}

#[test]
fn the_help_key_opens_the_help_popup_over_the_view() {
    let mut app = App::new();
    press(&mut app, KeyCode::Down);
    press(&mut app, KeyCode::Down);
    assert_eq!(press(&mut app, KeyCode::Char('?')), None);
    assert_eq!(app.active_popup, Popup::Help);
    assert_eq!(app.current_view, AppView::MainMenu);
    assert_eq!(app.main_menu.selected(), Some(2));
}

#[test]
fn a_popup_takes_every_key() {
    let mut app = App::new();
    press(&mut app, KeyCode::Char('?'));
    assert_eq!(press(&mut app, KeyCode::Down), None);
    assert_eq!(app.active_popup, Popup::Closed);
    assert_eq!(app.main_menu.selected(), Some(0));

    press(&mut app, KeyCode::Char('?'));
    assert_eq!(press(&mut app, KeyCode::Enter), None);
    assert_eq!(app.active_popup, Popup::Closed);
    assert_eq!(app.current_view, AppView::MainMenu);

    press(&mut app, KeyCode::Char('?'));
    assert_eq!(press(&mut app, KeyCode::Char('?')), None);
    assert_eq!(app.active_popup, Popup::Closed);
}

#[test]
fn dismissing_help_returns_to_the_view_and_selection_from_before() {
    let mut app = at_snapshot_entry();
    press(&mut app, KeyCode::Down);
    press(&mut app, KeyCode::Char('?'));
    assert_eq!(app.active_popup, Popup::Help);
    press(&mut app, KeyCode::Char(' '));
    assert_eq!(app.active_popup, Popup::Closed);
    assert_eq!(app.current_view, AppView::Replicator);
    assert_eq!(app.replicator_menu.selected(), Some(1));
    assert_eq!(app.main_menu.selected(), Some(0));
}

#[test]
fn set_view_closes_whatever_popup_is_shown() {
    for popup in [
        Popup::Closed,
        Popup::Help,
        Popup::Action,
        Popup::Confirm,
        Popup::Input,
        Popup::Select,
    ] {
        let mut app = App::new();
        app.active_popup = popup;
        app.popup_title = "Stale".to_string();
        app.popup_text = "Left over".to_string();
        assert_eq!(execute_action(&mut app, Action::SetView(AppView::Cloner)), None);
        assert_eq!(app.current_view, AppView::Cloner);
        assert_eq!(app.active_popup, Popup::Closed);
        assert_eq!(app.popup_title, "");
        assert_eq!(app.popup_text, "");
        assert!(!app.should_quit);
    }
}

#[test]
fn quit_raises_the_flag_and_changes_nothing_else() {
    let mut app = App::new();
    app.active_popup = Popup::Help;
    app.popup_text = "kept".to_string();
    assert_eq!(execute_action(&mut app, Action::Quit), None);
    assert!(app.should_quit);
    assert_eq!(app.active_popup, Popup::Help);
    assert_eq!(app.popup_text, "kept");
    assert_eq!(app.current_view, AppView::MainMenu);
}

#[test]
fn execute_installs_the_working_popup_and_hands_the_task_back() {
    let mut app = App::new();
    assert_eq!(execute_action(&mut app, Action::Execute(Task::FlashIso)), Some(Task::FlashIso));
    assert_eq!(app.active_popup, Popup::Action);
    assert_eq!(app.popup_title, "Working...");
    assert_eq!(app.popup_text, "Please wait while the task completes.");
    assert_eq!(app.current_view, AppView::MainMenu);
    assert!(!app.should_quit);
}

#[test]
fn the_quit_entry_ends_the_session() {
    let mut app = App::new();
    press(&mut app, KeyCode::Up);
    assert_eq!(app.main_menu.selected(), Some(4));
    assert_eq!(press(&mut app, KeyCode::Enter), None);
    assert!(app.should_quit);
    assert_eq!(app.active_popup, Popup::Closed);
    assert_eq!(app.current_view, AppView::MainMenu);
}

#[test]
fn back_leads_to_the_main_menu_from_every_other_view() {
    for view in [
        AppView::HelpManual,
        AppView::Replicator,
        AppView::Cloner,
        AppView::Utilities,
        AppView::ManualInstaller,
    ] {
        let mut app = App::new();
        assert_eq!(execute_action(&mut app, Action::SetView(view)), None);
        assert_eq!(press(&mut app, KeyCode::Esc), None);
        assert_eq!(app.current_view, AppView::MainMenu);
        assert_eq!(press(&mut app, KeyCode::Esc), None);
        assert_eq!(app.current_view, AppView::MainMenu);
    }
}

#[test]
fn the_help_manual_is_left_by_q_and_ignores_the_rest() {
    let mut app = App::new();
    for _ in 0..3 {
        press(&mut app, KeyCode::Down);
    }
    assert_eq!(press(&mut app, KeyCode::Enter), None);
    assert_eq!(app.current_view, AppView::HelpManual);
    for code in [KeyCode::Down, KeyCode::Up, KeyCode::Enter, KeyCode::Char('j')] {
        assert_eq!(press(&mut app, code), None);
        assert_eq!(app.current_view, AppView::HelpManual);
    }
    assert_eq!(app.main_menu.selected(), Some(3));
    assert_eq!(press(&mut app, KeyCode::Char('q')), None);
    assert_eq!(app.current_view, AppView::MainMenu);
    assert_eq!(app.main_menu.selected(), Some(3));
}

#[test]
fn q_does_not_leave_a_menu() {
    let mut app = at_snapshot_entry();
    assert_eq!(press(&mut app, KeyCode::Char('q')), None);
    assert_eq!(app.current_view, AppView::Replicator);
    assert!(!app.should_quit);
}

#[test]
fn the_utilities_menu_leads_to_the_manual_installer() {
    let mut app = App::new();
    press(&mut app, KeyCode::Down);
    press(&mut app, KeyCode::Down);
    press(&mut app, KeyCode::Enter);
    assert_eq!(app.current_view, AppView::Utilities);
    press(&mut app, KeyCode::Up);
    assert_eq!(app.utilities_menu.selected(), Some(2));
    assert_eq!(press(&mut app, KeyCode::Enter), None);
    assert_eq!(app.current_view, AppView::ManualInstaller);
    press(&mut app, KeyCode::Char('k'));
    assert_eq!(app.manual_install_menu.selected(), Some(5));
    assert_eq!(
        press(&mut app, KeyCode::Enter),
        Some(TaskRequest { task: Task::ManualChrootGrub, close_popup: false })
    );
    assert_eq!(app.utilities_menu.selected(), Some(2));
    assert_eq!(app.main_menu.selected(), Some(2));
}

#[test]
fn typing_goes_into_the_buffer_of_an_input_popup() {
    let mut app = App::new();
    app.active_popup = Popup::Input;
    for c in ['a', 'j', '?', 'y'] {
        assert_eq!(handle_key_event(&mut app, Key::char(c)), None);
    }
    assert_eq!(handle_key_event(&mut app, Key { code: KeyCode::Char('Q'), modifiers: SHIFT }), None);
    assert_eq!(app.popup_input.value(), "aj?yQ");
    assert_eq!(app.popup_input.cursor(), 5);
    assert_eq!(app.active_popup, Popup::Input);
    assert_eq!(app.main_menu.selected(), Some(0));

    press(&mut app, KeyCode::Backspace);
    assert_eq!(app.popup_input.value(), "aj?y");
    press(&mut app, KeyCode::Home);
    assert_eq!(app.popup_input.cursor(), 0);
    press(&mut app, KeyCode::Char('>'));
    assert_eq!(app.popup_input.value(), ">aj?y");
    assert_eq!(app.popup_input.cursor(), 1);
    press(&mut app, KeyCode::Delete);
    assert_eq!(app.popup_input.value(), ">j?y");
    press(&mut app, KeyCode::Right);
    assert_eq!(app.popup_input.cursor(), 2);
    press(&mut app, KeyCode::Left);
    assert_eq!(app.popup_input.cursor(), 1);
    press(&mut app, KeyCode::End);
    assert_eq!(app.popup_input.cursor(), 4);
    for code in [KeyCode::Up, KeyCode::Down, KeyCode::Other] {
        press(&mut app, code);
        assert_eq!(app.popup_input.value(), ">j?y");
        assert_eq!(app.popup_input.cursor(), 4);
    }
    assert_eq!(app.active_popup, Popup::Input);
}

#[test]
fn the_editor_of_an_input_popup_hears_the_modifiers() {
    let mut app = App::new();
    app.active_popup = Popup::Input;
    for c in ['o', 'n', 'e', ' ', 't', 'w', 'o'] {
        handle_key_event(&mut app, Key::char(c));
    }
    handle_key_event(&mut app, Key { code: KeyCode::Char('w'), modifiers: CONTROL });
    assert_eq!(app.popup_input.value(), "one ");
    handle_key_event(&mut app, Key { code: KeyCode::Char('y'), modifiers: CONTROL });
    assert_eq!(app.popup_input.value(), "one two");
    handle_key_event(&mut app, Key { code: KeyCode::Char('a'), modifiers: CONTROL });
    assert_eq!(app.popup_input.cursor(), 0);
    handle_key_event(&mut app, Key { code: KeyCode::Char('!'), modifiers: CONTROL | ALT });
    assert_eq!(app.popup_input.value(), "!one two");
    handle_key_event(&mut app, Key { code: KeyCode::Char('u'), modifiers: CONTROL });
    assert_eq!(app.popup_input.value(), "");
    handle_key_event(&mut app, Key { code: KeyCode::Char('z'), modifiers: ALT });
    assert_eq!(app.popup_input.value(), "");
}

#[test]
fn an_input_popup_commits_on_confirm_and_closes_on_back() {
    let mut app = App::new();
    app.active_popup = Popup::Input;
    app.popup_action = Some(Action::Execute(Task::FlashIso));
    handle_key_event(&mut app, Key::char('x'));
    let request = press(&mut app, KeyCode::Enter);
    assert_eq!(request, Some(TaskRequest { task: Task::FlashIso, close_popup: true }));
    assert_eq!(app.popup_action, None);
    assert_eq!(app.active_popup, Popup::Action);
    assert_eq!(app.popup_input.value(), "x");
    complete_task(&mut app, request.unwrap(), Err("no device".to_string()));
    assert_eq!(app.active_popup, Popup::Closed);
    assert_eq!(app.popup_text, "An error occurred: no device");

    let mut app = App::new();
    app.active_popup = Popup::Input;
    app.popup_action = Some(Action::Execute(Task::FlashIso));
    handle_key_event(&mut app, Key::char('x'));
    assert_eq!(press(&mut app, KeyCode::Esc), None);
    assert_eq!(app.active_popup, Popup::Closed);
    assert_eq!(app.popup_title, "");
}

#[test]
fn a_select_popup_moves_its_own_selection() {
    let mut app = App::new();
    app.active_popup = Popup::Select;
    app.popup_list =
        StatefulList::with_items(vec!["sda".to_string(), "sdb".to_string(), "sdc".to_string()]);
    app.popup_action = Some(Action::Execute(Task::ManualWipeDisk));
    press(&mut app, KeyCode::Down);
    assert_eq!(app.popup_list.selected(), Some(1));
    press(&mut app, KeyCode::Char('j'));
    assert_eq!(app.popup_list.selected(), Some(2));
    press(&mut app, KeyCode::Down);
    assert_eq!(app.popup_list.selected(), Some(0));
    press(&mut app, KeyCode::Up);
    assert_eq!(app.popup_list.selected(), Some(2));
    press(&mut app, KeyCode::Char('k'));
    assert_eq!(app.popup_list.selected(), Some(1));
    assert_eq!(press(&mut app, KeyCode::Char('x')), None);
    assert_eq!(app.popup_list.selected(), Some(1));
    assert_eq!(app.main_menu.selected(), Some(0));
    assert_eq!(app.active_popup, Popup::Select);

    let request = press(&mut app, KeyCode::Enter);
    assert_eq!(request, Some(TaskRequest { task: Task::ManualWipeDisk, close_popup: true }));
    assert_eq!(app.popup_list.selected_item(), Some(&"sdb".to_string()));
    assert_eq!(app.active_popup, Popup::Action);
    complete_task(&mut app, request.unwrap(), Ok("gone".to_string()));
    assert_eq!(app.active_popup, Popup::Closed);
}

#[test]
fn a_select_popup_closes_on_back_without_running_anything() {
    let mut app = App::new();
    app.active_popup = Popup::Select;
    app.popup_list = StatefulList::with_items(vec!["sda".to_string()]);
    app.popup_action = Some(Action::Execute(Task::ManualWipeDisk));
    assert_eq!(press(&mut app, KeyCode::Esc), None);
    assert_eq!(app.active_popup, Popup::Closed);
    assert_eq!(app.popup_title, "");
    assert!(!app.should_quit);
}

#[test]
fn handle_popup_keys_without_a_popup_does_nothing() {
    let mut app = App::new();
    assert_eq!(handle_popup_keys(&mut app, Key::plain(KeyCode::Down)), None);
    assert_eq!(app.active_popup, Popup::Closed);
    assert_eq!(app.main_menu.selected(), Some(0));
}

#[test]
fn handle_menu_keys_hands_back_the_selected_action_on_confirm() {
    let mut app = App::new();
    assert_eq!(handle_menu_keys(&mut app.main_menu, KeyCode::Down), None);
    assert_eq!(app.main_menu.selected(), Some(1));
    assert_eq!(
        handle_menu_keys(&mut app.main_menu, KeyCode::Enter),
        Some(Action::SetView(AppView::Cloner))
    );
    assert_eq!(app.main_menu.selected(), Some(1));
    assert_eq!(handle_menu_keys(&mut app.main_menu, KeyCode::Esc), None);
    assert_eq!(app.main_menu.selected(), Some(1));
    let mut empty = StatefulList::with_items(vec![]);
    assert_eq!(handle_menu_keys(&mut empty, KeyCode::Enter), None);
    assert_eq!(handle_menu_keys(&mut empty, KeyCode::Down), None);
    assert_eq!(empty.selected(), None);
}

#[test]
fn starting_a_task_keeps_the_view_and_the_selection() {
    let mut app = at_snapshot_entry();
    press(&mut app, KeyCode::Down);
    let request = press(&mut app, KeyCode::Enter).unwrap();
    assert_eq!(app.active_popup, Popup::Action);
    assert_eq!(app.current_view, AppView::Replicator);
    assert_eq!(app.replicator_menu.selected(), Some(1));
    // A key pressed before the outcome is known closes the popup like any other.
    assert_eq!(press(&mut app, KeyCode::Down), None);
    assert_eq!(app.replicator_menu.selected(), Some(1));
    complete_task(&mut app, request, Ok("late".to_string()));
    assert_eq!(app.active_popup, Popup::Closed);
    assert_eq!(app.popup_text, "late");
}
