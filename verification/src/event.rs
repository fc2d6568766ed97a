//! The transitions of a session: what a key press and the end of a task
//! do to the state.
//!
//! A key goes to the popup if one is shown and to nothing else. Without a
//! popup the help key opens the help popup, and every other key goes to the
//! active view. Confirming a menu entry applies its action. Running a task
//! is the caller's part: the transition that starts one puts up the
//! "working" popup and hands back a [`TaskRequest`]; the caller draws the
//! session, runs the task and reports how it ended with [`complete_task`].

use crate::actions::{Action, Task};
use crate::app::{App, AppModel, AppView, MenuItem, Popup};
use crate::components::stateful_list::{ListModel, StatefulList};
use crate::keys::{Key, KeyCode};
use crate::text_input::{edited, input_after_key, input_handle_key};
use vstd::prelude::*;
use vstd::string::StringExecFns;

verus! {

/// A task that the caller is to run now. When it has ended, the popup is
/// to be closed if `close_popup` is set, and to stay with the outcome
/// otherwise.
#[derive(Clone, Copy, PartialEq, Eq, Debug, Structural)]
pub struct TaskRequest {
    pub task: Task,
    pub close_popup: bool,
}

/// How a task ended, as text: its success message or the reason of its
/// failure.
pub open spec fn outcome_text(outcome: Result<String, String>) -> Result<Seq<char>, Seq<char>> {
    match outcome {
        Ok(message) => Ok(message@),
        Err(reason) => Err(reason@),
    }
}

/// The key moves the selection back.
pub open spec fn is_up(code: KeyCode) -> bool {
    code == KeyCode::Up || code == KeyCode::Char('k')
}

/// The key moves the selection forward.
pub open spec fn is_down(code: KeyCode) -> bool {
    code == KeyCode::Down || code == KeyCode::Char('j')
}

/// A menu after a key: the selection moves on an up or a down key and
/// stays on every other.
pub open spec fn menu_after<T>(list: ListModel<T>, code: KeyCode) -> ListModel<T> {
    if is_up(code) {
        list.previous()
    } else if is_down(code) {
        list.next()
    } else {
        list
    }
}

/// The action that a key asks of a menu: that of the selected entry on the
/// confirm key, none on every other key and on an empty menu.
pub open spec fn menu_action(list: ListModel<MenuItem<'_>>, code: KeyCode) -> Option<Action> {
    if code == KeyCode::Enter {
        match list.selected_item() {
            Some(item) => Some(item.action),
            None => None,
        }
    } else {
        None
    }
}

impl<'a> AppModel<'a> {
    /// The session once `action` is applied, up to the start of its task if
    /// it has one. Quitting raises the quit flag and changes nothing else.
    /// Showing a view closes whatever popup there is and clears its text.
    /// Running a task puts up the action popup with a "working" message.
    pub open spec fn execute(self, action: Action) -> Self {
        match action {
            Action::Quit => AppModel { should_quit: true, ..self },
            Action::SetView(view) => AppModel {
                current_view: view,
                active_popup: Popup::Closed,
                popup_title: Seq::empty(),
                popup_text: Seq::empty(),
                ..self
            },
            Action::Execute(_) => AppModel {
                active_popup: Popup::Action,
                popup_title: "Working..."@,
                popup_text: "Please wait while the task completes."@,
                ..self
            },
        }
    }

    /// The session once the task of `request` has ended with `outcome`: the
    /// popup text becomes the success message or the failure text, and the
    /// popup is closed if the request says so. Nothing else changes, so a
    /// failed task leaves the session as usable as a successful one.
    pub open spec fn complete(
        self,
        request: TaskRequest,
        outcome: Result<Seq<char>, Seq<char>>,
    ) -> Self {
        let shown = match outcome {
            Ok(message) => AppModel { popup_title: "Success"@, popup_text: message, ..self },
            Err(reason) => AppModel {
                popup_title: "Error"@,
                popup_text: "An error occurred: "@ + reason,
                ..self
            },
        };
        if request.close_popup {
            AppModel { active_popup: Popup::Closed, ..shown }
        } else {
            shown
        }
    }

    /// The session once the pending action of a popup is taken and applied.
    /// The popup closes at once unless the action runs a task: then the
    /// action popup stays until the task has ended.
    pub open spec fn accept_pending(self) -> Self {
        match self.popup_action {
            Some(action) => {
                let applied = (AppModel { popup_action: None, ..self }).execute(action);
                if action is Execute {
                    applied
                } else {
                    AppModel { active_popup: Popup::Closed, ..applied }
                }
            },
            None => AppModel { active_popup: Popup::Closed, ..self },
        }
    }

    /// The task that accepting the pending action starts, if any.
    pub open spec fn pending_request(self) -> Option<TaskRequest> {
        match self.popup_action {
            Some(Action::Execute(task)) => Some(TaskRequest { task, close_popup: true }),
            _ => None,
        }
    }

    /// The session with the popup closed.
    pub open spec fn dismiss(self) -> Self {
        AppModel { active_popup: Popup::Closed, ..self }
    }

    /// The session with the popup closed and its pending action dropped.
    pub open spec fn discard_pending(self) -> Self {
        AppModel { active_popup: Popup::Closed, popup_action: None, ..self }
    }

    /// The key accepts what the popup proposes.
    pub open spec fn accepts(self, code: KeyCode) -> bool {
        match self.active_popup {
            Popup::Confirm => code == KeyCode::Char('y') || code == KeyCode::Char('Y'),
            Popup::Input | Popup::Select => code == KeyCode::Enter,
            _ => false,
        }
    }

    /// The key goes to the text editor of an input popup.
    pub open spec fn edits(self, key: Key) -> bool {
        self.active_popup == Popup::Input && key.code != KeyCode::Enter && key.code
            != KeyCode::Esc
    }

    /// The session after a key that went to the popup.
    pub open spec fn popup_key(self, key: Key) -> Self {
        match self.active_popup {
            Popup::Closed => self,
            Popup::Help | Popup::Action => self.dismiss(),
            Popup::Confirm => {
                if self.accepts(key.code) {
                    self.accept_pending()
                } else if key.code == KeyCode::Char('n') || key.code == KeyCode::Char('N')
                    || key.code == KeyCode::Esc {
                    self.discard_pending()
                } else {
                    self
                }
            },
            Popup::Input => {
                if self.accepts(key.code) {
                    self.accept_pending()
                } else if key.code == KeyCode::Esc {
                    self.dismiss()
                } else {
                    AppModel { popup_input: input_after_key(self.popup_input, key), ..self }
                }
            },
            Popup::Select => {
                if self.accepts(key.code) {
                    self.accept_pending()
                } else if key.code == KeyCode::Esc {
                    self.dismiss()
                } else {
                    AppModel { popup_list: menu_after(self.popup_list, key.code), ..self }
                }
            },
        }
    }

    /// The task that a key that went to the popup starts, if any.
    pub open spec fn popup_request(self, key: Key) -> Option<TaskRequest> {
        if self.accepts(key.code) {
            self.pending_request()
        } else {
            None
        }
    }

    /// The action that a key asks of the active view, if any.
    pub open spec fn view_action(self, key: Key) -> Option<Action> {
        match self.active_menu() {
            Some(menu) => menu_action(menu, key.code),
            None => None,
        }
    }

    /// The session after a key that went to the active view. In a menu the
    /// key moves the selection or applies the selected entry's action, and
    /// the back key leads from every view but the main menu to the main
    /// menu. The help manual is left by the back key and by `q`.
    pub open spec fn view_key(self, key: Key) -> Self {
        match self.active_menu() {
            Some(menu) => match menu_action(menu, key.code) {
                Some(action) => self.execute(action),
                None => {
                    let moved = self.with_active_menu(menu_after(menu, key.code));
                    if key.code == KeyCode::Esc && self.current_view != AppView::MainMenu {
                        AppModel { current_view: AppView::MainMenu, ..moved }
                    } else {
                        moved
                    }
                },
            },
            None => {
                if key.code == KeyCode::Char('q') || key.code == KeyCode::Esc {
                    AppModel { current_view: AppView::MainMenu, ..self }
                } else {
                    self
                }
            },
        }
    }

    /// The session after a key press.
    pub open spec fn key_event(self, key: Key) -> Self {
        if self.active_popup != Popup::Closed {
            self.popup_key(key)
        } else if key.code == KeyCode::Char('?') {
            AppModel { active_popup: Popup::Help, ..self }
        } else {
            self.view_key(key)
        }
    }

    /// The task that a key press starts, if any.
    pub open spec fn key_request(self, key: Key) -> Option<TaskRequest> {
        if self.active_popup != Popup::Closed {
            self.popup_request(key)
        } else if key.code == KeyCode::Char('?') {
            None
        } else {
            match self.view_action(key) {
                Some(Action::Execute(task)) => Some(TaskRequest { task, close_popup: false }),
                _ => None,
            }
        }
    }
}

/// Applies `action` to the session, up to the start of its task if it has
/// one, and hands that task back.
pub fn execute_action(app: &mut App<'_>, action: Action) -> (task: Option<Task>)
    ensures
        final(app)@ == old(app)@.execute(action),
        task == match action {
            Action::Execute(task) => Some(task),
            _ => None,
        },
{
    match action {
        Action::Quit => {
            app.should_quit = true;
            None
        },
        Action::SetView(view) => {
            app.current_view = view;
            app.active_popup = Popup::Closed;
            app.popup_title = String::new();
            app.popup_text = String::new();
            None
        },
        Action::Execute(task) => {
            app.popup_title = String::from_str("Working...");
            app.popup_text = String::from_str("Please wait while the task completes.");
            app.active_popup = Popup::Action;
            Some(task)
        },
    }
}

/// Reports the end of the task of `request` to the session.
pub fn complete_task(app: &mut App<'_>, request: TaskRequest, outcome: Result<String, String>)
    ensures
        final(app)@ == old(app)@.complete(request, outcome_text(outcome)),
{
    match outcome {
        Ok(message) => {
            app.popup_title = String::from_str("Success");
            app.popup_text = message;
        },
        Err(reason) => {
            app.popup_title = String::from_str("Error");
            app.popup_text = String::from_str("An error occurred: ").concat(reason.as_str());
        },
    }
    if request.close_popup {
        app.active_popup = Popup::Closed;
    }
}

/// Lets a menu react to a key: an up or a down key moves the selection, the
/// confirm key hands back the selected entry's action.
pub fn handle_menu_keys<'a>(list: &mut StatefulList<MenuItem<'a>>, code: KeyCode) -> (action:
    Option<Action>)
    ensures
        final(list)@ == menu_after(old(list)@, code),
        action == menu_action(old(list)@, code),
{
    match code {
        KeyCode::Up => list.previous(),
        KeyCode::Down => list.next(),
        KeyCode::Char(c) => {
            if c == 'k' {
                list.previous();
            } else if c == 'j' {
                list.next();
            }
        },
        KeyCode::Enter => {
            if let Some(item) = list.selected_item() {
                return Some(item.action);
            }
        },
        _ => {},
    }
    None
}

fn accept_pending(app: &mut App<'_>) -> (request: Option<TaskRequest>)
    ensures
        final(app)@ == old(app)@.accept_pending(),
        request == old(app)@.pending_request(),
{
    let pending = app.popup_action;
    app.popup_action = None;
    match pending {
        Some(action) => match execute_action(app, action) {
            Some(task) => Some(TaskRequest { task, close_popup: true }),
            None => {
                app.active_popup = Popup::Closed;
                None
            },
        },
        None => {
            app.active_popup = Popup::Closed;
            None
        },
    }
}

/// Lets the popup react to a key.
pub fn handle_popup_keys(app: &mut App<'_>, key: Key) -> (request: Option<TaskRequest>)
    ensures
        final(app)@ == old(app)@.popup_key(key),
        request == old(app)@.popup_request(key),
        old(app)@.edits(key) ==> edited(old(app)@.popup_input, key, final(app)@.popup_input),
{
    match app.active_popup {
        Popup::Help | Popup::Action => {
            app.active_popup = Popup::Closed;
            None
        },
        Popup::Confirm => match key.code {
            KeyCode::Char(c) => {
                if c == 'y' || c == 'Y' {
                    accept_pending(app)
                } else {
                    if c == 'n' || c == 'N' {
                        app.popup_action = None;
                        app.active_popup = Popup::Closed;
                    }
                    None
                }
            },
            KeyCode::Esc => {
                app.popup_action = None;
                app.active_popup = Popup::Closed;
                None
            },
            _ => None,
        },
        Popup::Input => match key.code {
            KeyCode::Enter => accept_pending(app),
            KeyCode::Esc => {
                app.active_popup = Popup::Closed;
                None
            },
            _ => {
                input_handle_key(&mut app.popup_input, key);
                None
            },
        },
        Popup::Select => match key.code {
            KeyCode::Up => {
                app.popup_list.previous();
                None
            },
            KeyCode::Down => {
                app.popup_list.next();
                None
            },
            KeyCode::Char(c) => {
                if c == 'k' {
                    app.popup_list.previous();
                } else if c == 'j' {
                    app.popup_list.next();
                }
                None
            },
            KeyCode::Enter => accept_pending(app),
            KeyCode::Esc => {
                app.active_popup = Popup::Closed;
                None
            },
            _ => None,
        },
        Popup::Closed => None,
    }
}

/// Lets the session react to a key press. Where the key starts a task, the
/// session shows the "working" popup on return, and the caller is to draw
/// it, run the task and call [`complete_task`].
pub fn handle_key_event(app: &mut App<'_>, key: Key) -> (request: Option<TaskRequest>)
    ensures
        final(app)@ == old(app)@.key_event(key),
        request == old(app)@.key_request(key),
        old(app)@.edits(key) ==> edited(old(app)@.popup_input, key, final(app)@.popup_input),
{
    if app.active_popup != Popup::Closed {
        return handle_popup_keys(app, key);
    }
    if key.code == KeyCode::Char('?') {
        app.active_popup = Popup::Help;
        return None;
    }
    let action_to_perform = match app.current_view {
        AppView::MainMenu => handle_menu_keys(&mut app.main_menu, key.code),
        AppView::Replicator => handle_menu_keys(&mut app.replicator_menu, key.code),
        AppView::Cloner => handle_menu_keys(&mut app.cloner_menu, key.code),
        AppView::Utilities => handle_menu_keys(&mut app.utilities_menu, key.code),
        AppView::ManualInstaller => handle_menu_keys(&mut app.manual_install_menu, key.code),
        AppView::HelpManual => {
            if key.code == KeyCode::Char('q') || key.code == KeyCode::Esc {
                app.current_view = AppView::MainMenu;
            }
            None
        },
    };
    match action_to_perform {
        Some(action) => match execute_action(app, action) {
            Some(task) => Some(TaskRequest { task, close_popup: false }),
            None => None,
        },
        None => {
            if key.code == KeyCode::Esc && app.current_view != AppView::MainMenu {
                app.current_view = AppView::MainMenu;
            }
            None
        },
    }
}

impl<'a> AppModel<'a> {
    /// Every menu has the same entries and the same selection in both
    /// sessions.
    pub open spec fn same_menus(self, other: Self) -> bool {
        &&& self.main_menu == other.main_menu
        &&& self.replicator_menu == other.replicator_menu
        &&& self.cloner_menu == other.cloner_menu
        &&& self.utilities_menu == other.utilities_menu
        &&& self.manual_install_menu == other.manual_install_menu
    }
}

/// A key press that opens a popup leaves the active view and the selection
/// of every menu as they were.
pub proof fn lemma_opening_popup_keeps_view(s: AppModel<'_>, key: Key)
    requires
        s.active_popup == Popup::Closed,
        s.key_event(key).active_popup != Popup::Closed,
    ensures
        s.key_event(key).current_view == s.current_view,
        s.key_event(key).same_menus(s),
{
}

/// While a popup is shown, no key moves the selection of any menu, and
/// neither does the end of a task.
pub proof fn lemma_popup_keeps_menus(
    s: AppModel<'_>,
    key: Key,
    request: TaskRequest,
    outcome: Result<Seq<char>, Seq<char>>,
)
    requires
        s.active_popup != Popup::Closed,
    ensures
        s.key_event(key).same_menus(s),
        s.complete(request, outcome).same_menus(s),
        s.complete(request, outcome).current_view == s.current_view,
{
}

/// Any key closes a help popup and an action popup, and changes nothing
/// else.
pub proof fn lemma_any_key_dismisses(s: AppModel<'_>, key: Key)
    requires
        s.active_popup == Popup::Help || s.active_popup == Popup::Action,
    ensures
        s.key_event(key) == s.dismiss(),
        s.key_request(key) is None,
{
}

/// Opening the help popup and closing it with any key gives back the
/// session as it was.
pub proof fn lemma_help_round_trip(s: AppModel<'_>, modifiers: u8, key: Key)
    requires
        s.active_popup == Popup::Closed,
    ensures
        s.key_event(Key { code: KeyCode::Char('?'), modifiers }).active_popup == Popup::Help,
        s.key_event(Key { code: KeyCode::Char('?'), modifiers }).key_event(key) == s,
{
}

/// A task started from a menu shows the action popup from its start until
/// a key is pressed after its end, first with the "working" message and
/// then with its outcome. Whether it succeeds or fails, the key that
/// closes the popup gives back the view and the selections from before,
/// and the session goes on.
pub proof fn lemma_task_round_trip(
    s: AppModel<'_>,
    start: Key,
    outcome: Result<Seq<char>, Seq<char>>,
    key: Key,
)
    requires
        s.active_popup == Popup::Closed,
        s.key_request(start) is Some,
    ensures
        ({
            let request = s.key_request(start)->0;
            let working = s.key_event(start);
            let done = working.complete(request, outcome);
            let closed = done.key_event(key);
            &&& s.view_action(start) == Some(Action::Execute(request.task))
            &&& !request.close_popup
            &&& working == s.execute(Action::Execute(request.task))
            &&& working.active_popup == Popup::Action
            &&& done.active_popup == Popup::Action
            &&& done.popup_text == match outcome {
                Ok(message) => message,
                Err(reason) => "An error occurred: "@ + reason,
            }
            &&& closed.active_popup == Popup::Closed
            &&& closed.current_view == s.current_view
            &&& closed.same_menus(s)
            &&& closed.should_quit == s.should_quit
        }),
{
}

/// Showing a view closes the popup, whatever popup was shown, both when
/// the action is applied directly and when it was pending in a popup.
pub proof fn lemma_set_view_closes_popup(s: AppModel<'_>, view: AppView)
    ensures
        s.execute(Action::SetView(view)).active_popup == Popup::Closed,
        s.execute(Action::SetView(view)).current_view == view,
        s.popup_action == Some(Action::SetView(view)) ==> {
            &&& s.accept_pending().active_popup == Popup::Closed
            &&& s.accept_pending().current_view == view
        },
{
}

/// Turning a pending action down closes the popup, drops the action and
/// starts no task.
pub proof fn lemma_decline_starts_nothing(s: AppModel<'_>, key: Key)
    requires
        s.active_popup == Popup::Confirm,
        key.code == KeyCode::Char('n') || key.code == KeyCode::Char('N') || key.code
            == KeyCode::Esc,
    ensures
        s.key_request(key) is None,
        s.key_event(key) == s.discard_pending(),
        s.key_event(key).popup_action is None,
{
}

/// No transition takes a list out of the state in which it has a selection
/// exactly when it has items.
pub proof fn lemma_transitions_preserve_wf(
    s: AppModel<'_>,
    key: Key,
    action: Action,
    request: TaskRequest,
    outcome: Result<Seq<char>, Seq<char>>,
)
    requires
        s.wf(),
    ensures
        s.key_event(key).wf(),
        s.execute(action).wf(),
        s.complete(request, outcome).wf(),
{
}

} // verus!
