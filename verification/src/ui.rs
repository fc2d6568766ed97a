//! From a session to the widgets that show it.
//!
//! Rendering reads the session and never changes it. It composes a
//! [`Scene`]: the active view first, and on top of it the popup, if one is
//! shown. The caller paints the scene onto its terminal.
//!
//! Where the widgets go is decided by `ratatui`'s layout, whose choice is
//! not predictable in every case. So the functions that ask for a layout
//! say what they draw for some placement within the bounds that every
//! layout keeps, and the functions that draw into given areas say exactly
//! what they draw.

use crate::app::{App, AppModel, AppView, MenuItem, Popup};
use crate::components::stateful_list::{ListModel, StatefulList};
use crate::layout::{placed, shrunk, split, Area, Constraint, Direction};
use crate::text_input::{cursor_column, input_cursor, input_text};
use crate::wrap::{texts, wrap_text, wrapped};
use vstd::prelude::*;
use vstd::string::StringExecFns;

verus! {

/// The banner above the main menu.
pub const ASCII_ART: &'static str = "
    █████╗  ██████╗  ██████╗██╗  ██╗     ███████╗██╗   ██╗██╗████████╗███████╗
   ██╔══██╗██╔════╝ ██╔════╝██║  ██║     ██╔════╝██║   ██║██║╚══██╔══╝██╔════╝
   ███████║██║  ███╗██║     ███████║     ███████╗██║   ██║██║   ██║   ███████╗
   ██╔══██║██║   ██║██║     ██╔══██║     ╚════██║██║   ██║██║   ██║   ╚════██║
   ██║  ██║╚██████╔╝╚██████╗██║  ██║     ███████║╚██████╔╝██║   ██║   ███████║
   ╚═╝  ╚═╝ ╚═════╝  ╚═════╝╚═╝  ╚═╝     ╚══════╝ ╚═════╝ ╚═╝   ╚═╝   ╚══════╝
";

/// The footer of the main menu.
pub const MAIN_STATUS: &'static str =
    "v4.0.0 | 'j'/'k' to navigate | 'Enter' to select | '?' for help | 'q' to quit";

/// The footer of every other menu.
pub const MENU_STATUS: &'static str =
    "'j'/'k' to navigate | 'Enter' to select | '?' for help | 'Esc' to go back";

/// The text of the help manual.
pub const MANUAL_TEXT: &'static str =
    "This is the main help page for Arch System Suite v4.0.0.\n\nIt contains detailed sections on the Replicator, Cloner, and all Utilities, explaining each feature in depth.\n\nPress 'q' or 'Esc' to return to the main menu.";

/// The help shown for the help manual itself.
pub const MANUAL_HELP: &'static str =
    "This is the main help page. Use 'q' or 'Esc' to return to the previous menu.";

/// What a confirm popup adds below its text.
pub const CONFIRM_HINT: &'static str = "\n\n[Y] Yes / [N] No";

/// One widget of a scene and the area it fills.
#[derive(PartialEq, Eq, Debug)]
pub enum Draw {
    /// The banner, centred.
    Banner { area: Area, text: String },
    /// A list with its selected item highlighted, inside a titled border if
    /// it has a title.
    List { area: Area, heading: Option<String>, items: Vec<String>, selected: Option<usize> },
    /// One line of centred text.
    Line { area: Area, text: String },
    /// Running text inside a titled border, wrapped by the terminal.
    Paragraph { area: Area, title: String, text: String },
    /// The cells of the area wiped.
    Clear { area: Area },
    /// A titled border on the popup background around the given lines.
    Panel { area: Area, title: String, lines: Vec<String> },
    /// Text as it stands.
    Text { area: Area, text: String },
    /// The terminal's cursor placed in a cell.
    Cursor { x: u16, y: u16 },
}

/// The mathematical content of a [`Draw`].
pub enum DrawModel {
    Banner { area: Area, text: Seq<char> },
    List { area: Area, heading: Option<Seq<char>>, items: Seq<Seq<char>>, selected: Option<nat> },
    Line { area: Area, text: Seq<char> },
    Paragraph { area: Area, title: Seq<char>, text: Seq<char> },
    Clear { area: Area },
    Panel { area: Area, title: Seq<char>, lines: Seq<Seq<char>> },
    Text { area: Area, text: Seq<char> },
    Cursor { x: u16, y: u16 },
}

impl View for Draw {
    type V = DrawModel;

    open spec fn view(&self) -> DrawModel {
        match *self {
            Draw::Banner { area, text } => DrawModel::Banner { area, text: text@ },
            Draw::List { area, heading, items, selected } => DrawModel::List {
                area,
                heading: match heading {
                    Some(heading) => Some(heading@),
                    None => None,
                },
                items: texts(items@),
                selected: match selected {
                    Some(i) => Some(i as nat),
                    None => None,
                },
            },
            Draw::Line { area, text } => DrawModel::Line { area, text: text@ },
            Draw::Paragraph { area, title, text } => DrawModel::Paragraph {
                area,
                title: title@,
                text: text@,
            },
            Draw::Clear { area } => DrawModel::Clear { area },
            Draw::Panel { area, title, lines } => DrawModel::Panel {
                area,
                title: title@,
                lines: texts(lines@),
            },
            Draw::Text { area, text } => DrawModel::Text { area, text: text@ },
            Draw::Cursor { x, y } => DrawModel::Cursor { x, y },
        }
    }
}

/// The widgets of a frame in the order in which they are painted, and the
/// size of the terminal they are meant for.
pub struct Scene {
    pub size: Area,
    pub ops: Vec<Draw>,
}

/// The mathematical content of a [`Scene`].
pub struct SceneModel {
    pub size: Area,
    pub ops: Seq<DrawModel>,
}

impl SceneModel {
    /// The scene with `ops` painted on top.
    pub open spec fn drawing(self, ops: Seq<DrawModel>) -> Self {
        SceneModel { size: self.size, ops: self.ops + ops }
    }
}

impl View for Scene {
    type V = SceneModel;

    open spec fn view(&self) -> SceneModel {
        SceneModel { size: self.size, ops: self.ops@.map_values(|op: Draw| op@) }
    }
}

impl Scene {
    /// An empty scene for a terminal of the given size.
    pub fn new(size: Area) -> (scene: Scene)
        ensures
            scene@ == (SceneModel { size, ops: Seq::empty() }),
    {
        let scene = Scene { size, ops: Vec::new() };
        assert(scene@.ops =~= Seq::empty());
        scene
    }

    /// Paints one more widget.
    pub fn draw(&mut self, op: Draw)
        ensures
            final(self)@ == old(self)@.drawing(seq![op@]),
    {
        self.ops.push(op);
        assert(self@.ops =~= old(self)@.ops + seq![op@]);
    }
}

/// What a menu shows of an entry.
pub open spec fn label(item: MenuItem<'_>) -> Seq<char> {
    item.icon@ + " "@ + item.text@
}

/// What a menu shows of its entries.
pub open spec fn labels(items: Seq<MenuItem<'_>>) -> Seq<Seq<char>> {
    Seq::new(items.len(), |i: int| label(items[i]))
}

/// The title of the menu of a view.
pub open spec fn menu_title(view: AppView) -> Seq<char> {
    match view {
        AppView::MainMenu => "Main Menu"@,
        AppView::Replicator => "Replicator Menu"@,
        AppView::Cloner => "Cloner Menu"@,
        AppView::Utilities => "Utilities Menu"@,
        AppView::ManualInstaller => "Manual Installer"@,
        AppView::HelpManual => "Help Manual"@,
    }
}

/// What a menu asks of the layout: eight rows for the banner if it is
/// shown, one row for the footer, and for the entries what is left.
pub open spec fn menu_rows(show_art: bool) -> Seq<Constraint> {
    if show_art {
        seq![Constraint::Length(8), Constraint::Min(0), Constraint::Length(1)]
    } else {
        seq![Constraint::Min(0), Constraint::Length(1)]
    }
}

/// What a popup asks of the layout along one side of the frame: `percent`
/// percent in the middle, and half of the rest before and after it.
pub open spec fn centered(percent: u16) -> Seq<Constraint> {
    seq![
        Constraint::Percentage(((100 - percent) / 2) as u16),
        Constraint::Percentage(percent),
        Constraint::Percentage(((100 - percent) / 2) as u16),
    ]
}

/// A menu as drawn: the banner if there is a place for it, the entries
/// with the selected one highlighted, and a footer of key hints.
pub open spec fn menu_scene(
    list: ListModel<MenuItem<'_>>,
    title: Seq<char>,
    banner: Option<Area>,
    body: Area,
    footer: Area,
) -> Seq<DrawModel> {
    let entries = DrawModel::List {
        area: body,
        heading: Some(title),
        items: labels(list.items),
        selected: list.selected,
    };
    match banner {
        Some(area) => seq![
            DrawModel::Banner { area, text: ASCII_ART@ },
            entries,
            DrawModel::Line { area: footer, text: MAIN_STATUS@ },
        ],
        None => seq![entries, DrawModel::Line { area: footer, text: MENU_STATUS@ }],
    }
}

/// The help manual as drawn.
pub open spec fn manual_scene(area: Area) -> Seq<DrawModel> {
    seq![DrawModel::Paragraph { area, title: "Help Manual"@, text: MANUAL_TEXT@ }]
}

/// The width at which the text of a popup is wrapped: what its border and
/// padding leave of its width.
pub open spec fn wrap_width(area: Area) -> nat {
    if area.width >= 4 {
        (area.width - 4) as nat
    } else {
        0
    }
}

/// A text popup as drawn: the area is wiped, then the text is shown in a
/// titled border, wrapped to the width of the popup.
pub open spec fn popup_scene(title: Seq<char>, text: Seq<char>, area: Area) -> Seq<DrawModel> {
    seq![
        DrawModel::Clear { area },
        DrawModel::Panel { area, title, lines: wrapped(text, wrap_width(area)) },
    ]
}

/// The column of the cursor of an input popup: one past the text before
/// it, and no further than the last column there is.
pub open spec fn cursor_x(area: Area, column: nat) -> u16 {
    if area.x + column + 1 <= u16::MAX {
        (area.x + column + 1) as u16
    } else {
        u16::MAX
    }
}

/// The row of the cursor of an input popup: the first row inside the
/// border.
pub open spec fn cursor_y(area: Area) -> u16 {
    if area.y < u16::MAX {
        (area.y + 1) as u16
    } else {
        u16::MAX
    }
}

/// An input popup as drawn: the cursor is placed, the area is wiped, and
/// the text typed so far is shown inside a titled border.
pub open spec fn input_scene(
    title: Seq<char>,
    input: tui_input::Input,
    area: Area,
    inner: Area,
) -> Seq<DrawModel> {
    seq![
        DrawModel::Cursor {
            x: cursor_x(area, cursor_column(input_text(input), input_cursor(input))),
            y: cursor_y(area),
        },
        DrawModel::Clear { area },
        DrawModel::Panel { area, title, lines: Seq::empty() },
        DrawModel::Text { area: inner, text: input_text(input) },
    ]
}

/// A select popup as drawn: the area is wiped, and the choices are listed
/// inside a titled border with the selected one highlighted.
pub open spec fn select_scene(
    title: Seq<char>,
    list: ListModel<String>,
    area: Area,
    inner: Area,
) -> Seq<DrawModel> {
    seq![
        DrawModel::Clear { area },
        DrawModel::Panel { area, title, lines: Seq::empty() },
        DrawModel::List {
            area: inner,
            heading: None,
            items: texts(list.items),
            selected: list.selected,
        },
    ]
}

/// The help for what is selected in the active view.
pub open spec fn help_text(app: AppModel<'_>) -> Seq<char> {
    match app.active_menu() {
        Some(menu) => match menu.selected_item() {
            Some(item) => item.help@,
            None => ""@,
        },
        None => MANUAL_HELP@,
    }
}

/// Where the widgets of a frame go.
pub struct Geometry {
    /// The whole frame.
    pub main: Area,
    /// The banner of the main menu.
    pub banner: Area,
    /// The entries of a menu.
    pub body: Area,
    /// The footer of a menu.
    pub footer: Area,
    /// The popup.
    pub popup: Area,
    /// The inside of the popup's border.
    pub inner: Area,
}

/// A menu laid out in `area`: each of its parts spans `area` two cells in
/// from its left and right edge, and lies between the rows two cells in
/// from its top and bottom.
pub open spec fn menu_fits(area: Area, banner: Option<Area>, body: Area, footer: Area) -> bool {
    &&& banner matches Some(top) ==> placed(Direction::Vertical, shrunk(area, 2), top)
    &&& placed(Direction::Vertical, shrunk(area, 2), body)
    &&& placed(Direction::Vertical, shrunk(area, 2), footer)
}

/// The widgets of the active view are where the layout may put them: the
/// view spans the frame, and a menu is laid out in it.
pub open spec fn view_fits(app: AppModel<'_>, size: Area, at: Geometry) -> bool {
    &&& placed(Direction::Vertical, shrunk(size, 0), at.main)
    &&& app.active_menu() is Some ==> menu_fits(
        at.main,
        if app.current_view == AppView::MainMenu {
            Some(at.banner)
        } else {
            None
        },
        at.body,
        at.footer,
    )
}

/// The popup is where the layout may put it: inside the frame, and what an
/// input or a select popup shows inside its border is one cell in from it.
pub open spec fn overlay_fits(app: AppModel<'_>, size: Area, at: Geometry) -> bool {
    &&& app.active_popup != Popup::Closed ==> at.popup.within(size)
    &&& app.active_popup == Popup::Input || app.active_popup == Popup::Select ==> placed(
        Direction::Vertical,
        shrunk(at.popup, 1),
        at.inner,
    )
}

/// The active view as drawn.
pub open spec fn view_scene(app: AppModel<'_>, at: Geometry) -> Seq<DrawModel> {
    match app.active_menu() {
        Some(menu) => menu_scene(
            menu,
            menu_title(app.current_view),
            if app.current_view == AppView::MainMenu {
                Some(at.banner)
            } else {
                None
            },
            at.body,
            at.footer,
        ),
        None => manual_scene(at.main),
    }
}

/// The popup as drawn. Without a popup nothing is drawn.
pub open spec fn overlay_scene(app: AppModel<'_>, at: Geometry) -> Seq<DrawModel> {
    match app.active_popup {
        Popup::Closed => Seq::empty(),
        Popup::Help => popup_scene("Context Help"@, help_text(app), at.popup),
        Popup::Action => popup_scene(app.popup_title, app.popup_text, at.popup),
        Popup::Confirm => popup_scene(app.popup_title, app.popup_text + CONFIRM_HINT@, at.popup),
        Popup::Input => input_scene(app.popup_title, app.popup_input, at.popup, at.inner),
        Popup::Select => select_scene(app.popup_title, app.popup_list, at.popup, at.inner),
    }
}

/// A session as drawn: the active view, and over it the popup.
pub open spec fn session_scene(app: AppModel<'_>, at: Geometry) -> Seq<DrawModel> {
    view_scene(app, at) + overlay_scene(app, at)
}

fn menu_labels(list: &StatefulList<MenuItem<'_>>) -> (items: Vec<String>)
    ensures
        texts(items@) == labels(list@.items),
{
    let entries = list.items();
    let mut items: Vec<String> = Vec::new();
    let mut i: usize = 0;
    while i < entries.len()
        invariant
            i <= entries.len(),
            items.len() == i,
            forall|j: int| 0 <= j < i ==> items@[j]@ == label(#[trigger] entries@[j]),
        decreases entries.len() - i,
    {
        let entry = &entries[i];
        items.push(String::from_str(entry.icon).concat(" ").concat(entry.text));
        i += 1;
    }
    assert(texts(items@) =~= labels(entries@));
    items
}

fn copies(list: &StatefulList<String>) -> (items: Vec<String>)
    ensures
        texts(items@) == texts(list@.items),
{
    let choices = list.items();
    let mut items: Vec<String> = Vec::new();
    let mut i: usize = 0;
    while i < choices.len()
        invariant
            i <= choices.len(),
            items.len() == i,
            forall|j: int| 0 <= j < i ==> items@[j]@ == #[trigger] choices@[j]@,
        decreases choices.len() - i,
    {
        items.push(choices[i].clone());
        i += 1;
    }
    assert(texts(items@) =~= texts(choices@));
    items
}

/// Draws a menu into the given areas. With a place for the banner the
/// banner is drawn and the footer is that of the main menu.
pub fn draw_menu(
    f: &mut Scene,
    list: &StatefulList<MenuItem<'_>>,
    title: &str,
    banner: Option<Area>,
    body: Area,
    footer: Area,
)
    ensures
        final(f)@ == old(f)@.drawing(menu_scene(list@, title@, banner, body, footer)),
{
    let status = match banner {
        Some(area) => {
            f.draw(Draw::Banner { area, text: String::from_str(ASCII_ART) });
            MAIN_STATUS
        },
        None => MENU_STATUS,
    };
    f.draw(
        Draw::List {
            area: body,
            heading: Some(String::from_str(title)),
            items: menu_labels(list),
            selected: list.selected(),
        },
    );
    f.draw(Draw::Line { area: footer, text: String::from_str(status) });
    assert(f@.ops =~= old(f)@.ops + menu_scene(list@, title@, banner, body, footer));
}

/// The rows that a menu asks of the layout.
pub fn menu_layout(show_art: bool) -> (rows: Vec<Constraint>)
    ensures
        rows@ == menu_rows(show_art),
{
    if show_art {
        vec![Constraint::Length(8), Constraint::Min(0), Constraint::Length(1)]
    } else {
        vec![Constraint::Min(0), Constraint::Length(1)]
    }
}

/// Lays a menu out in `area`, two cells from its edges, and draws it: the
/// banner, if it is shown, at the top, the footer at the bottom, and the
/// entries between them.
pub fn render_menu(
    f: &mut Scene,
    list: &StatefulList<MenuItem<'_>>,
    title: &str,
    area: Area,
    show_art: bool,
)
    ensures
        exists|banner: Option<Area>, body: Area, footer: Area|
            (banner is Some) == show_art && menu_fits(area, banner, body, footer) && final(f)@
                == old(f)@.drawing(#[trigger] menu_scene(list@, title@, banner, body, footer)),
{
    let rows = menu_layout(show_art);
    let chunks = split(Direction::Vertical, 2, &rows, area);
    if show_art {
        draw_menu(f, list, title, Some(chunks[0]), chunks[1], chunks[2]);
    } else {
        draw_menu(f, list, title, None, chunks[0], chunks[1]);
    }
}

/// Draws the help manual into `area`.
pub fn render_help_manual(f: &mut Scene, area: Area)
    ensures
        final(f)@ == old(f)@.drawing(manual_scene(area)),
{
    f.draw(
        Draw::Paragraph {
            area,
            title: String::from_str("Help Manual"),
            text: String::from_str(MANUAL_TEXT),
        },
    );
}

/// The shares that a popup asks of the layout along one side of the frame.
pub fn centered_layout(percent: u16) -> (shares: Vec<Constraint>)
    requires
        percent <= 100,
    ensures
        shares@ == centered(percent),
{
    let beside: u16 = (100 - percent) / 2;
    vec![
        Constraint::Percentage(beside),
        Constraint::Percentage(percent),
        Constraint::Percentage(beside),
    ]
}

/// The area in the middle of `r` that takes `percent_x` percent of its
/// width and `percent_y` percent of its height, as the layout places it:
/// the middle row of `r`, and of that row the middle column. Whatever the
/// layout chooses, the area lies inside `r`.
fn centered_rect(percent_x: u16, percent_y: u16, r: Area) -> (area: Area)
    requires
        percent_x <= 100,
        percent_y <= 100,
    ensures
        area.within(r),
{
    let rows = centered_layout(percent_y);
    let popup_layout = split(Direction::Vertical, 0, &rows, r);
    let row = popup_layout[1];
    assert(placed(Direction::Vertical, shrunk(r, 0), row));
    let columns = centered_layout(percent_x);
    let cells = split(Direction::Horizontal, 0, &columns, row);
    assert(placed(Direction::Horizontal, shrunk(row, 0), cells@[1]));
    cells[1]
}

/// The inside of the border of `area`, as the layout places it: one cell
/// in from the left and the right edge of `area`, and between the rows one
/// cell in from its top and its bottom. An area too small for a border has
/// the empty area at the origin as its inside.
fn inner_area(area: Area) -> (inner: Area)
    ensures
        placed(Direction::Vertical, shrunk(area, 1), inner),
{
    let all = vec![Constraint::Min(0)];
    let parts = split(Direction::Vertical, 1, &all, area);
    parts[0]
}

/// Draws a text popup into `area`. The text is wrapped anew on every call,
/// to the width that the border and padding leave of the area.
pub fn draw_popup(f: &mut Scene, title: &str, text: &str, area: Area)
    ensures
        final(f)@ == old(f)@.drawing(popup_scene(title@, text@, area)),
{
    let width: usize = if area.width >= 4 { (area.width - 4) as usize } else { 0 };
    let lines = wrap_text(text, width);
    f.draw(Draw::Clear { area });
    f.draw(Draw::Panel { area, title: String::from_str(title), lines });
    assert(f@.ops =~= old(f)@.ops + popup_scene(title@, text@, area));
}

/// Draws a text popup in the middle of the frame, as wide and as high as
/// the given shares of the frame.
fn render_popup(f: &mut Scene, title: &str, text: &str, width_percent: u16, height_percent: u16)
    requires
        width_percent <= 100,
        height_percent <= 100,
    ensures
        exists|area: Area|
            area.within(old(f)@.size) && final(f)@ == old(f)@.drawing(
                #[trigger] popup_scene(title@, text@, area),
            ),
{
    let area = centered_rect(width_percent, height_percent, f.size);
    draw_popup(f, title, text, area);
}

/// The help for what is selected in the active view.
pub fn selected_help<'a>(app: &App<'a>) -> (text: &'a str)
    ensures
        text@ == help_text(app@),
{
    let menu = match app.current_view {
        AppView::MainMenu => &app.main_menu,
        AppView::Replicator => &app.replicator_menu,
        AppView::Cloner => &app.cloner_menu,
        AppView::Utilities => &app.utilities_menu,
        AppView::ManualInstaller => &app.manual_install_menu,
        AppView::HelpManual => {
            return MANUAL_HELP;
        },
    };
    match menu.selected_item() {
        Some(item) => item.help,
        None => "",
    }
}

/// Draws an input popup into `area`, with its text in `inner`.
pub fn draw_input_popup(f: &mut Scene, app: &App<'_>, area: Area, inner: Area)
    ensures
        final(f)@ == old(f)@.drawing(input_scene(app@.popup_title, app@.popup_input, area, inner)),
{
    let column: usize = app.popup_input.visual_cursor();
    let x: u16 = if column < (u16::MAX - area.x) as usize {
        area.x + column as u16 + 1
    } else {
        u16::MAX
    };
    let y: u16 = if area.y < u16::MAX { area.y + 1 } else { u16::MAX };
    f.draw(Draw::Cursor { x, y });
    f.draw(Draw::Clear { area });
    let lines: Vec<String> = Vec::new();
    assert(texts(lines@) =~= Seq::empty());
    f.draw(Draw::Panel { area, title: app.popup_title.clone(), lines });
    f.draw(Draw::Text { area: inner, text: String::from_str(app.popup_input.value()) });
    assert(f@.ops =~= old(f)@.ops + input_scene(
        app@.popup_title,
        app@.popup_input,
        area,
        inner,
    ));
}

/// Draws a select popup into `area`, with its choices in `inner`.
pub fn draw_select_popup(f: &mut Scene, app: &App<'_>, area: Area, inner: Area)
    ensures
        final(f)@ == old(f)@.drawing(select_scene(app@.popup_title, app@.popup_list, area, inner)),
{
    f.draw(Draw::Clear { area });
    let lines: Vec<String> = Vec::new();
    assert(texts(lines@) =~= Seq::empty());
    f.draw(Draw::Panel { area, title: app.popup_title.clone(), lines });
    f.draw(
        Draw::List {
            area: inner,
            heading: None,
            items: copies(&app.popup_list),
            selected: app.popup_list.selected(),
        },
    );
    assert(f@.ops =~= old(f)@.ops + select_scene(
        app@.popup_title,
        app@.popup_list,
        area,
        inner,
    ));
}

/// Draws the help popup: the help of the selected entry of the active
/// view, in the middle of the frame.
fn render_help_popup(f: &mut Scene, app: &App<'_>)
    ensures
        exists|area: Area|
            area.within(old(f)@.size) && final(f)@ == old(f)@.drawing(
                #[trigger] popup_scene("Context Help"@, help_text(app@), area),
            ),
{
    render_popup(f, "Context Help", selected_help(app), 60, 40);
}

/// Draws the action popup: the popup title and text of the session.
fn render_action_popup(f: &mut Scene, app: &App<'_>)
    ensures
        exists|area: Area|
            area.within(old(f)@.size) && final(f)@ == old(f)@.drawing(
                #[trigger] popup_scene(app@.popup_title, app@.popup_text, area),
            ),
{
    let title = app.popup_title.as_str();
    let text = app.popup_text.as_str();
    render_popup(f, title, text, 80, 50);
    proof {
        let area = choose|area: Area|
            area.within(old(f)@.size) && f@ == old(f)@.drawing(
                #[trigger] popup_scene(title@, text@, area),
            );
        assert(f@ == old(f)@.drawing(popup_scene(app@.popup_title, app@.popup_text, area)));
    }
}

/// Draws the confirm popup: the popup text of the session with the hint
/// for the two answers below it.
fn render_confirm_popup(f: &mut Scene, app: &App<'_>)
    ensures
        exists|area: Area|
            area.within(old(f)@.size) && final(f)@ == old(f)@.drawing(
                #[trigger] popup_scene(app@.popup_title, app@.popup_text + CONFIRM_HINT@, area),
            ),
{
    let title = app.popup_title.as_str();
    let text = app.popup_text.clone().concat(CONFIRM_HINT);
    render_popup(f, title, text.as_str(), 60, 25);
    proof {
        let area = choose|area: Area|
            area.within(old(f)@.size) && f@ == old(f)@.drawing(
                #[trigger] popup_scene(title@, text@, area),
            );
        assert(f@ == old(f)@.drawing(
            popup_scene(app@.popup_title, app@.popup_text + CONFIRM_HINT@, area),
        ));
    }
}

/// Draws the input popup in the middle of the frame.
fn render_input_popup(f: &mut Scene, app: &App<'_>)
    ensures
        exists|area: Area, inner: Area|
            area.within(old(f)@.size) && placed(Direction::Vertical, shrunk(area, 1), inner)
                && final(f)@ == old(f)@.drawing(
                #[trigger] input_scene(app@.popup_title, app@.popup_input, area, inner),
            ),
{
    let area = centered_rect(60, 20, f.size);
    let inner = inner_area(area);
    draw_input_popup(f, app, area, inner);
}

/// Draws the select popup in the middle of the frame.
fn render_select_popup(f: &mut Scene, app: &App<'_>)
    ensures
        exists|area: Area, inner: Area|
            area.within(old(f)@.size) && placed(Direction::Vertical, shrunk(area, 1), inner)
                && final(f)@ == old(f)@.drawing(
                #[trigger] select_scene(app@.popup_title, app@.popup_list, area, inner),
            ),
{
    let area = centered_rect(80, 70, f.size);
    let inner = inner_area(area);
    draw_select_popup(f, app, area, inner);
}

/// Draws the popup of the session, if one is shown.
fn render_overlay(f: &mut Scene, app: &App<'_>)
    ensures
        exists|at: Geometry|
            overlay_fits(app@, old(f)@.size, at) && final(f)@ == old(f)@.drawing(
                #[trigger] overlay_scene(app@, at),
            ),
{
    let ghost before = f@;
    let ghost mut at: Geometry = arbitrary();
    match app.active_popup {
        Popup::Closed => {
            assert(f@.ops =~= before.ops + overlay_scene(app@, at));
        },
        Popup::Help => {
            render_help_popup(f, app);
            proof {
                let area = choose|area: Area|
                    area.within(before.size) && f@ == before.drawing(
                        #[trigger] popup_scene("Context Help"@, help_text(app@), area),
                    );
                at = Geometry { popup: area, ..at };
            }
        },
        Popup::Action => {
            render_action_popup(f, app);
            proof {
                let area = choose|area: Area|
                    area.within(before.size) && f@ == before.drawing(
                        #[trigger] popup_scene(app@.popup_title, app@.popup_text, area),
                    );
                at = Geometry { popup: area, ..at };
            }
        },
        Popup::Confirm => {
            render_confirm_popup(f, app);
            proof {
                let area = choose|area: Area|
                    area.within(before.size) && f@ == before.drawing(
                        #[trigger] popup_scene(
                            app@.popup_title,
                            app@.popup_text + CONFIRM_HINT@,
                            area,
                        ),
                    );
                at = Geometry { popup: area, ..at };
            }
        },
        Popup::Input => {
            render_input_popup(f, app);
            proof {
                let (area, inner) = choose|area: Area, inner: Area|
                    area.within(before.size) && placed(
                        Direction::Vertical,
                        shrunk(area, 1),
                        inner,
                    ) && f@ == before.drawing(
                        #[trigger] input_scene(app@.popup_title, app@.popup_input, area, inner),
                    );
                at = Geometry { popup: area, inner, ..at };
            }
        },
        Popup::Select => {
            render_select_popup(f, app);
            proof {
                let (area, inner) = choose|area: Area, inner: Area|
                    area.within(before.size) && placed(
                        Direction::Vertical,
                        shrunk(area, 1),
                        inner,
                    ) && f@ == before.drawing(
                        #[trigger] select_scene(app@.popup_title, app@.popup_list, area, inner),
                    );
                at = Geometry { popup: area, inner, ..at };
            }
        },
    }
    assert(overlay_fits(app@, before.size, at));
    assert(f@ == before.drawing(overlay_scene(app@, at)));
}

/// Draws the active view of the session into `area`.
fn render_view(f: &mut Scene, app: &App<'_>, area: Area)
    ensures
        exists|at: Geometry|
            at.main == area && (app@.active_menu() is Some ==> menu_fits(
                area,
                if app@.current_view == AppView::MainMenu {
                    Some(at.banner)
                } else {
                    None
                },
                at.body,
                at.footer,
            )) && final(f)@ == old(f)@.drawing(#[trigger] view_scene(app@, at)),
{
    let ghost before = f@;
    let ghost base = Geometry { main: area, ..arbitrary::<Geometry>() };
    match app.current_view {
        AppView::MainMenu => render_menu(f, &app.main_menu, "Main Menu", area, true),
        AppView::Replicator => render_menu(f, &app.replicator_menu, "Replicator Menu", area, false),
        AppView::Cloner => render_menu(f, &app.cloner_menu, "Cloner Menu", area, false),
        AppView::Utilities => render_menu(f, &app.utilities_menu, "Utilities Menu", area, false),
        AppView::ManualInstaller => render_menu(
            f,
            &app.manual_install_menu,
            "Manual Installer",
            area,
            false,
        ),
        AppView::HelpManual => {
            render_help_manual(f, area);
            assert(f@ == before.drawing(view_scene(app@, base)));
            return ;
        },
    }
    proof {
        let menu = app@.active_menu()->0;
        let title = menu_title(app@.current_view);
        let show_art = app@.current_view == AppView::MainMenu;
        let (banner, body, footer) = choose|banner: Option<Area>, body: Area, footer: Area|
            (banner is Some) == show_art && menu_fits(area, banner, body, footer) && f@
                == before.drawing(#[trigger] menu_scene(menu, title, banner, body, footer));
        let at = Geometry {
            banner: if show_art { banner->0 } else { base.banner },
            body,
            footer,
            ..base
        };
        assert(f@ == before.drawing(view_scene(app@, at)));
    }
}

/// Draws the session: the active view over the whole frame, then the
/// popup, if one is shown, in the middle of it. The session is only read.
pub fn ui(f: &mut Scene, app: &App<'_>)
    ensures
        exists|at: Geometry|
            view_fits(app@, old(f)@.size, at) && overlay_fits(app@, old(f)@.size, at) && final(f)@
                == old(f)@.drawing(#[trigger] session_scene(app@, at)),
{
    let ghost before = f@;
    let whole = vec![Constraint::Percentage(100)];
    let main_layout = split(Direction::Vertical, 0, &whole, f.size);
    render_view(f, app, main_layout[0]);
    let ghost under = f@;
    render_overlay(f, app);
    proof {
        let view_at = choose|at: Geometry|
            at.main == main_layout[0] && (app@.active_menu() is Some ==> menu_fits(
                main_layout[0],
                if app@.current_view == AppView::MainMenu {
                    Some(at.banner)
                } else {
                    None
                },
                at.body,
                at.footer,
            )) && under == before.drawing(#[trigger] view_scene(app@, at));
        let over_at = choose|at: Geometry|
            overlay_fits(app@, under.size, at) && f@ == under.drawing(
                #[trigger] overlay_scene(app@, at),
            );
        let at = Geometry { popup: over_at.popup, inner: over_at.inner, ..view_at };
        assert(placed(Direction::Vertical, shrunk(before.size, 0), main_layout[0]));
        assert(view_fits(app@, before.size, at));
        assert(overlay_fits(app@, before.size, at));
        assert(view_scene(app@, at) == view_scene(app@, view_at));
        assert(overlay_scene(app@, at) == overlay_scene(app@, over_at));
        assert(f@.ops =~= before.ops + session_scene(app@, at));
    }
}

} // verus!
