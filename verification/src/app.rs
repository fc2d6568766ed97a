//! The state of a session and the catalog of its menus.

use crate::actions::{Action, Task};
use crate::components::stateful_list::{ListModel, StatefulList};
use crate::text_input::{input_cursor, input_text};
use vstd::prelude::*;

verus! {

/// The primary screens. Exactly one is active at a time.
#[derive(Clone, Copy, PartialEq, Eq, Debug, Structural)]
pub enum AppView {
    MainMenu,
    HelpManual,
    Replicator,
    Cloner,
    Utilities,
    ManualInstaller,
}

/// The overlay drawn on top of the active view. While one is shown it
/// receives every key.
#[derive(Clone, Copy, PartialEq, Eq, Debug, Structural)]
pub enum Popup {
    Closed,
    Help,
    Action,
    Confirm,
    Input,
    Select,
}

/// One entry of a menu.
pub struct MenuItem<'a> {
    pub icon: &'a str,
    pub text: &'a str,
    pub help: &'a str,
    pub action: Action,
}

/// The whole state of a session.
pub struct App<'a> {
    pub current_view: AppView,
    pub active_popup: Popup,
    pub should_quit: bool,
    pub main_menu: StatefulList<MenuItem<'a>>,
    pub replicator_menu: StatefulList<MenuItem<'a>>,
    pub cloner_menu: StatefulList<MenuItem<'a>>,
    pub utilities_menu: StatefulList<MenuItem<'a>>,
    pub manual_install_menu: StatefulList<MenuItem<'a>>,
    pub popup_title: String,
    pub popup_text: String,
    pub popup_list: StatefulList<String>,
    pub popup_input: tui_input::Input,
    pub popup_action: Option<Action>,
}

/// The mathematical content of an [`App`].
pub struct AppModel<'a> {
    pub current_view: AppView,
    pub active_popup: Popup,
    pub should_quit: bool,
    pub main_menu: ListModel<MenuItem<'a>>,
    pub replicator_menu: ListModel<MenuItem<'a>>,
    pub cloner_menu: ListModel<MenuItem<'a>>,
    pub utilities_menu: ListModel<MenuItem<'a>>,
    pub manual_install_menu: ListModel<MenuItem<'a>>,
    pub popup_title: Seq<char>,
    pub popup_text: Seq<char>,
    pub popup_list: ListModel<String>,
    pub popup_input: tui_input::Input,
    pub popup_action: Option<Action>,
}

impl<'a> View for App<'a> {
    type V = AppModel<'a>;

    open spec fn view(&self) -> AppModel<'a> {
        AppModel {
            current_view: self.current_view,
            active_popup: self.active_popup,
            should_quit: self.should_quit,
            main_menu: self.main_menu@,
            replicator_menu: self.replicator_menu@,
            cloner_menu: self.cloner_menu@,
            utilities_menu: self.utilities_menu@,
            manual_install_menu: self.manual_install_menu@,
            popup_title: self.popup_title@,
            popup_text: self.popup_text@,
            popup_list: self.popup_list@,
            popup_input: self.popup_input,
            popup_action: self.popup_action,
        }
    }
}

/// The entries of the main menu.
pub open spec fn main_menu_catalog() -> Seq<MenuItem<'static>> {
    seq![
        MenuItem {
            icon: "[R]",
            text: "Replicator (Recommended)",
            help: "Captures the 'recipe' of your system to perform a clean, fresh installation on new hardware.",
            action: Action::SetView(AppView::Replicator),
        },
        MenuItem {
            icon: "[C]",
            text: "Cloner (Advanced)",
            help: "Creates a direct, 1:1 bootable ISO image of your current system. Best for backups or identical hardware.",
            action: Action::SetView(AppView::Cloner),
        },
        MenuItem {
            icon: "[U]",
            text: "Utilities & Manual Tools",
            help: "Essential tools for system maintenance, including a hardware inspector, USB flasher, and manual installation steps.",
            action: Action::SetView(AppView::Utilities),
        },
        MenuItem {
            icon: "[H]",
            text: "Main Help",
            help: "Displays the main, scrollable help manual for the entire application.",
            action: Action::SetView(AppView::HelpManual),
        },
        MenuItem {
            icon: "[Q]",
            text: "Quit",
            help: "Exits the Arch System Suite application.",
            action: Action::Quit,
        },
    ]
}

/// The entries of the replicator menu.
pub open spec fn replicator_catalog() -> Seq<MenuItem<'static>> {
    seq![
        MenuItem {
            icon: "[S]",
            text: "Create System Snapshot",
            help: "Gathers package lists, /etc configs, and dotfiles into a single snapshot file.",
            action: Action::Execute(Task::CreateSnapshot),
        },
        MenuItem {
            icon: "[D]",
            text: "Deploy from Snapshot",
            help: "Performs a fresh Arch install and applies a snapshot file to replicate a system.",
            action: Action::Execute(Task::DeploySnapshot),
        },
    ]
}

/// The entries of the cloner menu.
pub open spec fn cloner_catalog() -> Seq<MenuItem<'static>> {
    seq![
        MenuItem {
            icon: "[I]",
            text: "Create Bootable ISO",
            help: "Creates a bootable .iso file from the current system state using 'archiso'.",
            action: Action::Execute(Task::CreateIso),
        },
    ]
}

/// The entries of the utilities menu.
pub open spec fn utilities_catalog() -> Seq<MenuItem<'static>> {
    seq![
        MenuItem {
            icon: "[H]",
            text: "System Inspector & Prep",
            help: "Detects CPU/GPU and prepares a list of recommended drivers for installation.",
            action: Action::Execute(Task::InspectSystem),
        },
        MenuItem {
            icon: "[F]",
            text: "Flash ISO to USB",
            help: "A safe wrapper around 'dd' to burn any .iso file to a USB drive.",
            action: Action::Execute(Task::FlashIso),
        },
        MenuItem {
            icon: "[M]",
            text: "Manual Install Tools",
            help: "A step-by-step interface for advanced users to partition, format, and install.",
            action: Action::SetView(AppView::ManualInstaller),
        },
    ]
}

/// The entries of the manual installer menu.
pub open spec fn manual_install_catalog() -> Seq<MenuItem<'static>> {
    seq![
        MenuItem {
            icon: "[1]",
            text: "Wipe Disk",
            help: "Completely erases all data and partition tables from a selected disk.",
            action: Action::Execute(Task::ManualWipeDisk),
        },
        MenuItem {
            icon: "[2]",
            text: "Partition Disk",
            help: "Creates a simple EFI + Root partition layout on a selected disk.",
            action: Action::Execute(Task::ManualPartitionDisk),
        },
        MenuItem {
            icon: "[3]",
            text: "Format Partitions",
            help: "Formats the partitions created in the previous step (fat32 for EFI, ext4 for Root).",
            action: Action::Execute(Task::ManualFormatPartitions),
        },
        MenuItem {
            icon: "[4]",
            text: "Mount Partitions",
            help: "Mounts the root and EFI partitions to /mnt and /mnt/boot/efi.",
            action: Action::Execute(Task::ManualMountPartitions),
        },
        MenuItem {
            icon: "[5]",
            text: "Install Base System",
            help: "Runs 'pacstrap' to install the base Arch Linux system to /mnt.",
            action: Action::Execute(Task::ManualPacstrap),
        },
        MenuItem {
            icon: "[6]",
            text: "Setup Bootloader",
            help: "Runs 'arch-chroot' to install and configure the GRUB bootloader.",
            action: Action::Execute(Task::ManualChrootGrub),
        },
    ]
}

impl<'a> AppModel<'a> {
    /// The state in which every session starts: the main menu with no
    /// popup, every menu on its first entry, and nothing pending.
    pub open spec fn is_initial(self) -> bool {
        &&& self.current_view == AppView::MainMenu
        &&& self.active_popup == Popup::Closed
        &&& !self.should_quit
        &&& self.main_menu == ListModel::with_items(main_menu_catalog())
        &&& self.replicator_menu == ListModel::with_items(replicator_catalog())
        &&& self.cloner_menu == ListModel::with_items(cloner_catalog())
        &&& self.utilities_menu == ListModel::with_items(utilities_catalog())
        &&& self.manual_install_menu == ListModel::with_items(manual_install_catalog())
        &&& self.popup_title == Seq::<char>::empty()
        &&& self.popup_text == Seq::<char>::empty()
        &&& self.popup_list == ListModel::<String>::with_items(Seq::empty())
        &&& input_text(self.popup_input) == Seq::<char>::empty()
        &&& input_cursor(self.popup_input) == 0
        &&& self.popup_action is None
    }

    /// The menu of the active view. The help manual has none.
    pub open spec fn active_menu(self) -> Option<ListModel<MenuItem<'a>>> {
        match self.current_view {
            AppView::MainMenu => Some(self.main_menu),
            AppView::Replicator => Some(self.replicator_menu),
            AppView::Cloner => Some(self.cloner_menu),
            AppView::Utilities => Some(self.utilities_menu),
            AppView::ManualInstaller => Some(self.manual_install_menu),
            AppView::HelpManual => None,
        }
    }

    /// The session with `menu` in the place of the active view's menu.
    pub open spec fn with_active_menu(self, menu: ListModel<MenuItem<'a>>) -> Self {
        match self.current_view {
            AppView::MainMenu => AppModel { main_menu: menu, ..self },
            AppView::Replicator => AppModel { replicator_menu: menu, ..self },
            AppView::Cloner => AppModel { cloner_menu: menu, ..self },
            AppView::Utilities => AppModel { utilities_menu: menu, ..self },
            AppView::ManualInstaller => AppModel { manual_install_menu: menu, ..self },
            AppView::HelpManual => self,
        }
    }

    /// Every list of the session has a selection exactly when it has items.
    pub open spec fn wf(self) -> bool {
        &&& self.main_menu.wf()
        &&& self.replicator_menu.wf()
        &&& self.cloner_menu.wf()
        &&& self.utilities_menu.wf()
        &&& self.manual_install_menu.wf()
        &&& self.popup_list.wf()
    }
}

fn main_menu_items() -> (items: Vec<MenuItem<'static>>)
    ensures
        items@ == main_menu_catalog(),
{
    let items = vec![
        MenuItem {
            icon: "[R]",
            text: "Replicator (Recommended)",
            help: "Captures the 'recipe' of your system to perform a clean, fresh installation on new hardware.",
            action: Action::SetView(AppView::Replicator),
        },
        MenuItem {
            icon: "[C]",
            text: "Cloner (Advanced)",
            help: "Creates a direct, 1:1 bootable ISO image of your current system. Best for backups or identical hardware.",
            action: Action::SetView(AppView::Cloner),
        },
        MenuItem {
            icon: "[U]",
            text: "Utilities & Manual Tools",
            help: "Essential tools for system maintenance, including a hardware inspector, USB flasher, and manual installation steps.",
            action: Action::SetView(AppView::Utilities),
        },
        MenuItem {
            icon: "[H]",
            text: "Main Help",
            help: "Displays the main, scrollable help manual for the entire application.",
            action: Action::SetView(AppView::HelpManual),
        },
        MenuItem {
            icon: "[Q]",
            text: "Quit",
            help: "Exits the Arch System Suite application.",
            action: Action::Quit,
        },
    ];
    assert(items@ =~= main_menu_catalog());
    items
}

fn replicator_items() -> (items: Vec<MenuItem<'static>>)
    ensures
        items@ == replicator_catalog(),
{
    let items = vec![
        MenuItem {
            icon: "[S]",
            text: "Create System Snapshot",
            help: "Gathers package lists, /etc configs, and dotfiles into a single snapshot file.",
            action: Action::Execute(Task::CreateSnapshot),
        },
        MenuItem {
            icon: "[D]",
            text: "Deploy from Snapshot",
            help: "Performs a fresh Arch install and applies a snapshot file to replicate a system.",
            action: Action::Execute(Task::DeploySnapshot),
        },
    ];
    assert(items@ =~= replicator_catalog());
    items
}

fn cloner_items() -> (items: Vec<MenuItem<'static>>)
    ensures
        items@ == cloner_catalog(),
{
    let items = vec![
        MenuItem {
            icon: "[I]",
            text: "Create Bootable ISO",
            help: "Creates a bootable .iso file from the current system state using 'archiso'.",
            action: Action::Execute(Task::CreateIso),
        },
    ];
    assert(items@ =~= cloner_catalog());
    items
}

fn utilities_items() -> (items: Vec<MenuItem<'static>>)
    ensures
        items@ == utilities_catalog(),
{
    let items = vec![
        MenuItem {
            icon: "[H]",
            text: "System Inspector & Prep",
            help: "Detects CPU/GPU and prepares a list of recommended drivers for installation.",
            action: Action::Execute(Task::InspectSystem),
        },
        MenuItem {
            icon: "[F]",
            text: "Flash ISO to USB",
            help: "A safe wrapper around 'dd' to burn any .iso file to a USB drive.",
            action: Action::Execute(Task::FlashIso),
        },
        MenuItem {
            icon: "[M]",
            text: "Manual Install Tools",
            help: "A step-by-step interface for advanced users to partition, format, and install.",
            action: Action::SetView(AppView::ManualInstaller),
        },
    ];
    assert(items@ =~= utilities_catalog());
    items
}

fn manual_install_items() -> (items: Vec<MenuItem<'static>>)
    ensures
        items@ == manual_install_catalog(),
{
    let items = vec![
        MenuItem {
            icon: "[1]",
            text: "Wipe Disk",
            help: "Completely erases all data and partition tables from a selected disk.",
            action: Action::Execute(Task::ManualWipeDisk),
        },
        MenuItem {
            icon: "[2]",
            text: "Partition Disk",
            help: "Creates a simple EFI + Root partition layout on a selected disk.",
            action: Action::Execute(Task::ManualPartitionDisk),
        },
        MenuItem {
            icon: "[3]",
            text: "Format Partitions",
            help: "Formats the partitions created in the previous step (fat32 for EFI, ext4 for Root).",
            action: Action::Execute(Task::ManualFormatPartitions),
        },
        MenuItem {
            icon: "[4]",
            text: "Mount Partitions",
            help: "Mounts the root and EFI partitions to /mnt and /mnt/boot/efi.",
            action: Action::Execute(Task::ManualMountPartitions),
        },
        MenuItem {
            icon: "[5]",
            text: "Install Base System",
            help: "Runs 'pacstrap' to install the base Arch Linux system to /mnt.",
            action: Action::Execute(Task::ManualPacstrap),
        },
        MenuItem {
            icon: "[6]",
            text: "Setup Bootloader",
            help: "Runs 'arch-chroot' to install and configure the GRUB bootloader.",
            action: Action::Execute(Task::ManualChrootGrub),
        },
    ];
    assert(items@ =~= manual_install_catalog());
    items
}

impl<'a> App<'a> {
    /// A session in its initial state.
    pub fn new() -> (app: Self)
        ensures
            app@.is_initial(),
            app@.wf(),
    {
        App {
            current_view: AppView::MainMenu,
            active_popup: Popup::Closed,
            should_quit: false,
            main_menu: StatefulList::with_items(main_menu_items()),
            replicator_menu: StatefulList::with_items(replicator_items()),
            cloner_menu: StatefulList::with_items(cloner_items()),
            utilities_menu: StatefulList::with_items(utilities_items()),
            manual_install_menu: StatefulList::with_items(manual_install_items()),
            popup_title: String::new(),
            popup_text: String::new(),
            popup_list: StatefulList::with_items(Vec::new()),
            popup_input: tui_input::Input::default(),
            popup_action: None,
        }
    }
}

} // verus!
