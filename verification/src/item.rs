//! The entries of a taskbar-like list and the pinned shortcuts they are
//! reconciled with.

use vstd::prelude::*;

verus! {

/// How a window is currently shown. `PinnedOnly` marks an entry that stands
/// for a pinned shortcut with no running window.
#[derive(Clone, Copy, Debug, PartialEq, Eq, Structural)]
pub enum WindowState {
    Normal,
    Minimized,
    Maximized,
    Hidden,
    PinnedOnly,
}

/// Whether an entry comes from a running window, a pinned shortcut, or a
/// running window that also matches a pinned shortcut.
#[derive(Clone, Copy, Debug, PartialEq, Eq, Structural)]
pub enum ItemType {
    Running,
    Pinned,
    Both,
}

/// Where an entry is displayed.
#[derive(Clone, Copy, Debug, PartialEq, Eq, Structural)]
pub enum DisplayLocation {
    Taskbar,
    Tray,
    Both,
    Hidden,
}

impl WindowState {
    /// The name under which the state is written out.
    pub open spec fn label(self) -> Seq<char> {
        match self {
            WindowState::Normal => "normal"@,
            WindowState::Minimized => "minimized"@,
            WindowState::Maximized => "maximized"@,
            WindowState::Hidden => "hidden"@,
            WindowState::PinnedOnly => "pinned_only"@,
        }
    }

    /// The name under which the state is written out.
    pub fn as_str(self) -> (s: &'static str)
        ensures
            s@ == self.label(),
    {
        match self {
            WindowState::Normal => "normal",
            WindowState::Minimized => "minimized",
            WindowState::Maximized => "maximized",
            WindowState::Hidden => "hidden",
            WindowState::PinnedOnly => "pinned_only",
        }
    }
}

impl ItemType {
    /// The name under which the type is written out.
    pub open spec fn label(self) -> Seq<char> {
        match self {
            ItemType::Running => "running"@,
            ItemType::Pinned => "pinned"@,
            ItemType::Both => "both"@,
        }
    }

    /// The name under which the type is written out.
    pub fn as_str(self) -> (s: &'static str)
        ensures
            s@ == self.label(),
    {
        match self {
            ItemType::Running => "running",
            ItemType::Pinned => "pinned",
            ItemType::Both => "both",
        }
    }
}

impl DisplayLocation {
    /// The name under which the location is written out.
    pub open spec fn label(self) -> Seq<char> {
        match self {
            DisplayLocation::Taskbar => "taskbar"@,
            DisplayLocation::Tray => "tray"@,
            DisplayLocation::Both => "both"@,
            DisplayLocation::Hidden => "hidden"@,
        }
    }

    /// The name under which the location is written out.
    pub fn as_str(self) -> (s: &'static str)
        ensures
            s@ == self.label(),
    {
        match self {
            DisplayLocation::Taskbar => "taskbar",
            DisplayLocation::Tray => "tray",
            DisplayLocation::Both => "both",
            DisplayLocation::Hidden => "hidden",
        }
    }

    /// The location that the two definite flags determine.
    pub open spec fn of_flags(taskbar: bool, tray: bool) -> DisplayLocation {
        if taskbar && tray {
            DisplayLocation::Both
        } else if taskbar {
            DisplayLocation::Taskbar
        } else if tray {
            DisplayLocation::Tray
        } else {
            DisplayLocation::Hidden
        }
    }

    /// The location that the two definite flags determine.
    pub fn from_flags(taskbar: bool, tray: bool) -> (location: DisplayLocation)
        ensures
            location == Self::of_flags(taskbar, tray),
    {
        if taskbar && tray {
            DisplayLocation::Both
        } else if taskbar {
            DisplayLocation::Taskbar
        } else if tray {
            DisplayLocation::Tray
        } else {
            DisplayLocation::Hidden
        }
    }
}

/// A shortcut pinned to the taskbar: its display name and the executable it
/// points to (empty when the target could not be resolved).
#[derive(Clone, Debug, PartialEq, Eq)]
pub struct PinnedShortcut {
    pub name: String,
    pub target: String,
}

/// The mathematical value of a [`PinnedShortcut`].
pub struct PinnedView {
    pub name: Seq<char>,
    pub target: Seq<char>,
}

impl View for PinnedShortcut {
    type V = PinnedView;

    open spec fn view(&self) -> PinnedView {
        PinnedView { name: self.name@, target: self.target@ }
    }
}

/// The values of a list of shortcuts, in order.
pub open spec fn pinned_views(pinned: Seq<PinnedShortcut>) -> Seq<PinnedView> {
    Seq::new(pinned.len(), |i: int| pinned[i]@)
}

/// One entry of the list.
#[derive(Clone, Debug, PartialEq, Eq)]
pub struct ClassifiedItem {
    pub title: String,
    pub process_name: String,
    /// 0 when the entry is not running.
    pub process_id: u32,
    /// 0 when the entry has no window.
    pub hwnd: i32,
    pub is_visible: bool,
    pub is_minimized: bool,
    pub is_maximized: bool,
    pub class_name: String,
    pub has_taskbar_button: bool,
    pub window_state: WindowState,
    pub is_pinned: bool,
    pub executable_path: String,
    pub item_type: ItemType,
    pub is_tray_icon: bool,
    pub is_focused: bool,
    pub is_running: bool,
    pub is_definitely_taskbar: bool,
    pub is_definitely_tray: bool,
    pub is_system_window: bool,
    pub display_location: DisplayLocation,
}

/// The mathematical value of a [`ClassifiedItem`].
pub struct ItemView {
    pub title: Seq<char>,
    pub process_name: Seq<char>,
    pub process_id: u32,
    pub hwnd: i32,
    pub is_visible: bool,
    pub is_minimized: bool,
    pub is_maximized: bool,
    pub class_name: Seq<char>,
    pub has_taskbar_button: bool,
    pub window_state: WindowState,
    pub is_pinned: bool,
    pub executable_path: Seq<char>,
    pub item_type: ItemType,
    pub is_tray_icon: bool,
    pub is_focused: bool,
    pub is_running: bool,
    pub is_definitely_taskbar: bool,
    pub is_definitely_tray: bool,
    pub is_system_window: bool,
    pub display_location: DisplayLocation,
}

impl View for ClassifiedItem {
    type V = ItemView;

    open spec fn view(&self) -> ItemView {
        ItemView {
            title: self.title@,
            process_name: self.process_name@,
            process_id: self.process_id,
            hwnd: self.hwnd,
            is_visible: self.is_visible,
            is_minimized: self.is_minimized,
            is_maximized: self.is_maximized,
            class_name: self.class_name@,
            has_taskbar_button: self.has_taskbar_button,
            window_state: self.window_state,
            is_pinned: self.is_pinned,
            executable_path: self.executable_path@,
            item_type: self.item_type,
            is_tray_icon: self.is_tray_icon,
            is_focused: self.is_focused,
            is_running: self.is_running,
            is_definitely_taskbar: self.is_definitely_taskbar,
            is_definitely_tray: self.is_definitely_tray,
            is_system_window: self.is_system_window,
            display_location: self.display_location,
        }
    }
}

/// The values of a list of entries, in order.
pub open spec fn item_views(items: Seq<ClassifiedItem>) -> Seq<ItemView> {
    Seq::new(items.len(), |i: int| items[i]@)
}

impl ItemView {
    /// An entry is running exactly when it has a process.
    pub open spec fn running_matches_process(self) -> bool {
        self.is_running == (self.process_id > 0)
    }

    /// What holds of every entry of a list: the running flag follows the
    /// process id, a pinned-only entry is pinned and not running, and the
    /// display location follows the two definite flags.
    pub open spec fn consistent(self) -> bool {
        &&& self.running_matches_process()
        &&& self.window_state == WindowState::PinnedOnly ==> self.is_pinned && !self.is_running
        &&& self.display_location == DisplayLocation::of_flags(
            self.is_definitely_taskbar,
            self.is_definitely_tray,
        )
    }

    /// The entry's type says `Both` exactly when it is pinned and running.
    pub open spec fn type_matches_flags(self) -> bool {
        self.item_type == ItemType::Both <==> self.is_pinned && self.is_running
    }
}

} // verus!
