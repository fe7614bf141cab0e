//! Classification of one top-level window from its raw attributes.

use vstd::prelude::*;
use crate::item::ClassifiedItem;
use crate::item::DisplayLocation;
use crate::item::ItemType;
use crate::item::ItemView;
use crate::item::PinnedShortcut;
use crate::item::PinnedView;
use crate::item::WindowState;
use crate::item::item_views;
use crate::item::pinned_views;
use crate::pinned::is_pinned_app;
use crate::pinned::normalized_name;
use crate::pinned::optional_text;
use crate::pinned::pinned_matches;
use crate::pinned::shortcut_matches;
use crate::text::chars_of;
use crate::text::contains_seq;
use crate::text::contains_str;
use crate::text::equals_str;
use crate::text::lowercase_chars;
use crate::text::lowercased;

verus! {

/// Window style bits of a title bar (border and dialog frame).
pub const WS_CAPTION: u32 = 0x00C0_0000;

/// Window style bit of a visible window.
pub const WS_VISIBLE: u32 = 0x1000_0000;

/// Extended window style bit of a tool window.
pub const WS_EX_TOOLWINDOW: u32 = 0x0000_0080;

/// What the window system reports of one window during one enumeration pass.
/// Text that could not be read is empty.
#[derive(Clone, Debug, PartialEq, Eq)]
pub struct RawWindowAttributes {
    /// Window identifier.
    pub hwnd: i32,
    /// Identifier of the parent window, 0 for a top-level window.
    pub parent: isize,
    /// Owning process, 0 when unknown.
    pub process_id: u32,
    pub title: String,
    pub class_name: String,
    /// Base name of the owning process's executable.
    pub process_name: String,
    /// Full path of the owning process's executable.
    pub executable_path: String,
    pub style: u32,
    pub ex_style: u32,
    pub is_visible: bool,
    pub is_minimized: bool,
    pub is_maximized: bool,
}

/// The extended style marks a tool window.
pub open spec fn tool_window(ex_style: u32) -> bool {
    ex_style & WS_EX_TOOLWINDOW != 0
}

/// The style has a caption bit.
pub open spec fn has_caption(style: u32) -> bool {
    style & WS_CAPTION != 0
}

/// The style has a caption bit or the visible bit.
pub open spec fn caption_or_visible(style: u32) -> bool {
    style & (WS_CAPTION | WS_VISIBLE) != 0
}

/// The window looks like a normal window: it has a caption bit or the
/// visible bit, and is no tool window.
pub open spec fn looks_normal(style: u32, ex_style: u32) -> bool {
    caption_or_visible(style) && !tool_window(ex_style)
}

/// Window classes of the shell and the system, which never appear in the
/// list.
pub open spec fn is_shell_class(class_name: Seq<char>) -> bool {
    ||| class_name == "Shell_TrayWnd"@
    ||| class_name == "Shell_SecondaryTrayWnd"@
    ||| class_name == "DV2ControlHost"@
    ||| class_name == "MsgrIMEWindowClass"@
    ||| class_name == "SysShadow"@
    ||| class_name == "Button"@
    ||| class_name == "Progman"@
    ||| class_name == "WorkerW"@
    ||| class_name == "Desktop"@
}

/// Process names, in lower case, of windows that belong to the system.
pub open spec fn is_system_process(lower_name: Seq<char>) -> bool {
    ||| lower_name == "explorer.exe"@
    ||| lower_name == "dwm.exe"@
    ||| lower_name == "winlogon.exe"@
    ||| lower_name == "csrss.exe"@
    ||| lower_name == "wininit.exe"@
    ||| lower_name == "services.exe"@
    ||| lower_name == "lsass.exe"@
    ||| lower_name == "svchost.exe"@
}

/// A window may appear in the list: it is a top-level window, it looks like a
/// normal window (caption or visible, no tool window) or like a tray-style
/// tool window, and its class is none of the shell's.
pub open spec fn taskbar_candidate(attrs: &RawWindowAttributes) -> bool {
    &&& attrs.parent == 0
    &&& looks_normal(attrs.style, attrs.ex_style) || tool_window(attrs.ex_style)
    &&& !is_shell_class(attrs.class_name@)
}

/// The state that the three placement flags give: minimized before maximized
/// before visible.
pub open spec fn window_state_of(minimized: bool, maximized: bool, visible: bool) -> WindowState {
    if minimized {
        WindowState::Minimized
    } else if maximized {
        WindowState::Maximized
    } else if visible {
        WindowState::Normal
    } else {
        WindowState::Hidden
    }
}

/// The entry for a window, given whether it matches a pinned shortcut.
pub open spec fn classified_with(
    attrs: &RawWindowAttributes,
    foreground: i32,
    is_pinned: bool,
) -> ItemView {
    let class_name = attrs.class_name@;
    let tool = tool_window(attrs.ex_style);
    let notify = contains_seq(class_name, "NotifyIcon"@);
    let tray_notify = contains_seq(class_name, "TrayNotify"@);
    let button = !tool && has_caption(attrs.style);
    let taskbar = button && (attrs.is_visible || attrs.is_minimized) && !tool && !notify;
    let tray = tool || notify || tray_notify || (!button && attrs.title@.len() > 0);
    ItemView {
        title: attrs.title@,
        process_name: attrs.process_name@,
        process_id: attrs.process_id,
        hwnd: attrs.hwnd,
        is_visible: attrs.is_visible,
        is_minimized: attrs.is_minimized,
        is_maximized: attrs.is_maximized,
        class_name: class_name,
        has_taskbar_button: button,
        window_state: window_state_of(attrs.is_minimized, attrs.is_maximized, attrs.is_visible),
        is_pinned: is_pinned,
        executable_path: attrs.executable_path@,
        item_type: if is_pinned {
            ItemType::Both
        } else {
            ItemType::Running
        },
        is_tray_icon: {
            ||| tool
            ||| notify
            ||| tray_notify
            ||| class_name == "tooltips_class32"@
            ||| (!attrs.is_visible && !attrs.is_minimized && attrs.process_id > 0)
        },
        is_focused: attrs.hwnd == foreground,
        is_running: attrs.process_id > 0,
        is_definitely_taskbar: taskbar,
        is_definitely_tray: tray,
        is_system_window: is_system_process(lowercased(attrs.process_name@)),
        display_location: DisplayLocation::of_flags(taskbar, tray),
    }
}

/// The entry for a window whose executable path has the file stem `stem`,
/// against the pinned shortcuts `pinned`.
pub open spec fn classified(
    attrs: &RawWindowAttributes,
    stem: Option<Seq<char>>,
    foreground: i32,
    pinned: Seq<PinnedView>,
) -> ItemView {
    classified_with(attrs, foreground, pinned_matches(pinned, attrs.process_name@, stem))
}

/// A window is listed when it is a candidate and its process name is known.
pub open spec fn listed(attrs: &RawWindowAttributes) -> bool {
    taskbar_candidate(attrs) && attrs.process_name@.len() > 0
}

/// `item` is an entry for the window `attrs`: it is what [`classified`] gives
/// for some file stem that is part of the window's executable path, or for
/// none.
pub open spec fn is_entry_for(
    item: ItemView,
    attrs: &RawWindowAttributes,
    foreground: i32,
    pinned: Seq<PinnedView>,
) -> bool {
    exists|stem: Option<Seq<char>>|
        {
            &&& stem matches Some(st) ==> contains_seq(attrs.executable_path@, st)
            &&& item == #[trigger] classified(attrs, stem, foreground, pinned)
        }
}

/// Whether the class is one of the shell's.
pub fn is_shell_class_name(class_name: &str) -> (r: bool)
    ensures
        r == is_shell_class(class_name@),
{
    let class = chars_of(class_name);
    equals_str(&class, "Shell_TrayWnd")
        || equals_str(&class, "Shell_SecondaryTrayWnd")
        || equals_str(&class, "DV2ControlHost")
        || equals_str(&class, "MsgrIMEWindowClass")
        || equals_str(&class, "SysShadow")
        || equals_str(&class, "Button")
        || equals_str(&class, "Progman")
        || equals_str(&class, "WorkerW")
        || equals_str(&class, "Desktop")
}

/// Whether the process, by its name, belongs to the system.
pub fn is_system_process_name(process_name: &str) -> (r: bool)
    ensures
        r == is_system_process(lowercased(process_name@)),
{
    let name = lowercase_chars(process_name);
    equals_str(&name, "explorer.exe")
        || equals_str(&name, "dwm.exe")
        || equals_str(&name, "winlogon.exe")
        || equals_str(&name, "csrss.exe")
        || equals_str(&name, "wininit.exe")
        || equals_str(&name, "services.exe")
        || equals_str(&name, "lsass.exe")
        || equals_str(&name, "svchost.exe")
}

/// Whether a window may appear in the list at all.
pub fn is_taskbar_candidate(attrs: &RawWindowAttributes) -> (r: bool)
    ensures
        r == taskbar_candidate(attrs),
        attrs.parent != 0 ==> !r,
        is_shell_class(attrs.class_name@) ==> !r,
{
    if attrs.parent != 0 {
        return false;
    }
    let is_tray_icon = (attrs.ex_style & WS_EX_TOOLWINDOW) != 0;
    let is_normal_window = (attrs.style & (WS_CAPTION | WS_VISIBLE)) != 0
        && (attrs.ex_style & WS_EX_TOOLWINDOW) == 0;
    if !is_normal_window && !is_tray_icon {
        return false;
    }
    !is_shell_class_name(attrs.class_name.as_str())
}

/// Builds the entry for a window. `stem` is the file stem of the window's
/// executable path, if the path has one; `foreground` is the window that has
/// the focus during this pass.
pub fn classify(
    attrs: &RawWindowAttributes,
    stem: &Option<String>,
    foreground: i32,
    pinned: &Vec<PinnedShortcut>,
) -> (item: ClassifiedItem)
    ensures
        item@ == classified(attrs, optional_text(*stem), foreground, pinned_views(pinned@)),
        item@.running_matches_process(),
        item@.consistent(),
        attrs.process_id > 0 ==> item@.type_matches_flags(),
        tool_window(attrs.ex_style) ==> !item.is_definitely_taskbar,
{
    let class = chars_of(attrs.class_name.as_str());
    let tool = (attrs.ex_style & WS_EX_TOOLWINDOW) != 0;
    let notify = contains_str(&class, "NotifyIcon");
    let tray_notify = contains_str(&class, "TrayNotify");
    let has_taskbar_button = !tool && (attrs.style & WS_CAPTION) != 0;
    let is_pinned = is_pinned_app(attrs.process_name.as_str(), stem, pinned);
    let is_tray_icon = tool || notify || tray_notify || equals_str(&class, "tooltips_class32")
        || (!attrs.is_visible && !attrs.is_minimized && attrs.process_id > 0);
    let is_definitely_taskbar = has_taskbar_button && (attrs.is_visible || attrs.is_minimized)
        && !tool && !notify;
    let is_definitely_tray = tool || notify || tray_notify
        || (!has_taskbar_button && !attrs.title.as_str().is_empty());
    let window_state = if attrs.is_minimized {
        WindowState::Minimized
    } else if attrs.is_maximized {
        WindowState::Maximized
    } else if attrs.is_visible {
        WindowState::Normal
    } else {
        WindowState::Hidden
    };
    ClassifiedItem {
        title: attrs.title.clone(),
        process_name: attrs.process_name.clone(),
        process_id: attrs.process_id,
        hwnd: attrs.hwnd,
        is_visible: attrs.is_visible,
        is_minimized: attrs.is_minimized,
        is_maximized: attrs.is_maximized,
        class_name: attrs.class_name.clone(),
        has_taskbar_button,
        window_state,
        is_pinned,
        executable_path: attrs.executable_path.clone(),
        item_type: if is_pinned {
            ItemType::Both
        } else {
            ItemType::Running
        },
        is_tray_icon,
        is_focused: attrs.hwnd == foreground,
        is_running: attrs.process_id > 0,
        is_definitely_taskbar,
        is_definitely_tray,
        is_system_window: is_system_process_name(attrs.process_name.as_str()),
        display_location: DisplayLocation::from_flags(is_definitely_taskbar, is_definitely_tray),
    }
}

/// Calls `std::path::Path::file_stem` on `path` and hands the stem back as
/// text. Trusted: a stem, where there is one, is a contiguous part of the
/// path. Which part it is depends on the platform's path syntax and is not
/// stated.
#[verifier::external_body]
pub(crate) fn path_file_stem(path: &str) -> (stem: Option<String>)
    ensures
        stem matches Some(st) ==> contains_seq(path@, st@),
{
    match std::path::Path::new(path).file_stem() {
        Some(stem) => Some(stem.to_string_lossy().into_owned()),
        None => None,
    }
}

/// The entry for one window of an enumeration pass, or `None` for a window
/// that is left out: one that is no candidate, or whose process name is not
/// known.
pub fn classify_window(
    attrs: &RawWindowAttributes,
    foreground: i32,
    pinned: &Vec<PinnedShortcut>,
) -> (r: Option<ClassifiedItem>)
    ensures
        r is Some <==> listed(attrs),
        r matches Some(item) ==> {
            &&& is_entry_for(item@, attrs, foreground, pinned_views(pinned@))
            &&& item@ == classified_with(attrs, foreground, item.is_pinned)
            &&& pinned_matches(pinned_views(pinned@), attrs.process_name@, None) ==> item.is_pinned
            &&& item@.consistent()
            &&& attrs.process_id > 0 ==> item@.type_matches_flags()
            &&& tool_window(attrs.ex_style) ==> !item.is_definitely_taskbar
        },
{
    if !is_taskbar_candidate(attrs) {
        return None;
    }
    if attrs.process_name.as_str().is_empty() {
        return None;
    }
    let stem = path_file_stem(attrs.executable_path.as_str());
    let item = classify(attrs, &stem, foreground, pinned);
    proof {
        let views = pinned_views(pinned@);
        let s = optional_text(stem);
        assert(item@ == classified(attrs, s, foreground, views));
        if pinned_matches(views, attrs.process_name@, None) {
            let i = choose|i: int|
                0 <= i < views.len() && #[trigger] shortcut_matches(
                    views[i].name,
                    attrs.process_name@,
                    None,
                );
            assert(shortcut_matches(views[i].name, attrs.process_name@, s));
        }
    }
    Some(item)
}

/// A window whose normalized process name is the lower-case name of a pinned
/// shortcut is pinned, whatever its executable path, and its entry says
/// `Both`: the shortcut is folded into the running entry.
pub proof fn lemma_colliding_shortcut_pins_entry(
    attrs: &RawWindowAttributes,
    stem: Option<Seq<char>>,
    foreground: i32,
    pinned: Seq<PinnedView>,
    i: int,
)
    requires
        0 <= i < pinned.len(),
        lowercased(pinned[i].name) == normalized_name(attrs.process_name@),
    ensures
        classified(attrs, stem, foreground, pinned).is_pinned,
        classified(attrs, stem, foreground, pinned).item_type == ItemType::Both,
{
    let name = normalized_name(attrs.process_name@);
    assert(name.subrange(0, name.len() as int) == name);
    assert(crate::text::occurs_at(name, name, 0));
    assert(shortcut_matches(pinned[i].name, attrs.process_name@, stem));
}

/// The test of being listed.
pub open spec fn is_listed() -> spec_fn(RawWindowAttributes) -> bool {
    |w: RawWindowAttributes| listed(&w)
}

/// `running` holds one entry for each listed window of `windows`, in the
/// order of `windows`, and nothing else.
pub open spec fn entries_for(
    running: Seq<ItemView>,
    windows: Seq<RawWindowAttributes>,
    foreground: i32,
    pinned: Seq<PinnedView>,
) -> bool {
    let shown = windows.filter(is_listed());
    &&& running.len() == shown.len()
    &&& forall|i: int|
        0 <= i < shown.len() ==> is_entry_for(#[trigger] running[i], &shown[i], foreground, pinned)
}

/// The running entries of one enumeration pass: one entry for each window
/// that is a candidate and whose process name is known, in the order in
/// which the windows were enumerated. `foreground` is read once for the
/// whole pass.
pub fn collect_running(
    windows: &Vec<RawWindowAttributes>,
    foreground: i32,
    pinned: &Vec<PinnedShortcut>,
) -> (running: Vec<ClassifiedItem>)
    ensures
        entries_for(item_views(running@), windows@, foreground, pinned_views(pinned@)),
        forall|i: int| 0 <= i < running.len() ==> (#[trigger] running[i]@).consistent(),
        forall|i: int|
            0 <= i < running.len() && running[i].is_running ==> (
            #[trigger] running[i]@).type_matches_flags(),
        forall|i: int|
            0 <= i < running.len() ==> (#[trigger] running[i]).process_name@.len() > 0,
{
    let mut running: Vec<ClassifiedItem> = Vec::new();
    let ghost pins = pinned_views(pinned@);
    let mut i: usize = 0;
    assert(windows@.take(0).filter(is_listed()) =~= Seq::<RawWindowAttributes>::empty()) by {
        reveal(Seq::filter);
    }
    while i < windows.len()
        invariant
            i <= windows.len(),
            pins == pinned_views(pinned@),
            entries_for(item_views(running@), windows@.take(i as int), foreground, pins),
            forall|j: int| 0 <= j < running.len() ==> (#[trigger] running[j]@).consistent(),
            forall|j: int|
                0 <= j < running.len() && running[j].is_running ==> (
                #[trigger] running[j]@).type_matches_flags(),
            forall|j: int|
                0 <= j < running.len() ==> (#[trigger] running[j]).process_name@.len() > 0,
        decreases windows.len() - i,
    {
        let ghost before = item_views(running@);
        let ghost shown = windows@.take(i as int).filter(is_listed());
        proof {
            assert(windows@.take(i + 1) == windows@.take(i as int).push(windows@[i as int]));
            windows@.take(i as int).lemma_filter_push(windows@[i as int], is_listed());
        }
        match classify_window(&windows[i], foreground, pinned) {
            Some(item) => {
                running.push(item);
                proof {
                    let after = item_views(running@);
                    let shown_after = shown.push(windows@[i as int]);
                    assert forall|j: int| 0 <= j < shown_after.len() implies is_entry_for(
                        #[trigger] after[j],
                        &shown_after[j],
                        foreground,
                        pins,
                    ) by {
                        if j < shown.len() {
                            assert(after[j] == before[j]);
                        }
                    }
                }
            },
            None => {
                assert(item_views(running@) == before);
            },
        }
        i += 1;
    }
    assert(windows@.take(windows.len() as int) == windows@);
    running
}

} // verus!
