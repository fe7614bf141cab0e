use win_desktop_tools::item::{ClassifiedItem, DisplayLocation, ItemType, PinnedShortcut, WindowState};
use win_desktop_tools::window::{
    classify, classify_window, collect_running, is_shell_class_name, is_system_process_name,
    is_taskbar_candidate, RawWindowAttributes, WS_CAPTION, WS_EX_TOOLWINDOW, WS_VISIBLE,
};

fn window(process_name: &str, class_name: &str, style: u32, ex_style: u32) -> RawWindowAttributes {
    RawWindowAttributes {
        hwnd: 100,
        parent: 0,
        process_id: 42,
        title: String::from("A window"),
        class_name: String::from(class_name),
        process_name: String::from(process_name),
        executable_path: String::new(),
        style,
        ex_style,
        is_visible: true,
        is_minimized: false,
        is_maximized: false,
    }
}

fn shortcut(name: &str, target: &str) -> PinnedShortcut {
    PinnedShortcut { name: String::from(name), target: String::from(target) }
}

fn must_classify(attrs: &RawWindowAttributes, pinned: &Vec<PinnedShortcut>) -> ClassifiedItem {
    match classify_window(attrs, 0, pinned) {
        Some(item) => item,
        None => panic!("the window should be listed"),
    }
}

#[test]
fn child_windows_are_never_candidates() {
    for style in [0, WS_CAPTION, WS_VISIBLE, WS_CAPTION | WS_VISIBLE, u32::MAX] {
        for ex_style in [0, WS_EX_TOOLWINDOW, u32::MAX] {
            for parent in [1isize, -1, 0x10_0000, isize::MAX, isize::MIN] {
                let mut w = window("app.exe", "AppWindow", style, ex_style);
                w.parent = parent;
                assert!(!is_taskbar_candidate(&w));
            }
        }
    }
}

#[test]
fn shell_classes_are_never_candidates() {
    let classes = [
        "Shell_TrayWnd",
        "Shell_SecondaryTrayWnd",
        "DV2ControlHost",
        "MsgrIMEWindowClass",
        "SysShadow",
        "Button",
        "Progman",
        "WorkerW",
        "Desktop",
    ];
    for class in classes {
        assert!(is_shell_class_name(class));
        for style in [0, WS_CAPTION, WS_VISIBLE, WS_CAPTION | WS_VISIBLE, u32::MAX] {
            for ex_style in [0, WS_EX_TOOLWINDOW, u32::MAX] {
                assert!(!is_taskbar_candidate(&window("app.exe", class, style, ex_style)));
            }
        }
    }
}

#[test]
fn shell_class_names_are_matched_exactly() {
    assert!(!is_shell_class_name("button"));
    assert!(!is_shell_class_name("Button "));
    assert!(!is_shell_class_name("Shell_TrayWnd2"));
    assert!(!is_shell_class_name(""));
}

#[test]
fn normal_and_tool_windows_are_candidates() {
    assert!(is_taskbar_candidate(&window("app.exe", "AppWindow", WS_CAPTION, 0)));
    assert!(is_taskbar_candidate(&window("app.exe", "AppWindow", WS_VISIBLE, 0)));
    assert!(is_taskbar_candidate(&window("app.exe", "AppWindow", 0x0040_0000, 0)));
    assert!(is_taskbar_candidate(&window("app.exe", "AppWindow", 0, WS_EX_TOOLWINDOW)));
    assert!(is_taskbar_candidate(&window("app.exe", "AppWindow", WS_CAPTION, WS_EX_TOOLWINDOW)));
    assert!(is_taskbar_candidate(&window("app.exe", "", WS_CAPTION, 0)));
}

#[test]
fn windows_without_caption_visible_or_tool_style_are_no_candidates() {
    assert!(!is_taskbar_candidate(&window("app.exe", "AppWindow", 0, 0)));
    assert!(!is_taskbar_candidate(&window("app.exe", "AppWindow", 0x0000_ffff, 0x0000_0100)));
}

#[test]
fn windows_without_process_name_are_dropped() {
    let w = window("", "AppWindow", WS_CAPTION | WS_VISIBLE, 0);
    assert!(is_taskbar_candidate(&w));
    assert!(classify_window(&w, 0, &Vec::new()).is_none());
}

#[test]
fn windows_that_are_no_candidates_are_dropped() {
    let w = window("app.exe", "Progman", WS_CAPTION | WS_VISIBLE, 0);
    assert!(classify_window(&w, 0, &Vec::new()).is_none());
}

#[test]
fn a_plain_visible_window_is_a_taskbar_entry() {
    let mut w = window("Editor.exe", "EditorFrame", WS_CAPTION | WS_VISIBLE, 0);
    w.executable_path = String::from("/opt/editor/Editor.exe");
    let item = must_classify(&w, &Vec::new());
    assert_eq!(item.title, "A window");
    assert_eq!(item.process_name, "Editor.exe");
    assert_eq!(item.process_id, 42);
    assert_eq!(item.hwnd, 100);
    assert!(item.is_visible);
    assert!(!item.is_minimized);
    assert!(!item.is_maximized);
    assert_eq!(item.class_name, "EditorFrame");
    assert!(item.has_taskbar_button);
    assert_eq!(item.window_state, WindowState::Normal);
    assert!(!item.is_pinned);
    assert_eq!(item.executable_path, "/opt/editor/Editor.exe");
    assert_eq!(item.item_type, ItemType::Running);
    assert!(!item.is_tray_icon);
    assert!(!item.is_focused);
    assert!(item.is_running);
    assert!(item.is_definitely_taskbar);
    assert!(!item.is_definitely_tray);
    assert!(!item.is_system_window);
    assert_eq!(item.display_location, DisplayLocation::Taskbar);
}

#[test]
fn tool_windows_are_never_definitely_on_the_taskbar() {
    for style in [0, WS_CAPTION, WS_VISIBLE, WS_CAPTION | WS_VISIBLE, u32::MAX] {
        for ex_style in [WS_EX_TOOLWINDOW, WS_EX_TOOLWINDOW | 0x100, u32::MAX] {
            for visible in [false, true] {
                for minimized in [false, true] {
                    let mut w = window("app.exe", "AppWindow", style, ex_style);
                    w.is_visible = visible;
                    w.is_minimized = minimized;
                    let item = classify(&w, &None, 0, &Vec::new());
                    assert!(!item.is_definitely_taskbar);
                    assert!(!item.has_taskbar_button);
                    assert!(item.is_definitely_tray);
                    assert!(item.is_tray_icon);
                    assert_eq!(item.display_location, DisplayLocation::Tray);
                }
            }
        }
    }
}

#[test]
fn window_state_prefers_minimized_then_maximized_then_visible() {
    let mut w = window("app.exe", "AppWindow", WS_CAPTION, 0);
    w.is_minimized = true;
    w.is_maximized = true;
    w.is_visible = true;
    assert_eq!(classify(&w, &None, 0, &Vec::new()).window_state, WindowState::Minimized);
    w.is_minimized = false;
    assert_eq!(classify(&w, &None, 0, &Vec::new()).window_state, WindowState::Maximized);
    w.is_maximized = false;
    assert_eq!(classify(&w, &None, 0, &Vec::new()).window_state, WindowState::Normal);
    w.is_visible = false;
    assert_eq!(classify(&w, &None, 0, &Vec::new()).window_state, WindowState::Hidden);
}

#[test]
fn notify_icon_classes_go_to_the_tray() {
    let w = window("app.exe", "MyNotifyIconHost", WS_CAPTION | WS_VISIBLE, 0);
    let item = classify(&w, &None, 0, &Vec::new());
    assert!(item.has_taskbar_button);
    assert!(item.is_tray_icon);
    assert!(item.is_definitely_tray);
    assert!(!item.is_definitely_taskbar);
    assert_eq!(item.display_location, DisplayLocation::Tray);
}

#[test]
fn tray_notify_classes_are_in_both_places() {
    let w = window("app.exe", "TrayNotifyWnd", WS_CAPTION | WS_VISIBLE, 0);
    let item = classify(&w, &None, 0, &Vec::new());
    assert!(item.is_tray_icon);
    assert!(item.is_definitely_tray);
    assert!(item.is_definitely_taskbar);
    assert_eq!(item.display_location, DisplayLocation::Both);
}

#[test]
fn tooltip_class_is_a_tray_icon_but_not_definitely() {
    let mut w = window("app.exe", "tooltips_class32", WS_CAPTION | WS_VISIBLE, 0);
    w.title = String::new();
    let item = classify(&w, &None, 0, &Vec::new());
    assert!(item.is_tray_icon);
    assert!(!item.is_definitely_tray);
}

#[test]
fn hidden_window_of_a_process_is_a_tray_icon() {
    let mut w = window("app.exe", "AppWindow", WS_CAPTION, 0);
    w.is_visible = false;
    w.title = String::new();
    let item = classify(&w, &None, 0, &Vec::new());
    assert!(item.is_tray_icon);
    assert!(!item.is_definitely_taskbar);
    assert!(!item.is_definitely_tray);
    assert_eq!(item.display_location, DisplayLocation::Hidden);
    assert_eq!(item.window_state, WindowState::Hidden);
    w.process_id = 0;
    assert!(!classify(&w, &None, 0, &Vec::new()).is_tray_icon);
}

#[test]
fn titled_window_without_button_is_definitely_tray() {
    let w = window("app.exe", "AppWindow", WS_VISIBLE, 0);
    let item = classify(&w, &None, 0, &Vec::new());
    assert!(!item.has_taskbar_button);
    assert!(item.is_definitely_tray);
    assert!(!item.is_tray_icon);
    assert_eq!(item.display_location, DisplayLocation::Tray);
}

#[test]
fn minimized_window_with_caption_is_on_the_taskbar() {
    let mut w = window("app.exe", "AppWindow", WS_CAPTION, 0);
    w.is_visible = false;
    w.is_minimized = true;
    let item = classify(&w, &None, 0, &Vec::new());
    assert!(item.is_definitely_taskbar);
    assert!(!item.is_tray_icon);
    assert_eq!(item.window_state, WindowState::Minimized);
}

#[test]
fn running_flag_follows_the_process_id() {
    for pid in [0u32, 1, 42, u32::MAX] {
        let mut w = window("app.exe", "AppWindow", WS_CAPTION | WS_VISIBLE, 0);
        w.process_id = pid;
        let item = must_classify(&w, &Vec::new());
        assert_eq!(item.is_running, pid > 0);
        assert_eq!(item.process_id, pid);
    }
}

#[test]
fn focus_is_decided_by_the_foreground_window() {
    let w = window("app.exe", "AppWindow", WS_CAPTION | WS_VISIBLE, 0);
    assert!(classify(&w, &None, 100, &Vec::new()).is_focused);
    assert!(!classify(&w, &None, 101, &Vec::new()).is_focused);
}

#[test]
fn system_processes_are_recognised_in_any_case() {
    for name in [
        "explorer.exe",
        "dwm.exe",
        "winlogon.exe",
        "csrss.exe",
        "wininit.exe",
        "services.exe",
        "lsass.exe",
        "svchost.exe",
        "Explorer.EXE",
        "SVCHOST.exe",
    ] {
        assert!(is_system_process_name(name));
        let w = window(name, "AppWindow", WS_CAPTION | WS_VISIBLE, 0);
        assert!(must_classify(&w, &Vec::new()).is_system_window);
    }
    for name in ["explorer", "explorer.exe2", "notepad.exe", ""] {
        assert!(!is_system_process_name(name));
    }
}

#[test]
fn running_process_matching_a_shortcut_is_both() {
    let mut w = window("app.exe", "AppWindow", WS_CAPTION | WS_VISIBLE, 0);
    w.executable_path = String::from("/path/App.exe");
    let item = must_classify(&w, &vec![shortcut("App", "/path/App.exe")]);
    assert!(item.is_pinned);
    assert_eq!(item.item_type, ItemType::Both);
    assert!(item.is_running);
}

#[test]
fn process_matches_a_shortcut_by_the_stem_of_its_path() {
    let mut w = window("host.exe", "AppWindow", WS_CAPTION | WS_VISIBLE, 0);
    w.executable_path = String::from("/apps/Widget.exe");
    let pinned = vec![shortcut("My Widget", "")];
    let item = must_classify(&w, &pinned);
    assert!(item.is_pinned);
    assert_eq!(item.item_type, ItemType::Both);
    w.executable_path = String::from("/apps/Gadget.exe");
    let item = must_classify(&w, &pinned);
    assert!(!item.is_pinned);
    assert_eq!(item.item_type, ItemType::Running);
}

#[test]
fn unresolved_path_leaves_the_match_to_the_process_name() {
    let w = window("widget.exe", "AppWindow", WS_CAPTION | WS_VISIBLE, 0);
    assert!(must_classify(&w, &vec![shortcut("My Widget", "")]).is_pinned);
    assert!(!must_classify(&w, &vec![shortcut("Gadget", "")]).is_pinned);
    assert!(!must_classify(&w, &Vec::new()).is_pinned);
}

#[test]
fn collect_running_keeps_order_and_drops_unlisted_windows() {
    let mut child = window("child.exe", "AppWindow", WS_CAPTION | WS_VISIBLE, 0);
    child.parent = 7;
    let mut second = window("Second.exe", "AppWindow", WS_CAPTION | WS_VISIBLE, 0);
    second.hwnd = 200;
    let windows = vec![
        window("First.exe", "AppWindow", WS_CAPTION | WS_VISIBLE, 0),
        child,
        window("", "AppWindow", WS_CAPTION | WS_VISIBLE, 0),
        window("shell.exe", "Shell_TrayWnd", WS_CAPTION | WS_VISIBLE, 0),
        second,
    ];
    let running = collect_running(&windows, 200, &Vec::new());
    assert_eq!(running.len(), 2);
    assert_eq!(running[0].process_name, "First.exe");
    assert!(!running[0].is_focused);
    assert_eq!(running[1].process_name, "Second.exe");
    assert!(running[1].is_focused);
    assert!(collect_running(&Vec::new(), 0, &Vec::new()).is_empty());
}

#[test]
fn enum_names_are_the_written_values() {
    assert_eq!(WindowState::Normal.as_str(), "normal");
    assert_eq!(WindowState::Minimized.as_str(), "minimized");
    assert_eq!(WindowState::Maximized.as_str(), "maximized");
    assert_eq!(WindowState::Hidden.as_str(), "hidden");
    assert_eq!(WindowState::PinnedOnly.as_str(), "pinned_only");
    assert_eq!(ItemType::Running.as_str(), "running");
    assert_eq!(ItemType::Pinned.as_str(), "pinned");
    assert_eq!(ItemType::Both.as_str(), "both");
    assert_eq!(DisplayLocation::Taskbar.as_str(), "taskbar");
    assert_eq!(DisplayLocation::Tray.as_str(), "tray");
    assert_eq!(DisplayLocation::Both.as_str(), "both");
    assert_eq!(DisplayLocation::Hidden.as_str(), "hidden");
}

#[test]
fn display_location_follows_the_two_flags() {
    assert_eq!(DisplayLocation::from_flags(true, true), DisplayLocation::Both);
    assert_eq!(DisplayLocation::from_flags(true, false), DisplayLocation::Taskbar);
    assert_eq!(DisplayLocation::from_flags(false, true), DisplayLocation::Tray);
    assert_eq!(DisplayLocation::from_flags(false, false), DisplayLocation::Hidden);
}

#[test]
fn zeroed_fields_are_tolerated() {
    let w = RawWindowAttributes {
        hwnd: 0,
        parent: 0,
        process_id: 0,
        title: String::new(),
        class_name: String::new(),
        process_name: String::from("x"),
        executable_path: String::new(),
        style: WS_VISIBLE,
        ex_style: 0,
        is_visible: false,
        is_minimized: false,
        is_maximized: false,
    };
    let item = must_classify(&w, &vec![shortcut("Other", "")]);
    assert_eq!(item.title, "");
    assert_eq!(item.class_name, "");
    assert_eq!(item.executable_path, "");
    assert!(!item.is_running);
    assert!(!item.is_pinned);
    assert!(item.is_focused);
    assert_eq!(item.window_state, WindowState::Hidden);
    assert_eq!(item.display_location, DisplayLocation::Hidden);
    assert_eq!(item.item_type, ItemType::Running);
}
