use win_desktop_tools::item::{ClassifiedItem, DisplayLocation, ItemType, PinnedShortcut, WindowState};
use win_desktop_tools::reconcile::{merge_pinned, pinned_only, reconcile, sort_items, taskbar_items};
use win_desktop_tools::snapshot::{monitor_tick, TaskbarUpdate};
use win_desktop_tools::window::{classify_window, RawWindowAttributes, WS_CAPTION, WS_VISIBLE};

fn window_of(process_name: &str, hwnd: i32) -> RawWindowAttributes {
    RawWindowAttributes {
        hwnd,
        parent: 0,
        process_id: 1000 + hwnd as u32,
        title: format!("{} window", process_name),
        class_name: String::from("AppWindow"),
        process_name: String::from(process_name),
        executable_path: String::new(),
        style: WS_CAPTION | WS_VISIBLE,
        ex_style: 0,
        is_visible: true,
        is_minimized: false,
        is_maximized: false,
    }
}

fn running_item(process_name: &str, hwnd: i32, pinned: &Vec<PinnedShortcut>) -> ClassifiedItem {
    match classify_window(&window_of(process_name, hwnd), 0, pinned) {
        Some(item) => item,
        None => panic!("the window should be listed"),
    }
}

fn pin(name: &str, target: &str) -> PinnedShortcut {
    PinnedShortcut { name: String::from(name), target: String::from(target) }
}

fn names(items: &Vec<ClassifiedItem>) -> Vec<String> {
    items.iter().map(|i| i.process_name.clone()).collect()
}

#[test]
fn running_app_absorbs_its_shortcut() {
    let pinned = vec![pin("App", "/path/App.exe")];
    let running = vec![running_item("app.exe", 1, &pinned)];
    let items = reconcile(running, &pinned);
    assert_eq!(items.len(), 1);
    assert_eq!(items[0].process_name, "app.exe");
    assert!(items[0].is_pinned);
    assert_eq!(items[0].item_type, ItemType::Both);
    assert!(items[0].is_running);
    assert!(items.iter().all(|i| i.window_state != WindowState::PinnedOnly));
}

#[test]
fn shortcut_without_running_app_becomes_pinned_only() {
    let pinned = vec![pin("Notepad", "/path/notepad.exe")];
    let items = reconcile(Vec::new(), &pinned);
    assert_eq!(items.len(), 1);
    let item = &items[0];
    assert_eq!(item.window_state, WindowState::PinnedOnly);
    assert!(!item.is_running);
    assert_eq!(item.process_id, 0);
    assert_eq!(item.hwnd, 0);
    assert!(item.is_pinned);
    assert_eq!(item.item_type, ItemType::Pinned);
    assert!(item.is_definitely_taskbar);
    assert!(!item.is_definitely_tray);
    assert_eq!(item.display_location, DisplayLocation::Taskbar);
    assert_eq!(item.executable_path, "/path/notepad.exe");
    assert_eq!(item.title, "Notepad");
    assert_eq!(item.process_name, "Notepad.exe");
    assert_eq!(item.class_name, "");
    assert!(item.has_taskbar_button);
    assert!(!item.is_visible);
    assert!(!item.is_minimized);
    assert!(!item.is_maximized);
    assert!(!item.is_tray_icon);
    assert!(!item.is_focused);
    assert!(!item.is_system_window);
}

#[test]
fn unresolved_shortcut_target_is_empty() {
    let item = pinned_only(&pin("Tool", ""));
    assert_eq!(item.executable_path, "");
    assert_eq!(item.window_state, WindowState::PinnedOnly);
}

#[test]
fn running_items_come_first_then_pinned_only_each_by_name() {
    let pinned = vec![pin("Beta", "")];
    let running = vec![running_item("Zeta.exe", 1, &pinned), running_item("Alpha.exe", 2, &pinned)];
    let items = reconcile(running, &pinned);
    let titles: Vec<String> = items.iter().map(|i| {
        if i.is_running { i.process_name.clone() } else { i.title.clone() }
    }).collect();
    assert_eq!(titles, vec!["Alpha.exe", "Zeta.exe", "Beta"]);
    assert_eq!(names(&items), vec!["Alpha.exe", "Zeta.exe", "Beta.exe"]);
    assert!(items[0].is_running && items[1].is_running && !items[2].is_running);
}

#[test]
fn order_ignores_case() {
    let none = Vec::new();
    let running = vec![
        running_item("delta.exe", 1, &none),
        running_item("Charlie.exe", 2, &none),
        running_item("bravo.exe", 3, &none),
        running_item("ALPHA.exe", 4, &none),
    ];
    let items = sort_items(running);
    assert_eq!(names(&items), vec!["ALPHA.exe", "bravo.exe", "Charlie.exe", "delta.exe"]);
}

#[test]
fn pinned_only_items_are_ordered_among_themselves() {
    let pinned = vec![pin("zulu", ""), pin("Yankee", ""), pin("alpha", "")];
    let running = vec![running_item("mike.exe", 1, &pinned)];
    let items = reconcile(running, &pinned);
    assert_eq!(names(&items), vec!["mike.exe", "alpha.exe", "Yankee.exe", "zulu.exe"]);
}

#[test]
fn windows_of_one_process_keep_their_order() {
    let none = Vec::new();
    let running = vec![
        running_item("same.exe", 3, &none),
        running_item("Same.exe", 1, &none),
        running_item("other.exe", 9, &none),
        running_item("SAME.exe", 2, &none),
    ];
    let items = sort_items(running);
    let hwnds: Vec<i32> = items.iter().map(|i| i.hwnd).collect();
    assert_eq!(hwnds, vec![9, 3, 1, 2]);
}

#[test]
fn shorter_name_sorts_before_its_extension() {
    let none = Vec::new();
    let running = vec![running_item("ab.exe", 1, &none), running_item("ab", 2, &none), running_item("a", 3, &none)];
    let items = sort_items(running);
    assert_eq!(names(&items), vec!["a", "ab", "ab.exe"]);
}

#[test]
fn entry_without_process_sorts_after_running_entries() {
    let none = Vec::new();
    let mut stopped = running_item("aaa.exe", 1, &none);
    stopped.is_running = false;
    stopped.process_id = 0;
    let items = sort_items(vec![stopped, running_item("zzz.exe", 2, &none)]);
    assert_eq!(names(&items), vec!["zzz.exe", "aaa.exe"]);
}

#[test]
fn reconciling_twice_gives_the_same_list() {
    let pinned = vec![pin("Beta", "/b"), pin("app", "/a"), pin("Gamma", "")];
    let make = || {
        vec![
            running_item("Zeta.exe", 1, &pinned),
            running_item("app.exe", 2, &pinned),
            running_item("Alpha.exe", 3, &pinned),
        ]
    };
    let first = reconcile(make(), &pinned);
    let second = reconcile(make(), &pinned);
    assert_eq!(first, second);
    assert_eq!(first.len(), 5);
    let again = sort_items(first.clone());
    assert_eq!(again, first);
}

#[test]
fn shortcut_is_looked_up_by_its_lower_case_name() {
    let pinned = vec![pin("MyApp", ""), pin("myapp.exe", ""), pin("Other", "")];
    let running = vec![running_item("MYAPP.EXE", 1, &Vec::new())];
    let items = merge_pinned(running, &pinned);
    assert_eq!(names(&items), vec!["MYAPP.EXE", "myapp.exe.exe", "Other.exe"]);
}

#[test]
fn only_a_trailing_exe_is_stripped_for_the_lookup() {
    let pinned = vec![pin("my.helper", ""), pin("my.exe.helper", "")];
    let running = vec![running_item("my.exe.helper.exe", 1, &Vec::new())];
    let items = merge_pinned(running, &pinned);
    assert_eq!(names(&items), vec!["my.exe.helper.exe", "my.helper.exe"]);
}

#[test]
fn name_without_extension_is_looked_up_as_it_is() {
    let pinned = vec![pin("tool", "")];
    let running = vec![running_item("Tool", 1, &Vec::new())];
    assert_eq!(merge_pinned(running, &pinned).len(), 1);
}

#[test]
fn same_shortcut_twice_gives_two_entries() {
    let pinned = vec![pin("Tool", "/a"), pin("Tool", "/b")];
    let items = reconcile(Vec::new(), &pinned);
    assert_eq!(items.len(), 2);
    assert_eq!(items[0].executable_path, "/a");
    assert_eq!(items[1].executable_path, "/b");
}

#[test]
fn nothing_running_and_nothing_pinned_gives_an_empty_list() {
    assert!(reconcile(Vec::new(), &Vec::new()).is_empty());
    assert!(taskbar_items(&Vec::new(), 0, &Vec::new()).is_empty());
}

#[test]
fn running_flag_follows_process_id_in_every_list() {
    let pinned = vec![pin("Beta", ""), pin("alpha", ""), pin("Gamma", "/g")];
    let mut orphan = window_of("orphan.exe", 5);
    orphan.process_id = 0;
    let windows = vec![window_of("Zeta.exe", 1), orphan, window_of("Alpha.exe", 2)];
    let items = taskbar_items(&windows, 2, &pinned);
    assert_eq!(items.len(), 5);
    for item in &items {
        assert_eq!(item.is_running, item.process_id > 0);
    }
    assert_eq!(names(&items), vec!["Alpha.exe", "Zeta.exe", "Beta.exe", "Gamma.exe", "orphan.exe"]);
    assert!(items[0].is_focused);
    assert!(items[0].is_pinned);
}

#[test]
fn a_tick_lists_the_items_with_its_timestamp() {
    let pinned = vec![pin("Beta", "")];
    let windows = vec![window_of("Zeta.exe", 1), window_of("Alpha.exe", 2)];
    let update = monitor_tick(&windows, 0, &pinned, 1_700_000_000);
    assert_eq!(update.action, "list");
    assert_eq!(update.timestamp, 1_700_000_000);
    assert_eq!(update.items, taskbar_items(&windows, 0, &pinned));
    assert_eq!(update.items.len(), 3);
    let empty = TaskbarUpdate::list(Vec::new(), 0);
    assert_eq!(empty.action, "list");
    assert!(empty.items.is_empty());
    assert_eq!(empty.timestamp, 0);
}
