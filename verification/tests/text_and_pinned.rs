use win_desktop_tools::item::PinnedShortcut;
use win_desktop_tools::pinned::{is_pinned_app, normalize_name, overlap};
use win_desktop_tools::text::{
    chars_of, contains, contains_str, ends_with, equals_str, less_than, lowercase_chars,
    matches_at, same_chars, strip_suffix,
};

fn cs(s: &str) -> Vec<char> {
    s.chars().collect()
}

fn text(v: Vec<char>) -> String {
    v.into_iter().collect()
}

fn pin(name: &str) -> PinnedShortcut {
    PinnedShortcut { name: String::from(name), target: String::new() }
}

#[test]
fn chars_of_gives_every_character() {
    assert_eq!(chars_of(""), Vec::<char>::new());
    assert_eq!(chars_of("aé☃b"), vec!['a', 'é', '☃', 'b']);
}

#[test]
fn lowercase_follows_unicode() {
    assert_eq!(text(lowercase_chars("Hello World.EXE")), "hello world.exe");
    assert_eq!(text(lowercase_chars("ÄÖÜ")), "äöü");
    assert_eq!(text(lowercase_chars("")), "");
    assert_eq!(text(lowercase_chars("already lower 123")), "already lower 123");
}

#[test]
fn contains_agrees_with_str_contains() {
    let samples = ["", "a", "ab", "abc", "NotifyIcon", "xNotifyIconx", "Notify", "aab", "aaab", "é"];
    for hay in samples {
        for needle in samples {
            assert_eq!(contains(&cs(hay), &cs(needle)), hay.contains(needle), "{} {}", hay, needle);
            assert_eq!(contains_str(&cs(hay), needle), hay.contains(needle));
        }
    }
}

#[test]
fn matches_at_checks_one_place() {
    assert!(matches_at(&cs("hello"), &cs("ell"), 1));
    assert!(!matches_at(&cs("hello"), &cs("ell"), 0));
    assert!(matches_at(&cs("hello"), &cs(""), 5));
}

#[test]
fn ends_with_and_strip_suffix() {
    assert!(ends_with(&cs("app.exe"), &cs(".exe")));
    assert!(!ends_with(&cs("app.exes"), &cs(".exe")));
    assert!(!ends_with(&cs("exe"), &cs(".exe")));
    assert!(ends_with(&cs("anything"), &cs("")));
    assert_eq!(text(strip_suffix(cs("app.exe"), &cs(".exe"))), "app");
    assert_eq!(text(strip_suffix(cs("app.exe.exe"), &cs(".exe"))), "app.exe");
    assert_eq!(text(strip_suffix(cs("app"), &cs(".exe"))), "app");
    assert_eq!(text(strip_suffix(cs(".exe"), &cs(".exe"))), "");
}

#[test]
fn equality_of_characters() {
    assert!(same_chars(&cs("abc"), &cs("abc")));
    assert!(!same_chars(&cs("abc"), &cs("abd")));
    assert!(!same_chars(&cs("abc"), &cs("ab")));
    assert!(same_chars(&cs(""), &cs("")));
    assert!(equals_str(&cs("Button"), "Button"));
    assert!(!equals_str(&cs("Button"), "button"));
}

#[test]
fn less_than_agrees_with_str_order() {
    let samples = ["", "a", "ab", "abc", "b", "B", "aa", "é", "z", "zz", "a.exe", "a-b", "\u{10000}", "\u{ffff}"];
    for a in samples {
        for b in samples {
            assert_eq!(less_than(&cs(a), &cs(b)), a < b, "{:?} {:?}", a, b);
        }
    }
}

#[test]
fn normalize_lowers_and_strips_one_exe() {
    assert_eq!(text(normalize_name("App.EXE")), "app");
    assert_eq!(text(normalize_name("app.exe")), "app");
    assert_eq!(text(normalize_name("App")), "app");
    assert_eq!(text(normalize_name("my.exe.tool.exe")), "my.exe.tool");
    assert_eq!(text(normalize_name("a.exe.exe")), "a.exe");
    assert_eq!(text(normalize_name(".exe")), "");
    assert_eq!(text(normalize_name("")), "");
    assert_eq!(text(normalize_name("exe")), "exe");
}

#[test]
fn overlap_holds_in_either_direction() {
    assert!(overlap(&cs("google chrome"), &cs("chrome")));
    assert!(overlap(&cs("chrome"), &cs("google chrome")));
    assert!(!overlap(&cs("chrome"), &cs("firefox")));
    assert!(overlap(&cs(""), &cs("x")));
}

#[test]
fn pinned_match_by_process_name() {
    let pinned = vec![pin("Google Chrome"), pin("Notepad")];
    assert!(is_pinned_app("chrome.exe", &None, &pinned));
    assert!(is_pinned_app("CHROME.EXE", &None, &pinned));
    assert!(is_pinned_app("notepad++.exe", &None, &pinned));
    assert!(!is_pinned_app("firefox.exe", &None, &pinned));
    assert!(!is_pinned_app("firefox.exe", &None, &Vec::new()));
}

#[test]
fn pinned_match_by_file_stem() {
    let pinned = vec![pin("Visual Studio Code")];
    assert!(!is_pinned_app("electron.exe", &None, &pinned));
    assert!(is_pinned_app("electron.exe", &Some(String::from("Code")), &pinned));
    assert!(!is_pinned_app("electron.exe", &Some(String::from("Atom")), &pinned));
}

#[test]
fn empty_normalized_name_matches_every_shortcut() {
    assert!(is_pinned_app(".exe", &None, &vec![pin("Anything")]));
    assert!(!is_pinned_app(".exe", &None, &Vec::new()));
}

#[test]
fn link_files_give_shortcuts() {
    let made = PinnedShortcut::from_link_file("Notepad.lnk", Some(String::from("C:\\Windows\\notepad.exe")));
    assert_eq!(made, Some(PinnedShortcut { name: String::from("Notepad"), target: String::from("C:\\Windows\\notepad.exe") }));
    let unresolved = PinnedShortcut::from_link_file("My App.v2.lnk", None);
    assert_eq!(unresolved, Some(PinnedShortcut { name: String::from("My App.v2"), target: String::new() }));
    let wide = PinnedShortcut::from_link_file("Прога.lnk", None);
    assert_eq!(wide, Some(PinnedShortcut { name: String::from("Прога"), target: String::new() }));
}

#[test]
fn other_files_give_no_shortcut() {
    for name in [".lnk", "lnk", "Notepad.LNK", "Notepad.lnk.txt", "Notepad", "Notepad.", "", "desktop.ini", "a.lnk "] {
        assert_eq!(PinnedShortcut::from_link_file(name, Some(String::from("x"))), None, "{}", name);
    }
}
