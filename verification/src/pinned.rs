//! Matching running processes against pinned shortcuts.
//!
//! The match is a deliberately loose heuristic: names are compared in lower
//! case, and a shortcut matches when its display name and the process name
//! (or the executable's file stem) contain one another. Unrelated programs
//! that share a short name therefore match too.

use vstd::prelude::*;
use vstd::string::StrSliceExecFns;
use vstd::string::StringExecFns;
use crate::item::PinnedShortcut;
use crate::item::PinnedView;
use crate::item::pinned_views;
use crate::text::chars_of;
use crate::text::contains;
use crate::text::contains_seq;
use crate::text::ends_with;
use crate::text::ends_with_seq;
use crate::text::lowercase_chars;
use crate::text::lowercased;
use crate::text::strip_suffix;
use crate::text::without_suffix;

verus! {

/// A process name in the form under which it is looked up: in lower case,
/// without one trailing `.exe`. A name without that extension is kept as it
/// is.
pub open spec fn normalized_name(name: Seq<char>) -> Seq<char> {
    without_suffix(lowercased(name), ".exe"@)
}

/// One of the two strings contains the other.
pub open spec fn overlaps(a: Seq<char>, b: Seq<char>) -> bool {
    contains_seq(a, b) || contains_seq(b, a)
}

/// The shortcut named `shortcut` matches a process by its name, or by the
/// file stem of its executable where there is one.
pub open spec fn shortcut_matches(
    shortcut: Seq<char>,
    process_name: Seq<char>,
    stem: Option<Seq<char>>,
) -> bool {
    ||| overlaps(lowercased(shortcut), normalized_name(process_name))
    ||| (stem matches Some(st) && overlaps(lowercased(shortcut), lowercased(st)))
}

/// Some shortcut of `pinned` matches the process.
pub open spec fn pinned_matches(
    pinned: Seq<PinnedView>,
    process_name: Seq<char>,
    stem: Option<Seq<char>>,
) -> bool {
    exists|i: int|
        0 <= i < pinned.len() && #[trigger] shortcut_matches(pinned[i].name, process_name, stem)
}

/// The name that a file of the pinned-shortcut directory gives its shortcut:
/// what stands before a final `.lnk`, if anything stands there.
pub open spec fn link_display_name(file_name: Seq<char>) -> Option<Seq<char>> {
    if ends_with_seq(file_name, ".lnk"@) && file_name.len() > 4 {
        Some(file_name.take(file_name.len() - 4))
    } else {
        None
    }
}

/// The view of an optional string.
pub open spec fn optional_text(text: Option<String>) -> Option<Seq<char>> {
    match text {
        Some(t) => Some(t@),
        None => None,
    }
}

/// Normalizes a process name for lookup.
pub fn normalize_name(name: &str) -> (r: Vec<char>)
    ensures
        r@ == normalized_name(name@),
{
    let lower = lowercase_chars(name);
    let suffix = chars_of(".exe");
    strip_suffix(lower, &suffix)
}

/// Whether one of the two strings contains the other.
pub fn overlap(a: &Vec<char>, b: &Vec<char>) -> (r: bool)
    ensures
        r == overlaps(a@, b@),
{
    contains(a, b) || contains(b, a)
}

/// Whether a process matches one of the pinned shortcuts. `stem` is the file
/// stem of the process's executable path, if the path has one.
pub fn is_pinned_app(process_name: &str, stem: &Option<String>, pinned: &Vec<PinnedShortcut>) -> (r:
    bool)
    ensures
        r == pinned_matches(pinned_views(pinned@), process_name@, optional_text(*stem)),
{
    let name = normalize_name(process_name);
    let stem_lower: Option<Vec<char>> = match stem {
        Some(st) => Some(lowercase_chars(st.as_str())),
        None => None,
    };
    let ghost views = pinned_views(pinned@);
    let ghost stem_view = optional_text(*stem);
    let mut i: usize = 0;
    while i < pinned.len()
        invariant
            i <= pinned.len(),
            views == pinned_views(pinned@),
            stem_view == optional_text(*stem),
            name@ == normalized_name(process_name@),
            match stem_lower {
                Some(lower) => stem_view matches Some(st) && lower@ == lowercased(st),
                None => stem_view is None,
            },
            forall|j: int| 0 <= j < i ==> !shortcut_matches(views[j].name, process_name@, stem_view),
        decreases pinned.len() - i,
    {
        let shortcut = lowercase_chars(pinned[i].name.as_str());
        assert(views[i as int].name == pinned@[i as int].name@);
        if overlap(&shortcut, &name) {
            assert(shortcut_matches(views[i as int].name, process_name@, stem_view));
            return true;
        }
        match &stem_lower {
            Some(lower) => {
                if overlap(&shortcut, lower) {
                    assert(shortcut_matches(views[i as int].name, process_name@, stem_view));
                    return true;
                }
            },
            None => {},
        }
        i += 1;
    }
    false
}

impl PinnedShortcut {
    /// The shortcut that a file of the pinned-shortcut directory stands for.
    /// Only files named `<name>.lnk` with a non-empty name count; `target` is
    /// the executable that the link resolves to, if it could be read.
    pub fn from_link_file(file_name: &str, target: Option<String>) -> (r: Option<PinnedShortcut>)
        ensures
            match link_display_name(file_name@) {
                Some(name) => r matches Some(p) && p@.name == name && p@.target == (match target {
                    Some(t) => t@,
                    None => Seq::<char>::empty(),
                }),
                None => r is None,
            },
    {
        let chars = chars_of(file_name);
        let extension = chars_of(".lnk");
        proof {
            reveal_strlit(".lnk");
        }
        if chars.len() > 4 && ends_with(&chars, &extension) {
            let name = file_name.substring_char(0, chars.len() - 4);
            let target = match target {
                Some(t) => t,
                None => String::new(),
            };
            Some(PinnedShortcut { name: String::from_str(name), target })
        } else {
            None
        }
    }
}

} // verus!
