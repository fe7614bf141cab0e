//! Merging the running windows with the pinned shortcuts into one ordered
//! list.

use vstd::prelude::*;
use vstd::string::StringExecFns;
use crate::item::ClassifiedItem;
use crate::item::DisplayLocation;
use crate::item::ItemType;
use crate::item::ItemView;
use crate::item::PinnedShortcut;
use crate::item::PinnedView;
use crate::item::WindowState;
use crate::item::item_views;
use crate::item::pinned_views;
use crate::order::lemma_inserted_at;
use crate::order::lemma_sorted_contains;
use crate::order::lemma_sorted_is_ordered;
use crate::order::lemma_sorted_same_entries;
use crate::order::ordered;
use crate::order::sort_name;
use crate::order::sorts_before;
use crate::order::stable_sorted;
use crate::pinned::normalize_name;
use crate::pinned::normalized_name;
use crate::text::less_than;
use crate::text::lex_less;
use crate::text::lowercase_chars;
use crate::text::lowercased;
use crate::text::same_chars;
use crate::window::RawWindowAttributes;
use crate::window::collect_running;
use crate::window::entries_for;

verus! {

/// Some running entry has the normalized process name `name`.
pub open spec fn name_is_running(running: Seq<ItemView>, name: Seq<char>) -> bool {
    exists|i: int| 0 <= i < running.len() && #[trigger] normalized_name(running[i].process_name) == name
}

/// The test that a shortcut passes when no running entry goes by its name:
/// its display name in lower case is the normalized process name of none.
pub open spec fn not_running(running: Seq<ItemView>) -> spec_fn(PinnedView) -> bool {
    |p: PinnedView| !name_is_running(running, lowercased(p.name))
}

/// The entry that stands for a pinned shortcut without a running window.
pub open spec fn pinned_only_item(p: PinnedView) -> ItemView {
    ItemView {
        title: p.name,
        process_name: p.name + ".exe"@,
        process_id: 0,
        hwnd: 0,
        is_visible: false,
        is_minimized: false,
        is_maximized: false,
        class_name: Seq::empty(),
        has_taskbar_button: true,
        window_state: WindowState::PinnedOnly,
        is_pinned: true,
        executable_path: p.target,
        item_type: ItemType::Pinned,
        is_tray_icon: false,
        is_focused: false,
        is_running: false,
        is_definitely_taskbar: true,
        is_definitely_tray: false,
        is_system_window: false,
        display_location: DisplayLocation::Taskbar,
    }
}

/// The entries for the shortcuts of `pinned` that no running entry goes by,
/// in the order of `pinned`.
pub open spec fn pinned_only_items(running: Seq<ItemView>, pinned: Seq<PinnedView>) -> Seq<
    ItemView,
> {
    pinned.filter(not_running(running)).map_values(|p: PinnedView| pinned_only_item(p))
}

/// The running entries followed by the pinned-only entries.
pub open spec fn merged(running: Seq<ItemView>, pinned: Seq<PinnedView>) -> Seq<ItemView> {
    running + pinned_only_items(running, pinned)
}

/// The list for one pass: the merged entries in order.
pub open spec fn reconciled(running: Seq<ItemView>, pinned: Seq<PinnedView>) -> Seq<ItemView> {
    stable_sorted(merged(running, pinned))
}

/// The order of [`sorts_before`], on the running flags and the lower-case
/// names of two entries.
fn key_before(a_running: bool, a_name: &Vec<char>, b_running: bool, b_name: &Vec<char>) -> (r: bool)
    ensures
        r == (if a_running != b_running {
            a_running
        } else {
            lex_less(a_name@, b_name@)
        }),
{
    if a_running != b_running {
        a_running
    } else {
        less_than(a_name, b_name)
    }
}

/// Whether `name` is one of `names`.
fn holds_name(names: &Vec<Vec<char>>, name: &Vec<char>) -> (r: bool)
    ensures
        r == exists|i: int| 0 <= i < names.len() && #[trigger] names[i]@ == name@,
{
    let mut i: usize = 0;
    while i < names.len()
        invariant
            i <= names.len(),
            forall|j: int| 0 <= j < i ==> names[j]@ != name@,
        decreases names.len() - i,
    {
        if same_chars(&names[i], name) {
            return true;
        }
        i += 1;
    }
    false
}

/// The entry that stands for a pinned shortcut without a running window.
pub fn pinned_only(shortcut: &PinnedShortcut) -> (item: ClassifiedItem)
    ensures
        item@ == pinned_only_item(shortcut@),
        item@.consistent(),
        item@.type_matches_flags(),
{
    ClassifiedItem {
        title: shortcut.name.clone(),
        process_name: shortcut.name.clone().concat(".exe"),
        process_id: 0,
        hwnd: 0,
        is_visible: false,
        is_minimized: false,
        is_maximized: false,
        class_name: String::new(),
        has_taskbar_button: true,
        window_state: WindowState::PinnedOnly,
        is_pinned: true,
        executable_path: shortcut.target.clone(),
        item_type: ItemType::Pinned,
        is_tray_icon: false,
        is_focused: false,
        is_running: false,
        is_definitely_taskbar: true,
        is_definitely_tray: false,
        is_system_window: false,
        display_location: DisplayLocation::Taskbar,
    }
}

/// Appends to the running entries one pinned-only entry for each shortcut
/// that no running entry goes by.
pub fn merge_pinned(running: Vec<ClassifiedItem>, pinned: &Vec<PinnedShortcut>) -> (items: Vec<
    ClassifiedItem,
>)
    ensures
        item_views(items@) == merged(item_views(running@), pinned_views(pinned@)),
{
    let ghost run = item_views(running@);
    let ghost pins = pinned_views(pinned@);
    let mut names: Vec<Vec<char>> = Vec::new();
    let mut i: usize = 0;
    while i < running.len()
        invariant
            i <= running.len(),
            run == item_views(running@),
            names.len() == i,
            forall|j: int| 0 <= j < i ==> #[trigger] names[j]@ == normalized_name(run[j].process_name),
        decreases running.len() - i,
    {
        let name = normalize_name(running[i].process_name.as_str());
        names.push(name);
        i += 1;
    }
    let mut items = running;
    let mut k: usize = 0;
    assert(pins.take(0).filter(not_running(run)) =~= Seq::<PinnedView>::empty()) by {
        reveal(Seq::filter);
    }
    assert(item_views(items@) =~= merged(run, pins.take(0)));
    while k < pinned.len()
        invariant
            k <= pinned.len(),
            pins == pinned_views(pinned@),
            names.len() == run.len(),
            forall|j: int|
                0 <= j < names.len() ==> #[trigger] names[j]@ == normalized_name(
                    run[j].process_name,
                ),
            item_views(items@) == merged(run, pins.take(k as int)),
        decreases pinned.len() - k,
    {
        let shortcut = &pinned[k];
        let lower = lowercase_chars(shortcut.name.as_str());
        let found = holds_name(&names, &lower);
        proof {
            let p = pins[k as int];
            assert(p == shortcut@);
            assert(pins.take(k + 1) == pins.take(k as int).push(p));
            pins.take(k as int).lemma_filter_push(p, not_running(run));
            if found {
                let j = choose|j: int| 0 <= j < names.len() && #[trigger] names[j]@ == lower@;
                assert(normalized_name(run[j].process_name) == lowercased(p.name));
                assert(name_is_running(run, lowercased(p.name)));
            } else {
                if name_is_running(run, lowercased(p.name)) {
                    let j = choose|j: int|
                        0 <= j < run.len() && #[trigger] normalized_name(run[j].process_name)
                            == lowercased(p.name);
                    assert(names[j]@ == lower@);
                }
            }
            assert(not_running(run)(p) == !found);
        }
        if !found {
            let item = pinned_only(shortcut);
            let ghost before = item_views(items@);
            items.push(item);
            assert(item_views(items@) =~= before.push(item@));
            assert(merged(run, pins.take(k + 1)) =~= merged(run, pins.take(k as int)).push(
                pinned_only_item(pins[k as int]),
            ));
        }
        k += 1;
    }
    assert(pins.take(pinned.len() as int) == pins);
    items
}

/// Brings the entries into the order of the list. Entries that the order
/// does not tell apart stay in the order in which they came.
pub fn sort_items(items: Vec<ClassifiedItem>) -> (out: Vec<ClassifiedItem>)
    ensures
        item_views(out@) == stable_sorted(item_views(items@)),
{
    let ghost input = item_views(items@);
    let mut rest = items;
    let mut out: Vec<ClassifiedItem> = Vec::new();
    let mut keys: Vec<Vec<char>> = Vec::new();
    let ghost mut done: int = 0;
    assert(input.take(0) =~= Seq::<ItemView>::empty());
    assert(item_views(out@) =~= stable_sorted(input.take(0)));
    while rest.len() > 0
        invariant
            0 <= done <= input.len(),
            item_views(rest@) == input.skip(done),
            item_views(out@) == stable_sorted(input.take(done)),
            keys.len() == out.len(),
            forall|j: int| 0 <= j < out.len() ==> #[trigger] keys[j]@ == sort_name(out[j]@),
        decreases rest.len(),
    {
        let ghost rest_before = item_views(rest@);
        let ghost rest_items = rest@;
        let item = rest.remove(0);
        let key = lowercase_chars(item.process_name.as_str());
        let ghost x = item@;
        let ghost sorted = item_views(out@);
        proof {
            assert(rest_before.len() == input.skip(done).len());
            assert(done < input.len());
            assert(x == rest_before[0]);
            assert(input.skip(done)[0] == input[done]);
            assert(x == input[done]);
            assert forall|j: int| 0 <= j < rest@.len() implies item_views(rest@)[j] == input.skip(
                done + 1,
            )[j] by {
                assert(rest@[j] == rest_items[j + 1]);
                assert(rest_before[j + 1] == rest_items[j + 1]@);
                assert(input.skip(done)[j + 1] == input[done + 1 + j]);
            }
            assert(item_views(rest@) =~= input.skip(done + 1));
            assert(input.take(done + 1).drop_last() == input.take(done));
        }
        let mut p: usize = out.len();
        while p > 0 && key_before(item.is_running, &key, out[p - 1].is_running, &keys[p - 1])
            invariant
                p <= out.len(),
                keys.len() == out.len(),
                key@ == sort_name(x),
                x == item@,
                sorted == item_views(out@),
                forall|j: int| 0 <= j < out.len() ==> #[trigger] keys[j]@ == sort_name(out[j]@),
                forall|j: int| p <= j < sorted.len() ==> sorts_before(x, #[trigger] sorted[j]),
            decreases p,
        {
            p -= 1;
        }
        proof {
            if p > 0 {
                assert(sorted[p - 1] == out[p - 1]@);
            }
            lemma_inserted_at(sorted, x, p as int);
        }
        out.insert(p, item);
        keys.insert(p, key);
        proof {
            assert(item_views(out@) =~= sorted.insert(p as int, x));
            done = done + 1;
        }
    }
    assert(input.take(input.len() as int) == input);
    out
}

/// The list for one pass: the running entries, one pinned-only entry for
/// each shortcut that no running entry goes by, all in the order of the
/// list.
pub fn reconcile(running: Vec<ClassifiedItem>, pinned: &Vec<PinnedShortcut>) -> (items: Vec<
    ClassifiedItem,
>)
    ensures
        item_views(items@) == reconciled(item_views(running@), pinned_views(pinned@)),
{
    sort_items(merge_pinned(running, pinned))
}

/// The list of one pass over the windows that the window system reports:
/// the running entries of [`collect_running`], reconciled with the pinned
/// shortcuts.
pub fn taskbar_items(
    windows: &Vec<RawWindowAttributes>,
    foreground: i32,
    pinned: &Vec<PinnedShortcut>,
) -> (items: Vec<ClassifiedItem>)
    ensures
        exists|running: Seq<ItemView>|
            {
                &&& entries_for(running, windows@, foreground, pinned_views(pinned@))
                &&& item_views(items@) == #[trigger] reconciled(running, pinned_views(pinned@))
            },
        ordered(item_views(items@)),
        forall|i: int| 0 <= i < items.len() ==> (#[trigger] items[i]@).running_matches_process(),
        forall|i: int| 0 <= i < items.len() ==> (#[trigger] items[i]@).consistent(),
        forall|i: int|
            0 <= i < items.len() && (items[i].is_running || items[i].window_state
                == WindowState::PinnedOnly) ==> (#[trigger] items[i]@).type_matches_flags(),
{
    let running = collect_running(windows, foreground, pinned);
    let ghost run = item_views(running@);
    let ghost pins = pinned_views(pinned@);
    let items = reconcile(running, pinned);
    proof {
        lemma_sorted_is_ordered(merged(run, pins));
        assert forall|i: int| 0 <= i < items.len() implies (#[trigger] items[i]@).consistent() && ((
        items[i].is_running || items[i].window_state == WindowState::PinnedOnly)
            ==> items[i]@.type_matches_flags()) by {
            let x = items[i]@;
            assert(item_views(items@)[i] == x);
            assert(reconciled(run, pins).contains(x));
            lemma_reconciled_entries(run, pins, x);
            lemma_pinned_only_entries(run, pins, x);
            if run.contains(x) {
                let j = choose|j: int| 0 <= j < run.len() && run[j] == x;
                assert(run[j] == running@[j]@);
            }
        }
    }
    items
}

/// The entries of the pinned-only part: exactly the entries that stand for a
/// shortcut that no running entry goes by. A shortcut whose lower-case name is
/// the normalized process name of a running entry gets no entry of its own.
pub proof fn lemma_pinned_only_entries(running: Seq<ItemView>, pinned: Seq<PinnedView>, x: ItemView)
    ensures
        pinned_only_items(running, pinned).contains(x) <==> exists|i: int|
            0 <= i < pinned.len() && !name_is_running(running, lowercased(pinned[i].name)) && x
                == pinned_only_item(#[trigger] pinned[i]),
{
    let f = not_running(running);
    let kept = pinned.filter(f);
    let made = pinned_only_items(running, pinned);
    if made.contains(x) {
        let k = choose|k: int| 0 <= k < made.len() && made[k] == x;
        let p = kept[k];
        pinned.lemma_filter_pred(f, k);
        assert(kept.contains(p));
        pinned.lemma_filter_contains_rev(f, p);
        let i = choose|i: int| 0 <= i < pinned.len() && pinned[i] == p;
        assert(!name_is_running(running, lowercased(pinned[i].name)) && x == pinned_only_item(
            pinned[i],
        ));
    }
    if exists|i: int|
        0 <= i < pinned.len() && !name_is_running(running, lowercased(pinned[i].name)) && x
            == pinned_only_item(#[trigger] pinned[i]) {
        let i = choose|i: int|
            0 <= i < pinned.len() && !name_is_running(running, lowercased(pinned[i].name)) && x
                == pinned_only_item(#[trigger] pinned[i]);
        pinned.lemma_filter_contains(f, i);
        let k = choose|k: int| 0 <= k < kept.len() && kept[k] == pinned[i];
        assert(made[k] == x);
    }
}

/// The entries of the list: the running entries and the pinned-only entries,
/// no others.
pub proof fn lemma_reconciled_entries(running: Seq<ItemView>, pinned: Seq<PinnedView>, x: ItemView)
    ensures
        reconciled(running, pinned).contains(x) <==> (running.contains(x) || pinned_only_items(
            running,
            pinned,
        ).contains(x)),
{
    let extra = pinned_only_items(running, pinned);
    lemma_sorted_contains(merged(running, pinned), x);
    if running.contains(x) {
        let j = choose|j: int| 0 <= j < running.len() && running[j] == x;
        assert(merged(running, pinned)[j] == x);
    }
    if extra.contains(x) {
        let j = choose|j: int| 0 <= j < extra.len() && extra[j] == x;
        assert(merged(running, pinned)[running.len() + j] == x);
    }
    if merged(running, pinned).contains(x) {
        let j = choose|j: int| 0 <= j < merged(running, pinned).len() && merged(running, pinned)[j] == x;
        if j < running.len() {
            assert(running[j] == x);
        } else {
            assert(extra[j - running.len()] == x);
        }
    }
}

/// With nothing running, the list holds one pinned-only entry for each
/// shortcut and nothing else.
pub proof fn lemma_nothing_running(pinned: Seq<PinnedView>)
    ensures
        pinned_only_items(Seq::<ItemView>::empty(), pinned) == pinned.map_values(
            |p: PinnedView| pinned_only_item(p),
        ),
        reconciled(Seq::<ItemView>::empty(), pinned).len() == pinned.len(),
        forall|i: int|
            0 <= i < pinned.len() ==> reconciled(Seq::<ItemView>::empty(), pinned).contains(
                pinned_only_item(#[trigger] pinned[i]),
            ),
{
    let none = Seq::<ItemView>::empty();
    lemma_keeps_all(pinned);
    assert forall|i: int| 0 <= i < pinned.len() implies reconciled(none, pinned).contains(
        pinned_only_item(#[trigger] pinned[i]),
    ) by {
        let x = pinned_only_item(pinned[i]);
        assert(pinned_only_items(none, pinned)[i] == x);
        lemma_reconciled_entries(none, pinned, x);
    }
    lemma_reconciled_len(none, pinned);
}

/// With nothing running, every shortcut passes the test of [`not_running`].
proof fn lemma_keeps_all(pinned: Seq<PinnedView>)
    ensures
        pinned.filter(not_running(Seq::<ItemView>::empty())) == pinned,
    decreases pinned.len(),
{
    reveal(Seq::filter);
    if pinned.len() > 0 {
        lemma_keeps_all(pinned.drop_last());
        assert(pinned.drop_last().push(pinned.last()) == pinned);
    }
}

/// The list has one entry for each running entry and one for each shortcut
/// that no running entry goes by.
pub proof fn lemma_reconciled_len(running: Seq<ItemView>, pinned: Seq<PinnedView>)
    ensures
        reconciled(running, pinned).len() == running.len() + pinned_only_items(
            running,
            pinned,
        ).len(),
{
    lemma_sorted_same_entries(merged(running, pinned));
}

/// In every list, an entry is running exactly when it has a process, given
/// that this holds of the running entries that the list was made from.
pub proof fn lemma_reconciled_running_matches_process(
    running: Seq<ItemView>,
    pinned: Seq<PinnedView>,
)
    requires
        forall|i: int| 0 <= i < running.len() ==> (#[trigger] running[i]).running_matches_process(),
    ensures
        forall|i: int|
            0 <= i < reconciled(running, pinned).len() ==> (#[trigger] reconciled(
                running,
                pinned,
            )[i]).running_matches_process(),
{
    let list = reconciled(running, pinned);
    assert forall|i: int| 0 <= i < list.len() implies (#[trigger] list[i]).running_matches_process() by {
        let x = list[i];
        assert(list.contains(x));
        lemma_reconciled_entries(running, pinned, x);
        lemma_pinned_only_entries(running, pinned, x);
    }
}

/// The list is ordered: running entries first, then the pinned-only ones,
/// each group by ascending lower-case process name.
pub proof fn lemma_reconciled_is_ordered(running: Seq<ItemView>, pinned: Seq<PinnedView>)
    ensures
        ordered(reconciled(running, pinned)),
{
    lemma_sorted_is_ordered(merged(running, pinned));
}

/// Reconciling the same running entries and the same shortcuts again gives
/// the same list, entry for entry and field for field.
pub proof fn lemma_reconcile_repeatable(
    running_a: Seq<ClassifiedItem>,
    pinned_a: Seq<PinnedShortcut>,
    list_a: Seq<ClassifiedItem>,
    running_b: Seq<ClassifiedItem>,
    pinned_b: Seq<PinnedShortcut>,
    list_b: Seq<ClassifiedItem>,
)
    requires
        item_views(running_a) == item_views(running_b),
        pinned_views(pinned_a) == pinned_views(pinned_b),
        item_views(list_a) == reconciled(item_views(running_a), pinned_views(pinned_a)),
        item_views(list_b) == reconciled(item_views(running_b), pinned_views(pinned_b)),
    ensures
        list_a.len() == list_b.len(),
        forall|i: int| 0 <= i < list_a.len() ==> (#[trigger] list_a[i])@ == list_b[i]@,
{
    assert(item_views(list_a).len() == list_a.len());
    assert(item_views(list_b).len() == list_b.len());
    assert forall|i: int| 0 <= i < list_a.len() implies (#[trigger] list_a[i])@ == list_b[i]@ by {
        assert(item_views(list_a)[i] == list_a[i]@);
        assert(item_views(list_b)[i] == list_b[i]@);
    }
}

} // verus!
