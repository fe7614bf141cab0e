//! What one monitoring tick hands to whoever writes it out.

use vstd::prelude::*;
use vstd::string::StringExecFns;
use crate::item::ClassifiedItem;
use crate::item::ItemView;
use crate::item::PinnedShortcut;
use crate::item::item_views;
use crate::item::pinned_views;
use crate::order::ordered;
use crate::reconcile::reconciled;
use crate::reconcile::taskbar_items;
use crate::window::RawWindowAttributes;
use crate::window::entries_for;

verus! {

/// The list of one tick with the time at which it was made.
#[derive(Clone, Debug, PartialEq, Eq)]
pub struct TaskbarUpdate {
    /// What the update is; a full list goes by `list`.
    pub action: String,
    pub items: Vec<ClassifiedItem>,
    /// Seconds since the Unix epoch.
    pub timestamp: u64,
}

impl TaskbarUpdate {
    /// The update that lists all entries.
    pub fn list(items: Vec<ClassifiedItem>, timestamp: u64) -> (update: TaskbarUpdate)
        ensures
            update.action@ == "list"@,
            update.items == items,
            update.timestamp == timestamp,
    {
        TaskbarUpdate { action: String::from_str("list"), items, timestamp }
    }
}

/// One tick of the monitor: from what the window system and the shortcut
/// directory report at `timestamp` to the update to write out. Nothing is
/// kept from one tick to the next.
pub fn monitor_tick(
    windows: &Vec<RawWindowAttributes>,
    foreground: i32,
    pinned: &Vec<PinnedShortcut>,
    timestamp: u64,
) -> (update: TaskbarUpdate)
    ensures
        update.action@ == "list"@,
        update.timestamp == timestamp,
        exists|running: Seq<ItemView>|
            {
                &&& entries_for(running, windows@, foreground, pinned_views(pinned@))
                &&& item_views(update.items@) == #[trigger] reconciled(
                    running,
                    pinned_views(pinned@),
                )
            },
        ordered(item_views(update.items@)),
        forall|i: int|
            0 <= i < update.items.len() ==> (#[trigger] update.items[i]@).consistent(),
{
    TaskbarUpdate::list(taskbar_items(windows, foreground, pinned), timestamp)
}

} // verus!
