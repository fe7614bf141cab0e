//! Decision logic for a set of Windows desktop utilities: classifying
//! top-level windows for a taskbar-like list, reconciling them with pinned
//! shortcuts, and the small state machines around them.

pub mod capture;
pub mod control;
pub mod icon;
pub mod item;
pub mod media;
pub mod order;
pub mod pinned;
pub mod reconcile;
pub mod snapshot;
pub mod taskbar;
pub mod text;
pub mod window;
