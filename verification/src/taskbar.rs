//! The state of a manager that keeps the system taskbar hidden and reports
//! when the mouse enters or leaves the strip where the taskbar would be.
//!
//! The manager decides; its caller acts. The caller hides and shows the
//! windows, reads the mouse and the clock, and forwards the events that the
//! manager hands out.

use vstd::prelude::*;
use vstd::string::StringExecFns;

verus! {

/// Height, in pixels, of the strip at the bottom of the screen that counts as
/// the taskbar area.
pub const TASKBAR_AREA_HEIGHT: i32 = 50;

/// A position of the mouse on the screen.
#[derive(Clone, Copy, Debug, PartialEq, Eq, Structural)]
pub struct MousePosition {
    pub x: i32,
    pub y: i32,
}

/// Something that happened to the taskbar or the mouse.
#[derive(Clone, Debug, PartialEq, Eq)]
pub struct TaskbarEvent {
    pub event_type: String,
    /// Nanoseconds since the Unix epoch, UTC, as the caller's clock gave them.
    pub timestamp: i64,
    pub mouse_position: MousePosition,
    pub taskbar_state: String,
}

/// The mathematical value of a [`TaskbarEvent`].
pub struct EventView {
    pub event_type: Seq<char>,
    pub timestamp: i64,
    pub mouse_position: MousePosition,
    pub taskbar_state: Seq<char>,
}

impl View for TaskbarEvent {
    type V = EventView;

    open spec fn view(&self) -> EventView {
        EventView {
            event_type: self.event_type@,
            timestamp: self.timestamp,
            mouse_position: self.mouse_position,
            taskbar_state: self.taskbar_state@,
        }
    }
}

/// The view of an optional event.
pub open spec fn optional_event(event: Option<TaskbarEvent>) -> Option<EventView> {
    match event {
        Some(e) => Some(e@),
        None => None,
    }
}

/// Why a manager could not be made.
#[derive(Clone, Copy, Debug, PartialEq, Eq, Structural)]
pub enum TaskbarError {
    /// The system has no taskbar window.
    WindowNotFound,
}

impl TaskbarError {
    /// The error in words.
    pub fn message(&self) -> (text: String)
        ensures
            text@ == "Taskbar window not found"@,
    {
        String::from_str("Taskbar window not found")
    }
}

/// What a manager knows.
pub struct ManagerState {
    /// The taskbar window.
    pub taskbar_hwnd: isize,
    /// The taskbar is hidden.
    pub is_hidden: bool,
    /// The mouse was in the taskbar area when it was last looked at.
    pub last_mouse_in_taskbar: bool,
}

/// Keeps track of whether the taskbar is hidden and where the mouse was.
#[derive(Debug)]
pub struct TaskbarManager {
    taskbar_hwnd: isize,
    is_hidden: bool,
    last_mouse_in_taskbar: bool,
}

impl View for TaskbarManager {
    type V = ManagerState;

    closed spec fn view(&self) -> ManagerState {
        ManagerState {
            taskbar_hwnd: self.taskbar_hwnd,
            is_hidden: self.is_hidden,
            last_mouse_in_taskbar: self.last_mouse_in_taskbar,
        }
    }
}

/// The mouse is in the strip at the bottom of a screen of the given height.
pub open spec fn in_taskbar_area(pos: MousePosition, screen_height: i32) -> bool {
    pos.y >= screen_height - TASKBAR_AREA_HEIGHT
}

/// The event with the given type and state.
pub open spec fn event_of(
    event_type: Seq<char>,
    taskbar_state: Seq<char>,
    mouse: MousePosition,
    now: i64,
) -> EventView {
    EventView { event_type, timestamp: now, mouse_position: mouse, taskbar_state }
}

/// The event that a look at the mouse gives: a request to show the taskbar
/// when the mouse has entered the taskbar area, a request to hide it when the
/// mouse has left, and none while it stays where it was.
pub open spec fn mouse_event(was_inside: bool, inside: bool, mouse: MousePosition, now: i64) -> Option<
    EventView,
> {
    if inside && !was_inside {
        Some(event_of("mouse_request_show"@, "hidden_show_requested"@, mouse, now))
    } else if !inside && was_inside {
        Some(event_of("mouse_request_hide"@, "hidden_maintained"@, mouse, now))
    } else {
        None
    }
}

/// Builds an event.
fn make_event(event_type: &str, taskbar_state: &str, mouse: MousePosition, now: i64) -> (event:
    TaskbarEvent)
    ensures
        event@ == event_of(event_type@, taskbar_state@, mouse, now),
{
    TaskbarEvent {
        event_type: String::from_str(event_type),
        timestamp: now,
        mouse_position: mouse,
        taskbar_state: String::from_str(taskbar_state),
    }
}

impl TaskbarManager {
    /// A manager for the taskbar window that was found, if one was found. The
    /// taskbar counts as shown and the mouse as outside the taskbar area.
    pub fn new(taskbar_hwnd: Option<isize>) -> (r: Result<TaskbarManager, TaskbarError>)
        ensures
            match taskbar_hwnd {
                Some(hwnd) => r matches Ok(manager) && manager@ == (ManagerState {
                    taskbar_hwnd: hwnd,
                    is_hidden: false,
                    last_mouse_in_taskbar: false,
                }),
                None => r == Err::<TaskbarManager, TaskbarError>(TaskbarError::WindowNotFound),
            },
    {
        match taskbar_hwnd {
            Some(hwnd) => Ok(
                TaskbarManager { taskbar_hwnd: hwnd, is_hidden: false, last_mouse_in_taskbar: false },
            ),
            None => Err(TaskbarError::WindowNotFound),
        }
    }

    /// The taskbar window.
    pub fn taskbar_hwnd(&self) -> (hwnd: isize)
        ensures
            hwnd == self@.taskbar_hwnd,
    {
        self.taskbar_hwnd
    }

    /// Whether the taskbar is hidden.
    pub fn is_hidden(&self) -> (hidden: bool)
        ensures
            hidden == self@.is_hidden,
    {
        self.is_hidden
    }

    /// Records that the taskbar windows of all monitors were hidden, and
    /// gives the event that says so.
    pub fn hide_taskbar(&mut self, mouse: MousePosition, now: i64) -> (event: TaskbarEvent)
        ensures
            final(self)@ == (ManagerState { is_hidden: true, ..old(self)@ }),
            event@ == event_of(
                "taskbar_hidden"@,
                "hidden_aggressive_mode_all_monitors"@,
                mouse,
                now,
            ),
    {
        self.is_hidden = true;
        make_event("taskbar_hidden", "hidden_aggressive_mode_all_monitors", mouse, now)
    }

    /// Records that the taskbar window was shown, and gives the event that
    /// says so.
    pub fn show_taskbar(&mut self, mouse: MousePosition, now: i64) -> (event: TaskbarEvent)
        ensures
            final(self)@ == (ManagerState { is_hidden: false, ..old(self)@ }),
            event@ == event_of("taskbar_shown"@, "visible"@, mouse, now),
    {
        self.is_hidden = false;
        make_event("taskbar_shown", "visible", mouse, now)
    }

    /// Whether the mouse is in the taskbar area of a screen of the given
    /// height: within 50 pixels of its bottom edge, or below.
    pub fn is_mouse_in_taskbar_area(pos: MousePosition, screen_height: i32) -> (inside: bool)
        ensures
            inside == in_taskbar_area(pos, screen_height),
    {
        pos.y as i64 >= screen_height as i64 - TASKBAR_AREA_HEIGHT as i64
    }

    /// Looks at the mouse. Reports when it has entered or left the taskbar
    /// area since the last look; the taskbar itself stays as it is.
    pub fn check_mouse_events(&mut self, pos: MousePosition, screen_height: i32, now: i64) -> (event:
        Option<TaskbarEvent>)
        ensures
            final(self)@ == (ManagerState {
                last_mouse_in_taskbar: in_taskbar_area(pos, screen_height),
                ..old(self)@
            }),
            optional_event(event) == mouse_event(
                old(self)@.last_mouse_in_taskbar,
                in_taskbar_area(pos, screen_height),
                pos,
                now,
            ),
    {
        let inside = Self::is_mouse_in_taskbar_area(pos, screen_height);
        let event = if inside && !self.last_mouse_in_taskbar {
            Some(make_event("mouse_request_show", "hidden_show_requested", pos, now))
        } else if !inside && self.last_mouse_in_taskbar {
            Some(make_event("mouse_request_hide", "hidden_maintained", pos, now))
        } else {
            None
        };
        self.last_mouse_in_taskbar = inside;
        event
    }

    /// Records that the shell was restarted to bring a hidden taskbar back,
    /// and gives the event that says so. Where the taskbar is not hidden,
    /// nothing is to be restarted and nothing changes.
    pub fn restore_taskbar(&mut self, mouse: MousePosition, now: i64) -> (event: Option<
        TaskbarEvent,
    >)
        ensures
            final(self)@ == (ManagerState { is_hidden: false, ..old(self)@ }),
            optional_event(event) == (if old(self)@.is_hidden {
                Some(event_of("taskbar_restored"@, "restored_via_explorer_restart"@, mouse, now))
            } else {
                None
            }),
    {
        if self.is_hidden {
            self.is_hidden = false;
            Some(make_event("taskbar_restored", "restored_via_explorer_restart", mouse, now))
        } else {
            None
        }
    }
}

} // verus!
