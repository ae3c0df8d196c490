//! Plain data exchanged with the display server: window handles, geometry
//! change records, decoded events, and the requests the core asks the
//! display connection to perform.

use crate::key::Key;
use vstd::prelude::*;

verus! {

/// A top-level window: its protocol identifier plus its last-known
/// geometry. The core holds copies by value and never mutates the
/// geometry fields; it only emits configure requests.
#[derive(Clone, Copy, Debug, PartialEq, Eq, Structural)]
pub struct Window {
    pub window: u32,
    pub x: u32,
    pub y: u32,
    pub width: u32,
    pub height: u32,
}

impl Window {
    pub fn new(window: u32, x: u32, y: u32, width: u32, height: u32) -> (w: Window)
        ensures
            w == (Window { window, x, y, width, height }),
    {
        Window { window, x, y, width, height }
    }

    /// The raw protocol identifier of the window.
    pub fn as_xcb_window(&self) -> (r: u32)
        ensures
            r == self.window,
    {
        self.window
    }
}

/// A requested window configuration, as carried by configure requests.
#[derive(Clone, Copy, Debug, PartialEq, Eq, Structural)]
pub struct WindowChanges {
    pub x: u32,
    pub y: u32,
    pub width: u32,
    pub height: u32,
    pub border_width: u32,
    pub sibling: u32,
    pub stack_mode: u32,
}

/// A decoded display-server event, as handed to the event dispatcher.
#[derive(Clone, Copy, Debug, PartialEq, Eq, Structural)]
pub enum XEvent {
    ConfigureRequest(Window, WindowChanges),
    MapRequest(Window),
    UnmapNotify(Window),
    DestroyNotify(Window),
    KeyPress(Key),
}

/// One display-server request the core wants performed, identified by the
/// raw window id it concerns. The owner of the connection executes these
/// in order.
#[derive(Clone, Copy, Debug, PartialEq, Eq, Structural)]
pub enum Request {
    /// Stop delivering events for the window (bracketing a placement, so
    /// the manager does not react to its own configure calls).
    StopWindowEvents(u32),
    /// Resume delivering events for the window.
    TrackWindowEvents(u32),
    /// Make the window visible.
    MapWindow(u32),
    /// Hide the window.
    UnmapWindow(u32),
    /// Move and resize the window.
    ConfigureWindow(u32, WindowChanges),
    /// Give the window input focus and mark it as the active window.
    FocusWindow(u32),
    /// Close the window: gracefully if it supports the close protocol,
    /// else by force.
    DeleteWindow(u32),
    /// Register for structural events on the window.
    RegisterWindow(u32),
    /// Grab the configured key bindings on the window.
    GrabKeys(u32),
    /// Commit buffered requests.
    Flush,
}

} // verus!
