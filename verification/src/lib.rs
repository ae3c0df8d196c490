//! A tiling window manager core: per-desktop window lists, focus and
//! move navigation, master-stack tiling geometry, and event dispatch.
//!
//! The library is pure state and decisions: every operation returns the
//! sequence of display-server requests it wants performed, and the caller
//! (the process that owns the display connection) carries them out.

pub mod command;
pub mod desktop;
pub mod key;
pub mod layout;
pub mod x;

use crate::command::command_fits;
use crate::command::command_post;
use crate::command::command_requests;
use crate::desktop::{Desktop, Desktops};
use crate::key::{spec_lookup, Key, KeyMap};
use crate::layout::{lemma_screen_fits_mono, screen_fits, Layout};
use crate::x::{Request, Window, WindowChanges, XEvent};
use vstd::prelude::*;

verus! {

/// The usable portion of the screen, fixed for the process lifetime.
#[derive(Clone, Copy, Debug, PartialEq, Eq, Structural)]
pub struct Screen {
    pub width: u32,
    pub height: u32,
    pub x: u32,
    pub y: u32,
}

impl Screen {
    /// The screen's coordinates stay within `u32` when geometry is laid
    /// out inside it (the tail of the stack column may run one gap past
    /// the bottom edge while iterating, hence the slack).
    pub open spec fn wf(self) -> bool {
        &&& self.x + self.width <= u32::MAX
        &&& self.y + self.height + (crate::layout::GAP as int) <= u32::MAX
    }
}

/// How many virtual desktops the manager owns.
pub const NUM_DESKTOPS: usize = 9;

/// An internal invariant was violated: the process should stop rather
/// than continue with corrupted state. The caller is expected to panic
/// on these.
#[derive(Clone, Copy, Debug, PartialEq, Eq, Structural)]
pub enum WmError {
    /// A map request arrived for a window that is already tracked.
    AlreadyManaged,
    /// A key event arrived for a key that no binding was grabbed for.
    UnboundKey,
}

/// The requests that put a newly managed window under the manager's
/// control: grab the key bindings on it, register for its structural
/// events, and track its input and structure events.
pub open spec fn manage_prefix(w: Window) -> Seq<Request> {
    seq![
        Request::GrabKeys(w.window),
        Request::RegisterWindow(w.window),
        Request::TrackWindowEvents(w.window),
    ]
}

/// The window manager: the desktop set, the static key binding table,
/// and the screen, all driven by decoded display-server events. Every
/// operation returns the display requests to perform.
pub struct Worm {
    pub desktops: Desktops,
    pub binds: KeyMap,
    pub screen: Screen,
}

impl Worm {
    /// The desktop set and binding table are well formed and every
    /// desktop lays windows out on this manager's one screen.
    pub open spec fn wf(self) -> bool {
        &&& self.desktops.wf()
        &&& self.binds.wf()
        &&& forall|i: int|
            0 <= i < self.desktops.desktops@.len()
                ==> (#[trigger] self.desktops.desktops@[i]).screen == self.screen
    }

    /// The active desktop.
    pub open spec fn active(self) -> Desktop {
        self.desktops.active()
    }

    /// Whether any desktop tracks a window with identifier `id`.
    pub open spec fn managed(self, id: u32) -> bool {
        exists|i: int|
            0 <= i < self.desktops.desktops@.len()
                && (#[trigger] self.desktops.desktops@[i]).has_window(id)
    }

    /// Which guard a decoded event trips, if any: managing a tracked
    /// window and dispatching an unbound key are programming errors.
    /// Every other event is handled.
    pub open spec fn event_fails(self, e: XEvent) -> Option<WmError> {
        match e {
            XEvent::MapRequest(w) => if self.managed(w.window) {
                Some(WmError::AlreadyManaged)
            } else {
                None
            },
            XEvent::KeyPress(k) => if spec_lookup(self.binds.key_map@, k) is None {
                Some(WmError::UnboundKey)
            } else {
                None
            },
            _ => None,
        }
    }

    /// The requests a handled event issues: a configure request is
    /// honored verbatim; a map request manages the window and adds it
    /// to the active desktop; unmap and destroy only update state; a
    /// key press executes the bound command.
    pub open spec fn event_requests(self, e: XEvent) -> Seq<Request> {
        match e {
            XEvent::ConfigureRequest(w, wc) => seq![Request::ConfigureWindow(w.window, wc)],
            XEvent::MapRequest(w) => manage_prefix(w) + self.active().add_window_requests(w),
            XEvent::UnmapNotify(_) => Seq::empty(),
            XEvent::DestroyNotify(_) => Seq::empty(),
            XEvent::KeyPress(k) => command_requests(
                spec_lookup(self.binds.key_map@, k).unwrap(),
                self,
            ),
        }
    }

    /// How a handled event changes the state.
    pub open spec fn event_post(self, post: Worm, e: XEvent) -> bool {
        match e {
            XEvent::ConfigureRequest(_, _) => post == self,
            XEvent::MapRequest(w) => {
                &&& post.binds == self.binds
                &&& post.screen == self.screen
                &&& self.desktops.same_but_active(post.desktops)
                &&& self.active().add_window_post(post.active(), w)
            },
            XEvent::UnmapNotify(w) | XEvent::DestroyNotify(w) => if self.managed(w.window) {
                &&& post.binds == self.binds
                &&& post.screen == self.screen
                &&& self.desktops.same_but_active(post.desktops)
                &&& self.active().remove_refocus_post(post.active(), w.window)
            } else {
                post == self
            },
            XEvent::KeyPress(k) => command_post(
                spec_lookup(self.binds.key_map@, k).unwrap(),
                self,
                post,
            ),
        }
    }

    /// Create the manager: the fixed set of empty desktops, all in the
    /// tile layout, the first one active.
    pub fn new(binds: KeyMap, screen: Screen) -> (w: Worm)
        requires
            binds.wf(),
        ensures
            w.wf(),
            w.binds == binds,
            w.screen == screen,
            w.desktops.focused_desktop == 0,
            w.desktops.desktops@.len() == NUM_DESKTOPS,
            forall|i: int|
                0 <= i < NUM_DESKTOPS ==> {
                    let d = #[trigger] w.desktops.desktops@[i];
                    &&& d.windows@.len() == 0
                    &&& d.layout is Tile
                    &&& d.focused_window is None
                    &&& d.focused_last is None
                    &&& d.active == false
                    &&& d.screen == screen
                },
    {
        let mut desktops: Vec<Desktop> = Vec::new();
        let mut i: usize = 0;
        while i < NUM_DESKTOPS
            invariant
                i <= NUM_DESKTOPS,
                desktops@.len() == i,
                forall|k: int|
                    0 <= k < i ==> {
                        let d = #[trigger] desktops@[k];
                        &&& d.windows@.len() == 0
                        &&& d.layout is Tile
                        &&& d.focused_window is None
                        &&& d.focused_last is None
                        &&& d.active == false
                        &&& d.screen == screen
                        &&& d.wf()
                    },
            decreases NUM_DESKTOPS - i,
        {
            desktops.push(Desktop::new(false, Layout::Tile, Vec::new(), &screen));
            i += 1;
        }
        let desktops = Desktops::new(desktops, 0);
        Worm { desktops, binds, screen }
    }

    /// Whether the manager tracks this window on any desktop.
    pub fn is_managed(&self, window: &Window) -> (r: bool)
        ensures
            r == self.managed(window.window),
    {
        self.desktops.contains(window)
    }

    /// Put a new top-level window under management and hand it to the
    /// active desktop. A window already tracked is a programming error.
    pub fn manage(&mut self, window: &Window) -> (r: Result<Vec<Request>, WmError>)
        requires
            old(self).wf(),
            old(self).active().layout is Tile ==> screen_fits(
                old(self).screen,
                old(self).active().windows@.len() as int + 1,
            ),
        ensures
            final(self).wf(),
            if old(self).managed(window.window) {
                &&& r == Err::<Vec<Request>, WmError>(WmError::AlreadyManaged)
                &&& *final(self) == *old(self)
            } else {
                &&& r matches Ok(v) && v@ == manage_prefix(*window)
                    + old(self).active().add_window_requests(*window)
                &&& final(self).binds == old(self).binds
                &&& final(self).screen == old(self).screen
                &&& old(self).desktops.same_but_active(final(self).desktops)
                &&& old(self).active().add_window_post(final(self).active(), *window)
            },
    {
        if self.is_managed(window) {
            return Err(WmError::AlreadyManaged);
        }
        let mut r: Vec<Request> = Vec::new();
        r.push(Request::GrabKeys(window.window));
        r.push(Request::RegisterWindow(window.window));
        r.push(Request::TrackWindowEvents(window.window));
        let mut added = self.desktops.add_window(*window);
        r.append(&mut added);
        proof {
            assert(r@ =~= manage_prefix(*window)
                + old(self).active().add_window_requests(*window));
        }
        Ok(r)
    }

    /// Drop a window from the active desktop if it is tracked at all; a
    /// no-op for an untracked window.
    pub fn unmanage(&mut self, window: &Window)
        requires
            old(self).wf(),
        ensures
            final(self).wf(),
            final(self).binds == old(self).binds,
            final(self).screen == old(self).screen,
            if old(self).managed(window.window) {
                &&& old(self).desktops.same_but_active(final(self).desktops)
                &&& old(self).active().remove_refocus_post(final(self).active(), window.window)
            } else {
                *final(self) == *old(self)
            },
    {
        if !self.is_managed(window) {
            return;
        }
        self.desktops.remove_window(window);
    }

    /// Honor a client's configure request verbatim.
    fn configure_request(&self, window: &Window, changes: &WindowChanges) -> (r: Vec<Request>)
        ensures
            r@ == seq![Request::ConfigureWindow(window.window, *changes)],
    {
        let mut r: Vec<Request> = Vec::new();
        r.push(Request::ConfigureWindow(window.window, *changes));
        r
    }

    /// Execute the command bound to a pressed key. A key with no
    /// binding is a programming error: bindings are only grabbed for
    /// keys in the table.
    fn key_press_event(&mut self, key: &Key) -> (r: Result<Vec<Request>, WmError>)
        requires
            old(self).wf(),
            spec_lookup(old(self).binds.key_map@, *key) matches Some(c) ==> command_fits(
                c,
                *old(self),
            ),
        ensures
            final(self).wf(),
            match spec_lookup(old(self).binds.key_map@, *key) {
                Some(c) => {
                    &&& r matches Ok(v) && v@ == command_requests(c, *old(self))
                    &&& command_post(c, *old(self), *final(self))
                },
                None => {
                    &&& r == Err::<Vec<Request>, WmError>(WmError::UnboundKey)
                    &&& *final(self) == *old(self)
                },
            },
    {
        let cmd = match self.binds.lookup(key) {
            Some(cmd) => cmd,
            None => {
                return Err(WmError::UnboundKey);
            },
        };
        Ok(cmd.command(self))
    }

    fn map_request(&mut self, window: &Window) -> (r: Result<Vec<Request>, WmError>)
        requires
            old(self).wf(),
            old(self).active().layout is Tile ==> screen_fits(
                old(self).screen,
                old(self).active().windows@.len() as int + 1,
            ),
        ensures
            final(self).wf(),
            if old(self).managed(window.window) {
                &&& r == Err::<Vec<Request>, WmError>(WmError::AlreadyManaged)
                &&& *final(self) == *old(self)
            } else {
                &&& r matches Ok(v) && v@ == manage_prefix(*window)
                    + old(self).active().add_window_requests(*window)
                &&& final(self).binds == old(self).binds
                &&& final(self).screen == old(self).screen
                &&& old(self).desktops.same_but_active(final(self).desktops)
                &&& old(self).active().add_window_post(final(self).active(), *window)
            },
    {
        self.manage(window)
    }

    fn unmap_notify(&mut self, window: &Window)
        requires
            old(self).wf(),
        ensures
            final(self).wf(),
            final(self).binds == old(self).binds,
            final(self).screen == old(self).screen,
            if old(self).managed(window.window) {
                &&& old(self).desktops.same_but_active(final(self).desktops)
                &&& old(self).active().remove_refocus_post(final(self).active(), window.window)
            } else {
                *final(self) == *old(self)
            },
    {
        self.unmanage(window)
    }

    fn destroy_notify(&mut self, window: &Window)
        requires
            old(self).wf(),
        ensures
            final(self).wf(),
            final(self).binds == old(self).binds,
            final(self).screen == old(self).screen,
            if old(self).managed(window.window) {
                &&& old(self).desktops.same_but_active(final(self).desktops)
                &&& old(self).active().remove_refocus_post(final(self).active(), window.window)
            } else {
                *final(self) == *old(self)
            },
    {
        self.unmanage(window)
    }

    /// Handle one decoded display-server event: route it to the manage,
    /// unmanage, configure or key dispatch path, and return the display
    /// requests to perform, or the programming-error guard it tripped.
    /// The screen must have room to tile the active desktop's windows
    /// and one more, whatever the event asks.
    pub fn handle_event(&mut self, event: XEvent) -> (r: Result<Vec<Request>, WmError>)
        requires
            old(self).wf(),
            screen_fits(old(self).screen, old(self).active().windows@.len() as int + 1),
        ensures
            final(self).wf(),
            final(self).binds == old(self).binds,
            final(self).screen == old(self).screen,
            match old(self).event_fails(event) {
                Some(err) => {
                    &&& r matches Err(e) && e == err
                    &&& *final(self) == *old(self)
                },
                None => {
                    &&& r matches Ok(v) && v@ == old(self).event_requests(event)
                    &&& old(self).event_post(*final(self), event)
                },
            },
    {
        proof {
            lemma_screen_fits_mono(
                self.screen,
                self.active().windows@.len() as int,
                self.active().windows@.len() as int + 1,
            );
        }
        match event {
            XEvent::ConfigureRequest(w, wc) => {
                let r = self.configure_request(&w, &wc);
                Ok(r)
            },
            XEvent::KeyPress(k) => self.key_press_event(&k),
            XEvent::MapRequest(w) => self.map_request(&w),
            XEvent::UnmapNotify(w) => {
                self.unmap_notify(&w);
                Ok(Vec::new())
            },
            XEvent::DestroyNotify(w) => {
                self.destroy_notify(&w);
                Ok(Vec::new())
            },
        }
    }
}

} // verus!
