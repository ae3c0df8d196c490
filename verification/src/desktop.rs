//! Virtual desktops: each owns an ordered window list, a layout, and the
//! focus state, and exposes the add/remove, focus-navigation, reorder and
//! forced-close operations. `Desktops` owns the fixed set of desktops and
//! forwards every operation to the active one.

use crate::command::Direction;
use crate::layout::{layout_requests, lemma_screen_fits_mono, screen_fits, Layout};
use crate::x::{Request, Window};
use crate::Screen;
use vstd::prelude::*;

verus! {

/// `ws` with the windows at `a` and `b` exchanged.
pub open spec fn swap_seq(ws: Seq<Window>, a: int, b: int) -> Seq<Window> {
    ws.update(a, ws[b]).update(b, ws[a])
}

/// The index after `f` in a forward monocle cycle over `n` windows,
/// wrapping to the front.
pub open spec fn monocle_forward(f: int, n: int) -> int {
    if f + 1 == n {
        0
    } else {
        f + 1
    }
}

/// The index before `f` in a backward monocle cycle over `n` windows,
/// wrapping to the back. Exact inverse of `monocle_forward`.
pub open spec fn monocle_backward(f: int, n: int) -> int {
    if f == 0 {
        n - 1
    } else {
        f - 1
    }
}

pub open spec fn opt_int(o: Option<usize>) -> Option<int> {
    match o {
        Some(v) => Some(v as int),
        None => None,
    }
}

/// Whether a tile focus move in `dir` takes effect from index `f` among
/// `n` windows. Up and down move only within the stack, never into the
/// master slot; left leaves the stack for the master; right leaves the
/// master for the stack.
pub open spec fn tile_focus_acts(f: int, n: int, dir: Direction) -> bool {
    match dir {
        Direction::Up => f >= 2,
        Direction::Down => 1 <= f && f + 1 < n,
        Direction::Left => f >= 1,
        Direction::Right => f == 0 && n >= 2,
    }
}

/// The tile focus state machine: the next (focused, last-focused) pair.
/// A move whose precondition fails changes nothing. A move that acts
/// records the index it left; entering the stack from the master goes to
/// the marked stack slot when the marker is valid, else the top one.
pub open spec fn tile_focus_next(f: int, last: Option<int>, n: int, dir: Direction) -> (
    int,
    Option<int>,
) {
    if !tile_focus_acts(f, n, dir) {
        (f, last)
    } else {
        match dir {
            Direction::Up => (f - 1, Some(f)),
            Direction::Down => (f + 1, Some(f)),
            Direction::Left => (0, Some(f)),
            Direction::Right => (
                match last {
                    Some(l) => if 0 <= l < n {
                        l
                    } else {
                        1
                    },
                    None => 1,
                },
                Some(0),
            ),
        }
    }
}

/// The first index at which a window with identifier `id` occurs, if any.
pub open spec fn spec_window_index(ws: Seq<Window>, id: u32) -> Option<int>
    decreases ws.len(),
{
    if ws.len() == 0 {
        None
    } else if ws[0].window == id {
        Some(0)
    } else {
        match spec_window_index(ws.drop_first(), id) {
            Some(i) => Some(i + 1),
            None => None,
        }
    }
}

/// What `spec_window_index` finds: the first occurrence of `id`, in
/// bounds, or nothing when `id` does not occur.
proof fn lemma_window_index_char(ws: Seq<Window>, id: u32)
    ensures
        match spec_window_index(ws, id) {
            Some(i) => {
                &&& 0 <= i < ws.len()
                &&& ws[i].window == id
                &&& forall|k: int| 0 <= k < i ==> ws[k].window != id
            },
            None => forall|k: int| 0 <= k < ws.len() ==> ws[k].window != id,
        },
    decreases ws.len(),
{
    if ws.len() > 0 && ws[0].window != id {
        let rest = ws.drop_first();
        lemma_window_index_char(rest, id);
        match spec_window_index(rest, id) {
            Some(i) => {
                assert(ws[i + 1] == rest[i]);
                assert forall|k: int| 0 <= k < i + 1 implies ws[k].window != id by {
                    if k >= 1 {
                        assert(ws[k] == rest[k - 1]);
                        assert(rest[k - 1].window != id);
                    }
                }
            },
            None => {
                assert forall|k: int| 0 <= k < ws.len() implies ws[k].window != id by {
                    if k >= 1 {
                        assert(ws[k] == rest[k - 1]);
                        assert(rest[k - 1].window != id);
                    }
                }
            },
        }
    }
}

/// One virtual desktop: its ordered window list (insertion order is
/// stacking order, index 0 is the master slot), its layout, the focused
/// index, the last-focused index used as a return marker, an activity
/// flag reserved for later use, and the screen it lays windows out on.
pub struct Desktop {
    pub active: bool,
    pub layout: Layout,
    pub windows: Vec<Window>,
    pub focused_window: Option<usize>,
    pub focused_last: Option<usize>,
    pub screen: Screen,
}

impl Desktop {
    /// The focus invariant: a focused index exists exactly when the list
    /// is nonempty, and then it is in bounds. The last-focused index may
    /// be stale; it is re-validated wherever it is used.
    pub open spec fn wf(self) -> bool {
        &&& self.focused_window matches Some(i) ==> i < self.windows@.len()
        &&& self.focused_window is None <==> self.windows@.len() == 0
    }

    /// Whether a window with identifier `id` is on this desktop.
    pub open spec fn has_window(self, id: u32) -> bool {
        exists|k: int| 0 <= k < self.windows@.len() && self.windows@[k].window == id
    }

    /// The identifier of the focused window.
    pub open spec fn focused_id(self) -> u32
        recommends
            self.focused_window is Some,
            self.wf(),
    {
        self.windows@[self.focused_window.unwrap() as int].window
    }

    /// The requests that assert display focus on the focused window:
    /// one focus request, or none when nothing is focused.
    pub open spec fn focus_requests(self) -> Seq<Request> {
        match self.focused_window {
            Some(_) => seq![Request::FocusWindow(self.focused_id())],
            None => Seq::empty(),
        }
    }

    /// A fresh desktop holding no windows.
    pub fn new(active: bool, layout: Layout, windows: Vec<Window>, screen: &Screen) -> (d:
        Desktop)
        requires
            windows@.len() == 0,
        ensures
            d.active == active,
            d.layout == layout,
            d.windows@.len() == 0,
            d.focused_window is None,
            d.focused_last is None,
            d.screen == *screen,
            d.wf(),
    {
        Desktop {
            active,
            layout,
            windows,
            focused_window: None,
            focused_last: None,
            screen: *screen,
        }
    }

    /// Identity membership test, by window identifier.
    pub fn contains(&self, window: &Window) -> (r: bool)
        ensures
            r == self.has_window(window.window),
    {
        let r = self.get_window_index(window);
        proof {
            lemma_window_index_char(self.windows@, window.window);
        }
        r.is_some()
    }

    pub fn layout(&self) -> (r: Layout)
        ensures
            r == self.layout,
    {
        self.layout
    }

    /// The first index holding `window`'s identifier.
    pub fn get_window_index(&self, window: &Window) -> (r: Option<usize>)
        ensures
            match r {
                Some(i) => spec_window_index(self.windows@, window.window) == Some(i as int),
                None => spec_window_index(self.windows@, window.window) is None,
            },
    {
        proof {
            lemma_window_index_char(self.windows@, window.window);
        }
        let n = self.windows.len();
        let mut i: usize = 0;
        while i < n
            invariant
                n == self.windows@.len(),
                i <= n,
                forall|k: int| 0 <= k < i ==> self.windows@[k].window != window.window,
            decreases n - i,
        {
            if self.windows[i].window == window.window {
                proof {
                    lemma_window_index_char(self.windows@, window.window);
                }
                return Some(i);
            }
            i += 1;
        }
        None
    }

    /// Remove and return the window at an already-resolved index; an
    /// absent index is a no-op. The focus indices are left alone: the
    /// caller re-derives them.
    pub fn remove_window(&mut self, index: Option<usize>) -> (r: Option<Window>)
        requires
            index matches Some(i) ==> i < old(self).windows@.len(),
        ensures
            match index {
                Some(i) => {
                    &&& r == Some(old(self).windows@[i as int])
                    &&& final(self).windows@ == old(self).windows@.remove(i as int)
                },
                None => {
                    &&& r is None
                    &&& *final(self) == *old(self)
                },
            },
            final(self).active == old(self).active,
            final(self).layout == old(self).layout,
            final(self).focused_window == old(self).focused_window,
            final(self).focused_last == old(self).focused_last,
            final(self).screen == old(self).screen,
    {
        match index {
            Some(i) => Some(self.windows.remove(i)),
            None => None,
        }
    }

    /// The focused window, if any.
    pub fn get_focused_window(&self) -> (r: Option<Window>)
        requires
            self.wf(),
        ensures
            match self.focused_window {
                Some(i) => r == Some(self.windows@[i as int]),
                None => r is None,
            },
    {
        match self.focused_window {
            Some(i) => Some(self.windows[i]),
            None => None,
        }
    }

    /// Ask the display to focus the focused window, if any.
    pub fn update_focus(&self) -> (r: Vec<Request>)
        requires
            self.wf(),
        ensures
            r@ == self.focus_requests(),
    {
        let mut r: Vec<Request> = Vec::new();
        if let Some(focused) = self.get_focused_window() {
            r.push(Request::FocusWindow(focused.window));
            proof {
                assert(r@ =~= self.focus_requests());
            }
        }
        r
    }

    /// Re-issue every placement decision of the current layout.
    pub fn apply_layout(&self) -> (r: Vec<Request>)
        requires
            self.layout is Tile ==> screen_fits(self.screen, self.windows@.len() as int),
        ensures
            r@ == layout_requests(self.layout, self.windows@, self.screen),
    {
        self.layout.apply(&self.windows, &self.screen)
    }

    /// How `add_window` changes the state: the window is appended; if
    /// nothing was focused, focus moves to the front and the return
    /// marker is cleared; otherwise both indices stay.
    pub open spec fn add_window_post(self, post: Desktop, w: Window) -> bool {
        &&& post.windows@ == self.windows@.push(w)
        &&& post.layout == self.layout
        &&& post.screen == self.screen
        &&& post.active == self.active
        &&& post.focused_window == (if self.focused_window is None {
            Some(0usize)
        } else {
            self.focused_window
        })
        &&& post.focused_last == (if self.focused_window is None {
            None::<usize>
        } else {
            self.focused_last
        })
    }

    /// The requests `add_window` issues: the layout re-applied to the
    /// grown list; under monocle an extra map of the focused window, to
    /// keep it the visible one; and a display-focus update.
    pub open spec fn add_window_requests(self, w: Window) -> Seq<Request> {
        let nf = if self.focused_window is None {
            0int
        } else {
            self.focused_window.unwrap() as int
        };
        let ws2 = self.windows@.push(w);
        layout_requests(self.layout, ws2, self.screen) + (if self.layout is Monocle {
            seq![Request::MapWindow(ws2[nf].window)]
        } else {
            Seq::empty()
        }) + seq![Request::FocusWindow(ws2[nf].window)]
    }

    /// Append a window; focus it if nothing was focused; re-place the
    /// desktop.
    pub fn add_window(&mut self, window: Window) -> (r: Vec<Request>)
        requires
            old(self).wf(),
            old(self).layout is Tile ==> screen_fits(
                old(self).screen,
                old(self).windows@.len() as int + 1,
            ),
        ensures
            final(self).wf(),
            old(self).add_window_post(*final(self), window),
            r@ == old(self).add_window_requests(window),
    {
        if self.focused_window.is_none() {
            self.focused_window = Some(0);
            self.focused_last = None;
        }
        self.windows.push(window);
        let mut r = self.apply_layout();
        if self.layout == Layout::Monocle {
            let focused = self.get_focused_window().unwrap();
            r.push(Request::MapWindow(focused.window));
        }
        let mut focus = self.update_focus();
        r.append(&mut focus);
        proof {
            assert(r@ =~= old(self).add_window_requests(window));
        }
        r
    }

    /// How `change_layout` changes the state: a no-op when the layout is
    /// unchanged, else only the layout field changes.
    pub open spec fn change_layout_post(self, post: Desktop, l: Layout) -> bool {
        if l == self.layout {
            post == self
        } else {
            post == (Desktop { layout: l, ..self })
        }
    }

    /// The requests `change_layout` issues: none when unchanged, else
    /// the new layout applied to the unchanged window list.
    pub open spec fn change_layout_requests(self, l: Layout) -> Seq<Request> {
        if l == self.layout {
            Seq::empty()
        } else {
            layout_requests(l, self.windows@, self.screen)
        }
    }

    /// Switch the layout and re-place the desktop; a no-op when the
    /// layout is unchanged.
    pub fn change_layout(&mut self, layout: &Layout) -> (r: Vec<Request>)
        requires
            old(self).wf(),
            (*layout) is Tile ==> screen_fits(old(self).screen, old(self).windows@.len() as int),
        ensures
            final(self).wf(),
            old(self).change_layout_post(*final(self), *layout),
            r@ == old(self).change_layout_requests(*layout),
    {
        if self.layout == *layout {
            return Vec::new();
        }
        self.layout = *layout;
        self.apply_layout()
    }

    /// How a forward monocle cycle changes the state: focus advances one
    /// step, wrapping, and the return marker holds the index left.
    pub open spec fn cycle_forward_post(self, post: Desktop) -> bool {
        match self.focused_window {
            None => post == self,
            Some(f) => {
                let nf = monocle_forward(f as int, self.windows@.len() as int);
                post == (Desktop {
                    focused_window: Some(nf as usize),
                    focused_last: Some(f),
                    ..self
                })
            },
        }
    }

    /// The requests of a forward monocle cycle: hide the window left,
    /// show the one entered.
    pub open spec fn cycle_forward_requests(self) -> Seq<Request> {
        match self.focused_window {
            None => Seq::empty(),
            Some(f) => {
                let nf = monocle_forward(f as int, self.windows@.len() as int);
                seq![
                    Request::UnmapWindow(self.windows@[f as int].window),
                    Request::MapWindow(self.windows@[nf].window),
                ]
            },
        }
    }

    /// Cycle the visible monocle window forward; a no-op without focus.
    /// Only meaningful under the monocle layout, hence required.
    pub fn cycle_window_forward(&mut self) -> (r: Vec<Request>)
        requires
            old(self).wf(),
            old(self).layout is Monocle,
        ensures
            final(self).wf(),
            old(self).cycle_forward_post(*final(self)),
            r@ == old(self).cycle_forward_requests(),
    {
        let mut r: Vec<Request> = Vec::new();
        match self.focused_window {
            None => {},
            Some(f) => {
                let left = self.windows[f];
                r.push(Request::UnmapWindow(left.window));
                self.focused_last = Some(f);
                let nf: usize = if f == self.windows.len() - 1 {
                    0
                } else {
                    f + 1
                };
                self.focused_window = Some(nf);
                let entered = self.windows[nf];
                r.push(Request::MapWindow(entered.window));
                proof {
                    assert(r@ =~= old(self).cycle_forward_requests());
                }
            },
        }
        r
    }

    /// How a backward monocle cycle changes the state: focus steps back
    /// one, wrapping, and the return marker holds the index left.
    pub open spec fn cycle_backward_post(self, post: Desktop) -> bool {
        match self.focused_window {
            None => post == self,
            Some(f) => {
                let nf = monocle_backward(f as int, self.windows@.len() as int);
                post == (Desktop {
                    focused_window: Some(nf as usize),
                    focused_last: Some(f),
                    ..self
                })
            },
        }
    }

    /// The requests of a backward monocle cycle: hide the window left,
    /// show the one entered.
    pub open spec fn cycle_backward_requests(self) -> Seq<Request> {
        match self.focused_window {
            None => Seq::empty(),
            Some(f) => {
                let nf = monocle_backward(f as int, self.windows@.len() as int);
                seq![
                    Request::UnmapWindow(self.windows@[f as int].window),
                    Request::MapWindow(self.windows@[nf].window),
                ]
            },
        }
    }

    /// Cycle the visible monocle window backward; a no-op without focus.
    /// Only meaningful under the monocle layout, hence required.
    pub fn cycle_window_backward(&mut self) -> (r: Vec<Request>)
        requires
            old(self).wf(),
            old(self).layout is Monocle,
        ensures
            final(self).wf(),
            old(self).cycle_backward_post(*final(self)),
            r@ == old(self).cycle_backward_requests(),
    {
        let mut r: Vec<Request> = Vec::new();
        match self.focused_window {
            None => {},
            Some(f) => {
                let left = self.windows[f];
                r.push(Request::UnmapWindow(left.window));
                self.focused_last = Some(f);
                let nf: usize = if f == 0 {
                    self.windows.len() - 1
                } else {
                    f - 1
                };
                self.focused_window = Some(nf);
                let entered = self.windows[nf];
                r.push(Request::MapWindow(entered.window));
                proof {
                    assert(r@ =~= old(self).cycle_backward_requests());
                }
            },
        }
        r
    }

    /// The swap a move performs, if any: the focused index and its
    /// destination. Nothing is swapped under a layout other than tile,
    /// with fewer than two windows, without focus, or when the
    /// direction's precondition fails. A stale return marker counts as
    /// absent and defaults to the top stack slot.
    pub open spec fn move_swap(self, dir: Direction) -> Option<(int, int)> {
        if !(self.layout is Tile) || self.windows@.len() < 2 || self.focused_window is None {
            None
        } else {
            let n = self.windows@.len() as int;
            let f = self.focused_window.unwrap() as int;
            let dlast: int = match self.focused_last {
                Some(l) => if l < n { l as int } else { 1 },
                None => 1,
            };
            match dir {
                Direction::Up => if f == 0 || f == 1 {
                    None
                } else {
                    Some((f, f - 1))
                },
                Direction::Down => if f == 0 || f == n - 1 {
                    None
                } else {
                    Some((f, f + 1))
                },
                Direction::Left => if f == 0 {
                    None
                } else {
                    Some((f, 0))
                },
                Direction::Right => if f != 0 {
                    None
                } else {
                    Some((0, dlast))
                },
            }
        }
    }

    /// How `move_window` changes the state. When no swap happens only
    /// the defaulting of an absent return marker may remain; when one
    /// does, the two windows are exchanged, focus follows the moved
    /// window, and the return marker records where to return to.
    pub open spec fn move_window_post(self, post: Desktop, dir: Direction) -> bool {
        if !(self.layout is Tile) || self.windows@.len() < 2 || self.focused_window is None {
            post == self
        } else {
            let f = self.focused_window.unwrap();
            let dlast = if self.focused_last is None {
                Some(1usize)
            } else {
                self.focused_last
            };
            match self.move_swap(dir) {
                None => post == (Desktop { focused_last: dlast, ..self }),
                Some((a, b)) => {
                    &&& post.windows@ == swap_seq(self.windows@, a, b)
                    &&& post.focused_window == Some(b as usize)
                    &&& post.focused_last == (match dir {
                        Direction::Left => Some(f),
                        Direction::Right => Some(0usize),
                        _ => dlast,
                    })
                    &&& post.layout == self.layout
                    &&& post.screen == self.screen
                    &&& post.active == self.active
                },
            }
        }
    }

    /// The requests `move_window` issues: the layout re-applied to the
    /// reordered list when a swap happened, none otherwise.
    pub open spec fn move_window_requests(self, dir: Direction) -> Seq<Request> {
        match self.move_swap(dir) {
            None => Seq::empty(),
            Some((a, b)) => layout_requests(
                self.layout,
                swap_seq(self.windows@, a, b),
                self.screen,
            ),
        }
    }

    /// Reorder within the list: exchange the focused window with its
    /// neighbour (up/down in the stack), with the master (left), or the
    /// master with the marked stack window (right); then re-place the
    /// desktop. Only the tile layout reorders.
    pub fn move_window(&mut self, direction: &Direction) -> (r: Vec<Request>)
        requires
            old(self).wf(),
            old(self).layout is Tile ==> screen_fits(
                old(self).screen,
                old(self).windows@.len() as int,
            ),
        ensures
            final(self).wf(),
            old(self).move_window_post(*final(self), *direction),
            r@ == old(self).move_window_requests(*direction),
    {
        let r: Vec<Request> = Vec::new();
        if self.layout != Layout::Tile {
            return r;
        }
        let n = self.windows.len();
        if n < 2 {
            return r;
        }
        let f = match self.focused_window {
            Some(f) => f,
            None => {
                return r;
            },
        };
        if self.focused_last.is_none() {
            self.focused_last = Some(1);
        }
        match direction {
            Direction::Up => {
                if f == 0 || f == 1 {
                    return r;
                }
                let wa = self.windows[f];
                let wb = self.windows[f - 1];
                self.windows[f] = wb;
                self.windows[f - 1] = wa;
                self.focused_window = Some(f - 1);
            },
            Direction::Down => {
                if f == 0 || f == n - 1 {
                    return r;
                }
                let wa = self.windows[f];
                let wb = self.windows[f + 1];
                self.windows[f] = wb;
                self.windows[f + 1] = wa;
                self.focused_window = Some(f + 1);
            },
            Direction::Left => {
                if f == 0 {
                    return r;
                }
                let wa = self.windows[f];
                let wb = self.windows[0];
                self.windows[f] = wb;
                self.windows[0] = wa;
                self.focused_last = Some(f);
                self.focused_window = Some(0);
            },
            Direction::Right => {
                if f != 0 {
                    return r;
                }
                let marked = self.focused_last.unwrap();
                let l: usize = if marked < n {
                    marked
                } else {
                    1
                };
                let wa = self.windows[0];
                let wb = self.windows[l];
                self.windows[0] = wb;
                self.windows[l] = wa;
                self.focused_window = Some(l);
                self.focused_last = Some(0);
            },
        }
        let out = self.apply_layout();
        proof {
            assert(out@ == old(self).move_window_requests(*direction));
        }
        out
    }

    /// The window focus should return to after the focused one is
    /// deleted: the marked window when the marker is valid, else the
    /// master.
    pub open spec fn delete_preferred(self) -> Window
        recommends
            self.windows@.len() >= 1,
    {
        match self.focused_last {
            Some(l) => if (l as int) < self.windows@.len() {
                self.windows@[l as int]
            } else {
                self.windows@[0]
            },
            None => self.windows@[0],
        }
    }

    /// Where focus lands after the focused window is deleted: nowhere
    /// when the desktop empties, the lone survivor, or the preferred
    /// window found again in the shrunk list (the master when it was the
    /// deleted window itself).
    pub open spec fn delete_new_focus(self) -> Option<usize>
        recommends
            self.focused_window is Some,
            self.wf(),
    {
        let f = self.focused_window.unwrap() as int;
        let ws2 = self.windows@.remove(f);
        if ws2.len() == 0 {
            None
        } else if ws2.len() == 1 {
            Some(0usize)
        } else {
            match spec_window_index(ws2, self.delete_preferred().window) {
                Some(i) => Some(i as usize),
                None => Some(0usize),
            }
        }
    }

    /// How `delete_focused_window` changes the state: the focused window
    /// leaves the list, focus is re-derived, the return marker clears.
    pub open spec fn delete_focused_post(self, post: Desktop) -> bool {
        match self.focused_window {
            None => post == self,
            Some(f) => {
                &&& post.windows@ == self.windows@.remove(f as int)
                &&& post.focused_window == self.delete_new_focus()
                &&& post.focused_last is None
                &&& post.layout == self.layout
                &&& post.screen == self.screen
                &&& post.active == self.active
            },
        }
    }

    /// The requests `delete_focused_window` issues: close the focused
    /// window and flush; re-place the survivors; under monocle map the
    /// newly focused one; and update display focus.
    pub open spec fn delete_focused_requests(self) -> Seq<Request> {
        match self.focused_window {
            None => Seq::empty(),
            Some(f) => {
                let ws2 = self.windows@.remove(f as int);
                let nf = self.delete_new_focus();
                seq![Request::DeleteWindow(self.windows@[f as int].window), Request::Flush]
                    + layout_requests(self.layout, ws2, self.screen)
                    + (if self.layout is Monocle && nf is Some {
                    seq![Request::MapWindow(ws2[nf.unwrap() as int].window)]
                } else {
                    Seq::empty()
                }) + (match nf {
                    Some(i) => seq![Request::FocusWindow(ws2[i as int].window)],
                    None => Seq::empty(),
                })
            },
        }
    }

    /// The focus request re-asserted after a delete: display focus on
    /// the window focus lands on, nothing when the desktop empties.
    pub open spec fn delete_refocus_requests(self) -> Seq<Request> {
        match self.focused_window {
            None => Seq::empty(),
            Some(f) => {
                let ws2 = self.windows@.remove(f as int);
                match self.delete_new_focus() {
                    Some(i) => seq![Request::FocusWindow(ws2[i as int].window)],
                    None => Seq::empty(),
                }
            },
        }
    }

    /// Close the focused window, drop it from the list, refocus on the
    /// marked window (else the master), and re-place the desktop; a
    /// no-op without focus.
    pub fn delete_focused_window(&mut self) -> (r: Vec<Request>)
        requires
            old(self).wf(),
            old(self).layout is Tile ==> screen_fits(
                old(self).screen,
                old(self).windows@.len() as int,
            ),
        ensures
            final(self).wf(),
            old(self).delete_focused_post(*final(self)),
            r@ == old(self).delete_focused_requests(),
    {
        let f = match self.focused_window {
            Some(f) => f,
            None => {
                return Vec::new();
            },
        };
        let preferred: Window = match self.focused_last {
            Some(l) => if l < self.windows.len() {
                self.windows[l]
            } else {
                self.windows[0]
            },
            None => self.windows[0],
        };
        let focused_win = self.windows[f];
        let mut r: Vec<Request> = Vec::new();
        r.push(Request::DeleteWindow(focused_win.window));
        r.push(Request::Flush);
        self.remove_window(Some(f));
        let n2 = self.windows.len();
        if n2 == 0 {
            self.focused_window = None;
            self.focused_last = None;
        } else if n2 == 1 {
            self.focused_window = Some(0);
            self.focused_last = None;
        } else {
            let idx = self.get_window_index(&preferred);
            self.focused_window = match idx {
                Some(i) => Some(i),
                None => Some(0),
            };
            self.focused_last = None;
            proof {
                lemma_window_index_char(self.windows@, preferred.window);
            }
        }
        proof {
            if self.layout is Tile {
                lemma_screen_fits_mono(
                    self.screen,
                    self.windows@.len() as int,
                    old(self).windows@.len() as int,
                );
            }
        }
        let mut placed = self.apply_layout();
        r.append(&mut placed);
        if self.layout == Layout::Monocle {
            if let Some(w) = self.get_focused_window() {
                r.push(Request::MapWindow(w.window));
            }
        }
        let mut focus = self.update_focus();
        r.append(&mut focus);
        proof {
            assert(r@ =~= old(self).delete_focused_requests());
        }
        r
    }

    /// How a tile focus move changes the state: exactly one step of
    /// `tile_focus_next`.
    pub open spec fn focus_tile_post(self, post: Desktop, dir: Direction) -> bool
        recommends
            self.focused_window is Some,
    {
        let f = self.focused_window.unwrap() as int;
        let n = self.windows@.len() as int;
        let step = tile_focus_next(f, opt_int(self.focused_last), n, dir);
        post == (Desktop {
            focused_window: Some(step.0 as usize),
            focused_last: match step.1 {
                Some(l) => Some(l as usize),
                None => None,
            },
            ..self
        })
    }

    /// The requests of a tile focus move: display focus on the window
    /// entered, nothing when the move's precondition fails.
    pub open spec fn focus_tile_requests(self, dir: Direction) -> Seq<Request>
        recommends
            self.focused_window is Some,
            self.wf(),
    {
        let f = self.focused_window.unwrap() as int;
        let n = self.windows@.len() as int;
        if tile_focus_acts(f, n, dir) {
            let step = tile_focus_next(f, opt_int(self.focused_last), n, dir);
            seq![Request::FocusWindow(self.windows@[step.0].window)]
        } else {
            Seq::empty()
        }
    }

    /// How a monocle focus move changes the state: down and right cycle
    /// forward, up and left cycle backward.
    pub open spec fn focus_monocle_post(self, post: Desktop, dir: Direction) -> bool {
        match dir {
            Direction::Down | Direction::Right => self.cycle_forward_post(post),
            Direction::Up | Direction::Left => self.cycle_backward_post(post),
        }
    }

    /// The requests of a monocle focus move: hide the window left, show
    /// the one entered, and give it display focus.
    pub open spec fn focus_monocle_requests(self, dir: Direction) -> Seq<Request>
        recommends
            self.focused_window is Some,
            self.wf(),
    {
        let f = self.focused_window.unwrap() as int;
        let n = self.windows@.len() as int;
        let nf = match dir {
            Direction::Down | Direction::Right => monocle_forward(f, n),
            Direction::Up | Direction::Left => monocle_backward(f, n),
        };
        seq![
            Request::UnmapWindow(self.windows@[f].window),
            Request::MapWindow(self.windows@[nf].window),
            Request::FocusWindow(self.windows@[nf].window),
        ]
    }

    /// How a focus move changes the state, dispatched on the layout: a
    /// no-op without focus and under the float layout.
    pub open spec fn focus_window_post(self, post: Desktop, dir: Direction) -> bool {
        if self.focused_window is None {
            post == self
        } else {
            match self.layout {
                Layout::Tile => self.focus_tile_post(post, dir),
                Layout::Monocle => self.focus_monocle_post(post, dir),
                Layout::Float => post == self,
            }
        }
    }

    /// The requests of a focus move, dispatched on the layout.
    pub open spec fn focus_window_requests(self, dir: Direction) -> Seq<Request> {
        if self.focused_window is None {
            Seq::empty()
        } else {
            match self.layout {
                Layout::Tile => self.focus_tile_requests(dir),
                Layout::Monocle => self.focus_monocle_requests(dir),
                Layout::Float => Seq::empty(),
            }
        }
    }

    /// How unmanaging the window `id` changes a desktop: the first
    /// occurrence of `id` leaves the list; focus keeps following the
    /// window it was on, or slides to the nearest survivor when that
    /// window itself left; the return marker, made stale by the
    /// removal, is cleared. A desktop not holding `id` is unchanged.
    pub open spec fn remove_refocus_post(self, post: Desktop, id: u32) -> bool
        recommends
            self.wf(),
    {
        match spec_window_index(self.windows@, id) {
            None => post == self,
            Some(i) => {
                let ws2 = self.windows@.remove(i);
                let j = self.focused_window.unwrap() as int;
                &&& post.windows@ == ws2
                &&& post.layout == self.layout
                &&& post.screen == self.screen
                &&& post.active == self.active
                &&& post.focused_last is None
                &&& post.focused_window == (if ws2.len() == 0 {
                    None::<usize>
                } else if j > i {
                    Some((j - 1) as usize)
                } else if j < i {
                    Some(j as usize)
                } else if j < ws2.len() {
                    Some(j as usize)
                } else {
                    Some((ws2.len() - 1) as usize)
                })
            },
        }
    }
}

/// The fixed set of desktops and the index of the active one. Every
/// window-affecting operation forwards to the active desktop;
/// membership queries scan them all.
pub struct Desktops {
    pub desktops: Vec<Desktop>,
    pub focused_desktop: usize,
}

impl Desktops {
    /// The active index is valid and every desktop satisfies its own
    /// focus invariant.
    pub open spec fn wf(self) -> bool {
        &&& (self.focused_desktop as int) < self.desktops@.len()
        &&& forall|i: int|
            0 <= i < self.desktops@.len() ==> (#[trigger] self.desktops@[i]).wf()
    }

    /// The active desktop.
    pub open spec fn active(self) -> Desktop {
        self.desktops@[self.focused_desktop as int]
    }

    /// The desktop count and the active index are kept, and every
    /// desktop but the active one is unchanged.
    pub open spec fn same_but_active(self, post: Desktops) -> bool {
        &&& post.focused_desktop == self.focused_desktop
        &&& post.desktops@.len() == self.desktops@.len()
        &&& forall|i: int|
            0 <= i < self.desktops@.len() && i != self.focused_desktop
                ==> (#[trigger] post.desktops@[i]) == self.desktops@[i]
    }

    pub fn new(desktops: Vec<Desktop>, focused_desktop: usize) -> (r: Desktops)
        requires
            (focused_desktop as int) < desktops@.len(),
        ensures
            r.desktops@ == desktops@,
            r.focused_desktop == focused_desktop,
    {
        Desktops { desktops, focused_desktop }
    }

    /// Whether any desktop holds a window with `window`'s identifier.
    pub fn contains(&self, window: &Window) -> (r: bool)
        ensures
            r == exists|i: int|
                0 <= i < self.desktops@.len() && (#[trigger] self.desktops@[i]).has_window(
                    window.window,
                ),
    {
        let n = self.desktops.len();
        let mut i: usize = 0;
        while i < n
            invariant
                n == self.desktops@.len(),
                i <= n,
                forall|k: int|
                    0 <= k < i ==> !(#[trigger] self.desktops@[k]).has_window(window.window),
            decreases n - i,
        {
            if self.desktops[i].contains(window) {
                return true;
            }
            i += 1;
        }
        false
    }

    /// Append a window to the active desktop.
    pub fn add_window(&mut self, window: Window) -> (r: Vec<Request>)
        requires
            old(self).wf(),
            old(self).active().layout is Tile ==> screen_fits(
                old(self).active().screen,
                old(self).active().windows@.len() as int + 1,
            ),
        ensures
            final(self).wf(),
            old(self).same_but_active(*final(self)),
            old(self).active().add_window_post(final(self).active(), window),
            r@ == old(self).active().add_window_requests(window),
    {
        let fd = self.focused_desktop;
        let d = &mut self.desktops[fd];
        d.add_window(window)
    }

    /// Unmanage a window: resolve it to an index within the active
    /// desktop, remove it there, and re-derive the focus. A window the
    /// active desktop does not hold is a no-op.
    pub fn remove_window(&mut self, window: &Window)
        requires
            old(self).wf(),
        ensures
            final(self).wf(),
            old(self).same_but_active(*final(self)),
            old(self).active().remove_refocus_post(final(self).active(), window.window),
    {
        let fd = self.focused_desktop;
        let d = &mut self.desktops[fd];
        let idx = d.get_window_index(window);
        proof {
            lemma_window_index_char(old(self).active().windows@, window.window);
        }
        d.remove_window(idx);
        match idx {
            None => {},
            Some(i) => {
                let n2 = d.windows.len();
                if n2 == 0 {
                    d.focused_window = None;
                    d.focused_last = None;
                } else {
                    let j = d.focused_window.unwrap();
                    let nf: usize = if j > i {
                        j - 1
                    } else if j < i {
                        j
                    } else if j < n2 {
                        j
                    } else {
                        n2 - 1
                    };
                    d.focused_window = Some(nf);
                    d.focused_last = None;
                }
            },
        }
    }

    /// The active desktop's layout.
    pub fn layout(&self) -> (r: Layout)
        requires
            self.wf(),
        ensures
            r == self.active().layout,
    {
        self.desktops[self.focused_desktop].layout()
    }

    /// Switch the active desktop's layout.
    pub fn change_layout(&mut self, layout: &Layout) -> (r: Vec<Request>)
        requires
            old(self).wf(),
            (*layout) is Tile ==> screen_fits(
                old(self).active().screen,
                old(self).active().windows@.len() as int,
            ),
        ensures
            final(self).wf(),
            old(self).same_but_active(*final(self)),
            old(self).active().change_layout_post(final(self).active(), *layout),
            r@ == old(self).active().change_layout_requests(*layout),
    {
        let fd = self.focused_desktop;
        let d = &mut self.desktops[fd];
        d.change_layout(layout)
    }

    /// Re-issue the active desktop's placement decisions.
    pub fn apply_layout(&self) -> (r: Vec<Request>)
        requires
            self.wf(),
            self.active().layout is Tile ==> screen_fits(
                self.active().screen,
                self.active().windows@.len() as int,
            ),
        ensures
            r@ == layout_requests(
                self.active().layout,
                self.active().windows@,
                self.active().screen,
            ),
    {
        self.desktops[self.focused_desktop].apply_layout()
    }

    /// Move focus in a direction on the active desktop, dispatched on
    /// its layout; a no-op when nothing is focused there.
    pub fn focus_window(&mut self, direction: &Direction) -> (r: Vec<Request>)
        requires
            old(self).wf(),
        ensures
            final(self).wf(),
            old(self).same_but_active(*final(self)),
            old(self).active().focus_window_post(final(self).active(), *direction),
            r@ == old(self).active().focus_window_requests(*direction),
    {
        if self.get_focused_window().is_none() {
            return Vec::new();
        }
        match self.layout() {
            Layout::Tile => self.focus_window_tile(direction),
            Layout::Monocle => self.focus_window_monocle(direction),
            Layout::Float => Vec::new(),
        }
    }

    /// One step of the tile focus state machine on the active desktop.
    fn focus_window_tile(&mut self, direction: &Direction) -> (r: Vec<Request>)
        requires
            old(self).wf(),
            old(self).active().layout is Tile,
            old(self).active().focused_window is Some,
        ensures
            final(self).wf(),
            old(self).same_but_active(*final(self)),
            old(self).active().focus_tile_post(final(self).active(), *direction),
            r@ == old(self).active().focus_tile_requests(*direction),
    {
        let fd = self.focused_desktop;
        let d = &mut self.desktops[fd];
        let f = d.focused_window.unwrap();
        let n = d.windows.len();
        match direction {
            Direction::Up => {
                if f == 0 {
                    return Vec::new();
                }
                if f - 1 == 0 {
                    return Vec::new();
                }
                d.focused_last = Some(f);
                d.focused_window = Some(f - 1);
                d.update_focus()
            },
            Direction::Down => {
                if f == 0 {
                    return Vec::new();
                }
                if f + 1 == n {
                    return Vec::new();
                }
                d.focused_last = Some(f);
                d.focused_window = Some(f + 1);
                d.update_focus()
            },
            Direction::Left => {
                if f == 0 {
                    return Vec::new();
                }
                d.focused_last = Some(f);
                d.focused_window = Some(0);
                d.update_focus()
            },
            Direction::Right => {
                if f != 0 {
                    return Vec::new();
                }
                if n <= 1 {
                    return Vec::new();
                }
                let marked = d.focused_last.unwrap_or(1);
                let l: usize = if marked < n {
                    marked
                } else {
                    1
                };
                d.focused_window = Some(l);
                d.focused_last = Some(0);
                d.update_focus()
            },
        }
    }

    /// One monocle cycle step on the active desktop: down and right
    /// cycle forward, up and left backward; then update display focus.
    fn focus_window_monocle(&mut self, direction: &Direction) -> (r: Vec<Request>)
        requires
            old(self).wf(),
            old(self).active().layout is Monocle,
            old(self).active().focused_window is Some,
        ensures
            final(self).wf(),
            old(self).same_but_active(*final(self)),
            old(self).active().focus_monocle_post(final(self).active(), *direction),
            r@ == old(self).active().focus_monocle_requests(*direction),
    {
        let fd = self.focused_desktop;
        let mut r = {
            let d = &mut self.desktops[fd];
            match direction {
                Direction::Down | Direction::Right => d.cycle_window_forward(),
                Direction::Up | Direction::Left => d.cycle_window_backward(),
            }
        };
        let mut focus = self.update_focus();
        proof {
            // ties the view length to the vector length, bounding the
            // new focused index for the cast below usize
            assert(old(self).active().windows.len() == old(self).active().windows@.len());
        }
        r.append(&mut focus);
        proof {
            assert(r@ =~= old(self).active().focus_monocle_requests(*direction));
        }
        r
    }

    /// Reorder the active desktop's windows in a direction.
    pub fn move_window_tile(&mut self, direction: &Direction) -> (r: Vec<Request>)
        requires
            old(self).wf(),
            old(self).active().layout is Tile ==> screen_fits(
                old(self).active().screen,
                old(self).active().windows@.len() as int,
            ),
        ensures
            final(self).wf(),
            old(self).same_but_active(*final(self)),
            old(self).active().move_window_post(final(self).active(), *direction),
            r@ == old(self).active().move_window_requests(*direction),
    {
        let fd = self.focused_desktop;
        let d = &mut self.desktops[fd];
        d.move_window(direction)
    }

    /// Ask the display to focus the active desktop's focused window.
    fn update_focus(&self) -> (r: Vec<Request>)
        requires
            self.wf(),
        ensures
            r@ == self.active().focus_requests(),
    {
        self.desktops[self.focused_desktop].update_focus()
    }

    /// The active desktop's focused window.
    fn get_focused_window(&self) -> (r: Option<Window>)
        requires
            self.wf(),
        ensures
            match self.active().focused_window {
                Some(i) => r == Some(self.active().windows@[i as int]),
                None => r is None,
            },
    {
        self.desktops[self.focused_desktop].get_focused_window()
    }

    /// Close and drop the active desktop's focused window, then
    /// re-assert display focus.
    pub fn delete_focused_window(&mut self) -> (r: Vec<Request>)
        requires
            old(self).wf(),
            old(self).active().layout is Tile ==> screen_fits(
                old(self).active().screen,
                old(self).active().windows@.len() as int,
            ),
        ensures
            final(self).wf(),
            old(self).same_but_active(*final(self)),
            old(self).active().delete_focused_post(final(self).active()),
            r@ == old(self).active().delete_focused_requests()
                + old(self).active().delete_refocus_requests(),
    {
        let fd = self.focused_desktop;
        let mut r = {
            let d = &mut self.desktops[fd];
            d.delete_focused_window()
        };
        let mut focus = self.update_focus();
        r.append(&mut focus);
        r
    }
}

/// The tile focus state machine run over a whole direction sequence.
pub open spec fn tile_focus_run(f: int, last: Option<int>, n: int, ds: Seq<Direction>) -> (
    int,
    Option<int>,
)
    decreases ds.len(),
{
    if ds.len() == 0 {
        (f, last)
    } else {
        let step = tile_focus_next(f, last, n, ds[0]);
        tile_focus_run(step.0, step.1, n, ds.drop_first())
    }
}

/// From a stack position, no sequence of up and down focus moves ever
/// reaches the master slot: the focused index stays in the stack.
pub proof fn lemma_up_down_stay_in_stack(f: int, last: Option<int>, n: int, ds: Seq<Direction>)
    requires
        1 <= f < n,
        forall|i: int|
            0 <= i < ds.len() ==> ds[i] == Direction::Up || ds[i] == Direction::Down,
    ensures
        ({
            let end = tile_focus_run(f, last, n, ds);
            1 <= end.0 < n
        }),
    decreases ds.len(),
{
    if ds.len() > 0 {
        assert(ds[0] == Direction::Up || ds[0] == Direction::Down);
        let step = tile_focus_next(f, last, n, ds[0]);
        assert(1 <= step.0 < n);
        let rest = ds.drop_first();
        assert forall|i: int|
            0 <= i < rest.len() implies rest[i] == Direction::Up || rest[i]
            == Direction::Down by {
            assert(rest[i] == ds[i + 1]);
        }
        lemma_up_down_stay_in_stack(step.0, step.1, n, rest);
    }
}

/// From a stack position, a left focus move followed by a right one
/// restores the focused index: left records where it came from, and
/// right returns there.
pub proof fn lemma_left_right_round_trip(f: int, last: Option<int>, n: int)
    requires
        1 <= f < n,
    ensures
        ({
            let s1 = tile_focus_next(f, last, n, Direction::Left);
            let s2 = tile_focus_next(s1.0, s1.1, n, Direction::Right);
            s2.0 == f
        }),
{
}

/// `k` forward monocle cycle steps from `f`.
pub open spec fn monocle_forward_n(f: int, n: int, k: nat) -> int
    decreases k,
{
    if k == 0 {
        f
    } else {
        monocle_forward(monocle_forward_n(f, n, (k - 1) as nat), n)
    }
}

/// Up to `n` forward steps walk the indices in order, wrapping once.
proof fn lemma_monocle_forward_n_linear(f: int, n: int, k: nat)
    requires
        0 <= f < n,
        k <= n,
    ensures
        monocle_forward_n(f, n, k) == if f + k < n {
            f + k
        } else {
            f + k - n
        },
    decreases k,
{
    if k > 0 {
        lemma_monocle_forward_n_linear(f, n, (k - 1) as nat);
    }
}

/// Forward monocle cycling `n` times from any index returns to it.
pub proof fn lemma_monocle_cycle_wraps(f: int, n: int)
    requires
        0 <= f < n,
    ensures
        monocle_forward_n(f, n, n as nat) == f,
{
    lemma_monocle_forward_n_linear(f, n, n as nat);
}

/// Backward monocle cycling is the exact inverse of forward cycling.
pub proof fn lemma_monocle_backward_inverts_forward(f: int, n: int)
    requires
        0 <= f < n,
    ensures
        monocle_backward(monocle_forward(f, n), n) == f,
        monocle_forward(monocle_backward(f, n), n) == f,
{
}

} // verus!
