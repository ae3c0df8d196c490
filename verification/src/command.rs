//! Key-driven commands and the dispatch that maps each to exactly one
//! desktop-set operation.

use crate::layout::{screen_fits, Layout};
use crate::x::Request;
use crate::Worm;
use vstd::prelude::*;

verus! {

/// A navigation direction, as bound to a key.
#[derive(Clone, Copy, Debug, PartialEq, Eq, Structural)]
pub enum Direction {
    Left,
    Right,
    Up,
    Down,
}

/// An action a key binding can request.
#[derive(Clone, Copy, Debug, PartialEq, Eq, Structural)]
pub enum Command {
    ChangeLayout(Layout),
    FocusDirection(Direction),
    /// Declared but not wired to a handler: dispatch treats it as a no-op.
    FocusDesktop(usize),
    MoveDirection(Direction),
    KillFocused,
}

/// What executing `c` asks of the screen: room to tile the active
/// desktop's windows, where the command re-applies the tile layout.
pub open spec fn command_fits(c: Command, w: Worm) -> bool {
    match c {
        Command::ChangeLayout(l) => l is Tile ==> screen_fits(
            w.screen,
            w.active().windows@.len() as int,
        ),
        Command::MoveDirection(_) | Command::KillFocused => w.active().layout is Tile
            ==> screen_fits(w.screen, w.active().windows@.len() as int),
        Command::FocusDirection(_) | Command::FocusDesktop(_) => true,
    }
}

/// How executing `c` changes the manager: exactly one operation on the
/// active desktop; the reserved desktop-switch command changes nothing.
pub open spec fn command_post(c: Command, pre: Worm, post: Worm) -> bool {
    match c {
        Command::ChangeLayout(l) => {
            &&& post.binds == pre.binds
            &&& post.screen == pre.screen
            &&& pre.desktops.same_but_active(post.desktops)
            &&& pre.active().change_layout_post(post.active(), l)
        },
        Command::FocusDirection(d) => {
            &&& post.binds == pre.binds
            &&& post.screen == pre.screen
            &&& pre.desktops.same_but_active(post.desktops)
            &&& pre.active().focus_window_post(post.active(), d)
        },
        Command::MoveDirection(d) => {
            &&& post.binds == pre.binds
            &&& post.screen == pre.screen
            &&& pre.desktops.same_but_active(post.desktops)
            &&& pre.active().move_window_post(post.active(), d)
        },
        Command::KillFocused => {
            &&& post.binds == pre.binds
            &&& post.screen == pre.screen
            &&& pre.desktops.same_but_active(post.desktops)
            &&& pre.active().delete_focused_post(post.active())
        },
        Command::FocusDesktop(_) => post == pre,
    }
}

/// The requests executing `c` issues.
pub open spec fn command_requests(c: Command, w: Worm) -> Seq<Request> {
    match c {
        Command::ChangeLayout(l) => w.active().change_layout_requests(l),
        Command::FocusDirection(d) => w.active().focus_window_requests(d),
        Command::MoveDirection(d) => w.active().move_window_requests(d),
        Command::KillFocused => w.active().delete_focused_requests()
            + w.active().delete_refocus_requests(),
        Command::FocusDesktop(_) => Seq::empty(),
    }
}

impl Command {
    /// Execute the command against the manager: a closed dispatch, one
    /// desktop-set operation per variant.
    pub fn command(&self, wm: &mut Worm) -> (r: Vec<Request>)
        requires
            old(wm).wf(),
            command_fits(*self, *old(wm)),
        ensures
            final(wm).wf(),
            command_post(*self, *old(wm), *final(wm)),
            r@ == command_requests(*self, *old(wm)),
    {
        match self {
            Command::ChangeLayout(l) => Command::change_layout(wm, l),
            Command::FocusDirection(d) => Command::focus_direction(wm, d),
            Command::MoveDirection(d) => Command::move_direction(wm, d),
            Command::KillFocused => Command::kill_focused(wm),
            Command::FocusDesktop(_) => Vec::new(),
        }
    }

    fn change_layout(wm: &mut Worm, layout: &Layout) -> (r: Vec<Request>)
        requires
            old(wm).wf(),
            (*layout) is Tile ==> screen_fits(
                old(wm).screen,
                old(wm).active().windows@.len() as int,
            ),
        ensures
            final(wm).wf(),
            command_post(Command::ChangeLayout(*layout), *old(wm), *final(wm)),
            r@ == command_requests(Command::ChangeLayout(*layout), *old(wm)),
    {
        wm.desktops.change_layout(layout)
    }

    fn focus_direction(wm: &mut Worm, direction: &Direction) -> (r: Vec<Request>)
        requires
            old(wm).wf(),
        ensures
            final(wm).wf(),
            command_post(Command::FocusDirection(*direction), *old(wm), *final(wm)),
            r@ == command_requests(Command::FocusDirection(*direction), *old(wm)),
    {
        wm.desktops.focus_window(direction)
    }

    fn move_direction(wm: &mut Worm, direction: &Direction) -> (r: Vec<Request>)
        requires
            old(wm).wf(),
            old(wm).active().layout is Tile ==> screen_fits(
                old(wm).screen,
                old(wm).active().windows@.len() as int,
            ),
        ensures
            final(wm).wf(),
            command_post(Command::MoveDirection(*direction), *old(wm), *final(wm)),
            r@ == command_requests(Command::MoveDirection(*direction), *old(wm)),
    {
        wm.desktops.move_window_tile(direction)
    }

    fn kill_focused(wm: &mut Worm) -> (r: Vec<Request>)
        requires
            old(wm).wf(),
            old(wm).active().layout is Tile ==> screen_fits(
                old(wm).screen,
                old(wm).active().windows@.len() as int,
            ),
        ensures
            final(wm).wf(),
            command_post(Command::KillFocused, *old(wm), *final(wm)),
            r@ == command_requests(Command::KillFocused, *old(wm)),
    {
        wm.desktops.delete_focused_window()
    }
}

} // verus!
