//! The three layout kinds and the pure geometry that places an ordered
//! window list on the screen.
//!
//! Applying a layout returns the display requests to perform, exactly one
//! placement decision per window; it never touches desktop state, so
//! applying it twice to unchanged inputs yields the same requests.

use crate::x::{Request, Window, WindowChanges};
use crate::Screen;
use vstd::arithmetic::div_mod::{lemma_div_basics, lemma_div_nonincreasing, lemma_div_pos_is_pos};
use vstd::arithmetic::mul::lemma_mul_is_distributive_add;
use vstd::prelude::*;

verus! {

/// The gap, in pixels, between the master column and the stack column and
/// between stacked windows.
pub const GAP: u32 = 10;

/// How a desktop arranges its windows.
#[derive(Clone, Copy, Debug, PartialEq, Eq, Structural)]
pub enum Layout {
    Float,
    Monocle,
    Tile,
}

/// The screen is large enough to tile `n` windows: wide enough for the
/// column gap and tall enough for the gaps between the `n - 1` stacked
/// windows.
pub open spec fn screen_fits(s: Screen, n: int) -> bool {
    &&& s.wf()
    &&& n >= 2 ==> s.width >= GAP && s.height >= (GAP as int) * (n - 2)
}

/// A screen that fits `n` windows fits any smaller count.
pub proof fn lemma_screen_fits_mono(s: Screen, m: int, n: int)
    requires
        screen_fits(s, n),
        m <= n,
    ensures
        screen_fits(s, m),
{
}

/// Width of the master column when `n` windows are tiled: half the width
/// left of the column gap, zero when the master has the screen to itself.
pub open spec fn master_width(n: int, sw: int) -> int {
    if n <= 1 {
        0
    } else {
        (sw - GAP) / 2
    }
}

/// Width of the stack column: what the master column and the gap leave.
pub open spec fn stack_width(n: int, sw: int) -> int {
    sw - master_width(n, sw) - GAP
}

/// Vertical offset, within the stack column, of the `j`-th stack window
/// (stack position `j` is window index `j + 1`). Each window advances the
/// cursor by its own height plus the gap.
pub open spec fn stack_ty(j: int, n: int, sh: int) -> int
    decreases j,
{
    if j <= 0 {
        0
    } else {
        let prev = stack_ty(j - 1, n, sh);
        prev + (sh - prev - (GAP as int) * (n - 1 - j)) / (n - j) + GAP
    }
}

/// Height of the `j`-th stack window: the space below the cursor, less
/// one gap per remaining slot boundary, divided evenly among the
/// `n - 1 - j` windows still to be placed.
pub open spec fn stack_h(j: int, n: int, sh: int) -> int {
    (sh - stack_ty(j, n, sh) - (GAP as int) * (n - 2 - j)) / (n - 1 - j)
}

/// The stack space still to be distributed when the cursor stands before
/// stack window `j`: what is below the cursor minus the remaining gaps.
pub open spec fn stack_rest(j: int, n: int, sh: int) -> int {
    sh - stack_ty(j, n, sh) - (GAP as int) * (n - 2 - j)
}

/// Left edge of window `i` among `n` tiled windows.
pub open spec fn tile_x(i: int, n: int, s: Screen) -> int {
    if i == 0 {
        s.x as int
    } else {
        s.x + master_width(n, s.width as int) + GAP
    }
}

/// Top edge of window `i` among `n` tiled windows.
pub open spec fn tile_y(i: int, n: int, s: Screen) -> int {
    if i == 0 {
        s.y as int
    } else {
        s.y + stack_ty(i - 1, n, s.height as int)
    }
}

/// Width of window `i` among `n` tiled windows. A lone window spans the
/// full screen width; otherwise the master takes the master column and
/// the rest take the stack column.
pub open spec fn tile_w(i: int, n: int, s: Screen) -> int {
    if i == 0 {
        if n == 1 {
            s.width as int
        } else {
            master_width(n, s.width as int)
        }
    } else {
        stack_width(n, s.width as int)
    }
}

/// Height of window `i` among `n` tiled windows. The single master spans
/// the full screen height.
pub open spec fn tile_h(i: int, n: int, s: Screen) -> int {
    if i == 0 {
        s.height as int
    } else {
        stack_h(i - 1, n, s.height as int)
    }
}

/// The configuration issued for window `i` among `n` tiled windows.
pub open spec fn tile_changes(i: int, n: int, s: Screen) -> WindowChanges {
    WindowChanges {
        x: tile_x(i, n, s) as u32,
        y: tile_y(i, n, s) as u32,
        width: tile_w(i, n, s) as u32,
        height: tile_h(i, n, s) as u32,
        border_width: 0,
        sibling: 0,
        stack_mode: 0,
    }
}

/// The configuration issued for every window under the monocle layout:
/// the full screen rectangle.
pub open spec fn monocle_changes(s: Screen) -> WindowChanges {
    WindowChanges {
        x: s.x,
        y: s.y,
        width: s.width,
        height: s.height,
        border_width: 0,
        sibling: 0,
        stack_mode: 0,
    }
}

/// The request bracket that places one window: suspend its event
/// tracking, map it, configure it, resume tracking.
pub open spec fn place_requests(w: Window, c: WindowChanges) -> Seq<Request> {
    seq![
        Request::StopWindowEvents(w.window),
        Request::MapWindow(w.window),
        Request::ConfigureWindow(w.window, c),
        Request::TrackWindowEvents(w.window),
    ]
}

/// The request bracket that shows one window without placing it:
/// suspend its event tracking, map it, resume tracking.
pub open spec fn show_requests(w: Window) -> Seq<Request> {
    seq![
        Request::StopWindowEvents(w.window),
        Request::MapWindow(w.window),
        Request::TrackWindowEvents(w.window),
    ]
}

/// The float layout's requests for the first `i` windows.
pub open spec fn float_requests_upto(ws: Seq<Window>, i: int) -> Seq<Request>
    decreases i,
{
    if i <= 0 {
        Seq::empty()
    } else {
        float_requests_upto(ws, i - 1) + show_requests(ws[i - 1])
    }
}

/// The float layout's requests: each window shown, none placed.
pub open spec fn float_requests(ws: Seq<Window>) -> Seq<Request> {
    float_requests_upto(ws, ws.len() as int)
}

/// The monocle layout's requests for the first `i` windows.
pub open spec fn monocle_requests_upto(ws: Seq<Window>, s: Screen, i: int) -> Seq<Request>
    decreases i,
{
    if i <= 0 {
        Seq::empty()
    } else {
        monocle_requests_upto(ws, s, i - 1) + place_requests(ws[i - 1], monocle_changes(s))
    }
}

/// The monocle layout's requests: every window placed at the full screen
/// rectangle. Which single window stays visible is decided by the cycle
/// and add/delete operations, not here.
pub open spec fn monocle_requests(ws: Seq<Window>, s: Screen) -> Seq<Request> {
    monocle_requests_upto(ws, s, ws.len() as int)
}

/// The tile layout's requests for the first `i` windows.
pub open spec fn tile_requests_upto(ws: Seq<Window>, s: Screen, i: int) -> Seq<Request>
    decreases i,
{
    if i <= 0 {
        Seq::empty()
    } else {
        tile_requests_upto(ws, s, i - 1)
            + place_requests(ws[i - 1], tile_changes(i - 1, ws.len() as int, s))
    }
}

/// The tile layout's requests: window 0 in the master column, the rest
/// stacked top to bottom in the stack column.
pub open spec fn tile_requests(ws: Seq<Window>, s: Screen) -> Seq<Request> {
    tile_requests_upto(ws, s, ws.len() as int)
}

/// The requests a layout issues for an ordered window list.
pub open spec fn layout_requests(l: Layout, ws: Seq<Window>, s: Screen) -> Seq<Request> {
    match l {
        Layout::Float => float_requests(ws),
        Layout::Monocle => monocle_requests(ws, s),
        Layout::Tile => tile_requests(ws, s),
    }
}

impl Layout {
    /// Issue exactly one placement decision per window for the current
    /// layout. Pure: the same inputs always yield the same requests.
    pub fn apply(&self, windows: &Vec<Window>, screen: &Screen) -> (r: Vec<Request>)
        requires
            (*self) is Tile ==> screen_fits(*screen, windows@.len() as int),
        ensures
            r@ == layout_requests(*self, windows@, *screen),
    {
        match self {
            Layout::Float => Layout::float(windows),
            Layout::Monocle => Layout::monocle(windows, screen),
            Layout::Tile => Layout::tile(windows, screen),
        }
    }

    /// Float: show every window; compute no geometry.
    fn float(windows: &Vec<Window>) -> (r: Vec<Request>)
        ensures
            r@ == float_requests(windows@),
    {
        let n = windows.len();
        let mut r: Vec<Request> = Vec::new();
        let mut i: usize = 0;
        while i < n
            invariant
                n == windows@.len(),
                i <= n,
                r@ == float_requests_upto(windows@, i as int),
            decreases n - i,
        {
            let w = windows[i];
            r.push(Request::StopWindowEvents(w.window));
            r.push(Request::MapWindow(w.window));
            r.push(Request::TrackWindowEvents(w.window));
            proof {
                assert(r@ =~= float_requests_upto(windows@, i as int)
                    + show_requests(windows@[i as int]));
            }
            i += 1;
        }
        r
    }

    /// Monocle: place every window at the full screen rectangle.
    fn monocle(windows: &Vec<Window>, screen: &Screen) -> (r: Vec<Request>)
        ensures
            r@ == monocle_requests(windows@, *screen),
    {
        let n = windows.len();
        let mut r: Vec<Request> = Vec::new();
        let changes = WindowChanges {
            x: screen.x,
            y: screen.y,
            width: screen.width,
            height: screen.height,
            border_width: 0,
            sibling: 0,
            stack_mode: 0,
        };
        let mut i: usize = 0;
        while i < n
            invariant
                n == windows@.len(),
                i <= n,
                changes == monocle_changes(*screen),
                r@ == monocle_requests_upto(windows@, *screen, i as int),
            decreases n - i,
        {
            let w = windows[i];
            r.push(Request::StopWindowEvents(w.window));
            r.push(Request::MapWindow(w.window));
            r.push(Request::ConfigureWindow(w.window, changes));
            r.push(Request::TrackWindowEvents(w.window));
            proof {
                assert(r@ =~= monocle_requests_upto(windows@, *screen, i as int)
                    + place_requests(windows@[i as int], monocle_changes(*screen)));
            }
            i += 1;
        }
        r
    }

    /// Tile: master-stack. Window 0 fills the master column; windows
    /// `1..n` stack top to bottom in the column right of it, the space
    /// below the cursor divided evenly among the windows still to place.
    fn tile(windows: &Vec<Window>, screen: &Screen) -> (r: Vec<Request>)
        requires
            screen_fits(*screen, windows@.len() as int),
        ensures
            r@ == tile_requests(windows@, *screen),
    {
        let n = windows.len();
        let mut r: Vec<Request> = Vec::new();
        if n == 0 {
            return r;
        }

        let mw: u32 = if n > 1 { (screen.width - GAP) / 2 } else { 0 };
        proof {
            assert(mw == master_width(n as int, screen.width as int));
        }
        let mut ty: u32 = 0;
        let mut i: usize = 0;
        while i < n
            invariant
                screen_fits(*screen, n as int),
                n == windows@.len(),
                1 <= n,
                i <= n,
                mw == master_width(n as int, screen.width as int),
                i == 0 ==> ty == 0,
                i >= 1 ==> ty == stack_ty(i - 1, n as int, screen.height as int),
                i >= 1 && i <= n - 1 ==> stack_rest(i - 1, n as int, screen.height as int) >= 0,
                r@ == tile_requests_upto(windows@, *screen, i as int),
            decreases n - i,
        {
            let w = windows[i];
            if i == 0 {
                let width: u32 = if n == 1 { screen.width } else { mw };
                let changes = WindowChanges {
                    x: screen.x,
                    y: screen.y,
                    width,
                    height: screen.height,
                    border_width: 0,
                    sibling: 0,
                    stack_mode: 0,
                };
                r.push(Request::StopWindowEvents(w.window));
                r.push(Request::MapWindow(w.window));
                r.push(Request::ConfigureWindow(w.window, changes));
                r.push(Request::TrackWindowEvents(w.window));
                proof {
                    assert(changes == tile_changes(0, n as int, *screen));
                    assert(r@ =~= tile_requests_upto(windows@, *screen, i as int)
                        + place_requests(windows@[i as int],
                            tile_changes(i as int, n as int, *screen)));
                    if n >= 2 {
                        lemma_stack_bounds(0, n as int, screen.height as int);
                    }
                }
            } else {
                proof {
                    lemma_stack_bounds(i - 1, n as int, screen.height as int);
                }
                let rem: u32 = (n - i) as u32;
                let h: u32 = (screen.height - ty - GAP * (rem - 1)) / rem;
                proof {
                    assert(h == stack_h(i - 1, n as int, screen.height as int));
                    assert(mw + GAP <= screen.width);
                }
                let changes = WindowChanges {
                    x: screen.x + mw + GAP,
                    y: screen.y + ty,
                    width: screen.width - mw - GAP,
                    height: h,
                    border_width: 0,
                    sibling: 0,
                    stack_mode: 0,
                };
                r.push(Request::StopWindowEvents(w.window));
                r.push(Request::MapWindow(w.window));
                r.push(Request::ConfigureWindow(w.window, changes));
                r.push(Request::TrackWindowEvents(w.window));
                ty = ty + h + GAP;
                proof {
                    assert(changes == tile_changes(i as int, n as int, *screen));
                    assert(r@ =~= tile_requests_upto(windows@, *screen, i as int)
                        + place_requests(windows@[i as int],
                            tile_changes(i as int, n as int, *screen)));
                    lemma_stack_step(i - 1, n as int, screen.height as int);
                    assert(ty == stack_ty(i as int, n as int, screen.height as int));
                }
            }
            i += 1;
        }
        r
    }
}

/// Before placing stack window `j` the cursor is inside the screen and
/// the space to distribute, the window's height included, is nonnegative.
proof fn lemma_stack_bounds(j: int, n: int, sh: int)
    requires
        n >= 2,
        sh >= (GAP as int) * (n - 2),
        0 <= j <= n - 2,
    ensures
        stack_ty(j, n, sh) >= 0,
        stack_rest(j, n, sh) >= 0,
        0 <= stack_h(j, n, sh) <= stack_rest(j, n, sh),
    decreases j,
{
    if j == 0 {
        assert(stack_ty(0, n, sh) == 0);
        assert(stack_rest(0, n, sh) == sh - (GAP as int) * (n - 2));
    } else {
        lemma_stack_bounds(j - 1, n, sh);
        lemma_stack_step(j - 1, n, sh);
        assert(stack_ty(j, n, sh)
            == stack_ty(j - 1, n, sh) + stack_h(j - 1, n, sh) + GAP);
        assert(stack_rest(j, n, sh) == stack_rest(j - 1, n, sh) - stack_h(j - 1, n, sh));
    }
    lemma_div_pos_is_pos(stack_rest(j, n, sh), n - 1 - j);
    lemma_div_nonincreasing(stack_rest(j, n, sh), n - 1 - j);
}

/// Advancing the cursor past stack window `j` spends that window's
/// height plus one gap of the remaining space.
proof fn lemma_stack_step(j: int, n: int, sh: int)
    requires
        0 <= j,
    ensures
        stack_ty(j + 1, n, sh) == stack_ty(j, n, sh) + stack_h(j, n, sh) + GAP,
        stack_rest(j + 1, n, sh) == stack_rest(j, n, sh) - stack_h(j, n, sh),
{
    assert(stack_ty(j + 1, n, sh)
        == stack_ty(j, n, sh)
            + (sh - stack_ty(j, n, sh) - (GAP as int) * (n - 2 - j)) / (n - 1 - j) + GAP);
}

/// The cursor moves strictly down the stack: a later window starts below
/// where an earlier one ended, with a gap between.
proof fn lemma_stack_ty_mono(a: int, b: int, n: int, sh: int)
    requires
        n >= 2,
        sh >= (GAP as int) * (n - 2),
        0 <= a < b <= n - 2,
    ensures
        stack_ty(b, n, sh) >= stack_ty(a, n, sh) + stack_h(a, n, sh) + GAP,
    decreases b - a,
{
    lemma_stack_step(a, n, sh);
    if b > a + 1 {
        lemma_stack_ty_mono(a + 1, b, n, sh);
        lemma_stack_bounds(a + 1, n, sh);
    }
}

/// Total height of stack windows `j..`: exactly the space that was to be
/// distributed before window `j` (integer-division remainders all fall to
/// the last window).
pub open spec fn stack_sum_h(j: int, n: int, sh: int) -> int
    decreases n - 1 - j,
{
    if j >= n - 1 {
        0
    } else {
        stack_h(j, n, sh) + stack_sum_h(j + 1, n, sh)
    }
}

proof fn lemma_stack_sum(j: int, n: int, sh: int)
    requires
        n >= 2,
        sh >= (GAP as int) * (n - 2),
        0 <= j <= n - 2,
    ensures
        stack_sum_h(j, n, sh) == stack_rest(j, n, sh),
    decreases n - 1 - j,
{
    assert(stack_sum_h(j, n, sh) == stack_h(j, n, sh) + stack_sum_h(j + 1, n, sh));
    if j == n - 2 {
        assert(stack_sum_h(j + 1, n, sh) == 0);
        lemma_div_basics(stack_rest(j, n, sh));
        assert(stack_h(j, n, sh) == stack_rest(j, n, sh) / 1);
    } else {
        lemma_stack_step(j, n, sh);
        lemma_stack_sum(j + 1, n, sh);
    }
}

/// Total area of tiled windows `i..n` for `i >= 1`: the stack column
/// width times the heights still to be placed.
pub open spec fn tile_area_from(i: int, n: int, s: Screen) -> int
    decreases n - i,
{
    if i >= n {
        0
    } else {
        tile_w(i, n, s) * tile_h(i, n, s) + tile_area_from(i + 1, n, s)
    }
}

proof fn lemma_stack_area(i: int, n: int, s: Screen)
    requires
        n >= 2,
        screen_fits(s, n),
        1 <= i <= n,
    ensures
        tile_area_from(i, n, s)
            == stack_width(n, s.width as int) * stack_sum_h(i - 1, n, s.height as int),
    decreases n - i,
{
    let sw = s.width as int;
    let sh = s.height as int;
    if i == n {
        assert(stack_sum_h(n - 1, n, sh) == 0);
    } else {
        lemma_stack_area(i + 1, n, s);
        lemma_mul_is_distributive_add(
            stack_width(n, sw),
            stack_h(i - 1, n, sh),
            stack_sum_h(i, n, sh),
        );
    }
}

/// The screen area the gaps take under the tile layout: the vertical
/// strip between the two columns, plus one horizontal strip per boundary
/// between stacked windows. Zero for a lone window.
pub open spec fn tile_gap_area(n: int, s: Screen) -> int {
    if n <= 1 {
        0
    } else {
        (GAP as int) * s.height + (n - 2) * (GAP as int) * stack_width(n, s.width as int)
    }
}

/// Tiled windows cover the screen: their areas sum to the screen area
/// minus the area of the gaps.
pub proof fn lemma_tile_fills_screen(n: int, s: Screen)
    requires
        n >= 1,
        screen_fits(s, n),
    ensures
        tile_area_from(0, n, s) == s.width * s.height - tile_gap_area(n, s),
{
    let sw = s.width as int;
    let sh = s.height as int;
    if n == 1 {
        assert(tile_area_from(1, n, s) == 0);
        assert(tile_area_from(0, n, s) == sw * sh);
    } else {
        let mw = master_width(n, sw);
        let stw = stack_width(n, sw);
        lemma_stack_area(1, n, s);
        lemma_stack_sum(0, n, sh);
        assert(stack_rest(0, n, sh) == sh - (GAP as int) * (n - 2));
        assert(tile_area_from(0, n, s) == mw * sh + stw * (sh - (GAP as int) * (n - 2)));
        assert(mw * sh + stw * (sh - (GAP as int) * (n - 2))
            == sw * sh - ((GAP as int) * sh + (n - 2) * (GAP as int) * stw))
            by (nonlinear_arith)
            requires
                mw + stw == sw - (GAP as int),
        {}
    }
}

/// No two tiled windows overlap: the master column lies left of the gap
/// before the stack column, and stacked windows follow one another down
/// the column, separated by gaps. All widths and heights are nonnegative.
pub proof fn lemma_tile_no_overlap(n: int, s: Screen)
    requires
        n >= 1,
        screen_fits(s, n),
    ensures
        forall|i: int| 0 <= i < n ==> tile_w(i, n, s) >= 0 && tile_h(i, n, s) >= 0,
        forall|i: int, j: int|
            0 <= i < n && 0 <= j < n && i != j ==> tile_disjoint(i, j, n, s),
{
    let sw = s.width as int;
    let sh = s.height as int;
    assert forall|i: int| 0 <= i < n implies
        tile_w(i, n, s) >= 0 && tile_h(i, n, s) >= 0 by {
        if n >= 2 {
            lemma_div_pos_is_pos(sw - GAP, 2);
            lemma_div_nonincreasing(sw - GAP, 2);
            if i >= 1 {
                lemma_stack_bounds(i - 1, n, sh);
            }
        }
    }
    assert forall|i: int, j: int|
        0 <= i < n && 0 <= j < n && i != j implies tile_disjoint(i, j, n, s) by {
        lemma_tile_disjoint_pair(i, j, n, s);
    }
}

/// Two distinct tiled windows occupy disjoint rectangles: one ends, on
/// some axis, before the other begins.
pub open spec fn tile_disjoint(i: int, j: int, n: int, s: Screen) -> bool {
    ||| tile_x(i, n, s) + tile_w(i, n, s) <= tile_x(j, n, s)
    ||| tile_x(j, n, s) + tile_w(j, n, s) <= tile_x(i, n, s)
    ||| tile_y(i, n, s) + tile_h(i, n, s) <= tile_y(j, n, s)
    ||| tile_y(j, n, s) + tile_h(j, n, s) <= tile_y(i, n, s)
}

proof fn lemma_tile_disjoint_pair(i: int, j: int, n: int, s: Screen)
    requires
        screen_fits(s, n),
        0 <= i < n,
        0 <= j < n,
        i != j,
    ensures
        tile_disjoint(i, j, n, s),
{
    let sw = s.width as int;
    let sh = s.height as int;
    if i == 0 || j == 0 {
        let b = if i == 0 { j } else { i };
        assert(b >= 1);
        assert(n >= 2);
        assert(tile_x(0, n, s) + tile_w(0, n, s) == s.x + master_width(n, sw));
        assert(tile_x(b, n, s) == s.x + master_width(n, sw) + GAP);
    } else {
        let a = if i < j { i } else { j };
        let b = if i < j { j } else { i };
        lemma_stack_ty_mono(a - 1, b - 1, n, sh);
        assert(tile_y(a, n, s) + tile_h(a, n, s)
            == s.y + stack_ty(a - 1, n, sh) + stack_h(a - 1, n, sh));
        assert(tile_y(b, n, s) == s.y + stack_ty(b - 1, n, sh));
    }
}

/// The tiled geometry lies within `u32` range, so the configurations a
/// tile application issues carry exactly the computed coordinates.
pub proof fn lemma_tile_geometry_exact(n: int, s: Screen)
    requires
        n >= 1,
        screen_fits(s, n),
    ensures
        forall|i: int|
            0 <= i < n ==> {
                let c = #[trigger] tile_changes(i, n, s);
                &&& c.x as int == tile_x(i, n, s)
                &&& c.y as int == tile_y(i, n, s)
                &&& c.width as int == tile_w(i, n, s)
                &&& c.height as int == tile_h(i, n, s)
            },
{
    let sw = s.width as int;
    let sh = s.height as int;
    assert forall|i: int| 0 <= i < n implies {
        let c = #[trigger] tile_changes(i, n, s);
        &&& c.x as int == tile_x(i, n, s)
        &&& c.y as int == tile_y(i, n, s)
        &&& c.width as int == tile_w(i, n, s)
        &&& c.height as int == tile_h(i, n, s)
    } by {
        if n >= 2 {
            lemma_div_pos_is_pos(sw - GAP, 2);
            lemma_div_nonincreasing(sw - GAP, 2);
            if i >= 1 {
                lemma_stack_bounds(i - 1, n, sh);
            }
        }
    }
}

/// The master column width for one and for two windows: a lone window
/// reserves no master column and spans the full screen width; with a
/// second window the master column takes half the width left of the gap,
/// truncating.
pub proof fn lemma_tile_master_width(s: Screen)
    requires
        screen_fits(s, 2),
    ensures
        master_width(1, s.width as int) == 0,
        tile_w(0, 1, s) == s.width,
        tile_h(0, 1, s) == s.height,
        master_width(2, s.width as int) == (s.width - (GAP as int)) / 2,
        tile_w(0, 2, s) == (s.width - (GAP as int)) / 2,
{
}

} // verus!
