use vstd::prelude::*;

use crate::geometry::Vector2;
use crate::screen::Screen;
use crate::screen::cell_is;
use crate::screen::cell_kept;
use crate::screen::draw_spec;
use crate::screen::in_bounds;

verus! {

/// Border style: `Simple` draws bare border glyphs; `Fancy` draws the same
/// glyphs and additionally drops random decorative speckle dots one or two
/// cells outward from each border cell.
pub enum BoxStyle {
    Simple,
    Fancy,
}

/// Which corner of a box is being drawn. All four currently render as the
/// same '+' glyph regardless of style; the distinction is kept so callers
/// can name the corner they mean.
pub enum BoxCorner {
    TopLeft,
    TopRight,
    BottomLeft,
    BottomRight,
}

impl Default for BoxStyle {
    /// The default style draws plain, undecorated borders.
    fn default() -> (r: Self)
        ensures
            r is Simple,
    {
        BoxStyle::Simple
    }
}

/// Relies on `rand::random`: one `u64`, uniformly distributed, freshly
/// drawn from the thread-local generator on every call. Nothing can be
/// promised of the value; callers state what holds of every outcome.
#[verifier::external_body]
fn random_u64() -> u64 {
    rand::random::<u64>()
}

/// A uniform `u64` falls below this bound with probability one half — the
/// same odds as a uniform unit-interval draw falling below 0.50.
const SPECKLE_NEAR_BOUND: u64 = 0x8000000000000000;

/// A uniform `u64` falls below this bound with probability one quarter —
/// the same odds as a uniform unit-interval draw falling below 0.25.
const SPECKLE_FAR_BOUND: u64 = 0x4000000000000000;

/// Cell (cx, cy) may receive a speckle from the horizontal border cell at
/// (x, y): one or two cells outward, up for a top edge and down for a
/// bottom edge.
pub open spec fn hspeckle_target(cx: int, cy: int, x: int, y: int, top: bool) -> bool {
    cx == x && (if top {
        cy == y - 1 || cy == y - 2
    } else {
        cy == y + 1 || cy == y + 2
    })
}

/// Cell (cx, cy) may receive a speckle from the vertical border cell at
/// (x, y): one or two cells outward, left for a left edge and right for a
/// right edge.
pub open spec fn vspeckle_target(cx: int, cy: int, x: int, y: int, left: bool) -> bool {
    cy == y && (if left {
        cx == x - 1 || cx == x - 2
    } else {
        cx == x + 1 || cx == x + 2
    })
}

/// Cell (cx, cy) either kept its old content or now holds a speckle dot.
pub open spec fn kept_or_dot(g1: (Seq<char>, Seq<u8>), g2: (Seq<char>, Seq<u8>), cx: int, cy: int) -> bool {
    cell_kept(g1, g2, cx, cy) || cell_is(g2, cx, cy, '.', 35)
}

impl BoxStyle {
    /// One cell of a top or bottom border: the '-' glyph at `position`,
    /// plus — for the `Fancy` style — a speckle one cell outward with
    /// probability one half and, independently, a speckle two cells
    /// outward with probability one quarter. Off-grid cells are clipped.
    pub fn draw_horizontal_border(&self, screen: &mut Screen, position: &Vector2, top: bool)
        requires
            old(screen).wf(),
            position.y - 2 >= isize::MIN,
            position.y + 2 <= isize::MAX,
        ensures
            final(screen).wf(),
            in_bounds(position.x as int, position.y as int) ==> cell_is(
                final(screen)@,
                position.x as int,
                position.y as int,
                '-',
                0,
            ),
            forall|cx: int, cy: int|
                in_bounds(cx, cy) && hspeckle_target(cx, cy, position.x as int, position.y as int, top)
                    ==> kept_or_dot(old(screen)@, final(screen)@, cx, cy),
            forall|cx: int, cy: int|
                in_bounds(cx, cy) && !(cx == position.x as int && cy == position.y as int)
                    && !hspeckle_target(cx, cy, position.x as int, position.y as int, top)
                    ==> cell_kept(old(screen)@, final(screen)@, cx, cy),
            self is Simple ==> forall|cx: int, cy: int|
                in_bounds(cx, cy) && !(cx == position.x as int && cy == position.y as int)
                    ==> cell_kept(old(screen)@, final(screen)@, cx, cy),
    {
        match self {
            BoxStyle::Simple => screen.draw('-', 0, position),
            BoxStyle::Fancy => {
                screen.draw('-', 0, position);
                let r = random_u64();
                let r2 = random_u64();
                if r < SPECKLE_NEAR_BOUND {
                    let offset = if top {
                        Vector2 { x: 0, y: -1 }
                    } else {
                        Vector2 { x: 0, y: 1 }
                    };
                    screen.draw('.', 35, &position.add(offset));
                }
                if r2 < SPECKLE_FAR_BOUND {
                    let offset = if top {
                        Vector2 { x: 0, y: -2 }
                    } else {
                        Vector2 { x: 0, y: 2 }
                    };
                    screen.draw('.', 35, &position.add(offset));
                }
            },
        }
    }

    /// One cell of a left or right border: the '|' glyph at `position`,
    /// with the same speckle behavior as the horizontal case, one or two
    /// cells outward to the side.
    pub fn draw_vertical_border(&self, screen: &mut Screen, position: &Vector2, left: bool)
        requires
            old(screen).wf(),
            position.x - 2 >= isize::MIN,
            position.x + 2 <= isize::MAX,
        ensures
            final(screen).wf(),
            in_bounds(position.x as int, position.y as int) ==> cell_is(
                final(screen)@,
                position.x as int,
                position.y as int,
                '|',
                0,
            ),
            forall|cx: int, cy: int|
                in_bounds(cx, cy) && vspeckle_target(cx, cy, position.x as int, position.y as int, left)
                    ==> kept_or_dot(old(screen)@, final(screen)@, cx, cy),
            forall|cx: int, cy: int|
                in_bounds(cx, cy) && !(cx == position.x as int && cy == position.y as int)
                    && !vspeckle_target(cx, cy, position.x as int, position.y as int, left)
                    ==> cell_kept(old(screen)@, final(screen)@, cx, cy),
            self is Simple ==> forall|cx: int, cy: int|
                in_bounds(cx, cy) && !(cx == position.x as int && cy == position.y as int)
                    ==> cell_kept(old(screen)@, final(screen)@, cx, cy),
    {
        match self {
            BoxStyle::Simple => screen.draw('|', 0, position),
            BoxStyle::Fancy => {
                screen.draw('|', 0, position);
                let r = random_u64();
                let r2 = random_u64();
                if r < SPECKLE_NEAR_BOUND {
                    let offset = if left {
                        Vector2 { x: -1, y: 0 }
                    } else {
                        Vector2 { x: 1, y: 0 }
                    };
                    screen.draw('.', 35, &position.add(offset));
                }
                if r2 < SPECKLE_FAR_BOUND {
                    let offset = if left {
                        Vector2 { x: -2, y: 0 }
                    } else {
                        Vector2 { x: 2, y: 0 }
                    };
                    screen.draw('.', 35, &position.add(offset));
                }
            },
        }
    }

    /// Whether this style may decorate borders with speckles.
    pub open spec fn is_fancy(&self) -> bool {
        self is Fancy
    }

    /// One corner of a box: always the plain '+' glyph in the default
    /// color, whatever the style and whichever corner is named.
    pub fn draw_corner(&self, screen: &mut Screen, position: &Vector2, _corner: BoxCorner)
        requires
            old(screen).wf(),
        ensures
            final(screen).wf(),
            final(screen)@ == draw_spec(old(screen)@, '+', 0, position.x as int, position.y as int),
            in_bounds(position.x as int, position.y as int) ==> cell_is(
                final(screen)@,
                position.x as int,
                position.y as int,
                '+',
                0,
            ),
            forall|cx: int, cy: int|
                in_bounds(cx, cy) && !(cx == position.x as int && cy == position.y as int)
                    ==> cell_kept(old(screen)@, final(screen)@, cx, cy),
    {
        match self {
            _ => {
                screen.draw('+', 0, position);
            },
        }
    }
}

/// Cell (cx, cy) is one of the four corner cells of the box whose top-left
/// corner is (px, py) and whose opposite corner is (px+sx, py+sy).
pub open spec fn box_corner_cell(cx: int, cy: int, px: int, py: int, sx: int, sy: int) -> bool {
    (cx == px || cx == px + sx) && (cy == py || cy == py + sy)
}

/// Cell (cx, cy) lies on the top or bottom edge, corners excluded: the
/// open horizontal interval the renderer walks.
pub open spec fn box_hedge_cell(cx: int, cy: int, px: int, py: int, sx: int, sy: int) -> bool {
    (cy == py || cy == py + sy) && px + 1 <= cx <= px + sx - 1
}

/// Cell (cx, cy) lies on the left or right edge: the closed-open vertical
/// interval the renderer walks (its bottom cell is left to the corner
/// pass).
pub open spec fn box_vedge_cell(cx: int, cy: int, px: int, py: int, sx: int, sy: int) -> bool {
    (cx == px || cx == px + sx) && py <= cy <= py + sy - 1
}

/// Cell (cx, cy) sits one or two cells outward of a border cell: the only
/// places a `Fancy` border may drop its decorative dots.
pub open spec fn box_speckle_zone(cx: int, cy: int, px: int, py: int, sx: int, sy: int) -> bool {
    ||| (px + 1 <= cx <= px + sx - 1 && (cy == py - 1 || cy == py - 2 || cy == py + sy + 1 || cy
        == py + sy + 2))
    ||| (py <= cy <= py + sy - 1 && (cx == px - 1 || cx == px - 2 || cx == px + sx + 1 || cx == px
        + sx + 2))
}

/// Draw the rectangle whose top-left corner is `position` and whose
/// opposite corner is `position + size`: '-' along top and bottom, '|'
/// along left and right, '+' at the four corners, all in the default
/// color. A `Fancy` style may additionally scatter dots in the speckle
/// zone just outside the border; every other cell of the screen is left
/// untouched, whatever the random outcomes were.
pub fn draw_box(screen: &mut Screen, position: &Vector2, size: &Vector2, style: BoxStyle)
    requires
        old(screen).wf(),
        size.x >= 0,
        size.y >= 0,
        position.x - 2 >= isize::MIN,
        position.y - 2 >= isize::MIN,
        position.x + size.x + 2 <= isize::MAX,
        position.y + size.y + 2 <= isize::MAX,
    ensures
        final(screen).wf(),
        forall|cx: int, cy: int|
            in_bounds(cx, cy) ==> {
                let px = position.x as int;
                let py = position.y as int;
                let sx = size.x as int;
                let sy = size.y as int;
                if box_corner_cell(cx, cy, px, py, sx, sy) {
                    cell_is(final(screen)@, cx, cy, '+', 0)
                } else if box_vedge_cell(cx, cy, px, py, sx, sy) {
                    cell_is(final(screen)@, cx, cy, '|', 0)
                } else if box_hedge_cell(cx, cy, px, py, sx, sy) {
                    cell_is(final(screen)@, cx, cy, '-', 0)
                } else if box_speckle_zone(cx, cy, px, py, sx, sy) {
                    kept_or_dot(old(screen)@, final(screen)@, cx, cy)
                } else {
                    cell_kept(old(screen)@, final(screen)@, cx, cy)
                }
            },
        !style.is_fancy() ==> forall|cx: int, cy: int|
            in_bounds(cx, cy) && !box_corner_cell(
                cx,
                cy,
                position.x as int,
                position.y as int,
                size.x as int,
                size.y as int,
            ) && !box_vedge_cell(
                cx,
                cy,
                position.x as int,
                position.y as int,
                size.x as int,
                size.y as int,
            ) && !box_hedge_cell(
                cx,
                cy,
                position.x as int,
                position.y as int,
                size.x as int,
                size.y as int,
            ) ==> cell_kept(old(screen)@, final(screen)@, cx, cy),
{
    let ghost px = position.x as int;
    let ghost py = position.y as int;
    let ghost sx = size.x as int;
    let ghost sy = size.y as int;
    let ghost g0 = old(screen)@;

    // Top and bottom edges, cell by cell.
    let mut x: isize = position.x + 1;
    while x < position.x + size.x
        invariant
            screen.wf(),
            position.x + 1 <= x,
            x <= position.x + size.x || x == position.x + 1,
            px == position.x as int && py == position.y as int,
            sx == size.x as int && sy == size.y as int,
            sx >= 0 && sy >= 0,
            px - 2 >= isize::MIN && py - 2 >= isize::MIN,
            px + sx + 2 <= isize::MAX && py + sy + 2 <= isize::MAX,
            g0 == old(screen)@,
            forall|cx: int, cy: int|
                in_bounds(cx, cy) ==> {
                    if (cy == py || cy == py + sy) && px + 1 <= cx < x {
                        cell_is(screen@, cx, cy, '-', 0)
                    } else if px + 1 <= cx < x && (cy == py - 1 || cy == py - 2 || cy == py + sy
                        + 1 || cy == py + sy + 2) {
                        kept_or_dot(g0, screen@, cx, cy)
                    } else {
                        cell_kept(g0, screen@, cx, cy)
                    }
                },
            !style.is_fancy() ==> forall|cx: int, cy: int|
                in_bounds(cx, cy) && !((cy == py || cy == py + sy) && px + 1 <= cx < x)
                    ==> cell_kept(g0, screen@, cx, cy),
        decreases position.x + size.x - x,
    {
        style.draw_horizontal_border(screen, &Vector2 { x, y: position.y }, true);
        style.draw_horizontal_border(
            screen,
            &Vector2 { x, y: position.y + size.y },
            false,
        );
        x = x + 1;
    }

    // Left and right edges, cell by cell.
    let mut y: isize = position.y;
    while y < position.y + size.y
        invariant
            screen.wf(),
            position.y <= y,
            y <= position.y + size.y || y == position.y,
            px == position.x as int && py == position.y as int,
            sx == size.x as int && sy == size.y as int,
            sx >= 0 && sy >= 0,
            px - 2 >= isize::MIN && py - 2 >= isize::MIN,
            px + sx + 2 <= isize::MAX && py + sy + 2 <= isize::MAX,
            g0 == old(screen)@,
            forall|cx: int, cy: int|
                in_bounds(cx, cy) ==> {
                    if box_hedge_cell(cx, cy, px, py, sx, sy) {
                        cell_is(screen@, cx, cy, '-', 0)
                    } else if (cx == px || cx == px + sx) && py <= cy < y {
                        cell_is(screen@, cx, cy, '|', 0)
                    } else if box_speckle_zone(cx, cy, px, py, sx, sy) {
                        kept_or_dot(g0, screen@, cx, cy)
                    } else {
                        cell_kept(g0, screen@, cx, cy)
                    }
                },
            !style.is_fancy() ==> forall|cx: int, cy: int|
                in_bounds(cx, cy) && !box_hedge_cell(cx, cy, px, py, sx, sy) && !((cx == px || cx
                    == px + sx) && py <= cy < y) ==> cell_kept(g0, screen@, cx, cy),
        decreases position.y + size.y - y,
    {
        style.draw_vertical_border(screen, &Vector2 { x: position.x, y }, true);
        style.draw_vertical_border(
            screen,
            &Vector2 { x: position.x + size.x, y },
            false,
        );
        y = y + 1;
    }

    // The four corners, always plain.
    style.draw_corner(screen, position, BoxCorner::TopLeft);
    style.draw_corner(
        screen,
        &Vector2 { x: position.x + size.x, y: position.y },
        BoxCorner::TopRight,
    );
    style.draw_corner(
        screen,
        &Vector2 { x: position.x, y: position.y + size.y },
        BoxCorner::BottomLeft,
    );
    style.draw_corner(
        screen,
        &Vector2 { x: position.x + size.x, y: position.y + size.y },
        BoxCorner::BottomRight,
    );
}

} // verus!
