use vstd::prelude::*;

use crate::geometry::Vector2;
use crate::screen::MAX_HEIGHT;
use crate::screen::MAX_WIDTH;
use crate::screen::Screen;
use crate::screen::cell_is;
use crate::screen::cell_kept;
use crate::screen::draw_spec;

verus! {

use vstd::string::StrSliceExecFns;
use vstd::string::StringExecFns;

/// The model of `draw_string` applied to the remaining `text`, with the
/// pen at column `col` of row `row`; `ox` is the column the pen returns to
/// after a newline. Every printable character advances the column first
/// and then draws, so content starts one column right of the origin — a
/// quirk that callers depend on and that is preserved here.
pub open spec fn draw_string_from(
    g: (Seq<char>, Seq<u8>),
    ox: int,
    col: int,
    row: int,
    text: Seq<char>,
    color: u8,
) -> (Seq<char>, Seq<u8>)
    decreases text.len(),
{
    if text.len() == 0 {
        g
    } else if text[0] == '\n' {
        draw_string_from(g, ox, ox, row + 1, text.drop_first(), color)
    } else {
        draw_string_from(
            draw_spec(g, text[0], color, col + 1, row),
            ox,
            col + 1,
            row,
            text.drop_first(),
            color,
        )
    }
}

/// The model of `draw_string` started at `(px, py)`.
pub open spec fn draw_string_spec(
    g: (Seq<char>, Seq<u8>),
    px: int,
    py: int,
    text: Seq<char>,
    color: u8,
) -> (Seq<char>, Seq<u8>) {
    draw_string_from(g, px, px, py, text, color)
}

/// Write `string` onto the screen starting at `position`: each character
/// advances the column before it is drawn, and a newline resets the column
/// to the origin's and advances the row. Off-grid cells are clipped by the
/// screen itself.
pub fn draw_string(screen: &mut Screen, position: &Vector2, string: &str, color: u8)
    requires
        old(screen).wf(),
    ensures
        final(screen).wf(),
        final(screen)@ == draw_string_spec(
            old(screen)@,
            position.x as int,
            position.y as int,
            string@,
            color,
        ),
{
    // The pen's column and row saturate one step past the grid: every
    // draw beyond that point is clipped anyway, so the buffer comes out
    // exactly as if the pen had kept running — and the pen cannot
    // overflow, however long the text.
    let base_col: isize = if position.x >= MAX_WIDTH as isize {
        MAX_WIDTH as isize
    } else {
        position.x
    };
    let mut row: isize = if position.y >= MAX_HEIGHT as isize {
        MAX_HEIGHT as isize
    } else {
        position.y
    };
    let mut col: isize = base_col;
    let ghost mut gcol: int = position.x as int;
    let ghost mut grow: int = position.y as int;
    let len = string.unicode_len();
    proof {
        assert(string@.subrange(0, string@.len() as int) =~= string@);
    }
    let mut i: usize = 0;
    while i < len
        invariant
            screen.wf(),
            i <= len,
            len == string@.len(),
            base_col == (if position.x as int >= MAX_WIDTH {
                MAX_WIDTH as int
            } else {
                position.x as int
            }),
            col == (if gcol >= MAX_WIDTH {
                MAX_WIDTH as int
            } else {
                gcol
            }),
            row == (if grow >= MAX_HEIGHT {
                MAX_HEIGHT as int
            } else {
                grow
            }),
            draw_string_spec(
                old(screen)@,
                position.x as int,
                position.y as int,
                string@,
                color,
            ) == draw_string_from(
                screen@,
                position.x as int,
                gcol,
                grow,
                string@.subrange(i as int, len as int),
                color,
            ),
        decreases len - i,
    {
        let c = string.get_char(i);
        proof {
            assert(string@.subrange(i as int, len as int).drop_first() =~= string@.subrange(
                i as int + 1,
                len as int,
            ));
        }
        if c == '\n' {
            proof {
                grow = grow + 1;
                gcol = position.x as int;
            }
            if row < MAX_HEIGHT as isize {
                row = row + 1;
            }
            col = base_col;
        } else {
            proof {
                gcol = gcol + 1;
            }
            if col < MAX_WIDTH as isize {
                col = col + 1;
            }
            let ghost pre = screen@;
            screen.draw(c, color, &Vector2 { x: col, y: row });
            proof {
                assert(screen@ == draw_spec(pre, c, color, gcol, grow));
            }
        }
        i = i + 1;
    }
    proof {
        assert(string@.subrange(len as int, len as int) =~= Seq::<char>::empty());
    }
}

/// Drawing a newline-free string with the pen at column `col` of row
/// `row` puts its k-th character at column col+1+k of that row (where
/// that cell is on the grid) and touches no cell outside that run.
pub proof fn lemma_draw_string_row(
    g: (Seq<char>, Seq<u8>),
    ox: int,
    col: int,
    row: int,
    text: Seq<char>,
    color: u8,
)
    requires
        g.0.len() == MAX_WIDTH * MAX_HEIGHT,
        g.1.len() == MAX_WIDTH * MAX_HEIGHT,
        forall|k: int| 0 <= k < text.len() ==> text[k] != '\n',
    ensures
        forall|k: int|
            0 <= k < text.len() && crate::screen::in_bounds(col + 1 + k, row) ==> cell_is(
                draw_string_from(g, ox, col, row, text, color),
                col + 1 + k,
                row,
                text[k],
                color,
            ),
        forall|cx: int, cy: int|
            crate::screen::in_bounds(cx, cy) && !(cy == row && col + 1 <= cx <= col + text.len())
                ==> cell_kept(g, draw_string_from(g, ox, col, row, text, color), cx, cy),
        draw_string_from(g, ox, col, row, text, color).0.len() == MAX_WIDTH * MAX_HEIGHT,
        draw_string_from(g, ox, col, row, text, color).1.len() == MAX_WIDTH * MAX_HEIGHT,
    decreases text.len(),
{
    if text.len() > 0 {
        let g1 = draw_spec(g, text[0], color, col + 1, row);
        lemma_draw_string_row(g1, ox, col + 1, row, text.drop_first(), color);
        assert forall|k: int|
            0 <= k < text.len() && crate::screen::in_bounds(col + 1 + k, row) implies cell_is(
            draw_string_from(g, ox, col, row, text, color),
            col + 1 + k,
            row,
            text[k],
            color,
        ) by {
            if k > 0 {
                assert(text.drop_first()[k - 1] == text[k]);
            }
        }
    }
}

/// Whatever the text, drawing from row `row` never touches a cell of an
/// earlier row: the pen's row only ever moves down.
pub proof fn lemma_draw_string_rows_below(
    g: (Seq<char>, Seq<u8>),
    ox: int,
    col: int,
    row: int,
    text: Seq<char>,
    color: u8,
)
    requires
        g.0.len() == MAX_WIDTH * MAX_HEIGHT,
        g.1.len() == MAX_WIDTH * MAX_HEIGHT,
    ensures
        forall|cx: int, cy: int|
            crate::screen::in_bounds(cx, cy) && cy < row ==> cell_kept(
                g,
                draw_string_from(g, ox, col, row, text, color),
                cx,
                cy,
            ),
        draw_string_from(g, ox, col, row, text, color).0.len() == MAX_WIDTH * MAX_HEIGHT,
        draw_string_from(g, ox, col, row, text, color).1.len() == MAX_WIDTH * MAX_HEIGHT,
    decreases text.len(),
{
    if text.len() > 0 {
        if text[0] == '\n' {
            lemma_draw_string_rows_below(g, ox, ox, row + 1, text.drop_first(), color);
        } else {
            let g1 = draw_spec(g, text[0], color, col + 1, row);
            lemma_draw_string_rows_below(g1, ox, col + 1, row, text.drop_first(), color);
        }
    }
}

/// Number of filler characters in a bar of `width` cells showing `value`
/// out of `max`: the floor of `width * value / max`. A zero `max` would
/// make the fraction undefined; the documented policy here is an empty
/// bar.
pub open spec fn bar_len(width: nat, value: nat, max: nat) -> nat {
    if max == 0 {
        0
    } else {
        (width * value) / max
    }
}

/// A proportional progress bar: `bar_len(width, value, max)` copies of the
/// plain filler character '|' and nothing else — no partial-block glyph,
/// so any remainder below a whole cell is simply left empty.
pub fn generate_bar(width: usize, value: usize, max: usize) -> (bar: String)
    requires
        max == 0 || (width as nat * value as nat) / max as nat <= usize::MAX,
    ensures
        bar@ == Seq::new(bar_len(width as nat, value as nat, max as nat), |i: int| '|'),
{
    let mut bar = String::new();
    if max == 0 {
        proof {
            assert(bar@ =~= Seq::new(bar_len(width as nat, value as nat, max as nat), |i: int| '|'));
        }
        return bar;
    }
    proof {
        assert((width as int) * (value as int) <= u128::MAX) by (nonlinear_arith)
            requires
                width <= u64::MAX,
                value <= u64::MAX,
        ;
    }
    let full_blocks: u128 = (width as u128) * (value as u128) / (max as u128);
    let n: usize = full_blocks as usize;
    let mut i: usize = 0;
    while i < n
        invariant
            i <= n,
            bar@.len() == i,
            forall|j: int| 0 <= j < i ==> bar@[j] == '|',
        decreases n - i,
    {
        bar.push('|');
        i = i + 1;
    }
    proof {
        assert(bar@ =~= Seq::new(bar_len(width as nat, value as nat, max as nat), |i: int| '|'));
    }
    bar
}

/// A run of `n` blank cells.
pub open spec fn spaces(n: nat) -> Seq<char> {
    Seq::new(n, |i: int| ' ')
}

/// `s` left-justified in a field of `width` characters: blanks are added
/// on the right, and a string already that wide is returned unchanged (no
/// truncation).
pub fn pad_right(s: &str, width: usize) -> (r: String)
    ensures
        s@.len() >= width ==> r@ == s@,
        s@.len() < width ==> r@ == s@ + spaces((width - s@.len()) as nat),
{
    let mut r = String::from_str(s);
    let len = s.unicode_len();
    let mut i: usize = len;
    while i < width
        invariant
            len == s@.len(),
            len <= i,
            i <= width || i == len,
            r@ == s@ + spaces((i - len) as nat),
        decreases width - i,
    {
        r.push(' ');
        proof {
            assert(r@ =~= s@ + spaces((i + 1 - len) as nat));
        }
        i = i + 1;
    }
    proof {
        if len >= width {
            assert(r@ =~= s@);
        }
    }
    r
}

/// `s` right-justified in a field of `width` characters: blanks are added
/// on the left, and a string already that wide is returned unchanged.
pub fn pad_left(s: &str, width: usize) -> (r: String)
    ensures
        s@.len() >= width ==> r@ == s@,
        s@.len() < width ==> r@ == spaces((width - s@.len()) as nat) + s@,
{
    let len = s.unicode_len();
    let mut r = String::new();
    let mut i: usize = len;
    while i < width
        invariant
            len == s@.len(),
            len <= i,
            i <= width || i == len,
            r@ == spaces((i - len) as nat),
        decreases width - i,
    {
        r.push(' ');
        proof {
            assert(r@ =~= spaces((i + 1 - len) as nat));
        }
        i = i + 1;
    }
    r.append(s);
    proof {
        if len >= width {
            assert(r@ =~= s@);
        }
    }
    r
}

} // verus!
