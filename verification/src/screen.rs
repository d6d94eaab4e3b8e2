use vstd::pervasive::VecAdditionalExecFns;
use vstd::prelude::*;

use crate::geometry::Vector2;
use crate::numfmt::dec_str;
use crate::numfmt::u64_to_string;

verus! {

/// Width of the drawable grid, in character cells.
pub const MAX_WIDTH: usize = 75;

/// Height of the drawable grid, in rows.
pub const MAX_HEIGHT: usize = 27;

/// Position (x, y) lies on the grid.
pub open spec fn in_bounds(x: int, y: int) -> bool {
    0 <= x < MAX_WIDTH && 0 <= y < MAX_HEIGHT
}

/// Flat index of cell (x, y): row-major, top row first.
pub open spec fn cell_index(x: int, y: int) -> int {
    x + y * (MAX_WIDTH as int)
}

/// The fixed character-and-color page that every draw operation targets.
/// Two parallel vectors of length `MAX_WIDTH * MAX_HEIGHT`; cell (x, y)
/// lives at index `x + y * MAX_WIDTH` in both.
#[derive(Debug)]
pub struct Screen {
    pub data: Vec<char>,
    pub colors: Vec<u8>,
}

/// A screen's mathematical model: the character cells and the color cells.
impl View for Screen {
    type V = (Seq<char>, Seq<u8>);

    open spec fn view(&self) -> (Seq<char>, Seq<u8>) {
        (self.data@, self.colors@)
    }
}

/// The model of a freshly created screen: all blanks, all default color.
pub open spec fn blank_grid() -> (Seq<char>, Seq<u8>) {
    (
        Seq::new((MAX_WIDTH * MAX_HEIGHT) as nat, |i: int| ' '),
        Seq::new((MAX_WIDTH * MAX_HEIGHT) as nat, |i: int| 0u8),
    )
}

/// Character of a grid model at cell (x, y).
pub open spec fn grid_char(g: (Seq<char>, Seq<u8>), x: int, y: int) -> char {
    g.0[cell_index(x, y)]
}

/// Color of a grid model at cell (x, y).
pub open spec fn grid_color(g: (Seq<char>, Seq<u8>), x: int, y: int) -> u8 {
    g.1[cell_index(x, y)]
}

/// Cell (x, y) holds exactly this character and color.
pub open spec fn cell_is(g: (Seq<char>, Seq<u8>), x: int, y: int, c: char, color: u8) -> bool {
    grid_char(g, x, y) == c && grid_color(g, x, y) == color
}

/// Cell (x, y) is the same in both grid models.
pub open spec fn cell_kept(g1: (Seq<char>, Seq<u8>), g2: (Seq<char>, Seq<u8>), x: int, y: int) -> bool {
    grid_char(g2, x, y) == grid_char(g1, x, y) && grid_color(g2, x, y) == grid_color(g1, x, y)
}

/// The model of one draw call: overwrite cell (x, y) when it is on the
/// grid, and do nothing at all when it is not.
pub open spec fn draw_spec(g: (Seq<char>, Seq<u8>), character: char, color: u8, x: int, y: int) -> (
    Seq<char>,
    Seq<u8>,
) {
    if in_bounds(x, y) {
        (g.0.update(cell_index(x, y), character), g.1.update(cell_index(x, y), color))
    } else {
        g
    }
}

impl Screen {
    /// Both cell vectors have exactly one slot per grid cell.
    pub open spec fn wf(self) -> bool {
        &&& self.data@.len() == MAX_WIDTH * MAX_HEIGHT
        &&& self.colors@.len() == MAX_WIDTH * MAX_HEIGHT
    }

    /// Character stored at cell (x, y).
    pub open spec fn char_at(self, x: int, y: int) -> char {
        self.data@[cell_index(x, y)]
    }

    /// Color code stored at cell (x, y).
    pub open spec fn color_at(self, x: int, y: int) -> u8 {
        self.colors@[cell_index(x, y)]
    }

    /// A screen of blank (space) cells in the default color.
    pub fn new() -> (s: Screen)
        ensures
            s.wf(),
            s@ == blank_grid(),
    {
        let n: usize = MAX_WIDTH * MAX_HEIGHT;
        let mut data: Vec<char> = Vec::new();
        let mut colors: Vec<u8> = Vec::new();
        let mut i: usize = 0;
        while i < n
            invariant
                i <= n,
                n == MAX_WIDTH * MAX_HEIGHT,
                data@.len() == i,
                colors@.len() == i,
                forall|j: int| 0 <= j < i ==> data@[j] == ' ',
                forall|j: int| 0 <= j < i ==> colors@[j] == 0u8,
            decreases n - i,
        {
            data.push(' ');
            colors.push(0u8);
            i = i + 1;
        }
        let s = Screen { data, colors };
        proof {
            assert(s@.0 =~= blank_grid().0);
            assert(s@.1 =~= blank_grid().1);
        }
        s
    }

    /// Flat index of an in-bounds position.
    pub fn get_index(pos: &Vector2) -> (r: usize)
        requires
            in_bounds(pos.x as int, pos.y as int),
        ensures
            r == cell_index(pos.x as int, pos.y as int),
    {
        (pos.x as usize) + (pos.y as usize) * MAX_WIDTH
    }

    /// Overwrite the cell at `pos` with `character` in `color`; positions
    /// off the grid are silently ignored (the clipping policy every caller
    /// relies on).
    pub fn draw(&mut self, character: char, color: u8, pos: &Vector2)
        requires
            old(self).wf(),
        ensures
            final(self).wf(),
            final(self)@ == draw_spec(old(self)@, character, color, pos.x as int, pos.y as int),
            in_bounds(pos.x as int, pos.y as int) ==> {
                &&& final(self).char_at(pos.x as int, pos.y as int) == character
                &&& final(self).color_at(pos.x as int, pos.y as int) == color
            },
            !in_bounds(pos.x as int, pos.y as int) ==> final(self)@ == old(self)@,
            forall|x2: int, y2: int|
                in_bounds(x2, y2) && !(x2 == pos.x as int && y2 == pos.y as int) ==> {
                    &&& final(self).char_at(x2, y2) == old(self).char_at(x2, y2)
                    &&& final(self).color_at(x2, y2) == old(self).color_at(x2, y2)
                },
    {
        if pos.x < 0 || pos.y < 0 || pos.x >= MAX_WIDTH as isize || pos.y >= MAX_HEIGHT as isize {
            return;
        }
        let index = Self::get_index(pos);
        self.data.set(index, character);
        self.colors.set(index, color);
    }

    /// Serialize the whole page: row-major, one line break at the end of
    /// every row, and a color switch emitted only where the cell's color
    /// differs from the color already in effect.
    pub fn print(&self) -> (out: String)
        requires
            self.wf(),
        ensures
            out@ == render(self@.0, self@.1),
    {
        let mut output = String::new();
        let mut last_color: u8 = 0;
        let n: usize = MAX_WIDTH * MAX_HEIGHT;
        let mut i: usize = 0;
        while i < n
            invariant
                self.wf(),
                i <= n,
                n == MAX_WIDTH * MAX_HEIGHT,
                output@ == render_upto(self@.0, self@.1, i as int),
                last_color == prev_color(self@.1, i as int),
            decreases n - i,
        {
            let c = self.data[i];
            let col = self.colors[i];
            if col != last_color {
                output.push('\u{1b}');
                output.push('[');
                let digits = u64_to_string(col as u64);
                output.append(digits.as_str());
                output.push('m');
            }
            output.push(c);
            if (i + 1) % MAX_WIDTH == 0 {
                output.push('\n');
            }
            last_color = col;
            proof {
                assert(output@ =~= render_upto(self@.0, self@.1, i as int + 1));
            }
            i = i + 1;
        }
        output
    }
}

/// Escape sequence that switches the terminal to color `v`: ESC, '[', the
/// color in decimal, 'm'. Color 0 doubles as the reset sequence.
pub open spec fn color_escape(v: u8) -> Seq<char> {
    seq!['\u{1b}', '['] + dec_str(v as nat) + seq!['m']
}

/// Color already in effect when cell `i` is emitted: the previous cell's
/// color, or the default color 0 before the very first cell.
pub open spec fn prev_color(colors: Seq<u8>, i: int) -> u8 {
    if i <= 0 {
        0u8
    } else {
        colors[i - 1]
    }
}

/// Row break after cell `i`: one newline at the end of each row.
pub open spec fn line_break(i: int) -> Seq<char> {
    if (i + 1) % (MAX_WIDTH as int) == 0 {
        seq!['\n']
    } else {
        Seq::<char>::empty()
    }
}

/// Text the serializer emits for cell `i`: a color switch only when the
/// cell's color differs from the one already in effect, then the cell's
/// character, then the row break if the cell ends its row.
pub open spec fn cell_text(chars: Seq<char>, colors: Seq<u8>, i: int) -> Seq<char> {
    (if colors[i] == prev_color(colors, i) {
        Seq::<char>::empty()
    } else {
        color_escape(colors[i])
    }) + seq![chars[i]] + line_break(i)
}

/// Everything the serializer emits for cells 0 .. n.
pub open spec fn render_upto(chars: Seq<char>, colors: Seq<u8>, n: int) -> Seq<char>
    decreases n,
{
    if n <= 0 {
        Seq::<char>::empty()
    } else {
        render_upto(chars, colors, n - 1) + cell_text(chars, colors, n - 1)
    }
}

/// The full serialized page.
pub open spec fn render(chars: Seq<char>, colors: Seq<u8>) -> Seq<char> {
    render_upto(chars, colors, (MAX_WIDTH * MAX_HEIGHT) as int)
}

/// Law: the serializer never emits a redundant color switch. A cell whose
/// color equals its predecessor's — row boundary or not — contributes its
/// character (and possible line break) only, so two identical escape
/// sequences are never emitted back to back.
pub proof fn lemma_no_redundant_escape(chars: Seq<char>, colors: Seq<u8>, i: int)
    requires
        0 < i,
        colors[i] == colors[i - 1],
    ensures
        cell_text(chars, colors, i) == seq![chars[i]] + line_break(i),
{
    assert(cell_text(chars, colors, i) =~= seq![chars[i]] + line_break(i));
}

} // verus!
