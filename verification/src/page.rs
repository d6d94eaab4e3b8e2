use vstd::prelude::*;

use crate::boxes::BoxStyle;
use crate::boxes::draw_box;
use crate::geometry::Vector2;
use crate::lines::header_line;
use crate::lines::header_line_spec;
use crate::lines::lemma_header_line_no_newline;
use crate::lines::lemma_progress_line_no_newline;
use crate::lines::lemma_standings_line_no_newline;
use crate::lines::progress_line;
use crate::lines::progress_line_spec;
use crate::lines::standings_line;
use crate::lines::standings_line_spec;
use crate::lines::title_line;
use crate::player::Player;
use crate::screen::Screen;
use crate::screen::cell_is;
use crate::screen::in_bounds;
use crate::text::draw_string;
use crate::text::lemma_draw_string_row;
use crate::text::lemma_draw_string_rows_below;

verus! {

use vstd::string::StringExecFns;

/// Text color of the standings row at the given zero-based rank: gold,
/// cyan and red for the podium, the default color below it.
pub open spec fn rank_color_spec(i: int) -> u8 {
    if i == 0 {
        33u8
    } else if i == 1 {
        36u8
    } else if i == 2 {
        31u8
    } else {
        0u8
    }
}

/// The rank's row color, computed.
pub fn rank_color(i: usize) -> (c: u8)
    ensures
        c == rank_color_spec(i as int),
{
    match i {
        0 => 33,
        1 => 36,
        2 => 31,
        _ => 0,
    }
}

/// A handle that stays on its own row: it contains no line break.
pub open spec fn handle_on_one_row(p: Player) -> bool {
    forall|k: int| 0 <= k < p.handle@.len() ==> p.handle@[k] != '\n'
}

/// How many standings rows the page shows: at most the top nine.
pub open spec fn shown_rows(n: nat) -> int {
    if n < 9 {
        n as int
    } else {
        9
    }
}

/// The updated-stamp row: twelve blanks, "Uppdaterad ", then the clock
/// label the caller rendered.
pub open spec fn updated_row_spec(label: Seq<char>) -> Seq<char> {
    "            Uppdaterad "@ + label
}

/// A clock label that stays on its own row: it contains no line break.
pub open spec fn label_on_one_row(label: Seq<char>) -> bool {
    forall|k: int| 0 <= k < label.len() ==> label[k] != '\n'
}

/// The standings row drawn for rank `i`.
pub open spec fn page_row_spec(players: Seq<Player>, max_level: nat, i: int) -> Seq<char> {
    standings_line_spec(
        i as nat,
        players[i].handle@,
        players[i].total_level_spec() as nat,
        max_level,
    )
}

/// Compose the whole leaderboard page: the decorated outer frame, the
/// greeting and logo, the standings boxes with their title and updated
/// stamp, the footer, the top rows of the ranked roster, and the
/// competition-progress bar. The random border speckles keep the full
/// page from being one fixed picture, but the standings rows (for any
/// player whose handle stays on one row) and the progress row are pinned
/// exactly; every primitive this calls carries its own exact contract.
pub fn build_page(
    greeting: &str,
    logo: &str,
    players: &Vec<Player>,
    max_level: usize,
    current_day: i64,
    last_day: i64,
    updated_label: &str,
) -> (s: Screen)
    requires
        forall|i: int| 0 <= i < players@.len() ==> (#[trigger] players@[i]).wf(),
        forall|i: int|
            0 <= i < players@.len() ==> (#[trigger] players@[i]).total_level_spec() <= max_level,
        max_level > 0,
        -1000000 <= current_day <= 1000000,
        -1000000 <= last_day <= 1000000,
    ensures
        s.wf(),
        forall|k: int|
            0 <= k < header_line_spec().len() && in_bounds(5 + k, 13) ==> cell_is(
                s@,
                5 + k,
                13,
                header_line_spec()[k],
                0,
            ),
        label_on_one_row(updated_label@) ==> forall|k: int|
            0 <= k < updated_row_spec(updated_label@).len() && in_bounds(32 + k, 11)
                ==> cell_is(s@, 32 + k, 11, updated_row_spec(updated_label@)[k], 35),
        forall|i: int, k: int|
            0 <= i < shown_rows(players@.len()) && handle_on_one_row(players@[i]) && 0 <= k
                < page_row_spec(players@, max_level as nat, i).len() && in_bounds(5 + k, 15 + i)
                ==> cell_is(
                s@,
                5 + k,
                15 + i,
                page_row_spec(players@, max_level as nat, i)[k],
                rank_color_spec(i),
            ),
        forall|k: int|
            0 <= k < progress_line_spec(current_day as int, last_day as int).len() && in_bounds(
                53 + k,
                4,
            ) ==> cell_is(
                s@,
                53 + k,
                4,
                progress_line_spec(current_day as int, last_day as int)[k],
                0,
            ),
{
    let mut screen = Screen::new();

    // Outer decorated frame.
    draw_box(
        &mut screen,
        &Vector2 { x: 3, y: 3 },
        &Vector2 { x: 69, y: 21 },
        BoxStyle::Fancy,
    );

    // Greeting and logo.
    draw_string(&mut screen, &Vector2 { x: 5, y: 7 }, greeting, 0);
    draw_string(&mut screen, &Vector2 { x: 4, y: 1 }, logo, 32);

    // Standings box and its header box.
    draw_box(
        &mut screen,
        &Vector2 { x: 3, y: 14 },
        &Vector2 { x: 69, y: 10 },
        BoxStyle::Simple,
    );
    draw_box(
        &mut screen,
        &Vector2 { x: 3, y: 12 },
        &Vector2 { x: 69, y: 2 },
        BoxStyle::Simple,
    );

    // Title and updated stamp above the standings.
    let title = title_line(current_day, last_day);
    draw_string(&mut screen, &Vector2 { x: 4, y: 11 }, title.as_str(), 32);
    let mut updated = String::new();
    updated.append("            Uppdaterad ");
    updated.append(updated_label);
    let ghost pre_updated = screen@;
    draw_string(&mut screen, &Vector2 { x: 31, y: 11 }, updated.as_str(), 35);
    proof {
        if label_on_one_row(updated_label@) {
            reveal_strlit("            Uppdaterad ");
            assert(updated@ == updated_row_spec(updated_label@));
            assert forall|k: int| 0 <= k < updated@.len() implies updated@[k] != '\n' by {
                if k >= "            Uppdaterad "@.len() {
                    assert(updated@[k] == updated_label@[k - "            Uppdaterad "@.len()]);
                }
            }
            lemma_draw_string_row(pre_updated, 31, 31, 11, updated@, 35u8);
        }
    }

    // Footer.
    let ghost pre_footer = screen@;
    draw_string(
        &mut screen,
        &Vector2 { x: 31, y: 25 },
        "Bes\u{f6}k \n               f\u{f6}r en komplett topplista",
        32,
    );
    proof {
        lemma_draw_string_rows_below(
            pre_footer,
            31,
            31,
            25,
            "Bes\u{f6}k \n               f\u{f6}r en komplett topplista"@,
            32u8,
        );
    }
    let ghost pre_url = screen@;
    draw_string(
        &mut screen,
        &Vector2 { x: 37, y: 25 },
        "http://hacknslash.thisoldcabin.net",
        0,
    );
    proof {
        lemma_draw_string_rows_below(
            pre_url,
            37,
            37,
            25,
            "http://hacknslash.thisoldcabin.net"@,
            0u8,
        );
    }

    // Column headers.
    let header = header_line();
    let ghost pre_header = screen@;
    draw_string(&mut screen, &Vector2 { x: 4, y: 13 }, header.as_str(), 0);
    proof {
        lemma_header_line_no_newline();
        lemma_draw_string_row(pre_header, 4, 4, 13, header@, 0u8);
    }

    // The top rows of the roster.
    let count: usize = if players.len() < 9 {
        players.len()
    } else {
        9
    };
    let mut i: usize = 0;
    while i < count
        invariant
            screen.wf(),
            i <= count,
            count == shown_rows(players@.len()),
            count <= players@.len(),
            forall|i2: int| 0 <= i2 < players@.len() ==> (#[trigger] players@[i2]).wf(),
            forall|i2: int|
                0 <= i2 < players@.len() ==> (#[trigger] players@[i2]).total_level_spec()
                    <= max_level,
            max_level > 0,
            forall|k: int|
                0 <= k < header_line_spec().len() && in_bounds(5 + k, 13) ==> cell_is(
                    screen@,
                    5 + k,
                    13,
                    header_line_spec()[k],
                    0,
                ),
            label_on_one_row(updated_label@) ==> forall|k: int|
                0 <= k < updated_row_spec(updated_label@).len() && in_bounds(32 + k, 11)
                    ==> cell_is(screen@, 32 + k, 11, updated_row_spec(updated_label@)[k], 35),
            forall|i2: int, k: int|
                0 <= i2 < i && handle_on_one_row(players@[i2]) && 0 <= k < page_row_spec(
                    players@,
                    max_level as nat,
                    i2,
                ).len() && in_bounds(5 + k, 15 + i2) ==> cell_is(
                    screen@,
                    5 + k,
                    15 + i2,
                    page_row_spec(players@, max_level as nat, i2)[k],
                    rank_color_spec(i2),
                ),
        decreases count - i,
    {
        let line = standings_line(i, &players[i], max_level);
        let color = rank_color(i);
        let y: isize = 15 + (i as isize);
        let ghost pre = screen@;
        draw_string(&mut screen, &Vector2 { x: 4, y }, line.as_str(), color);
        proof {
            if handle_on_one_row(players@[i as int]) {
                lemma_standings_line_no_newline(
                    i as nat,
                    players@[i as int].handle@,
                    players@[i as int].total_level_spec() as nat,
                    max_level as nat,
                );
                lemma_draw_string_row(pre, 4, 4, 15 + i as int, line@, color);
            } else {
                lemma_draw_string_rows_below(pre, 4, 4, 15 + i as int, line@, color);
            }
        }
        i = i + 1;
    }

    // Competition progress in the top-right corner: the dashed gauge,
    // then the percentage and bar over it.
    let ghost pre_dashes = screen@;
    draw_string(&mut screen, &Vector2 { x: 52, y: 4 }, "     ------------", 35);
    proof {
        reveal_strlit("     ------------");
        assert(forall|k: int|
            0 <= k < "     ------------"@.len() ==> "     ------------"@[k] != '\n');
        lemma_draw_string_row(pre_dashes, 52, 52, 4, "     ------------"@, 35u8);
    }
    let prog = progress_line(current_day, last_day);
    let ghost pre_prog = screen@;
    draw_string(&mut screen, &Vector2 { x: 52, y: 4 }, prog.as_str(), 0);
    proof {
        lemma_progress_line_no_newline(current_day as int, last_day as int);
        lemma_draw_string_row(pre_prog, 52, 52, 4, prog@, 0u8);
    }
    screen
}

} // verus!
