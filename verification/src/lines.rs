use vstd::prelude::*;

use crate::numfmt::dec_str;
use crate::numfmt::dec_str_i64;
use crate::numfmt::i64_to_string;
use crate::numfmt::u64_to_string;
use crate::player::Player;
use crate::text::bar_len;
use crate::text::generate_bar;
use crate::text::pad_left;
use crate::text::pad_right;
use crate::text::spaces;

verus! {

use vstd::string::StrSliceExecFns;
use vstd::string::StringExecFns;

/// Expected upper width of a display handle; the standings layout pads to
/// one below it and heads the column at two above it.
pub const MAX_HANDLE_LENGTH: usize = 26;

/// `s` left-justified in `w` cells: blanks on the right, no truncation.
pub open spec fn pad_right_spec(s: Seq<char>, w: nat) -> Seq<char> {
    if s.len() >= w {
        s
    } else {
        s + spaces((w - s.len()) as nat)
    }
}

/// `s` right-justified in `w` cells: blanks on the left, no truncation.
pub open spec fn pad_left_spec(s: Seq<char>, w: nat) -> Seq<char> {
    if s.len() >= w {
        s
    } else {
        spaces((w - s.len()) as nat) + s
    }
}

/// The standings row for the zero-based rank `idx`: the one-based rank,
/// ") ", the handle left-justified to 25 cells, " | ", the total level
/// right-justified to 4 cells, one space, then the player's bar on a
/// 30-cell scale normalized by `max`.
pub open spec fn standings_line_spec(idx: nat, handle: Seq<char>, total: nat, max: nat) -> Seq<
    char,
> {
    dec_str(idx + 1) + seq![')', ' '] + pad_right_spec(handle, (MAX_HANDLE_LENGTH - 1) as nat) + seq![' ', '|', ' ']
        + pad_left_spec(dec_str(total), 4) + seq![' '] + Seq::new(
        bar_len(30, total, max),
        |i: int| '|',
    )
}

/// One rendered standings row.
pub fn standings_line(idx: usize, player: &Player, max: usize) -> (r: String)
    requires
        player.wf(),
        idx < usize::MAX,
        max > 0,
        player.total_level_spec() <= max,
    ensures
        r@ == standings_line_spec(
            idx as nat,
            player.handle@,
            player.total_level_spec() as nat,
            max as nat,
        ),
{
    let total = player.total_level();
    let mut r = u64_to_string((idx + 1) as u64);
    r.append(") ");
    r.append(pad_right(player.handle.as_str(), MAX_HANDLE_LENGTH - 1).as_str());
    r.append(" | ");
    r.append(pad_left(u64_to_string(total as u64).as_str(), 4).as_str());
    r.append(" ");
    proof {
        assert((30 as nat) * (total as nat) / (max as nat) <= 30) by (nonlinear_arith)
            requires
                max > 0,
                0 <= total <= max,
        ;
    }
    let bar = generate_bar(30, total, max);
    r.append(bar.as_str());
    proof {
        reveal_strlit(") ");
        reveal_strlit(" | ");
        reveal_strlit(" ");
        assert(r@ =~= standings_line_spec(
            idx as nat,
            player.handle@,
            player.total_level_spec() as nat,
            max as nat,
        ));
    }
    r
}

/// The column-header row above the standings: "SPELARE" left-justified to
/// 28 cells, " | ", then the level heading.
pub open spec fn header_line_spec() -> Seq<char> {
    pad_right_spec("SPELARE"@, (MAX_HANDLE_LENGTH + 2) as nat) + " | "@ + "LEVEL"@
}

/// The rendered column-header row.
pub fn header_line() -> (r: String)
    ensures
        r@ == header_line_spec(),
{
    let mut r = pad_right("SPELARE", MAX_HANDLE_LENGTH + 2);
    r.append(" | ");
    r.append("LEVEL");
    proof {
        reveal_strlit("SPELARE");
        assert(r@ =~= header_line_spec());
    }
    r
}

/// The title row above the standings: the competition's elapsed and total
/// whole-day counts.
pub open spec fn title_line_spec(current_day: int, last_day: int) -> Seq<char> {
    "[Topplistan - Dag "@ + dec_str_i64(current_day) + " av "@ + dec_str_i64(last_day) + "]"@
}

/// The rendered title row.
pub fn title_line(current_day: i64, last_day: i64) -> (r: String)
    ensures
        r@ == title_line_spec(current_day as int, last_day as int),
{
    let mut r = String::new();
    r.append("[Topplistan - Dag ");
    r.append(i64_to_string(current_day).as_str());
    r.append(" av ");
    r.append(i64_to_string(last_day).as_str());
    r.append("]");
    proof {
        assert(r@ =~= title_line_spec(current_day as int, last_day as int));
    }
    r
}

/// The competition progress row: one leading space, the percentage, "% ",
/// then the elapsed-days bar on a 12-cell scale. Day counts below zero
/// are clamped to zero before the bar is scaled.
pub open spec fn progress_line_spec(current_day: int, last_day: int) -> Seq<char> {
    seq![' '] + dec_str_i64(
        crate::dates::progress_percentage_spec(current_day, last_day),
    ) + seq!['%', ' '] + Seq::new(
        bar_len(
            12,
            (if current_day < 0 {
                0
            } else {
                current_day
            }) as nat,
            (if last_day < 0 {
                0
            } else {
                last_day
            }) as nat,
        ),
        |i: int| '|',
    )
}

/// A standings row never contains a line break, as long as the handle in
/// it does not.
pub proof fn lemma_standings_line_no_newline(idx: nat, handle: Seq<char>, total: nat, max: nat)
    requires
        forall|k: int| 0 <= k < handle.len() ==> handle[k] != '\n',
    ensures
        forall|k: int|
            0 <= k < standings_line_spec(idx, handle, total, max).len() ==> standings_line_spec(
                idx,
                handle,
                total,
                max,
            )[k] != '\n',
{
    crate::numfmt::lemma_dec_str_no_newline(idx + 1);
    crate::numfmt::lemma_dec_str_no_newline(total);
    let s = standings_line_spec(idx, handle, total, max);
    assert forall|k: int| 0 <= k < s.len() implies s[k] != '\n' by {
        let a = dec_str(idx + 1);
        let b = a + seq![')', ' '];
        let c = b + pad_right_spec(handle, (MAX_HANDLE_LENGTH - 1) as nat);
        let d = c + seq![' ', '|', ' '];
        let e = d + pad_left_spec(dec_str(total), 4);
        if k < b.len() {
        } else if k < c.len() {
            assert(s[k] == pad_right_spec(handle, (MAX_HANDLE_LENGTH - 1) as nat)[k - b.len()]);
        } else if k < e.len() {
            if d.len() <= k {
                assert(s[k] == pad_left_spec(dec_str(total), 4)[k - d.len()]);
            }
        } else {
        }
    }
}

/// The column-header row never contains a line break.
pub proof fn lemma_header_line_no_newline()
    ensures
        forall|k: int| 0 <= k < header_line_spec().len() ==> header_line_spec()[k] != '\n',
{
    reveal_strlit("SPELARE");
    reveal_strlit(" | ");
    reveal_strlit("LEVEL");
    let s = header_line_spec();
    assert forall|k: int| 0 <= k < s.len() implies s[k] != '\n' by {
        let a = pad_right_spec("SPELARE"@, (MAX_HANDLE_LENGTH + 2) as nat);
        if k < a.len() {
            assert(s[k] == a[k]);
        } else if k < a.len() + 3 {
            assert(s[k] == " | "@[k - a.len()]);
        } else {
            assert(s[k] == "LEVEL"@[k - a.len() - 3]);
        }
    }
}

/// The progress row never contains a line break.
pub proof fn lemma_progress_line_no_newline(current_day: int, last_day: int)
    ensures
        forall|k: int|
            0 <= k < progress_line_spec(current_day, last_day).len() ==> progress_line_spec(
                current_day,
                last_day,
            )[k] != '\n',
{
    crate::numfmt::lemma_dec_str_i64_no_newline(
        crate::dates::progress_percentage_spec(current_day, last_day),
    );
}

/// The rendered progress row.
pub fn progress_line(current_day: i64, last_day: i64) -> (r: String)
    requires
        -1000000 <= current_day <= 1000000,
        -1000000 <= last_day <= 1000000,
    ensures
        r@ == progress_line_spec(current_day as int, last_day as int),
{
    proof {
        if last_day > 0 {
            assert(i64::MIN <= (current_day as int) * 100 / (last_day as int) <= i64::MAX)
                by (nonlinear_arith)
                requires
                    -1000000 <= current_day <= 1000000,
                    1 <= last_day,
            ;
        }
    }
    let pct = crate::dates::progress_percentage(current_day, last_day);
    let value: usize = if current_day < 0 {
        0
    } else {
        current_day as usize
    };
    let max: usize = if last_day < 0 {
        0
    } else {
        last_day as usize
    };
    proof {
        assert(max == 0 || (12 as nat) * (value as nat) / (max as nat) <= 12000000)
            by (nonlinear_arith)
            requires
                0 <= value <= 1000000,
                0 <= max,
        ;
    }
    let bar = generate_bar(12, value, max);
    let mut r = String::new();
    r.append(" ");
    r.append(i64_to_string(pct).as_str());
    r.append("% ");
    r.append(bar.as_str());
    proof {
        reveal_strlit(" ");
        reveal_strlit("% ");
        assert(r@ =~= progress_line_spec(current_day as int, last_day as int));
    }
    r
}

} // verus!
