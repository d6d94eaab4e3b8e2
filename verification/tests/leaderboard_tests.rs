use leaderboard::boxes::BoxStyle;
use leaderboard::boxes::draw_box;
use leaderboard::dates::DateError;
use leaderboard::dates::days_between;
use leaderboard::dates::parse_rfc3339_seconds;
use leaderboard::dates::progress_percentage;
use leaderboard::encode::print_encoded;
use leaderboard::geometry::Vector2;
use leaderboard::lines::header_line;
use leaderboard::lines::progress_line;
use leaderboard::lines::standings_line;
use leaderboard::lines::title_line;
use leaderboard::numfmt::i64_to_string;
use leaderboard::numfmt::u64_to_string;
use leaderboard::page::build_page;
use leaderboard::player::Player;
use leaderboard::player::find_baseline;
use leaderboard::player::join_baseline;
use leaderboard::player::max_total_level;
use leaderboard::player::sort_players;
use leaderboard::screen::MAX_HEIGHT;
use leaderboard::screen::MAX_WIDTH;
use leaderboard::screen::Screen;
use leaderboard::text::draw_string;
use leaderboard::text::generate_bar;
use leaderboard::text::pad_left;
use leaderboard::text::pad_right;

/// Order-preserving integer key for an experience value, matching the
/// total order of `f64::total_cmp`.
fn exp_key(x: f64) -> u64 {
    let b = x.to_bits();
    if b & 0x8000_0000_0000_0000 != 0 { !b } else { b | 0x8000_0000_0000_0000 }
}

fn player(handle: &str, name: &str, level: usize, exp: f64, immortal: usize, start: Option<usize>) -> Player {
    Player {
        handle: handle.to_string(),
        name: name.to_string(),
        level,
        experience: exp_key(exp),
        immortal,
        start_immortal: start,
    }
}

fn cell(s: &Screen, x: usize, y: usize) -> (char, u8) {
    (s.data[x + y * MAX_WIDTH], s.colors[x + y * MAX_WIDTH])
}

#[test]
fn draw_in_bounds_readback() {
    let mut s = Screen::new();
    s.draw('X', 7, &Vector2 { x: 0, y: 0 });
    s.draw('Y', 3, &Vector2 { x: 74, y: 26 });
    assert_eq!(cell(&s, 0, 0), ('X', 7));
    assert_eq!(cell(&s, 74, 26), ('Y', 3));
}

#[test]
fn draw_out_of_bounds_is_ignored() {
    let mut s = Screen::new();
    let before: Vec<char> = s.data.clone();
    s.draw('X', 7, &Vector2 { x: -1, y: 0 });
    s.draw('X', 7, &Vector2 { x: 0, y: -1 });
    s.draw('X', 7, &Vector2 { x: 75, y: 0 });
    s.draw('X', 7, &Vector2 { x: 0, y: 27 });
    assert_eq!(s.data, before);
    assert!(s.colors.iter().all(|&c| c == 0));
}

#[test]
fn serialize_blank_screen() {
    let s = Screen::new();
    let out = s.print();
    let mut expected = String::new();
    for _ in 0..MAX_HEIGHT {
        for _ in 0..MAX_WIDTH {
            expected.push(' ');
        }
        expected.push('\n');
    }
    assert_eq!(out, expected);
    assert!(!out.contains('\u{1b}'));
}

#[test]
fn serialize_collapses_same_color_runs() {
    let mut s = Screen::new();
    s.draw('A', 31, &Vector2 { x: 0, y: 0 });
    s.draw('B', 31, &Vector2 { x: 1, y: 0 });
    let out = s.print();
    assert_eq!(out.matches("\u{1b}[31m").count(), 1);
    assert!(out.starts_with("\u{1b}[31mAB\u{1b}[0m"));
}

#[test]
fn serialize_collapses_across_row_boundary() {
    let mut s = Screen::new();
    // Last cell of row 0 and first cell of row 1, same color.
    s.draw('A', 32, &Vector2 { x: 74, y: 0 });
    s.draw('B', 32, &Vector2 { x: 0, y: 1 });
    let out = s.print();
    assert_eq!(out.matches("\u{1b}[32m").count(), 1);
    assert!(out.contains("\u{1b}[32mA\nB\u{1b}[0m"));
}

#[test]
fn generate_bar_half() {
    assert_eq!(generate_bar(10, 5, 10), "|||||");
}

#[test]
fn generate_bar_empty() {
    assert_eq!(generate_bar(10, 0, 10), "");
}

#[test]
fn generate_bar_full() {
    assert_eq!(generate_bar(10, 10, 10), "||||||||||");
}

#[test]
fn generate_bar_zero_max_is_empty() {
    assert_eq!(generate_bar(10, 5, 0), "");
}

#[test]
fn total_level_with_baseline() {
    let p = player("A", "A", 50, 0.0, 5, Some(2));
    assert_eq!(p.total_level(), 350);
}

#[test]
fn total_level_without_baseline() {
    let p = player("B", "B", 10, 0.0, 1, None);
    assert_eq!(p.total_level(), 110);
}

#[test]
fn sorting_breaks_ties_by_experience() {
    let a = player("low", "low", 300, 10.5, 0, None);
    let b = player("high", "high", 300, 20.0, 0, None);
    let mut v = vec![a, b];
    sort_players(&mut v);
    assert_eq!(v[0].handle, "high");
    assert_eq!(v[1].handle, "low");
}

#[test]
fn sorting_descends_by_total_level() {
    let mut v = vec![
        player("b", "b", 110, 0.0, 0, None),
        player("c", "c", 350, 0.0, 0, None),
        player("a", "a", 10, 1.0, 0, None),
    ];
    sort_players(&mut v);
    let handles: Vec<&str> = v.iter().map(|p| p.handle.as_str()).collect();
    assert_eq!(handles, vec!["c", "b", "a"]);
}

#[test]
fn draw_string_offsets_and_newline() {
    let mut s = Screen::new();
    draw_string(&mut s, &Vector2 { x: 0, y: 0 }, "AB\nC", 5);
    assert_eq!(cell(&s, 1, 0), ('A', 5));
    assert_eq!(cell(&s, 2, 0), ('B', 5));
    assert_eq!(cell(&s, 1, 1), ('C', 5));
    // The origin cell itself is never drawn.
    assert_eq!(cell(&s, 0, 0), (' ', 0));
}

#[test]
fn draw_string_clips_quietly() {
    let mut s = Screen::new();
    draw_string(&mut s, &Vector2 { x: 73, y: 0 }, "WXYZ", 1);
    assert_eq!(cell(&s, 74, 0), ('W', 1));
    assert_eq!(cell(&s, 0, 1), (' ', 0));
}

#[test]
fn percentage_halfway() {
    assert_eq!(progress_percentage(1, 2), 50);
}

#[test]
fn percentage_zero_total_is_zero() {
    assert_eq!(progress_percentage(5, 0), 0);
}

#[test]
fn days_between_truncates() {
    assert_eq!(days_between(0, 2 * 86400 + 100), 2);
    assert_eq!(days_between(0, 86400 - 1), 0);
}

#[test]
fn parse_rfc3339_epoch() {
    assert_eq!(parse_rfc3339_seconds("1970-01-01T00:00:00+00:00"), Ok(0));
}

#[test]
fn parse_rfc3339_with_offset() {
    assert_eq!(
        parse_rfc3339_seconds("2024-03-01T00:00:00+01:00"),
        Ok(1709247600)
    );
}

#[test]
fn parse_rfc3339_rejects_garbage() {
    assert_eq!(
        parse_rfc3339_seconds("yesterday"),
        Err(DateError::NotRfc3339)
    );
}

#[test]
fn baseline_join_matches_by_name() {
    let baseline = vec![player("A", "Alpha", 10, 0.0, 2, None)];
    let current = vec![
        player("A", "Alpha", 50, 0.0, 5, None),
        player("B", "Beta", 10, 0.0, 1, None),
    ];
    let joined = join_baseline(&current, &baseline);
    assert_eq!(joined[0].start_immortal, Some(2));
    assert_eq!(joined[1].start_immortal, None);
    assert_eq!(joined[0].total_level(), 350);
    assert_eq!(joined[1].total_level(), 110);
}

#[test]
fn find_baseline_first_match_wins() {
    let baseline = vec![
        player("A", "Alpha", 1, 0.0, 3, None),
        player("A2", "Alpha", 1, 0.0, 7, None),
    ];
    assert_eq!(find_baseline(&baseline, &"Alpha".to_string()), Some(3));
    assert_eq!(find_baseline(&baseline, &"Gamma".to_string()), None);
}

#[test]
fn max_total_level_of_empty_roster_is_none() {
    let v: Vec<Player> = Vec::new();
    assert_eq!(max_total_level(&v), None);
}

#[test]
fn max_total_level_picks_highest() {
    let v = vec![
        player("a", "a", 10, 0.0, 0, None),
        player("b", "b", 50, 0.0, 3, None),
    ];
    assert_eq!(max_total_level(&v), Some(350));
}

#[test]
fn number_formatting() {
    assert_eq!(u64_to_string(0), "0");
    assert_eq!(u64_to_string(42), "42");
    assert_eq!(u64_to_string(1709247600), "1709247600");
    assert_eq!(i64_to_string(-7), "-7");
    assert_eq!(i64_to_string(0), "0");
}

#[test]
fn padding() {
    assert_eq!(pad_right("abc", 5), "abc  ");
    assert_eq!(pad_right("abcdef", 5), "abcdef");
    assert_eq!(pad_left("42", 4), "  42");
    assert_eq!(pad_left("12345", 4), "12345");
}

#[test]
fn header_line_layout() {
    assert_eq!(header_line(), "SPELARE                      | LEVEL");
}

#[test]
fn title_line_layout() {
    assert_eq!(title_line(3, 31), "[Topplistan - Dag 3 av 31]");
}

#[test]
fn standings_line_layout() {
    let p = player("Foo", "Foo", 350, 0.0, 0, None);
    let line = standings_line(0, &p, 350);
    assert_eq!(
        line,
        format!("1) {:25} |  350 {}", "Foo", "|".repeat(30))
    );
}

#[test]
fn progress_line_layout() {
    assert_eq!(progress_line(1, 2), " 50% ||||||");
}

#[test]
fn vector_addition() {
    let v = Vector2 { x: 2, y: -3 }.add(Vector2 { x: -5, y: 4 });
    assert_eq!(v, Vector2 { x: -3, y: 1 });
}

#[test]
fn simple_box_glyphs() {
    let mut s = Screen::new();
    draw_box(
        &mut s,
        &Vector2 { x: 0, y: 0 },
        &Vector2 { x: 2, y: 2 },
        BoxStyle::Simple,
    );
    assert_eq!(cell(&s, 0, 0), ('+', 0));
    assert_eq!(cell(&s, 2, 0), ('+', 0));
    assert_eq!(cell(&s, 0, 2), ('+', 0));
    assert_eq!(cell(&s, 2, 2), ('+', 0));
    assert_eq!(cell(&s, 1, 0), ('-', 0));
    assert_eq!(cell(&s, 1, 2), ('-', 0));
    assert_eq!(cell(&s, 0, 1), ('|', 0));
    assert_eq!(cell(&s, 2, 1), ('|', 0));
    // The interior and the outside stay blank.
    assert_eq!(cell(&s, 1, 1), (' ', 0));
    assert_eq!(cell(&s, 3, 3), (' ', 0));
}

#[test]
fn fancy_box_speckles_stay_in_zone() {
    let mut s = Screen::new();
    draw_box(
        &mut s,
        &Vector2 { x: 10, y: 10 },
        &Vector2 { x: 10, y: 10 },
        BoxStyle::Fancy,
    );
    for y in 0..MAX_HEIGHT {
        for x in 0..MAX_WIDTH {
            let (c, _) = cell(&s, x, y);
            let (xi, yi) = (x as isize, y as isize);
            let corner = (xi == 10 || xi == 20) && (yi == 10 || yi == 20);
            let hedge = (yi == 10 || yi == 20) && (11..=19).contains(&xi);
            let vedge = (xi == 10 || xi == 20) && (10..=19).contains(&yi);
            let zone = ((11..=19).contains(&xi) && [8, 9, 21, 22].contains(&yi))
                || ((10..=19).contains(&yi) && [8, 9, 21, 22].contains(&xi));
            if corner {
                assert_eq!(c, '+');
            } else if vedge {
                assert_eq!(c, '|');
            } else if hedge {
                assert_eq!(c, '-');
            } else if zone {
                assert!(c == ' ' || c == '.');
            } else {
                assert_eq!(c, ' ');
            }
        }
    }
}

#[test]
fn encoded_output_is_single_byte() {
    let mut s = Screen::new();
    s.draw('\u{f6}', 0, &Vector2 { x: 0, y: 0 });
    let bytes = print_encoded(&s);
    // One byte per cell plus one per row break, with 'ö' as 0xF6.
    assert_eq!(bytes.len(), (MAX_WIDTH + 1) * MAX_HEIGHT);
    assert_eq!(bytes[0], 0xF6);
    assert_eq!(bytes[1], b' ');
}

#[test]
fn default_box_style_is_simple() {
    assert!(matches!(BoxStyle::default(), BoxStyle::Simple));
}

#[test]
fn clock_label_has_minute_precision() {
    let (_ts, label) = leaderboard::dates::now_in_stockholm();
    // "YYYY-MM-DD HH:MM"
    assert!(label.len() >= 16);
    assert_eq!(label.as_bytes()[4], b'-');
    assert_eq!(label.as_bytes()[13], b':');
}

#[test]
fn page_shows_progress_and_standings() {
    let players = vec![player("A", "A", 50, 0.0, 5, Some(2))];
    let s = build_page("hej", "logo", &players, 350, 1, 2, "2024-03-02 12:00");
    // Progress row: " 50% ||||||" starting at column 53 of row 4.
    let expected = " 50% ||||||";
    for (k, c) in expected.chars().enumerate() {
        assert_eq!(cell(&s, 53 + k, 4).0, c);
    }
    // First standings row at row 15, column 5 on: "1) A ... |  350 |…".
    let line = format!("1) {:25} |  350 {}", "A", "|".repeat(30));
    for (k, c) in line.chars().enumerate() {
        let x = 5 + k;
        if x < MAX_WIDTH {
            assert_eq!(cell(&s, x, 15).0, c);
        }
    }
    // The page serializes and encodes without trouble.
    let printed = s.print();
    assert!(printed.contains("[Topplistan - Dag 1 av 2]"));
    assert!(printed.contains("Uppdaterad 2024-03-02 12:00"));
    let bytes = print_encoded(&s);
    assert!(!bytes.is_empty());
}
