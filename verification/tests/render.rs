use ansimage::color::Rgb8;
use ansimage::render::{process_row, RenderDecision, ESCAPE};

fn rgb(r: u8, g: u8, b: u8) -> Option<Rgb8> {
    Some(Rgb8 { r, g, b })
}

fn cell(glyph: char, fg: Option<Rgb8>, bg: Option<Rgb8>) -> RenderDecision {
    RenderDecision { glyph, fg, bg }
}

fn strip_escapes(text: &str) -> String {
    let mut shown = String::new();
    let mut inside = false;
    for c in text.chars() {
        if inside {
            inside = c != 'm';
        } else if c == ESCAPE {
            inside = true;
        } else {
            shown.push(c);
        }
    }
    shown
}

#[test]
fn escape_is_the_control_character() {
    assert_eq!(ESCAPE, '\u{1b}');
}

#[test]
fn empty_row_is_the_reset_alone() {
    assert_eq!(process_row(&[], true), "\x1b[0m");
    assert_eq!(process_row(&[], false), "\x1b[0m");
}

#[test]
fn one_cell_with_both_colors() {
    let row = [cell('#', rgb(1, 20, 255), rgb(0, 9, 100))];
    let expected = "\x1b[38;2;1;20;255m\x1b[48;2;0;9;100m#\x1b[0m";
    assert_eq!(process_row(&row, true), expected);
    assert_eq!(process_row(&row, false), expected);
}

#[test]
fn channels_are_written_in_decimal_without_padding() {
    let row = [cell('a', rgb(0, 10, 99), None), cell('b', rgb(100, 199, 200), None)];
    assert_eq!(
        process_row(&row, true),
        "\x1b[38;2;0;10;99ma\x1b[38;2;100;199;200mb\x1b[0m"
    );
    let edges = [cell('c', rgb(9, 90, 109), rgb(255, 250, 205))];
    assert_eq!(
        process_row(&edges, true),
        "\x1b[38;2;9;90;109m\x1b[48;2;255;250;205mc\x1b[0m"
    );
}

#[test]
fn identical_neighbors_are_colored_once_under_compression() {
    let c = cell('x', rgb(10, 20, 30), rgb(40, 50, 60));
    assert_eq!(
        process_row(&[c, c], true),
        "\x1b[38;2;10;20;30m\x1b[48;2;40;50;60mxx\x1b[0m"
    );
}

#[test]
fn identical_neighbors_are_colored_each_without_compression() {
    let c = cell('x', rgb(10, 20, 30), rgb(40, 50, 60));
    assert_eq!(
        process_row(&[c, c], false),
        "\x1b[38;2;10;20;30m\x1b[48;2;40;50;60mx\x1b[38;2;10;20;30m\x1b[48;2;40;50;60mx\x1b[0m"
    );
}

#[test]
fn only_the_channel_that_changes_is_written() {
    let row = [
        cell('a', rgb(1, 1, 1), rgb(2, 2, 2)),
        cell('b', rgb(1, 1, 1), rgb(3, 3, 3)),
        cell('c', rgb(4, 4, 4), rgb(3, 3, 3)),
        cell('d', rgb(1, 1, 1), rgb(2, 2, 2)),
    ];
    assert_eq!(
        process_row(&row, true),
        "\x1b[38;2;1;1;1m\x1b[48;2;2;2;2ma\x1b[48;2;3;3;3mb\x1b[38;2;4;4;4mc\x1b[38;2;1;1;1m\x1b[48;2;2;2;2md\x1b[0m"
    );
}

#[test]
fn absent_colors_at_the_start_write_nothing_under_compression() {
    let row = [cell('a', None, None), cell('b', None, None)];
    assert_eq!(process_row(&row, true), "ab\x1b[0m");
}

#[test]
fn absent_colors_write_resets_without_compression() {
    let row = [cell('a', None, None), cell('b', rgb(1, 2, 3), None)];
    assert_eq!(
        process_row(&row, false),
        "\x1b[39m\x1b[49ma\x1b[38;2;1;2;3m\x1b[49mb\x1b[0m"
    );
}

#[test]
fn a_color_that_goes_away_is_reset() {
    let row = [
        cell('a', rgb(1, 2, 3), rgb(4, 5, 6)),
        cell('b', None, rgb(4, 5, 6)),
        cell('c', None, None),
        cell('d', rgb(1, 2, 3), None),
    ];
    assert_eq!(
        process_row(&row, true),
        "\x1b[38;2;1;2;3m\x1b[48;2;4;5;6ma\x1b[39mb\x1b[49mc\x1b[38;2;1;2;3md\x1b[0m"
    );
}

#[test]
fn foreground_only_row() {
    let row = [cell('@', rgb(255, 255, 255), None), cell(' ', rgb(0, 0, 0), None)];
    assert_eq!(process_row(&row, true), "\x1b[38;2;255;255;255m@\x1b[38;2;0;0;0m \x1b[0m");
}

#[test]
fn glyphs_outside_ascii_are_kept() {
    let row = [cell('\u{2580}', rgb(0, 0, 0), rgb(0, 0, 0)), cell('\u{259e}', rgb(0, 0, 0), rgb(0, 0, 0))];
    assert_eq!(
        process_row(&row, true),
        "\x1b[38;2;0;0;0m\x1b[48;2;0;0;0m\u{2580}\u{259e}\x1b[0m"
    );
}

#[test]
fn compression_keeps_the_glyphs() {
    let colors = [None, rgb(0, 0, 0), rgb(255, 0, 7), rgb(255, 0, 7), rgb(109, 110, 111)];
    let glyphs = ['m', '[', ';', '0', ' ', '\u{2588}', 'x'];
    let mut row = Vec::new();
    let mut expected = String::new();
    for (i, &fg) in colors.iter().enumerate() {
        for (j, &bg) in colors.iter().enumerate() {
            let glyph = glyphs[(i * colors.len() + j) % glyphs.len()];
            row.push(cell(glyph, fg, bg));
            expected.push(glyph);
        }
    }
    let packed = process_row(&row, true);
    let plain = process_row(&row, false);
    assert!(packed.len() < plain.len());
    assert_eq!(strip_escapes(&packed), expected);
    assert_eq!(strip_escapes(&plain), expected);
    assert_eq!(strip_escapes(&packed), strip_escapes(&plain));
}

#[test]
fn every_line_ends_with_the_full_reset() {
    let row = [cell('a', rgb(1, 2, 3), None)];
    assert!(process_row(&row, true).ends_with("\x1b[0m"));
    assert!(process_row(&row, false).ends_with("\x1b[0m"));
}
