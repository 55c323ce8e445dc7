//! The row renderer: from the cells of a row to a line of styled text.
//!
//! Colors are set with ANSI SGR truecolor sequences. With compression a
//! sequence is written only where the color of a cell differs from that of
//! the cell before it. Every line ends with a full reset.

use vstd::prelude::*;
use vstd::string::StringExecFns;
use crate::color::Rgb8;

verus! {

/// The character that opens every control sequence.
pub const ESCAPE: char = '\x1b';

/// One cell of the output: a glyph and the colors it is drawn in. An absent
/// color leaves that channel to the terminal.
#[derive(Clone, Copy, Debug, PartialEq, Eq, Structural)]
pub struct RenderDecision {
    /// The glyph of the cell.
    pub glyph: char,
    /// The foreground color.
    pub fg: Option<Rgb8>,
    /// The background color.
    pub bg: Option<Rgb8>,
}

/// The character of a decimal digit.
pub open spec fn digit_char(d: int) -> char {
    if d == 0 {
        '0'
    } else if d == 1 {
        '1'
    } else if d == 2 {
        '2'
    } else if d == 3 {
        '3'
    } else if d == 4 {
        '4'
    } else if d == 5 {
        '5'
    } else if d == 6 {
        '6'
    } else if d == 7 {
        '7'
    } else if d == 8 {
        '8'
    } else {
        '9'
    }
}

/// A number in decimal, without leading zeros.
pub open spec fn decimal(n: nat) -> Seq<char>
    decreases n,
{
    if n < 10 {
        seq![digit_char(n as int)]
    } else {
        decimal(n / 10).push(digit_char((n % 10) as int))
    }
}

/// The red, green and blue of a color in decimal, separated by semicolons.
pub open spec fn channels(c: Rgb8) -> Seq<char> {
    decimal(c.r as nat) + seq![';'] + decimal(c.g as nat) + seq![';'] + decimal(c.b as nat)
}

/// The sequence that sets the foreground to a color.
pub open spec fn set_foreground(c: Rgb8) -> Seq<char> {
    seq![ESCAPE, '[', '3', '8', ';', '2', ';'] + channels(c) + seq!['m']
}

/// The sequence that sets the background to a color.
pub open spec fn set_background(c: Rgb8) -> Seq<char> {
    seq![ESCAPE, '[', '4', '8', ';', '2', ';'] + channels(c) + seq!['m']
}

/// The sequence that gives the foreground back to the terminal.
pub open spec fn reset_foreground() -> Seq<char> {
    seq![ESCAPE, '[', '3', '9', 'm']
}

/// The sequence that gives the background back to the terminal.
pub open spec fn reset_background() -> Seq<char> {
    seq![ESCAPE, '[', '4', '9', 'm']
}

/// The sequence that resets all styling.
pub open spec fn reset_all() -> Seq<char> {
    seq![ESCAPE, '[', '0', 'm']
}

/// What is written for the foreground of a cell: nothing where compression
/// is on and the color is the one of the cell before; else the sequence that
/// sets the color, or the reset where the cell has none.
pub open spec fn foreground_text(
    fg: Option<Rgb8>,
    last: Option<Rgb8>,
    compression: bool,
) -> Seq<char> {
    if fg == last && compression {
        Seq::empty()
    } else {
        match fg {
            Some(c) => set_foreground(c),
            None => reset_foreground(),
        }
    }
}

/// What is written for the background of a cell, as for the foreground.
pub open spec fn background_text(
    bg: Option<Rgb8>,
    last: Option<Rgb8>,
    compression: bool,
) -> Seq<char> {
    if bg == last && compression {
        Seq::empty()
    } else {
        match bg {
            Some(c) => set_background(c),
            None => reset_background(),
        }
    }
}

/// The foreground in force before cell `i`: that of the cell before it, and
/// none before the first.
pub open spec fn foreground_before(cells: Seq<RenderDecision>, i: int) -> Option<Rgb8> {
    if i <= 0 {
        None
    } else {
        cells[i - 1].fg
    }
}

/// The background in force before cell `i`.
pub open spec fn background_before(cells: Seq<RenderDecision>, i: int) -> Option<Rgb8> {
    if i <= 0 {
        None
    } else {
        cells[i - 1].bg
    }
}

/// The text of cell `i` of a row: its color sequences, then its glyph.
pub open spec fn cell_text(cells: Seq<RenderDecision>, i: int, compression: bool) -> Seq<char> {
    foreground_text(cells[i].fg, foreground_before(cells, i), compression) + background_text(
        cells[i].bg,
        background_before(cells, i),
        compression,
    ) + seq![cells[i].glyph]
}

/// The text of the first `n` cells of a row.
pub open spec fn cells_text(cells: Seq<RenderDecision>, n: int, compression: bool) -> Seq<char>
    decreases n,
{
    if n <= 0 {
        Seq::empty()
    } else {
        cells_text(cells, n - 1, compression) + cell_text(cells, n - 1, compression)
    }
}

/// The line for a row: the text of its cells, then the full reset.
pub open spec fn row_text(cells: Seq<RenderDecision>, compression: bool) -> Seq<char> {
    cells_text(cells, cells.len() as int, compression) + reset_all()
}

/// The text with its control sequences taken out. A sequence runs from an
/// escape character to the next `m`; `inside` says whether `text` starts in
/// the middle of one.
pub open spec fn strip_escapes(text: Seq<char>, inside: bool) -> Seq<char>
    decreases text.len(),
{
    if text.len() == 0 {
        Seq::empty()
    } else if inside {
        strip_escapes(text.drop_first(), text[0] != 'm')
    } else if text[0] == ESCAPE {
        strip_escapes(text.drop_first(), true)
    } else {
        seq![text[0]] + strip_escapes(text.drop_first(), false)
    }
}

/// What a terminal shows of a line: the text without its control sequences.
pub open spec fn visible(text: Seq<char>) -> Seq<char> {
    strip_escapes(text, false)
}

/// The glyphs of a row, in order.
pub open spec fn glyphs_of(cells: Seq<RenderDecision>) -> Seq<char> {
    Seq::new(cells.len(), |i: int| cells[i].glyph)
}

/// Whether no character of the text ends a control sequence.
spec fn unterminated(text: Seq<char>) -> bool {
    forall|i: int| 0 <= i < text.len() ==> text[i] != 'm'
}

/// Whether the text is one whole control sequence: an escape character, then
/// characters that do not end the sequence, then the `m` that does.
spec fn is_sequence(text: Seq<char>) -> bool {
    &&& text.len() >= 2
    &&& text[0] == ESCAPE
    &&& text.last() == 'm'
    &&& unterminated(text.subrange(1, text.len() - 1))
}

proof fn lemma_strip_inside(body: Seq<char>, rest: Seq<char>)
    requires
        unterminated(body),
    ensures
        strip_escapes(body + seq!['m'] + rest, true) == strip_escapes(rest, false),
    decreases body.len(),
{
    let text = body + seq!['m'] + rest;
    if body.len() == 0 {
        assert(text.drop_first() =~= rest);
    } else {
        assert(text[0] == body[0]);
        assert(text.drop_first() =~= body.drop_first() + seq!['m'] + rest);
        assert(unterminated(body.drop_first())) by {
            assert forall|i: int| 0 <= i < body.drop_first().len() implies body.drop_first()[i]
                != 'm' by {
                assert(body.drop_first()[i] == body[i + 1]);
            }
        }
        lemma_strip_inside(body.drop_first(), rest);
    }
}

proof fn lemma_strip_sequence(code: Seq<char>, rest: Seq<char>)
    requires
        is_sequence(code),
    ensures
        strip_escapes(code + rest, false) == strip_escapes(rest, false),
{
    let body = code.subrange(1, code.len() - 1);
    let text = code + rest;
    assert(text[0] == ESCAPE);
    assert(text.drop_first() =~= body + seq!['m'] + rest);
    lemma_strip_inside(body, rest);
}

proof fn lemma_decimal_unterminated(n: nat)
    ensures
        unterminated(decimal(n)),
        decimal(n).len() >= 1,
    decreases n,
{
    if n >= 10 {
        lemma_decimal_unterminated(n / 10);
    }
}

proof fn lemma_channels_unterminated(c: Rgb8)
    ensures
        unterminated(channels(c)),
{
    lemma_decimal_unterminated(c.r as nat);
    lemma_decimal_unterminated(c.g as nat);
    lemma_decimal_unterminated(c.b as nat);
}

proof fn lemma_color_sequences(c: Rgb8)
    ensures
        is_sequence(set_foreground(c)),
        is_sequence(set_background(c)),
{
    lemma_channels_unterminated(c);
    let fg = set_foreground(c);
    let fg_body = fg.subrange(1, fg.len() - 1);
    assert(fg_body =~= seq!['[', '3', '8', ';', '2', ';'] + channels(c));
    let bg = set_background(c);
    let bg_body = bg.subrange(1, bg.len() - 1);
    assert(bg_body =~= seq!['[', '4', '8', ';', '2', ';'] + channels(c));
}

proof fn lemma_reset_sequences()
    ensures
        is_sequence(reset_foreground()),
        is_sequence(reset_background()),
        is_sequence(reset_all()),
{
    assert(reset_foreground().subrange(1, 4) =~= seq!['[', '3', '9']);
    assert(reset_background().subrange(1, 4) =~= seq!['[', '4', '9']);
    assert(reset_all().subrange(1, 3) =~= seq!['[', '0']);
}

proof fn lemma_strip_color_text(code: Seq<char>, rest: Seq<char>)
    requires
        code.len() == 0 || is_sequence(code),
    ensures
        strip_escapes(code + rest, false) == strip_escapes(rest, false),
{
    if code.len() == 0 {
        assert(code + rest =~= rest);
    } else {
        lemma_strip_sequence(code, rest);
    }
}

proof fn lemma_strip_cell(cells: Seq<RenderDecision>, i: int, compression: bool, rest: Seq<char>)
    requires
        0 <= i < cells.len(),
        cells[i].glyph != ESCAPE,
    ensures
        strip_escapes(cell_text(cells, i, compression) + rest, false) == seq![cells[i].glyph]
            + strip_escapes(rest, false),
{
    let fg = foreground_text(cells[i].fg, foreground_before(cells, i), compression);
    let bg = background_text(cells[i].bg, background_before(cells, i), compression);
    let tail = seq![cells[i].glyph] + rest;
    lemma_reset_sequences();
    if cells[i].fg is Some {
        lemma_color_sequences(cells[i].fg->0);
    }
    if cells[i].bg is Some {
        lemma_color_sequences(cells[i].bg->0);
    }
    assert(cell_text(cells, i, compression) + rest =~= fg + (bg + tail));
    lemma_strip_color_text(fg, bg + tail);
    lemma_strip_color_text(bg, tail);
    assert(tail.drop_first() =~= rest);
}

proof fn lemma_strip_cells(cells: Seq<RenderDecision>, n: int, compression: bool, rest: Seq<char>)
    requires
        0 <= n <= cells.len(),
        forall|i: int| 0 <= i < cells.len() ==> (#[trigger] cells[i]).glyph != ESCAPE,
    ensures
        strip_escapes(cells_text(cells, n, compression) + rest, false) == glyphs_of(cells).take(n)
            + strip_escapes(rest, false),
    decreases n,
{
    if n == 0 {
        assert(cells_text(cells, n, compression) + rest =~= rest);
        assert(glyphs_of(cells).take(n) + strip_escapes(rest, false) =~= strip_escapes(
            rest,
            false,
        ));
    } else {
        let cell = cell_text(cells, n - 1, compression);
        assert(cells_text(cells, n, compression) + rest =~= cells_text(cells, n - 1, compression)
            + (cell + rest));
        lemma_strip_cells(cells, n - 1, compression, cell + rest);
        lemma_strip_cell(cells, n - 1, compression, rest);
        assert(glyphs_of(cells).take(n) + strip_escapes(rest, false) =~= glyphs_of(cells).take(
            n - 1,
        ) + (seq![cells[n - 1].glyph] + strip_escapes(rest, false)));
    }
}

/// What a terminal shows of a rendered row is the glyphs of its cells, in
/// order and nothing else, provided that no glyph is the escape character
/// itself.
pub proof fn lemma_row_shows_glyphs(cells: Seq<RenderDecision>, compression: bool)
    requires
        forall|i: int| 0 <= i < cells.len() ==> (#[trigger] cells[i]).glyph != ESCAPE,
    ensures
        visible(row_text(cells, compression)) == glyphs_of(cells),
{
    lemma_strip_cells(cells, cells.len() as int, compression, reset_all());
    lemma_reset_sequences();
    lemma_strip_sequence(reset_all(), Seq::empty());
    assert(reset_all() + Seq::<char>::empty() =~= reset_all());
    assert(glyphs_of(cells).take(cells.len() as int) =~= glyphs_of(cells));
    assert(glyphs_of(cells) + Seq::<char>::empty() =~= glyphs_of(cells));
}

/// Compression changes which control sequences a line holds and nothing of
/// what it shows: with the sequences taken out, a row rendered with
/// compression equals the same row rendered without.
pub proof fn lemma_compression_keeps_glyphs(cells: Seq<RenderDecision>)
    requires
        forall|i: int| 0 <= i < cells.len() ==> (#[trigger] cells[i]).glyph != ESCAPE,
    ensures
        visible(row_text(cells, true)) == visible(row_text(cells, false)),
{
    lemma_row_shows_glyphs(cells, true);
    lemma_row_shows_glyphs(cells, false);
}

proof fn lemma_cells_never_lengthen(cells: Seq<RenderDecision>, n: int)
    requires
        0 <= n <= cells.len(),
    ensures
        cells_text(cells, n, true).len() <= cells_text(cells, n, false).len(),
    decreases n,
{
    if n > 0 {
        lemma_cells_never_lengthen(cells, n - 1);
    }
}

/// Compression never makes a line longer.
pub proof fn lemma_compression_never_lengthens(cells: Seq<RenderDecision>)
    ensures
        row_text(cells, true).len() <= row_text(cells, false).len(),
{
    lemma_cells_never_lengthen(cells, cells.len() as int);
}

/// Appends one character to a string. Wraps `String::push`, which puts the
/// character at the end and leaves the rest as it was.
#[verifier::external_body]
pub(crate) fn push_char(s: &mut String, c: char)
    ensures
        final(s)@ == old(s)@.push(c),
{
    s.push(c)
}

fn digit_of(d: u8) -> (c: char)
    requires
        d < 10,
    ensures
        c == digit_char(d as int),
{
    if d == 0 {
        '0'
    } else if d == 1 {
        '1'
    } else if d == 2 {
        '2'
    } else if d == 3 {
        '3'
    } else if d == 4 {
        '4'
    } else if d == 5 {
        '5'
    } else if d == 6 {
        '6'
    } else if d == 7 {
        '7'
    } else if d == 8 {
        '8'
    } else {
        '9'
    }
}

fn push_decimal(s: &mut String, n: u8)
    ensures
        final(s)@ == old(s)@ + decimal(n as nat),
{
    reveal_with_fuel(decimal, 3);
    if n >= 100 {
        push_char(s, digit_of(n / 100));
    }
    if n >= 10 {
        push_char(s, digit_of((n / 10) % 10));
    }
    push_char(s, digit_of(n % 10));
    assert(s@ =~= old(s)@ + decimal(n as nat));
}

fn push_channels(s: &mut String, c: Rgb8)
    ensures
        final(s)@ == old(s)@ + channels(c),
{
    push_decimal(s, c.r);
    push_char(s, ';');
    push_decimal(s, c.g);
    push_char(s, ';');
    push_decimal(s, c.b);
    assert(s@ =~= old(s)@ + channels(c));
}

fn push_foreground(s: &mut String, fg: Option<Rgb8>)
    ensures
        final(s)@ == old(s)@ + foreground_text(fg, None, false),
{
    match fg {
        Some(c) => {
            proof {
                reveal_strlit("\x1b[38;2;");
            }
            s.append("\x1b[38;2;");
            push_channels(s, c);
            push_char(s, 'm');
            assert(s@ =~= old(s)@ + set_foreground(c));
        },
        None => {
            proof {
                reveal_strlit("\x1b[39m");
            }
            s.append("\x1b[39m");
            assert(s@ =~= old(s)@ + reset_foreground());
        },
    }
}

fn push_background(s: &mut String, bg: Option<Rgb8>)
    ensures
        final(s)@ == old(s)@ + background_text(bg, None, false),
{
    match bg {
        Some(c) => {
            proof {
                reveal_strlit("\x1b[48;2;");
            }
            s.append("\x1b[48;2;");
            push_channels(s, c);
            push_char(s, 'm');
            assert(s@ =~= old(s)@ + set_background(c));
        },
        None => {
            proof {
                reveal_strlit("\x1b[49m");
            }
            s.append("\x1b[49m");
            assert(s@ =~= old(s)@ + reset_background());
        },
    }
}

/// Renders the cells of one row, left to right, as a line of text that ends
/// with a full reset.
///
/// Without `compression` every cell carries both of its color sequences.
/// With it a sequence is written only where the color differs from that of
/// the cell before; the first cell counts as following one without colors.
pub fn process_row(cells: &[RenderDecision], compression: bool) -> (line: String)
    ensures
        line@ == row_text(cells@, compression),
{
    let mut line = String::new();
    let mut last_fg: Option<Rgb8> = None;
    let mut last_bg: Option<Rgb8> = None;
    let mut i: usize = 0;
    while i < cells.len()
        invariant
            i <= cells.len(),
            line@ == cells_text(cells@, i as int, compression),
            last_fg == foreground_before(cells@, i as int),
            last_bg == background_before(cells@, i as int),
        decreases cells.len() - i,
    {
        let cell = cells[i];
        let ghost before = line@;
        if cell.fg != last_fg || !compression {
            push_foreground(&mut line, cell.fg);
            last_fg = cell.fg;
        }
        if cell.bg != last_bg || !compression {
            push_background(&mut line, cell.bg);
            last_bg = cell.bg;
        }
        push_char(&mut line, cell.glyph);
        assert(line@ =~= before + cell_text(cells@, i as int, compression));
        i = i + 1;
    }
    proof {
        reveal_strlit("\x1b[0m");
    }
    line.append("\x1b[0m");
    assert(line@ =~= row_text(cells@, compression));
    line
}

} // verus!
