//! The block selector: from the four colors of a block to a glyph and its
//! colors.
//!
//! Brightness ramps pick the glyph by how bright the block is; block
//! elements pick it by how well each template reproduces the block.
//! Brightness is a fixed-point number with `LUV_ONE` standing for 1.

use vstd::prelude::*;
use vstd::arithmetic::div_mod::{lemma_div_is_ordered, lemma_fundamental_div_mod, lemma_mod_bound};
use crate::color::{
    average, average_color, black, darkest, dist, dist_sq, find_lightest_darkest, lightest,
    luv_distance, luv_distance_sq, Luv, LUV_ONE,
};
use crate::glyphs::{
    candidates, glyph_pattern, pattern_of, resolve_role, role_color, unicode_candidates,
    Candidate, FULL_BLOCK,
};
use crate::matcher::{closest, closest_pair, find_closest, find_closest_pair};
use crate::minimum::{first_min, is_first_min, lemma_first_min_is};
use crate::image::LuvImage;
use crate::settings::{CharacterMode, ColorMode, Settings, UnicodeCharSet};

verus! {

/// What the selector settles on for one block.
#[derive(Clone, Copy, Debug, PartialEq, Eq, Structural)]
pub struct Selection {
    /// The glyph of the cell.
    pub glyph: char,
    /// The foreground color.
    pub fg: Luv,
    /// The background color, where the cell has one.
    pub bg: Option<Luv>,
}

/// The palette that colors are snapped to, if any, as a sequence.
pub open spec fn palette_view(palette: Option<&Vec<Luv>>) -> Option<Seq<Luv>> {
    match palette {
        Some(p) => Some(p@),
        None => None,
    }
}

/// A color after snapping: the nearest palette entry, or the color itself
/// where there is no palette.
pub open spec fn snap(color: Luv, palette: Option<Seq<Luv>>) -> Luv {
    match palette {
        Some(p) => closest(color, p),
        None => color,
    }
}

/// A candidate after snapping: each of its colors goes to its own nearest
/// palette entry, since what matters under a block element is where a color
/// sits, not how the two contrast.
pub open spec fn snap_candidate(candidate: Candidate, palette: Option<Seq<Luv>>) -> Candidate {
    match palette {
        Some(p) => {
            let pair = closest_pair(candidate.fg, candidate.bg, p, false);
            Candidate { glyph: candidate.glyph, fg: pair.0, bg: pair.1 }
        },
        None => candidate,
    }
}

/// How far a glyph drawn in `fg` and `bg` is from the block: the sum over the
/// four sub-pixels of the squared distance between the color of the block
/// and the color that the glyph shows there.
pub open spec fn block_error(block: Seq<Luv>, fg: Luv, bg: Luv, glyph: char) -> int {
    let p = pattern_of(glyph);
    dist_sq(block[0], role_color(p.top_left, fg, bg))
        + dist_sq(block[1], role_color(p.top_right, fg, bg))
        + dist_sq(block[2], role_color(p.bottom_left, fg, bg))
        + dist_sq(block[3], role_color(p.bottom_right, fg, bg))
}

/// The error of every candidate once snapped, in catalog order.
pub open spec fn candidate_errors(
    colors: Seq<Luv>,
    list: Seq<Candidate>,
    palette: Option<Seq<Luv>>,
) -> Seq<int> {
    Seq::new(
        list.len(),
        |i: int|
            {
                let c = snap_candidate(list[i], palette);
                block_error(colors, c.fg, c.bg, c.glyph)
            },
    )
}

/// The cell that stands for a block under a family of block elements.
///
/// The full block always wins its own family, in the snapped mean of the
/// block and without a background. In every other family the snapped
/// candidate of the least error wins, the first of several equally good; its
/// background is kept only where cells have two colors.
pub open spec fn unicode_selection(
    colors: Seq<Luv>,
    charset: UnicodeCharSet,
    color_mode: ColorMode,
    palette: Option<Seq<Luv>>,
) -> Selection {
    if charset == UnicodeCharSet::Full {
        Selection { glyph: FULL_BLOCK, fg: snap(average(colors), palette), bg: None }
    } else {
        let list = candidates(colors, charset);
        let best = snap_candidate(
            list[first_min(candidate_errors(colors, list, palette), None)],
            palette,
        );
        Selection {
            glyph: best.glyph,
            fg: best.fg,
            bg: if color_mode == ColorMode::TwoColor {
                Some(best.bg)
            } else {
                None
            },
        }
    }
}

/// The position in a ramp of `len` characters that a brightness maps to:
/// brightness times the last position, rounded to the nearest position and
/// kept inside the ramp.
pub open spec fn brightness_index(brightness: int, len: int) -> int {
    let rounded = (2 * (brightness * (len - 1)) + LUV_ONE) / (2 * LUV_ONE);
    if rounded < 0 {
        0
    } else if rounded > len - 1 {
        len - 1
    } else {
        rounded
    }
}

/// The brightness of a foreground-only cell: one minus a hundredth of the
/// distance of its color from black, and never below zero.
pub open spec fn solo_brightness(color: Luv) -> int {
    let d = dist(color, black()) / 100;
    if d >= LUV_ONE {
        0
    } else {
        LUV_ONE - d
    }
}

/// The brightness of a two-color cell: how far the mean of the block is from
/// its darkest color, as a fraction of the distance between its lightest and
/// its darkest color and at most one; zero for a block without contrast.
pub open spec fn contrast_brightness(colors: Seq<Luv>) -> int {
    let total = dist(lightest(colors), darkest(colors));
    let part = dist(average(colors), darkest(colors));
    if total == 0 {
        0
    } else if part >= total {
        LUV_ONE as int
    } else {
        part * LUV_ONE / (total as int)
    }
}

/// The cell that stands for a block under a brightness ramp.
///
/// With two colors per cell the lightest and the darkest color of the block
/// are snapped to two distinct palette entries, brighter first, and the
/// glyph follows the contrast brightness. With one color the snapped mean of
/// the block is the foreground and the glyph follows its brightness.
pub open spec fn ascii_selection(
    colors: Seq<Luv>,
    char_set: Seq<char>,
    color_mode: ColorMode,
    palette: Option<Seq<Luv>>,
) -> Selection {
    if color_mode == ColorMode::TwoColor {
        let raw = (lightest(colors), darkest(colors));
        let pair = match palette {
            Some(p) => closest_pair(raw.0, raw.1, p, true),
            None => raw,
        };
        Selection {
            glyph: char_set[brightness_index(contrast_brightness(colors), char_set.len() as int)],
            fg: pair.0,
            bg: Some(pair.1),
        }
    } else {
        let fg = snap(average(colors), palette);
        Selection {
            glyph: char_set[brightness_index(solo_brightness(fg), char_set.len() as int)],
            fg,
            bg: None,
        }
    }
}

/// The ramp position is inside the ramp, and the ends of the brightness
/// scale map to the ends of the ramp: zero and everything below it to the
/// first position, one and everything above it to the last.
pub proof fn lemma_brightness_index_clamped(brightness: int, len: int)
    requires
        len >= 1,
    ensures
        0 <= brightness_index(brightness, len) <= len - 1,
        brightness <= 0 ==> brightness_index(brightness, len) == 0,
        brightness >= LUV_ONE ==> brightness_index(brightness, len) == len - 1,
{
    let x = brightness * (len - 1);
    assert(2 * LUV_ONE == 131072);
    assert(brightness_index(brightness, len) == {
        let rounded = (2 * x + 65536) / 131072;
        if rounded < 0 {
            0
        } else if rounded > len - 1 {
            len - 1
        } else {
            rounded
        }
    });
    if brightness <= 0 {
        assert(x <= 0) by (nonlinear_arith)
            requires
                x == brightness * (len - 1),
                brightness <= 0,
                len >= 1,
        ;
    }
    if brightness >= LUV_ONE {
        assert(x >= 65536 * (len - 1)) by (nonlinear_arith)
            requires
                x == brightness * (len - 1),
                brightness >= 65536,
                len >= 1,
        ;
    }
}

/// A brighter block never maps to an earlier position of the ramp.
pub proof fn lemma_brightness_index_monotonic(low: int, high: int, len: int)
    requires
        len >= 1,
        low <= high,
    ensures
        brightness_index(low, len) <= brightness_index(high, len),
{
    let x = low * (len - 1);
    let y = high * (len - 1);
    assert(x <= y) by (nonlinear_arith)
        requires
            x == low * (len - 1),
            y == high * (len - 1),
            low <= high,
            len >= 1,
    ;
    assert(2 * LUV_ONE == 131072);
    lemma_div_is_ordered(2 * x + 65536, 2 * y + 65536, 131072);
}

/// Maps a brightness to a position in a ramp of `char_set_len` characters.
pub fn brightness_to_char_index(brightness: i64, char_set_len: usize) -> (index: usize)
    requires
        char_set_len >= 1,
    ensures
        index == brightness_index(brightness as int, char_set_len as int),
        index < char_set_len,
{
    proof {
        lemma_brightness_index_clamped(brightness as int, char_set_len as int);
    }
    if brightness <= 0 {
        0
    } else if brightness >= LUV_ONE as i64 {
        char_set_len - 1
    } else {
        let last: u128 = (char_set_len - 1) as u128;
        let b: u128 = brightness as u128;
        assert(0 <= b * last <= 65535 * last) by (nonlinear_arith)
            requires
                0 <= b <= 65535,
                0 <= last,
        ;
        assert(2 * LUV_ONE == 131072);
        assert(b * last == brightness * (char_set_len - 1));
        let rounded: u128 = (2 * (b * last) + 65536) / 131072;
        rounded as usize
    }
}

/// Scores a glyph drawn in `fg` and `bg` against the block: the sum of the
/// squared distances between the four colors of the block and what the glyph
/// shows in their places.
pub fn calculate_block_distance(
    block: &[Luv; 4],
    fg: Luv,
    bg: Luv,
    character: char,
) -> (error: u128)
    ensures
        error == block_error(block@, fg, bg, character),
{
    let p = glyph_pattern(character);
    let d1 = luv_distance_sq(block[0], resolve_role(p.top_left, fg, bg));
    let d2 = luv_distance_sq(block[1], resolve_role(p.top_right, fg, bg));
    let d3 = luv_distance_sq(block[2], resolve_role(p.bottom_left, fg, bg));
    let d4 = luv_distance_sq(block[3], resolve_role(p.bottom_right, fg, bg));
    d1 + d2 + d3 + d4
}

fn snap_color(color: Luv, palette: Option<&Vec<Luv>>) -> (c: Luv)
    ensures
        c == snap(color, palette_view(palette)),
{
    match palette {
        Some(p) => find_closest(color, p),
        None => color,
    }
}

fn snap_one_candidate(candidate: Candidate, palette: Option<&Vec<Luv>>) -> (c: Candidate)
    ensures
        c == snap_candidate(candidate, palette_view(palette)),
{
    match palette {
        Some(p) => {
            let pair = find_closest_pair(candidate.fg, candidate.bg, p, false);
            Candidate { glyph: candidate.glyph, fg: pair.0, bg: pair.1 }
        },
        None => candidate,
    }
}

/// Picks the block element and the colors for one block.
pub fn process_unicode(
    colors: &[Luv; 4],
    charset: UnicodeCharSet,
    color_mode: ColorMode,
    palette: Option<&Vec<Luv>>,
) -> (cell: Selection)
    ensures
        cell == unicode_selection(colors@, charset, color_mode, palette_view(palette)),
{
    if charset == UnicodeCharSet::Full {
        let mean = average_color(colors);
        return Selection { glyph: FULL_BLOCK, fg: snap_color(mean, palette), bg: None };
    }
    let list = unicode_candidates(colors, charset);
    let ghost errors = candidate_errors(colors@, list@, palette_view(palette));
    let mut best = snap_one_candidate(list[0], palette);
    let mut least = calculate_block_distance(colors, best.fg, best.bg, best.glyph);
    let ghost mut at: int = 0;
    let mut i: usize = 1;
    while i < list.len()
        invariant
            1 <= i <= list.len(),
            errors == candidate_errors(colors@, list@, palette_view(palette)),
            is_first_min(errors.take(i as int), None, at),
            best == snap_candidate(list@[at], palette_view(palette)),
            least == errors[at],
        decreases list.len() - i,
    {
        let c = snap_one_candidate(list[i], palette);
        let d = calculate_block_distance(colors, c.fg, c.bg, c.glyph);
        if d < least {
            best = c;
            least = d;
            proof {
                at = i as int;
            }
        }
        i = i + 1;
    }
    proof {
        assert(errors.take(i as int) == errors);
        lemma_first_min_is(errors, None, at);
    }
    Selection {
        glyph: best.glyph,
        fg: best.fg,
        bg: if color_mode == ColorMode::TwoColor {
            Some(best.bg)
        } else {
            None
        },
    }
}

fn brightness_of_contrast(colors: &[Luv; 4], hi: Luv, lo: Luv) -> (brightness: i64)
    requires
        hi == lightest(colors@),
        lo == darkest(colors@),
    ensures
        brightness == contrast_brightness(colors@),
{
    let mean = average_color(colors);
    let total = luv_distance(hi, lo);
    let part = luv_distance(mean, lo);
    if total == 0 {
        0
    } else if part >= total {
        LUV_ONE as i64
    } else {
        let scaled: u128 = part as u128 * 65536;
        let q: u128 = scaled / (total as u128);
        proof {
            lemma_fundamental_div_mod(scaled as int, total as int);
            lemma_mod_bound(scaled as int, total as int);
            assert(q < 65536) by (nonlinear_arith)
                requires
                    scaled == part * 65536,
                    part < total,
                    scaled == total * q + (scaled as int) % (total as int),
                    0 <= (scaled as int) % (total as int),
                    total > 0,
            ;
        }
        q as i64
    }
}

fn brightness_of_color(color: Luv) -> (brightness: i64)
    ensures
        brightness == solo_brightness(color),
{
    let d: u64 = luv_distance(color, Luv::black()) / 100;
    if d >= 65536 {
        0
    } else {
        65536 - d as i64
    }
}

/// Picks the ramp character and the colors for one block.
pub fn process_ascii(
    colors: &[Luv; 4],
    char_set: &[char],
    color_mode: ColorMode,
    palette: Option<&Vec<Luv>>,
) -> (cell: Selection)
    requires
        char_set@.len() >= 1,
    ensures
        cell == ascii_selection(colors@, char_set@, color_mode, palette_view(palette)),
{
    if color_mode == ColorMode::TwoColor {
        let (hi, lo) = find_lightest_darkest(colors);
        let pair = match palette {
            Some(p) => find_closest_pair(hi, lo, p, true),
            None => (hi, lo),
        };
        let brightness = brightness_of_contrast(colors, hi, lo);
        let index = brightness_to_char_index(brightness, char_set.len());
        Selection { glyph: char_set[index], fg: pair.0, bg: Some(pair.1) }
    } else {
        let mean = average_color(colors);
        let fg = snap_color(mean, palette);
        let brightness = brightness_of_color(fg);
        let index = brightness_to_char_index(brightness, char_set.len());
        Selection { glyph: char_set[index], fg, bg: None }
    }
}

/// The palette that the settings put in force: none in truecolor, else the
/// given one.
pub open spec fn palette_in_force(settings: &Settings, palette: Seq<Luv>) -> Option<Seq<Luv>> {
    if settings.colors.is_truecolor {
        None
    } else {
        Some(palette)
    }
}

/// The cell that the settings make of a block: a block element or a ramp
/// character, by the character mode.
pub open spec fn cell_selection(colors: Seq<Luv>, settings: &Settings, palette: Seq<Luv>) -> Selection {
    let in_force = palette_in_force(settings, palette);
    let color_mode = settings.characters.color_mode;
    match settings.characters.mode {
        CharacterMode::Unicode(charset) => unicode_selection(colors, charset, color_mode, in_force),
        CharacterMode::Ascii(charset) => ascii_selection(
            colors,
            charset.ramp(),
            color_mode,
            in_force,
        ),
        CharacterMode::Custom(chars) => ascii_selection(colors, chars@, color_mode, in_force),
    }
}

/// The cells of row `y_char` of the character grid, left to right.
pub open spec fn row_selection(
    img: &LuvImage,
    y_char: int,
    width_char: int,
    settings: &Settings,
    palette: Seq<Luv>,
) -> Seq<Selection> {
    Seq::new(
        width_char as nat,
        |x: int| cell_selection(img.block(x, y_char), settings, palette),
    )
}

/// Selects the cells of one row of the character grid.
///
/// `palette` holds the colors of the palette of the settings in perceptual
/// space; it is read only where the settings are not truecolor. The image
/// must hold the 2x2 blocks of the row, and a custom ramp must not be empty.
pub fn select_row(
    y_char: usize,
    width_char: usize,
    img: &LuvImage,
    settings: &Settings,
    palette: &Vec<Luv>,
) -> (row: Vec<Selection>)
    requires
        2 * width_char <= img.spec_width(),
        2 * y_char + 1 < img.spec_height(),
        settings.characters.mode matches CharacterMode::Custom(chars) ==> chars@.len() > 0,
    ensures
        row@ == row_selection(img, y_char as int, width_char as int, settings, palette@),
{
    let in_force = if settings.colors.is_truecolor {
        None
    } else {
        Some(palette)
    };
    let built_in: Vec<char> = match &settings.characters.mode {
        CharacterMode::Ascii(charset) => charset.as_slice(),
        _ => Vec::new(),
    };
    let mut row: Vec<Selection> = Vec::new();
    let mut x_char: usize = 0;
    while x_char < width_char
        invariant
            x_char <= width_char,
            settings.characters.mode matches CharacterMode::Ascii(charset) ==> built_in@
                == charset.ramp() && built_in@.len() > 0,
            2 * width_char <= img.spec_width(),
            2 * y_char + 1 < img.spec_height(),
            settings.characters.mode matches CharacterMode::Custom(chars) ==> chars@.len() > 0,
            palette_view(in_force) == palette_in_force(settings, palette@),
            row@.len() == x_char,
            forall|x: int|
                0 <= x < x_char ==> row@[x] == cell_selection(
                    img.block(x, y_char as int),
                    settings,
                    palette@,
                ),
        decreases width_char - x_char,
    {
        let colors = img.get_block(x_char, y_char);
        let cell = match &settings.characters.mode {
            CharacterMode::Unicode(charset) => process_unicode(
                &colors,
                *charset,
                settings.characters.color_mode,
                in_force,
            ),
            CharacterMode::Ascii(_) => process_ascii(
                &colors,
                built_in.as_slice(),
                settings.characters.color_mode,
                in_force,
            ),
            CharacterMode::Custom(chars) => process_ascii(
                &colors,
                chars.as_slice(),
                settings.characters.color_mode,
                in_force,
            ),
        };
        row.push(cell);
        x_char = x_char + 1;
    }
    assert(row@ =~= row_selection(img, y_char as int, width_char as int, settings, palette@));
    row
}

} // verus!
