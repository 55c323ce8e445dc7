//! A whole conversion: the checks before any pixel is read, the rows one
//! after another, and the lines joined into one text.

use vstd::prelude::*;
use vstd::string::StringExecFns;
use crate::color::{Luv, Rgb8};
use crate::error::{AnsiImageError, Result};
use crate::image::LuvImage;
use crate::processing::{row_selection, select_row, Selection};
use crate::render::{process_row, push_char, row_text, RenderDecision};
use crate::resize::{resize_image, rgb_len};
use crate::settings::{CharacterMode, ResizeFilter, Settings};

verus! {

/// Whether the palette that non-truecolor output needs is missing.
pub open spec fn lacks_palette(settings: &Settings) -> bool {
    !settings.colors.is_truecolor && settings.colors.palette@.len() == 0
}

/// Whether the settings ask for a custom ramp and give no character.
pub open spec fn lacks_characters(settings: &Settings) -> bool {
    settings.characters.mode matches CharacterMode::Custom(chars) && chars@.len() == 0
}

/// The answer to a set of settings: accepted, or refused for the first of
/// the two faults that it has, the missing palette before the empty ramp.
pub open spec fn settings_verdict(settings: &Settings, r: Result<()>) -> bool {
    if lacks_palette(settings) {
        r matches Err(AnsiImageError::InvalidSettings(m)) && m@
            == "A color palette must be selected when not in truecolor mode."@
    } else if lacks_characters(settings) {
        r matches Err(AnsiImageError::InvalidSettings(m)) && m@
            == "Custom character mode requires at least one character."@
    } else {
        r is Ok
    }
}

/// Checks the settings before any pixel is read.
pub fn validate_settings(settings: &Settings) -> (r: Result<()>)
    ensures
        settings_verdict(settings, r),
        r is Ok <==> settings.is_valid(),
{
    if !settings.colors.is_truecolor && settings.colors.palette.len() == 0 {
        return Err(
            AnsiImageError::InvalidSettings(
                String::from_str("A color palette must be selected when not in truecolor mode."),
            ),
        );
    }
    if let CharacterMode::Custom(chars) = &settings.characters.mode {
        if chars.len() == 0 {
            return Err(
                AnsiImageError::InvalidSettings(
                    String::from_str("Custom character mode requires at least one character."),
                ),
            );
        }
    }
    Ok(())
}

/// The size in pixels of the buffer behind a grid of `width_char` by
/// `height_char` cells, two pixels to the cell each way; none where a side
/// does not fit in 32 bits.
pub fn target_size(width_char: usize, height_char: usize) -> (size: Option<(u32, u32)>)
    ensures
        size is Some <==> 2 * width_char <= u32::MAX && 2 * height_char <= u32::MAX,
        size matches Some(s) ==> s.0 == 2 * width_char && s.1 == 2 * height_char,
{
    if width_char <= 0x7fff_ffff && height_char <= 0x7fff_ffff {
        Some(((width_char * 2) as u32, (height_char * 2) as u32))
    } else {
        None
    }
}

/// Resizes an RGB image of `width` by `height` pixels to the buffer behind a
/// grid of `width_char` by `height_char` cells.
///
/// Succeeds only with a buffer of three bytes for each of the two by two
/// pixels of every cell. Fails with a processing error where the grid is too
/// large, where `pixels` is too short for the source size, and where the
/// resampler refuses.
pub fn resize_to_grid(
    pixels: Vec<u8>,
    width: u32,
    height: u32,
    width_char: usize,
    height_char: usize,
    filter: ResizeFilter,
) -> (r: Result<Vec<u8>>)
    ensures
        r matches Ok(out) ==> out@.len() == rgb_len(2 * width_char, 2 * height_char),
        r matches Err(e) ==> e is Processing,
        2 * width_char > u32::MAX || 2 * height_char > u32::MAX ==> r is Err,
        pixels@.len() < rgb_len(width as int, height as int) ==> r is Err,
{
    match target_size(width_char, height_char) {
        Some((target_width, target_height)) => resize_image(
            pixels,
            width,
            height,
            target_width,
            target_height,
            filter,
        ),
        None => Err(
            AnsiImageError::Processing(
                String::from_str("The character grid is too large to resize to."),
            ),
        ),
    }
}

/// Whether the image is exactly the buffer behind a grid of `width_char` by
/// `height_char` cells.
pub open spec fn matches_grid(img: &LuvImage, width_char: int, height_char: int) -> bool {
    img.spec_width() == 2 * width_char && img.spec_height() == 2 * height_char
}

/// Checks that the image is twice the grid each way.
pub fn check_dimensions(img: &LuvImage, width_char: usize, height_char: usize) -> (r: Result<()>)
    ensures
        r is Ok <==> matches_grid(img, width_char as int, height_char as int),
        r matches Err(e) ==> e matches AnsiImageError::Processing(m) && m@
            == "The pixel buffer is not twice the character grid in each dimension."@,
{
    let w = img.width();
    let h = img.height();
    if w % 2 == 0 && h % 2 == 0 && w / 2 == width_char && h / 2 == height_char {
        Ok(())
    } else {
        Err(
            AnsiImageError::Processing(
                String::from_str(
                    "The pixel buffer is not twice the character grid in each dimension.",
                ),
            ),
        )
    }
}

/// Selects the cells of the whole grid, row by row.
///
/// Fails on invalid settings, and then on an image that is not twice the
/// grid each way, before any pixel is read.
pub fn select_grid(
    img: &LuvImage,
    width_char: usize,
    height_char: usize,
    settings: &Settings,
    palette: &Vec<Luv>,
) -> (r: Result<Vec<Vec<Selection>>>)
    ensures
        r is Ok <==> settings.is_valid() && matches_grid(
            img,
            width_char as int,
            height_char as int,
        ),
        r matches Ok(grid) ==> grid@.len() == height_char && forall|y: int|
            0 <= y < height_char ==> (#[trigger] grid@[y])@ == row_selection(
                img,
                y,
                width_char as int,
                settings,
                palette@,
            ),
        r matches Err(e) ==> if settings.is_valid() {
            e is Processing
        } else {
            settings_verdict(settings, Err(e))
        },
{
    match validate_settings(settings) {
        Err(e) => {
            return Err(e);
        },
        Ok(_) => {},
    }
    match check_dimensions(img, width_char, height_char) {
        Err(e) => {
            return Err(e);
        },
        Ok(_) => {},
    }
    let mut grid: Vec<Vec<Selection>> = Vec::new();
    let mut y: usize = 0;
    while y < height_char
        invariant
            y <= height_char,
            settings.is_valid(),
            matches_grid(img, width_char as int, height_char as int),
            grid@.len() == y,
            forall|k: int|
                0 <= k < y ==> (#[trigger] grid@[k])@ == row_selection(
                    img,
                    k,
                    width_char as int,
                    settings,
                    palette@,
                ),
        decreases height_char - y,
    {
        let row = select_row(y, width_char, img, settings, palette);
        grid.push(row);
        y = y + 1;
    }
    Ok(grid)
}

/// The first `n` lines, each but the first preceded by a line feed.
pub open spec fn joined(lines: Seq<Seq<char>>, n: int) -> Seq<char>
    decreases n,
{
    if n <= 0 {
        Seq::empty()
    } else if n == 1 {
        lines[0]
    } else {
        joined(lines, n - 1) + seq!['\n'] + lines[n - 1]
    }
}

/// The text of each line.
pub open spec fn line_views(rows: Seq<String>) -> Seq<Seq<char>> {
    Seq::new(rows.len(), |i: int| rows[i]@)
}

/// The line of each row of a grid of cells.
pub open spec fn grid_lines(grid: Seq<Vec<RenderDecision>>, compression: bool) -> Seq<Seq<char>> {
    Seq::new(grid.len(), |y: int| row_text(grid[y]@, compression))
}

/// Joins the lines in order, with one line feed between two lines and none
/// after the last.
pub fn join_rows(rows: &Vec<String>) -> (text: String)
    ensures
        text@ == joined(line_views(rows@), rows@.len() as int),
{
    let mut text = String::new();
    let mut i: usize = 0;
    while i < rows.len()
        invariant
            i <= rows.len(),
            text@ == joined(line_views(rows@), i as int),
        decreases rows.len() - i,
    {
        if i > 0 {
            push_char(&mut text, '\n');
        }
        text.append(rows[i].as_str());
        i = i + 1;
    }
    text
}

/// Renders the whole grid: every row as a line, the lines joined by line
/// feeds.
pub fn render_grid(grid: &Vec<Vec<RenderDecision>>, compression: bool) -> (text: String)
    ensures
        text@ == joined(grid_lines(grid@, compression), grid@.len() as int),
{
    let mut text = String::new();
    let mut y: usize = 0;
    while y < grid.len()
        invariant
            y <= grid.len(),
            text@ == joined(grid_lines(grid@, compression), y as int),
        decreases grid.len() - y,
    {
        if y > 0 {
            push_char(&mut text, '\n');
        }
        let line = process_row(grid[y].as_slice(), compression);
        text.append(line.as_str());
        y = y + 1;
    }
    text
}

/// The bytes of an indexed image once every index is replaced by the red,
/// green and blue of its palette entry.
pub open spec fn expanded(palette: Seq<Rgb8>, indices: Seq<u8>) -> Seq<u8>
    decreases indices.len(),
{
    if indices.len() == 0 {
        Seq::empty()
    } else {
        let c = palette[indices.last() as int];
        expanded(palette, indices.drop_last()) + seq![c.r, c.g, c.b]
    }
}

/// Expands an indexed image into RGB bytes; none where an index points
/// outside the palette.
pub fn expand_indexed(palette: &Vec<Rgb8>, indices: &Vec<u8>) -> (bytes: Option<Vec<u8>>)
    ensures
        bytes is Some <==> forall|i: int|
            0 <= i < indices@.len() ==> (#[trigger] indices@[i]) < palette@.len(),
        bytes matches Some(b) ==> b@ == expanded(palette@, indices@),
{
    let mut bytes: Vec<u8> = Vec::new();
    let mut i: usize = 0;
    while i < indices.len()
        invariant
            i <= indices.len(),
            forall|k: int| 0 <= k < i ==> (#[trigger] indices@[k]) < palette@.len(),
            bytes@ == expanded(palette@, indices@.take(i as int)),
        decreases indices.len() - i,
    {
        let index = indices[i] as usize;
        if index >= palette.len() {
            return None;
        }
        let c = palette[index];
        bytes.push(c.r);
        bytes.push(c.g);
        bytes.push(c.b);
        proof {
            assert(indices@.take(i + 1).drop_last() =~= indices@.take(i as int));
            assert(bytes@ =~= expanded(palette@, indices@.take(i as int)) + seq![c.r, c.g, c.b]);
        }
        i = i + 1;
    }
    assert(indices@.take(i as int) =~= indices@);
    Some(bytes)
}

} // verus!
