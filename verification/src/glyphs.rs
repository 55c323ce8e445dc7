//! The glyph templates.
//!
//! A template is a glyph together with the role that each of the four
//! sub-pixels of a cell plays under it: foreground, background, or a blend of
//! the two for the shades. A family of block elements offers a fixed list of
//! candidates, each with the colors that would suit a given block best.

use vstd::prelude::*;
use crate::color::{average, average_color, black, blend, blended, Luv, Share};
use crate::settings::UnicodeCharSet;

verus! {

/// The full block.
pub const FULL_BLOCK: char = '█';

/// The upper half block.
pub const UPPER_HALF: char = '▀';

/// The right half block.
pub const RIGHT_HALF: char = '▐';

/// The upper right and lower left quadrants.
pub const DIAGONAL: char = '▞';

/// The lower left quadrant.
pub const LOWER_LEFT: char = '▖';

/// The upper left quadrant.
pub const UPPER_LEFT: char = '▘';

/// The upper right quadrant.
pub const UPPER_RIGHT: char = '▝';

/// The lower right quadrant.
pub const LOWER_RIGHT: char = '▗';

/// The light shade, a quarter foreground.
pub const LIGHT_SHADE: char = '░';

/// The medium shade, half foreground.
pub const MEDIUM_SHADE: char = '▒';

/// The dark shade, three quarters foreground.
pub const DARK_SHADE: char = '▓';

/// The blank cell, all background.
pub const BLANK: char = ' ';

/// What a sub-pixel shows under a glyph.
#[derive(Clone, Copy, Debug, PartialEq, Eq, Structural)]
pub enum Role {
    /// The foreground color.
    Foreground,
    /// The background color.
    Background,
    /// A blend with the given share of foreground.
    Blend(Share),
}

/// The roles of the four sub-pixels of a cell, row by row.
#[derive(Clone, Copy, Debug, PartialEq, Eq, Structural)]
pub struct Pattern {
    /// The upper left sub-pixel.
    pub top_left: Role,
    /// The upper right sub-pixel.
    pub top_right: Role,
    /// The lower left sub-pixel.
    pub bottom_left: Role,
    /// The lower right sub-pixel.
    pub bottom_right: Role,
}

/// A glyph with the colors that it would be drawn in.
#[derive(Clone, Copy, Debug, PartialEq, Eq, Structural)]
pub struct Candidate {
    /// The glyph.
    pub glyph: char,
    /// Its foreground color.
    pub fg: Luv,
    /// Its background color.
    pub bg: Luv,
}

/// The same role in all four places.
pub open spec fn uniform(role: Role) -> Pattern {
    Pattern { top_left: role, top_right: role, bottom_left: role, bottom_right: role }
}

/// The pattern that a glyph draws. A glyph outside the catalog draws
/// background only, as the blank does.
pub open spec fn pattern_of(glyph: char) -> Pattern {
    let f = Role::Foreground;
    let b = Role::Background;
    if glyph == UPPER_HALF {
        Pattern { top_left: f, top_right: f, bottom_left: b, bottom_right: b }
    } else if glyph == RIGHT_HALF {
        Pattern { top_left: b, top_right: f, bottom_left: b, bottom_right: f }
    } else if glyph == DIAGONAL {
        Pattern { top_left: b, top_right: f, bottom_left: f, bottom_right: b }
    } else if glyph == LOWER_LEFT {
        Pattern { top_left: b, top_right: b, bottom_left: f, bottom_right: b }
    } else if glyph == UPPER_LEFT {
        Pattern { top_left: f, top_right: b, bottom_left: b, bottom_right: b }
    } else if glyph == UPPER_RIGHT {
        Pattern { top_left: b, top_right: f, bottom_left: b, bottom_right: b }
    } else if glyph == LOWER_RIGHT {
        Pattern { top_left: b, top_right: b, bottom_left: b, bottom_right: f }
    } else if glyph == FULL_BLOCK {
        uniform(f)
    } else if glyph == LIGHT_SHADE {
        uniform(Role::Blend(Share::Quarter))
    } else if glyph == MEDIUM_SHADE {
        uniform(Role::Blend(Share::Half))
    } else if glyph == DARK_SHADE {
        uniform(Role::Blend(Share::ThreeQuarters))
    } else {
        uniform(b)
    }
}

/// The color that a sub-pixel of the given role shows.
pub open spec fn role_color(role: Role, fg: Luv, bg: Luv) -> Luv {
    match role {
        Role::Foreground => fg,
        Role::Background => bg,
        Role::Blend(share) => blended(fg, bg, share),
    }
}

/// The candidates of a family for a block of four colors, in catalog order,
/// each with the colors that fit the block best before any palette is
/// applied: the mean of the sub-pixels that the glyph covers as foreground,
/// and the mean of the others as background.
pub open spec fn candidates(colors: Seq<Luv>, charset: UnicodeCharSet) -> Seq<Candidate> {
    let c = colors;
    let all = average(colors);
    match charset {
        UnicodeCharSet::Full => seq![Candidate { glyph: FULL_BLOCK, fg: all, bg: black() }],
        UnicodeCharSet::Half => seq![
            Candidate { glyph: UPPER_HALF, fg: average(seq![c[0], c[1]]), bg: average(seq![c[2], c[3]]) },
        ],
        UnicodeCharSet::Quarter => seq![
            Candidate { glyph: UPPER_HALF, fg: average(seq![c[0], c[1]]), bg: average(seq![c[2], c[3]]) },
            Candidate { glyph: RIGHT_HALF, fg: average(seq![c[1], c[3]]), bg: average(seq![c[0], c[2]]) },
            Candidate { glyph: DIAGONAL, fg: average(seq![c[1], c[2]]), bg: average(seq![c[0], c[3]]) },
            Candidate { glyph: LOWER_LEFT, fg: c[2], bg: average(seq![c[0], c[1], c[3]]) },
            Candidate { glyph: UPPER_LEFT, fg: c[0], bg: average(seq![c[1], c[2], c[3]]) },
            Candidate { glyph: UPPER_RIGHT, fg: c[1], bg: average(seq![c[0], c[2], c[3]]) },
            Candidate { glyph: LOWER_RIGHT, fg: c[3], bg: average(seq![c[0], c[1], c[2]]) },
        ],
        UnicodeCharSet::Shade => seq![
            Candidate { glyph: BLANK, fg: black(), bg: black() },
            Candidate { glyph: LIGHT_SHADE, fg: all, bg: black() },
            Candidate { glyph: MEDIUM_SHADE, fg: all, bg: black() },
            Candidate { glyph: DARK_SHADE, fg: all, bg: black() },
        ],
    }
}

/// The pattern that a glyph draws.
pub fn glyph_pattern(glyph: char) -> (p: Pattern)
    ensures
        p == pattern_of(glyph),
{
    let f = Role::Foreground;
    let b = Role::Background;
    if glyph == UPPER_HALF {
        Pattern { top_left: f, top_right: f, bottom_left: b, bottom_right: b }
    } else if glyph == RIGHT_HALF {
        Pattern { top_left: b, top_right: f, bottom_left: b, bottom_right: f }
    } else if glyph == DIAGONAL {
        Pattern { top_left: b, top_right: f, bottom_left: f, bottom_right: b }
    } else if glyph == LOWER_LEFT {
        Pattern { top_left: b, top_right: b, bottom_left: f, bottom_right: b }
    } else if glyph == UPPER_LEFT {
        Pattern { top_left: f, top_right: b, bottom_left: b, bottom_right: b }
    } else if glyph == UPPER_RIGHT {
        Pattern { top_left: b, top_right: f, bottom_left: b, bottom_right: b }
    } else if glyph == LOWER_RIGHT {
        Pattern { top_left: b, top_right: b, bottom_left: b, bottom_right: f }
    } else {
        let role = if glyph == FULL_BLOCK {
            f
        } else if glyph == LIGHT_SHADE {
            Role::Blend(Share::Quarter)
        } else if glyph == MEDIUM_SHADE {
            Role::Blend(Share::Half)
        } else if glyph == DARK_SHADE {
            Role::Blend(Share::ThreeQuarters)
        } else {
            b
        };
        Pattern { top_left: role, top_right: role, bottom_left: role, bottom_right: role }
    }
}

/// The color that a sub-pixel of the given role shows.
pub fn resolve_role(role: Role, fg: Luv, bg: Luv) -> (c: Luv)
    ensures
        c == role_color(role, fg, bg),
{
    match role {
        Role::Foreground => fg,
        Role::Background => bg,
        Role::Blend(share) => blend(fg, bg, share),
    }
}

fn average_of_two(a: Luv, b: Luv) -> (c: Luv)
    ensures
        c == average(seq![a, b]),
{
    let pair = [a, b];
    assert(pair@ =~= seq![a, b]);
    average_color(&pair)
}

fn average_of_three(a: Luv, b: Luv, c: Luv) -> (m: Luv)
    ensures
        m == average(seq![a, b, c]),
{
    let triple = [a, b, c];
    assert(triple@ =~= seq![a, b, c]);
    average_color(&triple)
}

/// The candidates of a family for a block, in catalog order.
pub fn unicode_candidates(colors: &[Luv; 4], charset: UnicodeCharSet) -> (list: Vec<Candidate>)
    ensures
        list@ == candidates(colors@, charset),
        list@.len() > 0,
{
    let c0 = colors[0];
    let c1 = colors[1];
    let c2 = colors[2];
    let c3 = colors[3];
    let mut list: Vec<Candidate> = Vec::new();
    match charset {
        UnicodeCharSet::Full => {
            let all = average_color(colors);
            list.push(Candidate { glyph: FULL_BLOCK, fg: all, bg: Luv::black() });
        },
        UnicodeCharSet::Half => {
            list.push(
                Candidate {
                    glyph: UPPER_HALF,
                    fg: average_of_two(c0, c1),
                    bg: average_of_two(c2, c3),
                },
            );
        },
        UnicodeCharSet::Quarter => {
            list.push(
                Candidate {
                    glyph: UPPER_HALF,
                    fg: average_of_two(c0, c1),
                    bg: average_of_two(c2, c3),
                },
            );
            list.push(
                Candidate {
                    glyph: RIGHT_HALF,
                    fg: average_of_two(c1, c3),
                    bg: average_of_two(c0, c2),
                },
            );
            list.push(
                Candidate {
                    glyph: DIAGONAL,
                    fg: average_of_two(c1, c2),
                    bg: average_of_two(c0, c3),
                },
            );
            list.push(Candidate { glyph: LOWER_LEFT, fg: c2, bg: average_of_three(c0, c1, c3) });
            list.push(Candidate { glyph: UPPER_LEFT, fg: c0, bg: average_of_three(c1, c2, c3) });
            list.push(Candidate { glyph: UPPER_RIGHT, fg: c1, bg: average_of_three(c0, c2, c3) });
            list.push(Candidate { glyph: LOWER_RIGHT, fg: c3, bg: average_of_three(c0, c1, c2) });
        },
        UnicodeCharSet::Shade => {
            let all = average_color(colors);
            list.push(Candidate { glyph: BLANK, fg: Luv::black(), bg: Luv::black() });
            list.push(Candidate { glyph: LIGHT_SHADE, fg: all, bg: Luv::black() });
            list.push(Candidate { glyph: MEDIUM_SHADE, fg: all, bg: Luv::black() });
            list.push(Candidate { glyph: DARK_SHADE, fg: all, bg: Luv::black() });
        },
    }
    assert(list@ =~= candidates(colors@, charset));
    list
}

} // verus!
