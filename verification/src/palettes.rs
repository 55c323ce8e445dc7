//! Ready-made palettes for output that is not truecolor.

use vstd::prelude::*;
use crate::color::Rgb8;

verus! {

/// The sixteen colors of "Sweetie 16" by GrafxKid, in the order of their
/// publication: cool, muted, a little retro.
pub open spec fn sweetie16() -> Seq<Rgb8> {
    seq![
        Rgb8 { r: 0x1a, g: 0x1c, b: 0x2c },
        Rgb8 { r: 0x5d, g: 0x27, b: 0x5d },
        Rgb8 { r: 0xb1, g: 0x3e, b: 0x53 },
        Rgb8 { r: 0xef, g: 0x7d, b: 0x57 },
        Rgb8 { r: 0xff, g: 0xcd, b: 0x75 },
        Rgb8 { r: 0xa7, g: 0xf0, b: 0x70 },
        Rgb8 { r: 0x38, g: 0xb7, b: 0x64 },
        Rgb8 { r: 0x25, g: 0x71, b: 0x79 },
        Rgb8 { r: 0x29, g: 0x36, b: 0x6f },
        Rgb8 { r: 0x3b, g: 0x5d, b: 0xc9 },
        Rgb8 { r: 0x41, g: 0xa6, b: 0xf6 },
        Rgb8 { r: 0x73, g: 0xef, b: 0xf7 },
        Rgb8 { r: 0xf4, g: 0xf4, b: 0xf4 },
        Rgb8 { r: 0x94, g: 0xb0, b: 0xc2 },
        Rgb8 { r: 0x56, g: 0x6c, b: 0x86 },
        Rgb8 { r: 0x33, g: 0x3c, b: 0x57 },
    ]
}

/// The "Sweetie 16" palette.
pub fn color_palette_sweetie16() -> (palette: Vec<Rgb8>)
    ensures
        palette@ == sweetie16(),
{
    let mut palette: Vec<Rgb8> = Vec::new();
    palette.push(Rgb8 { r: 0x1a, g: 0x1c, b: 0x2c });  // dark purple
    palette.push(Rgb8 { r: 0x5d, g: 0x27, b: 0x5d });  // deep magenta
    palette.push(Rgb8 { r: 0xb1, g: 0x3e, b: 0x53 });  // muted red
    palette.push(Rgb8 { r: 0xef, g: 0x7d, b: 0x57 });  // orange
    palette.push(Rgb8 { r: 0xff, g: 0xcd, b: 0x75 });  // yellow
    palette.push(Rgb8 { r: 0xa7, g: 0xf0, b: 0x70 });  // lime green
    palette.push(Rgb8 { r: 0x38, g: 0xb7, b: 0x64 });  // green
    palette.push(Rgb8 { r: 0x25, g: 0x71, b: 0x79 });  // teal
    palette.push(Rgb8 { r: 0x29, g: 0x36, b: 0x6f });  // dark blue
    palette.push(Rgb8 { r: 0x3b, g: 0x5d, b: 0xc9 });  // blue
    palette.push(Rgb8 { r: 0x41, g: 0xa6, b: 0xf6 });  // sky blue
    palette.push(Rgb8 { r: 0x73, g: 0xef, b: 0xf7 });  // cyan
    palette.push(Rgb8 { r: 0xf4, g: 0xf4, b: 0xf4 });  // white
    palette.push(Rgb8 { r: 0x94, g: 0xb0, b: 0xc2 });  // light grey
    palette.push(Rgb8 { r: 0x56, g: 0x6c, b: 0x86 });  // grey
    palette.push(Rgb8 { r: 0x33, g: 0x3c, b: 0x57 });  // dark grey
    assert(palette@ =~= sweetie16());
    palette
}

} // verus!
