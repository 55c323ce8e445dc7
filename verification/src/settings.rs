//! The options that configure one conversion.

use vstd::prelude::*;
use crate::color::Rgb8;
use crate::sets::{is_digit, is_letter, lemma_ascii_ramp, ASCII_RAMP};

verus! {

/// An ordered list of colors that output may be restricted to.
pub type ColorPalette<C> = Vec<C>;

/// Everything that configures one conversion.
#[derive(Debug, Clone)]
pub struct Settings {
    /// The size of the character grid.
    pub size: Size,
    /// Which glyphs are used and how many colors each cell gets.
    pub characters: Characters,
    /// Truecolor or a fixed palette.
    pub colors: Colors,
    /// Resampling, dithering and output compression.
    pub advanced: Advanced,
}

impl Default for Settings {
    /// An 80x40 fitted grid of two-color ASCII cells in truecolor, with the
    /// Lanczos filter, dithering and compressed output.
    fn default() -> (s: Self)
        ensures
            s.size == (Size { width: 80, height: 40, mode: SizeMode::Fit }),
            s.characters.mode == CharacterMode::Ascii(AsciiCharSet::All),
            s.characters.color_mode == ColorMode::TwoColor,
            s.characters.aspect_ratio == 32768,
            s.colors.is_truecolor,
            s.colors.palette@ == Seq::<Rgb8>::empty(),
            s.advanced == (Advanced {
                resize_filter: ResizeFilter::Lanczos3,
                dithering: Dithering { is_enabled: true, matrix: DitherMatrix::FloydSteinberg },
                compression: true,
            }),
            s.is_valid(),
    {
        Settings {
            size: Size::default(),
            characters: Characters::default(),
            colors: Colors::default(),
            advanced: Advanced::default(),
        }
    }
}

impl Settings {
    /// Whether a conversion can run with these settings: a palette is there
    /// unless the output is truecolor, and a custom ramp has a character.
    pub open spec fn is_valid(&self) -> bool {
        &&& self.colors.is_truecolor || self.colors.palette@.len() > 0
        &&& self.characters.mode matches CharacterMode::Custom(chars) ==> chars@.len() > 0
    }
}

/// The size of the character grid and how it is reached.
#[derive(Debug, Clone, PartialEq, Eq, Structural)]
pub struct Size {
    /// The width in character cells.
    pub width: usize,
    /// The height in character cells.
    pub height: usize,
    /// Whether the two are bounds or exact.
    pub mode: SizeMode,
}

impl Default for Size {
    fn default() -> (s: Self)
        ensures
            s == (Size { width: 80, height: 40, mode: SizeMode::Fit }),
    {
        Size { width: 80, height: 40, mode: SizeMode::Fit }
    }
}

/// How `width` and `height` of [`Size`] are read.
#[derive(Debug, Clone, Copy, PartialEq, Eq, Structural)]
pub enum SizeMode {
    /// The image is scaled to fit inside the bounds, keeping its aspect
    /// ratio.
    Fit,
    /// The image is stretched to exactly the given grid.
    Exact,
}

/// The glyphs of the output and the number of colors per cell.
#[derive(Debug, Clone)]
pub struct Characters {
    /// Where the glyphs come from.
    pub mode: CharacterMode,
    /// Foreground only, or foreground and background.
    pub color_mode: ColorMode,
    /// The width of a character cell over its height, in 1/65536ths: 32768
    /// for the usual cell that is twice as tall as wide. It corrects the
    /// aspect ratio when the grid is fitted to an image.
    pub aspect_ratio: u32,
}

impl Default for Characters {
    fn default() -> (c: Self)
        ensures
            c.mode == CharacterMode::Ascii(AsciiCharSet::All),
            c.color_mode == ColorMode::TwoColor,
            c.aspect_ratio == 32768,
    {
        Characters {
            mode: CharacterMode::Ascii(AsciiCharSet::All),
            color_mode: ColorMode::TwoColor,
            aspect_ratio: 32768,
        }
    }
}

/// Where the glyphs come from.
#[derive(Debug, Clone)]
pub enum CharacterMode {
    /// A built-in ASCII ramp, indexed by brightness.
    Ascii(AsciiCharSet),
    /// Unicode block elements, matched against the shape of each block.
    Unicode(UnicodeCharSet),
    /// A ramp supplied by the caller, darkest character first.
    Custom(Vec<char>),
}

/// The built-in ASCII ramps, each ordered from dark to bright.
#[derive(Debug, Clone, Copy, PartialEq, Eq, Structural)]
pub enum AsciiCharSet {
    /// Every character of the ramp.
    All,
    /// Every character but the space.
    NoSpace,
    /// Letters only.
    Az,
    /// Digits only.
    Nums,
    /// Punctuation only.
    Spec,
}

impl AsciiCharSet {
    /// Whether the set takes the character from the master ramp.
    pub open spec fn admits(self, c: char) -> bool {
        match self {
            AsciiCharSet::All => true,
            AsciiCharSet::NoSpace => c != ' ',
            AsciiCharSet::Az => is_letter(c),
            AsciiCharSet::Nums => is_digit(c),
            AsciiCharSet::Spec => !is_letter(c) && !is_digit(c) && c != ' ',
        }
    }

    /// The characters of this set, darkest first: those of the master ramp
    /// that the set admits, in the order of the master ramp.
    pub open spec fn ramp(self) -> Seq<char> {
        ASCII_RAMP@.filter(|c: char| self.admits(c))
    }

    fn takes(&self, c: char) -> (b: bool)
        ensures
            b == self.admits(c),
    {
        let letter = ('a' <= c && c <= 'z') || ('A' <= c && c <= 'Z');
        let digit = '0' <= c && c <= '9';
        match self {
            AsciiCharSet::All => true,
            AsciiCharSet::NoSpace => c != ' ',
            AsciiCharSet::Az => letter,
            AsciiCharSet::Nums => digit,
            AsciiCharSet::Spec => !letter && !digit && c != ' ',
        }
    }

    /// The characters of this set, darkest first.
    #[must_use]
    pub fn as_slice(&self) -> (r: Vec<char>)
        ensures
            r@ == self.ramp(),
            r@.len() > 0,
    {
        let ghost sure: int = match self {
            AsciiCharSet::All => 0,
            AsciiCharSet::NoSpace => 1,
            AsciiCharSet::Az => 15,
            AsciiCharSet::Nums => 27,
            AsciiCharSet::Spec => 1,
        };
        proof {
            lemma_ascii_ramp();
        }
        let ghost admits = |c: char| self.admits(c);
        let mut r: Vec<char> = Vec::new();
        assert(ASCII_RAMP@.take(0).filter(admits) =~= Seq::<char>::empty()) by {
            reveal(Seq::filter);
        }
        for c in it: ASCII_RAMP.chars()
            invariant
                it.seq() == ASCII_RAMP@,
                admits == |c: char| self.admits(c),
                r@ == ASCII_RAMP@.take(it.index() as int).filter(admits),
                0 <= sure < ASCII_RAMP@.len(),
                self.admits(ASCII_RAMP@[sure]),
                it.index() > sure ==> r@.len() > 0,
        {
            let ghost i = it.index() as int;
            proof {
                reveal(Seq::filter);
                assert(ASCII_RAMP@.take(i + 1).drop_last() =~= ASCII_RAMP@.take(i));
            }
            if self.takes(c) {
                r.push(c);
            }
        }
        assert(ASCII_RAMP@.take(ASCII_RAMP@.len() as int) =~= ASCII_RAMP@);
        r
    }
}

/// The families of Unicode block elements.
#[derive(Debug, Clone, Copy, PartialEq, Eq, Structural)]
pub enum UnicodeCharSet {
    /// The full block alone, in the average color of the block.
    Full,
    /// The upper half block: one color above, one below.
    Half,
    /// Half blocks, the diagonal and the four single quadrants.
    Quarter,
    /// The blank and the three shades.
    Shade,
}

/// How many colors a cell gets.
#[derive(Debug, Clone, Copy, PartialEq, Eq, Structural)]
pub enum ColorMode {
    /// A foreground color; the background is left to the terminal.
    OneColor,
    /// A foreground and a background color.
    TwoColor,
}

/// The colors that output may use.
#[derive(Debug, Clone)]
pub struct Colors {
    /// Whether any 24-bit color may be emitted.
    pub is_truecolor: bool,
    /// The colors that output is restricted to when `is_truecolor` is off.
    pub palette: ColorPalette<Rgb8>,
}

impl Default for Colors {
    fn default() -> (c: Self)
        ensures
            c.is_truecolor,
            c.palette@ == Seq::<Rgb8>::empty(),
    {
        Colors { is_truecolor: true, palette: Vec::new() }
    }
}

/// The resampling filters that the image can be resized with.
#[derive(Debug, Clone, Copy, PartialEq, Eq, Structural)]
pub enum ResizeFilter {
    /// Equal weights over the covered source pixels.
    Box,
    /// Linear interpolation.
    Bilinear,
    /// The Hamming window.
    Hamming,
    /// The Catmull-Rom bicubic.
    CatmullRom,
    /// The Mitchell-Netravali bicubic.
    Mitchell,
    /// A Gaussian of standard deviation one half.
    Gaussian,
    /// The Lanczos window of three lobes.
    Lanczos3,
}

/// Resampling, dithering and output compression.
#[derive(Debug, Clone, Copy, PartialEq, Eq, Structural)]
pub struct Advanced {
    /// The filter that the image is resized with.
    pub resize_filter: ResizeFilter,
    /// Dithering during quantization to a palette.
    pub dithering: Dithering,
    /// Whether a color escape is left out when the color is the one already
    /// set.
    pub compression: bool,
}

impl Default for Advanced {
    fn default() -> (a: Self)
        ensures
            a == (Advanced {
                resize_filter: ResizeFilter::Lanczos3,
                dithering: Dithering { is_enabled: true, matrix: DitherMatrix::FloydSteinberg },
                compression: true,
            }),
    {
        Advanced {
            resize_filter: ResizeFilter::Lanczos3,
            dithering: Dithering::default(),
            compression: true,
        }
    }
}

/// Dithering during quantization to a palette; without effect in truecolor.
#[derive(Debug, Clone, Copy, PartialEq, Eq, Structural)]
pub struct Dithering {
    /// Whether quantization dithers.
    pub is_enabled: bool,
    /// The error-diffusion kernel asked for.
    pub matrix: DitherMatrix,
}

impl Default for Dithering {
    fn default() -> (d: Self)
        ensures
            d == (Dithering { is_enabled: true, matrix: DitherMatrix::FloydSteinberg }),
    {
        Dithering { is_enabled: true, matrix: DitherMatrix::FloydSteinberg }
    }
}

/// The error-diffusion kernels.
#[derive(Debug, Clone, Copy, PartialEq, Eq, Structural)]
pub enum DitherMatrix {
    /// Floyd-Steinberg.
    FloydSteinberg,
    /// Jarvis, Judice and Ninke.
    JarvisJudiceNinke,
    /// Stucki.
    Stucki,
    /// Burkes.
    Burkes,
}

} // verus!
