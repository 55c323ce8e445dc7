use ansimage::palettes::color_palette_sweetie16;
use ansimage::sets::ASCII_RAMP;
use ansimage::{
    Advanced, AsciiCharSet, CharacterMode, Characters, ColorMode, Colors, DitherMatrix, Dithering,
    ResizeFilter, Rgb8, Settings, Size, SizeMode,
};

#[test]
fn default_size_is_eighty_by_forty_fitted() {
    assert_eq!(Size::default(), Size { width: 80, height: 40, mode: SizeMode::Fit });
}

#[test]
fn default_characters_are_the_full_ramp_in_two_colors() {
    let c = Characters::default();
    assert!(matches!(c.mode, CharacterMode::Ascii(AsciiCharSet::All)));
    assert_eq!(c.color_mode, ColorMode::TwoColor);
    assert_eq!(c.aspect_ratio, 32768);
}

#[test]
fn default_colors_are_truecolor_without_a_palette() {
    let c = Colors::default();
    assert!(c.is_truecolor);
    assert!(c.palette.is_empty());
}

#[test]
fn default_advanced_is_lanczos_with_dithering_and_compression() {
    let a = Advanced::default();
    assert_eq!(a.resize_filter, ResizeFilter::Lanczos3);
    assert_eq!(a.dithering, Dithering { is_enabled: true, matrix: DitherMatrix::FloydSteinberg });
    assert!(a.compression);
    assert_eq!(Dithering::default(), a.dithering);
}

#[test]
fn default_settings_gather_the_defaults() {
    let s = Settings::default();
    assert_eq!(s.size, Size::default());
    assert!(matches!(s.characters.mode, CharacterMode::Ascii(AsciiCharSet::All)));
    assert_eq!(s.characters.color_mode, ColorMode::TwoColor);
    assert!(s.colors.is_truecolor);
    assert!(s.colors.palette.is_empty());
    assert_eq!(s.advanced, Advanced::default());
}

#[test]
fn full_ramp_is_the_master_ramp() {
    let all = AsciiCharSet::All.as_slice();
    assert_eq!(all.len(), 92);
    assert_eq!(all, ASCII_RAMP.chars().collect::<Vec<char>>());
    assert_eq!(all[0], ' ');
    assert_eq!(all[1], '`');
    assert_eq!(all[91], '@');
}

#[test]
fn ramp_without_space_drops_the_first_character() {
    let all = AsciiCharSet::All.as_slice();
    let no_space = AsciiCharSet::NoSpace.as_slice();
    assert_eq!(no_space.len(), 91);
    assert_eq!(no_space[..], all[1..]);
}

#[test]
fn letter_ramp_holds_the_letters_in_ramp_order() {
    let az = AsciiCharSet::Az.as_slice();
    assert_eq!(az.len(), 52);
    assert!(az.iter().all(|c| c.is_ascii_alphabetic()));
    assert_eq!(az[..5], ['r', 'c', 'z', 's', 'L']);
    assert_eq!(az[51], 'Q');
}

#[test]
fn digit_ramp_holds_the_digits_in_ramp_order() {
    let nums = AsciiCharSet::Nums.as_slice();
    assert_eq!(nums, vec!['7', '3', '1', '5', '2', '6', '9', '4', '8', '0']);
}

#[test]
fn punctuation_ramp_holds_the_rest_without_the_space() {
    let spec = AsciiCharSet::Spec.as_slice();
    assert_eq!(spec.len(), 29);
    assert!(spec.iter().all(|c| c.is_ascii_punctuation()));
    assert_eq!(spec[0], '`');
    assert_eq!(spec[28], '@');
    assert_eq!(spec.iter().collect::<String>(), "`.-':_,^=;><+!*/?)(|{}[]#$%&@");
}

#[test]
fn narrower_ramps_partition_the_master_ramp() {
    let mut count = 0;
    for c in AsciiCharSet::All.as_slice() {
        let in_az = AsciiCharSet::Az.as_slice().contains(&c);
        let in_nums = AsciiCharSet::Nums.as_slice().contains(&c);
        let in_spec = AsciiCharSet::Spec.as_slice().contains(&c);
        let classes = [in_az, in_nums, in_spec].iter().filter(|&&b| b).count();
        assert_eq!(classes, if c == ' ' { 0 } else { 1 });
        count += classes;
    }
    assert_eq!(count, 91);
}

#[test]
fn sweetie16_has_its_sixteen_colors() {
    let p = color_palette_sweetie16();
    assert_eq!(p.len(), 16);
    assert_eq!(p[0], Rgb8 { r: 0x1a, g: 0x1c, b: 0x2c });
    assert_eq!(p[4], Rgb8 { r: 0xff, g: 0xcd, b: 0x75 });
    assert_eq!(p[12], Rgb8 { r: 0xf4, g: 0xf4, b: 0xf4 });
    assert_eq!(p[15], Rgb8 { r: 0x33, g: 0x3c, b: 0x57 });
}
