use ansimage::color::{
    average_color, blend, find_lightest_darkest, integer_sqrt, luv_distance, luv_distance_sq, Luv,
    Share, LUV_ONE,
};

#[test]
fn one_is_two_to_the_sixteenth() {
    assert_eq!(LUV_ONE, 65536);
}

#[test]
fn black_is_the_origin() {
    assert_eq!(Luv::black(), Luv::new(0, 0, 0));
    assert_eq!(Luv::new(1, -2, 3), Luv { l: 1, u: -2, v: 3 });
}

#[test]
fn squared_distance_sums_the_three_axes() {
    let a = Luv::new(3, 4, 12);
    assert_eq!(luv_distance_sq(a, Luv::black()), 169);
    assert_eq!(luv_distance_sq(Luv::black(), a), 169);
    assert_eq!(luv_distance_sq(a, a), 0);
    assert_eq!(luv_distance_sq(Luv::new(10, -5, 7), Luv::new(7, -1, 7)), 25);
}

#[test]
fn distance_is_the_root_rounded_down() {
    assert_eq!(luv_distance(Luv::new(3, 4, 12), Luv::black()), 13);
    assert_eq!(luv_distance(Luv::new(1, 1, 0), Luv::black()), 1);
    assert_eq!(luv_distance(Luv::new(2, 2, 1), Luv::black()), 3);
    assert_eq!(luv_distance(Luv::new(2, 2, 0), Luv::black()), 2);
    assert_eq!(luv_distance(Luv::new(100 * LUV_ONE, 0, 0), Luv::black()), 6_553_600);
}

#[test]
fn distance_between_the_corners_of_the_space_does_not_overflow() {
    let low = Luv::new(i32::MIN, i32::MIN, i32::MIN);
    let high = Luv::new(i32::MAX, i32::MAX, i32::MAX);
    assert_eq!(luv_distance_sq(low, high), 55_340_232_195_358_851_075);
    assert_eq!(luv_distance(low, high), 7_439_101_571);
}

#[test]
fn integer_sqrt_at_the_edges() {
    assert_eq!(integer_sqrt(0), 0);
    assert_eq!(integer_sqrt(1), 1);
    assert_eq!(integer_sqrt(2), 1);
    assert_eq!(integer_sqrt(3), 1);
    assert_eq!(integer_sqrt(4), 2);
    assert_eq!(integer_sqrt(15), 3);
    assert_eq!(integer_sqrt(16), 4);
    assert_eq!(integer_sqrt(1 << 64), 1 << 32);
    assert_eq!(integer_sqrt((1 << 64) - 1), (1 << 32) - 1);
    assert_eq!(integer_sqrt(u128::MAX), u64::MAX);
}

#[test]
fn average_of_nothing_is_black() {
    assert_eq!(average_color(&[]), Luv::black());
}

#[test]
fn average_of_one_is_itself() {
    let c = Luv::new(-7, 8, i32::MAX);
    assert_eq!(average_color(&[c]), c);
}

#[test]
fn average_rounds_each_axis_down() {
    let colors = [Luv::new(1, 0, -1), Luv::new(2, 0, -2)];
    assert_eq!(average_color(&colors), Luv::new(1, 0, -2));
    let three = [Luv::new(1, 1, 1), Luv::new(1, 2, -1), Luv::new(2, 2, -1)];
    assert_eq!(average_color(&three), Luv::new(1, 1, -1));
}

#[test]
fn average_of_extremes_does_not_overflow() {
    let colors = [Luv::new(i32::MAX, i32::MIN, 0); 4];
    assert_eq!(average_color(&colors), Luv::new(i32::MAX, i32::MIN, 0));
}

#[test]
fn blend_weighs_by_quarters() {
    let a = Luv::new(100, 8, -8);
    let b = Luv::new(0, 0, 0);
    assert_eq!(blend(a, b, Share::Quarter), Luv::new(25, 2, -2));
    assert_eq!(blend(a, b, Share::Half), Luv::new(50, 4, -4));
    assert_eq!(blend(a, b, Share::ThreeQuarters), Luv::new(75, 6, -6));
    assert_eq!(blend(b, a, Share::Quarter), Luv::new(75, 6, -6));
}

#[test]
fn blend_rounds_down() {
    let a = Luv::new(100, 7, -7);
    assert_eq!(blend(a, Luv::black(), Share::Quarter), Luv::new(25, 1, -2));
    let n = Luv::new(-1, -2, -3);
    assert_eq!(blend(n, Luv::black(), Share::ThreeQuarters), Luv::new(-1, -2, -3));
    assert_eq!(blend(n, Luv::black(), Share::Half), Luv::new(-1, -1, -2));
}

#[test]
fn blend_of_a_color_with_itself_is_that_color() {
    let c = Luv::new(i32::MAX, i32::MIN, 12345);
    assert_eq!(blend(c, c, Share::Quarter), c);
    assert_eq!(blend(c, c, Share::Half), c);
    assert_eq!(blend(c, c, Share::ThreeQuarters), c);
}

#[test]
fn lightest_and_darkest_go_by_lightness_alone() {
    let colors = [
        Luv::new(50, 900, 900),
        Luv::new(80, 0, 0),
        Luv::new(10, -900, 0),
        Luv::new(60, 0, 0),
    ];
    assert_eq!(find_lightest_darkest(&colors), (colors[1], colors[2]));
}

#[test]
fn lightest_and_darkest_keep_the_first_of_equals() {
    let colors = [Luv::new(5, 1, 0), Luv::new(9, 2, 0), Luv::new(9, 3, 0), Luv::new(5, 4, 0)];
    assert_eq!(find_lightest_darkest(&colors), (colors[1], colors[0]));
    let flat = [Luv::new(5, 1, 0), Luv::new(5, 2, 0)];
    assert_eq!(find_lightest_darkest(&flat), (flat[0], flat[0]));
}
