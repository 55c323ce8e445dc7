use ansimage::color::{luv_distance_sq, Luv, LUV_ONE};
use ansimage::matcher::{
    find_closest, find_closest_pair, find_closest_pair_slots, find_nearest_slot,
};

fn grey(l: i32) -> Luv {
    Luv::new(l * LUV_ONE, 0, 0)
}

#[test]
fn closest_is_the_entry_at_the_least_distance() {
    let palette = vec![grey(0), grey(40), grey(100)];
    assert_eq!(find_closest(grey(10), &palette), grey(0));
    assert_eq!(find_closest(grey(30), &palette), grey(40));
    assert_eq!(find_closest(grey(71), &palette), grey(100));
}

#[test]
fn closest_keeps_the_first_of_equally_near_entries() {
    let palette = vec![Luv::new(10, 0, 5), Luv::new(10, 5, 0), Luv::new(10, 0, -5)];
    assert_eq!(find_closest(Luv::new(10, 0, 0), &palette), palette[0]);
    let halfway = vec![grey(0), grey(100)];
    assert_eq!(find_closest(grey(50), &halfway), grey(0));
}

#[test]
fn closest_of_an_empty_palette_is_the_color() {
    let c = Luv::new(1, 2, 3);
    assert_eq!(find_closest(c, &Vec::new()), c);
}

#[test]
fn nearest_slot_passes_over_the_skipped_slot() {
    let palette = vec![grey(0), grey(40), grey(100)];
    assert_eq!(find_nearest_slot(grey(35), &palette, None), 1);
    assert_eq!(find_nearest_slot(grey(35), &palette, Some(1)), 0);
    assert_eq!(find_nearest_slot(grey(35), &palette, Some(0)), 1);
    assert_eq!(find_nearest_slot(grey(0), &palette, Some(0)), 1);
    assert_eq!(find_nearest_slot(grey(0), &palette, Some(7)), 0);
}

#[test]
fn pair_of_an_empty_palette_is_black_twice() {
    let empty: Vec<Luv> = Vec::new();
    assert_eq!(find_closest_pair(grey(10), grey(90), &empty, true), (Luv::black(), Luv::black()));
    assert_eq!(find_closest_pair(grey(10), grey(90), &empty, false), (Luv::black(), Luv::black()));
}

#[test]
fn pair_of_a_single_entry_is_that_entry_twice() {
    let one = vec![grey(33)];
    assert_eq!(find_closest_pair(grey(10), grey(90), &one, true), (grey(33), grey(33)));
    assert_eq!(find_closest_pair(grey(10), grey(90), &one, false), (grey(33), grey(33)));
}

#[test]
fn independent_pair_snaps_each_color_on_its_own() {
    let palette = vec![grey(0), grey(40), grey(100)];
    assert_eq!(find_closest_pair(grey(10), grey(90), &palette, false), (grey(0), grey(100)));
    assert_eq!(find_closest_pair(grey(90), grey(10), &palette, false), (grey(100), grey(0)));
    assert_eq!(find_closest_pair(grey(45), grey(44), &palette, false), (grey(40), grey(40)));
}

#[test]
fn distinct_pair_never_uses_a_slot_twice() {
    let palette = vec![grey(0), grey(40), grey(100)];
    assert_eq!(find_closest_pair_slots(grey(45), grey(44), &palette), (1, 0));
    assert_eq!(find_closest_pair(grey(45), grey(44), &palette, true), (grey(40), grey(0)));
    for a in 0..=10 {
        for b in 0..=10 {
            let (i, j) = find_closest_pair_slots(grey(a * 10), grey(b * 10), &palette);
            assert_ne!(i, j);
            assert!(i < palette.len() && j < palette.len());
        }
    }
}

#[test]
fn distinct_pair_tells_equal_colors_in_different_slots_apart() {
    let twins = vec![grey(50), grey(50)];
    assert_eq!(find_closest_pair_slots(grey(50), grey(50), &twins), (0, 1));
    let palette = vec![grey(70), grey(20), grey(20), grey(70)];
    assert_eq!(find_closest_pair_slots(grey(20), grey(20), &palette), (1, 2));
    assert_eq!(find_closest_pair_slots(grey(70), grey(70), &palette), (0, 3));
    assert_eq!(find_closest_pair(grey(20), grey(20), &palette, true), (grey(20), grey(20)));
}

#[test]
fn distinct_pair_puts_the_darker_entry_second() {
    let palette = vec![grey(0), grey(40), grey(100)];
    assert_eq!(find_closest_pair(grey(10), grey(90), &palette, true), (grey(100), grey(0)));
    assert_eq!(find_closest_pair(grey(90), grey(10), &palette, true), (grey(100), grey(0)));
    assert_eq!(find_closest_pair_slots(grey(10), grey(90), &palette), (2, 0));
    assert_eq!(find_closest_pair_slots(grey(90), grey(10), &palette), (2, 0));
}

#[test]
fn distinct_pair_background_is_never_the_brighter_one() {
    let palette = vec![
        Luv::new(10, 300, -20),
        Luv::new(250, 0, 0),
        Luv::new(-40, 40, 40),
        Luv::new(100, 100, 100),
        Luv::new(0, 0, 0),
    ];
    let probes = [
        Luv::new(0, 0, 0),
        Luv::new(260, 10, 10),
        Luv::new(-50, 50, 30),
        Luv::new(90, 120, 90),
        Luv::new(15, 280, 0),
    ];
    for &a in probes.iter() {
        for &b in probes.iter() {
            let (fg, bg) = find_closest_pair(a, b, &palette, true);
            assert!(
                luv_distance_sq(bg, Luv::black()) <= luv_distance_sq(fg, Luv::black())
            );
        }
    }
}

#[test]
fn distinct_pair_keeps_the_order_of_equally_bright_entries() {
    let palette = vec![Luv::new(0, 30, 0), Luv::new(0, 0, 30)];
    assert_eq!(find_closest_pair_slots(palette[1], palette[0], &palette), (1, 0));
    assert_eq!(find_closest_pair_slots(palette[0], palette[1], &palette), (0, 1));
}
