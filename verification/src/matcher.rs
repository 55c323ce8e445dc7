//! Snapping colors to a palette.
//!
//! The nearest entry of a palette is the first one at the least distance.
//! For a pair of colors the two entries can be forced to come from different
//! slots of the palette and are then ordered by brightness.

use vstd::prelude::*;
use crate::color::{black, dist_sq, luv_distance_sq, Luv};
use crate::minimum::{first_min, is_first_min, lemma_first_min_exists, lemma_first_min_is};

verus! {

/// The squared distance from `color` to every entry of the palette.
pub open spec fn distances(color: Luv, palette: Seq<Luv>) -> Seq<int> {
    Seq::new(palette.len(), |i: int| dist_sq(color, palette[i]))
}

/// The slot of the palette entry nearest to `color`, the first of several
/// equally near; `skip`, if any, is passed over.
pub open spec fn nearest_slot(color: Luv, palette: Seq<Luv>, skip: Option<int>) -> int {
    first_min(distances(color, palette), skip)
}

/// The palette entry nearest to `color`; `color` itself when the palette is
/// empty.
pub open spec fn closest(color: Luv, palette: Seq<Luv>) -> Luv {
    if palette.len() == 0 {
        color
    } else {
        palette[nearest_slot(color, palette, None)]
    }
}

/// The slots that two colors snap to when they may not share one: the
/// nearest slot to `color1`, and the nearest to `color2` among the others;
/// the one whose entry is nearer to black comes second.
pub open spec fn distinct_pair_slots(color1: Luv, color2: Luv, palette: Seq<Luv>) -> (int, int) {
    let a = nearest_slot(color1, palette, None);
    let b = nearest_slot(color2, palette, Some(a));
    if dist_sq(palette[a], black()) < dist_sq(palette[b], black()) {
        (b, a)
    } else {
        (a, b)
    }
}

/// The pair of palette entries that two colors snap to, as foreground and
/// background.
///
/// An empty palette gives black twice and a palette of one entry gives that
/// entry twice. Otherwise, without `order_by_brightness` each color snaps to
/// its own nearest entry; with it the entries come from distinct slots and
/// the darker one is the background.
pub open spec fn closest_pair(
    color1: Luv,
    color2: Luv,
    palette: Seq<Luv>,
    order_by_brightness: bool,
) -> (Luv, Luv) {
    if palette.len() == 0 {
        (black(), black())
    } else if palette.len() == 1 {
        (palette[0], palette[0])
    } else if !order_by_brightness {
        (closest(color1, palette), closest(color2, palette))
    } else {
        let slots = distinct_pair_slots(color1, color2, palette);
        (palette[slots.0], palette[slots.1])
    }
}

/// The optional slot as a position of the key sequence.
pub open spec fn skipped(skip: Option<usize>) -> Option<int> {
    match skip {
        Some(s) => Some(s as int),
        None => None,
    }
}

/// With two or more entries the two slots exist and differ, whatever the
/// palette holds: equal colors in different slots are different slots.
pub proof fn lemma_distinct_pair_slots(color1: Luv, color2: Luv, palette: Seq<Luv>)
    requires
        palette.len() >= 2,
    ensures
        0 <= distinct_pair_slots(color1, color2, palette).0 < palette.len(),
        0 <= distinct_pair_slots(color1, color2, palette).1 < palette.len(),
        distinct_pair_slots(color1, color2, palette).0
            != distinct_pair_slots(color1, color2, palette).1,
{
    let a = nearest_slot(color1, palette, None);
    lemma_first_min_exists(distances(color1, palette), None, 0);
    let k = if a == 0 {
        1int
    } else {
        0int
    };
    lemma_first_min_exists(distances(color2, palette), Some(a), k);
}

/// With `order_by_brightness`, the background of the pair is never farther
/// from black than the foreground.
pub proof fn lemma_background_is_darker(color1: Luv, color2: Luv, palette: Seq<Luv>)
    ensures
        dist_sq(closest_pair(color1, color2, palette, true).1, black())
            <= dist_sq(closest_pair(color1, color2, palette, true).0, black()),
{
}

/// The slot of the nearest palette entry that is not `skip`.
pub fn find_nearest_slot(color: Luv, palette: &Vec<Luv>, skip: Option<usize>) -> (slot: usize)
    requires
        exists|k: int| 0 <= k < palette@.len() && skipped(skip) != Some(k),
    ensures
        slot == nearest_slot(color, palette@, skipped(skip)),
        is_first_min(distances(color, palette@), skipped(skip), slot as int),
{
    let ghost keys = distances(color, palette@);
    let mut found = false;
    let mut best: usize = 0;
    let mut least: u128 = 0;
    let mut i: usize = 0;
    while i < palette.len()
        invariant
            i <= palette.len(),
            keys == distances(color, palette@),
            !found ==> forall|j: int| 0 <= j < i ==> skipped(skip) == Some(j),
            found ==> is_first_min(keys.take(i as int), skipped(skip), best as int),
            found ==> least == keys[best as int],
        decreases palette.len() - i,
    {
        let admitted = match skip {
            Some(s) => s != i,
            None => true,
        };
        if admitted {
            let d = luv_distance_sq(color, palette[i]);
            if !found || d < least {
                found = true;
                best = i;
                least = d;
            }
        }
        i = i + 1;
    }
    proof {
        assert(keys.take(i as int) == keys);
        lemma_first_min_is(keys, skipped(skip), best as int);
    }
    best
}

/// The palette entry nearest to `color`, the first of several equally near.
/// An empty palette gives `color` back.
pub fn find_closest(color: Luv, palette: &Vec<Luv>) -> (c: Luv)
    ensures
        c == closest(color, palette@),
{
    if palette.len() == 0 {
        return color;
    }
    assert(skipped(None) != Some(0int));
    let slot = find_nearest_slot(color, palette, None);
    palette[slot]
}

/// The two distinct slots that a pair of colors snaps to, the brighter entry
/// first.
pub fn find_closest_pair_slots(
    color1: Luv,
    color2: Luv,
    palette: &Vec<Luv>,
) -> (slots: (usize, usize))
    requires
        palette@.len() >= 2,
    ensures
        slots.0 != slots.1,
        slots.0 < palette@.len(),
        slots.1 < palette@.len(),
        (slots.0 as int, slots.1 as int) == distinct_pair_slots(color1, color2, palette@),
        dist_sq(palette@[slots.1 as int], black()) <= dist_sq(palette@[slots.0 as int], black()),
{
    assert(skipped(None) != Some(0int));
    let first = find_nearest_slot(color1, palette, None);
    assert(skipped(Some(first)) != Some(if first == 0 { 1int } else { 0int }));
    let second = find_nearest_slot(color2, palette, Some(first));
    let d1 = luv_distance_sq(palette[first], Luv::black());
    let d2 = luv_distance_sq(palette[second], Luv::black());
    if d1 < d2 {
        (second, first)
    } else {
        (first, second)
    }
}

/// The palette entries that a foreground and a background color snap to.
///
/// With `order_by_brightness` the two come from distinct slots of the
/// palette and the one nearer to black is returned second; without it each
/// color snaps on its own.
pub fn find_closest_pair(
    color1: Luv,
    color2: Luv,
    palette: &Vec<Luv>,
    order_by_brightness: bool,
) -> (pair: (Luv, Luv))
    ensures
        pair == closest_pair(color1, color2, palette@, order_by_brightness),
        order_by_brightness ==> dist_sq(pair.1, black()) <= dist_sq(pair.0, black()),
{
    if palette.len() == 0 {
        return (Luv::black(), Luv::black());
    }
    if palette.len() == 1 {
        return (palette[0], palette[0]);
    }
    if !order_by_brightness {
        return (find_closest(color1, palette), find_closest(color2, palette));
    }
    let slots = find_closest_pair_slots(color1, color2, palette);
    (palette[slots.0], palette[slots.1])
}

} // verus!
