//! What one day does to an item's days left and quality, for each category.
use vstd::prelude::*;

use crate::item::{Item, ItemType};

verus! {

/// The highest quality that an item other than a legendary one can have.
pub const MAX_QUALITY: i32 = 50;

/// A quality brought into `0..=MAX_QUALITY`.
pub open spec fn clamp_quality(q: int) -> int {
    if q < 0 {
        0
    } else if q > MAX_QUALITY {
        MAX_QUALITY as int
    } else {
        q
    }
}

/// A regular item loses one point a day, two once its sell-by date has passed.
pub open spec fn regular_next(sell_in: int, quality: int) -> (int, int) {
    (sell_in - 1, clamp_quality(quality + if sell_in > 0 { -1int } else { -2int }))
}

/// A conjured item loses two points every day.
pub open spec fn conjured_next(sell_in: int, quality: int) -> (int, int) {
    (sell_in - 1, clamp_quality(quality - 2))
}

/// Aged brie gains one point a day, two once its sell-by date has passed.
pub open spec fn brie_next(sell_in: int, quality: int) -> (int, int) {
    (sell_in - 1, clamp_quality(quality + if sell_in > 0 { 1int } else { 2int }))
}

/// What a backstage pass gains on a day that begins with `sell_in` days left, before the concert.
pub open spec fn backstage_gain(sell_in: int) -> int {
    if sell_in >= 11 {
        1
    } else if sell_in >= 6 {
        2
    } else {
        3
    }
}

/// A backstage pass gains more as the concert nears, and is worth nothing once it has passed.
pub open spec fn backstage_next(sell_in: int, quality: int) -> (int, int) {
    (
        sell_in - 1,
        if sell_in <= 0 {
            0
        } else {
            clamp_quality(quality + backstage_gain(sell_in))
        },
    )
}

/// The state after one day, for an item of category `kind` in state `(sell_in, quality)`.
pub open spec fn next_state(kind: ItemType, sell_in: int, quality: int) -> (int, int) {
    match kind {
        ItemType::RegularItem => regular_next(sell_in, quality),
        ItemType::ConjuredItem => conjured_next(sell_in, quality),
        ItemType::AgedBrie => brie_next(sell_in, quality),
        ItemType::BackstagePasses => backstage_next(sell_in, quality),
        ItemType::Sulfuras => (sell_in, quality),
    }
}

/// The state after `days` days.
pub open spec fn state_after(kind: ItemType, sell_in: int, quality: int, days: nat) -> (int, int)
    decreases days,
{
    if days == 0 {
        (sell_in, quality)
    } else {
        let (s, q) = next_state(kind, sell_in, quality);
        state_after(kind, s, q, (days - 1) as nat)
    }
}

/// `quality + delta`, clamped.
fn clamped(quality: i32, delta: i32) -> (r: i32)
    requires
        -3 <= delta <= 3,
    ensures
        r == clamp_quality(quality + delta),
{
    let v: i64 = quality as i64 + delta as i64;
    if v < 0 {
        0
    } else if v > MAX_QUALITY as i64 {
        MAX_QUALITY
    } else {
        v as i32
    }
}

/// Moves a regular item on by one day.
pub fn update_regular_item(item: &mut Item)
    requires
        old(item).sell_in > i32::MIN,
    ensures
        final(item).name == old(item).name,
        final(item).state() == regular_next(old(item).sell_in as int, old(item).quality as int),
{
    let delta: i32 = if item.sell_in > 0 {
        -1
    } else {
        -2
    };
    item.quality = clamped(item.quality, delta);
    item.sell_in = item.sell_in - 1;
}

/// Moves a conjured item on by one day.
pub fn update_conjured_item(item: &mut Item)
    requires
        old(item).sell_in > i32::MIN,
    ensures
        final(item).name == old(item).name,
        final(item).state() == conjured_next(old(item).sell_in as int, old(item).quality as int),
{
    item.quality = clamped(item.quality, -2);
    item.sell_in = item.sell_in - 1;
}

/// Moves aged brie on by one day.
pub fn update_aged_brie(item: &mut Item)
    requires
        old(item).sell_in > i32::MIN,
    ensures
        final(item).name == old(item).name,
        final(item).state() == brie_next(old(item).sell_in as int, old(item).quality as int),
{
    let delta: i32 = if item.sell_in > 0 {
        1
    } else {
        2
    };
    item.quality = clamped(item.quality, delta);
    item.sell_in = item.sell_in - 1;
}

/// Moves a backstage pass on by one day.
pub fn update_backstage_passes(item: &mut Item)
    requires
        old(item).sell_in > i32::MIN,
    ensures
        final(item).name == old(item).name,
        final(item).state() == backstage_next(old(item).sell_in as int, old(item).quality as int),
{
    if item.sell_in <= 0 {
        item.quality = 0;
    } else if item.sell_in < 6 {
        item.quality = clamped(item.quality, 3);
    } else if item.sell_in < 11 {
        item.quality = clamped(item.quality, 2);
    } else {
        item.quality = clamped(item.quality, 1);
    }
    item.sell_in = item.sell_in - 1;
}

/// After a day, an item that is not legendary has a quality in `0..=MAX_QUALITY`.
pub proof fn lemma_quality_in_bounds(kind: ItemType, sell_in: int, quality: int)
    requires
        kind != ItemType::Sulfuras,
    ensures
        0 <= next_state(kind, sell_in, quality).1 <= MAX_QUALITY,
{
}

/// After a day, an item that is not legendary has exactly one day less to be sold.
pub proof fn lemma_sell_in_steps_down(kind: ItemType, sell_in: int, quality: int)
    requires
        kind != ItemType::Sulfuras,
    ensures
        next_state(kind, sell_in, quality).0 == sell_in - 1,
{
}

/// A legendary item is a fixed point of the day: any number of days leave it as it was.
pub proof fn lemma_legendary_unchanged(sell_in: int, quality: int, days: nat)
    ensures
        next_state(ItemType::Sulfuras, sell_in, quality) == (sell_in, quality),
        state_after(ItemType::Sulfuras, sell_in, quality, days) == (sell_in, quality),
    decreases days,
{
    if days > 0 {
        lemma_legendary_unchanged(sell_in, quality, (days - 1) as nat);
    }
}

} // verus!
