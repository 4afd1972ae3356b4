//! An inventory whose items age by one day at a time, each by the rules of its category.
mod gildedrose;
mod item;
mod prefix;
mod rules;

pub use gildedrose::{
    aged_one_day, all_aged_one_day, can_age, lemma_inventory_after_a_day, GildedRose,
};
pub use item::{get_item_type, item_type_of, Item, ItemType};
pub use prefix::{has_prefix, starts_with};
pub use rules::{
    backstage_gain, backstage_next, brie_next, clamp_quality, conjured_next, lemma_legendary_unchanged,
    lemma_quality_in_bounds, lemma_sell_in_steps_down, next_state, regular_next, state_after,
    update_aged_brie, update_backstage_passes, update_conjured_item, update_regular_item, MAX_QUALITY,
};
