//! The items of the inventory and the category that each one's name gives it.
use vstd::prelude::*;

use crate::prefix::{has_prefix, starts_with};

verus! {

/// An item on the shelf: its name, the days left to sell it, and its quality.
#[derive(PartialEq, Debug)]
pub struct Item {
    pub name: String,
    pub sell_in: i32,
    pub quality: i32,
}

impl Item {
    /// The item's two changing values, as integers.
    pub open spec fn state(self) -> (int, int) {
        (self.sell_in as int, self.quality as int)
    }

    /// An item with a copy of `name`.
    pub fn new(name: &str, sell_in: i32, quality: i32) -> (r: Item)
        ensures
            r.name@ == name@,
            r.sell_in == sell_in,
            r.quality == quality,
    {
        Item { name: name.to_owned(), sell_in, quality }
    }
}

/// The categories whose rules an item follows as it ages.
#[derive(PartialEq, Eq, Structural, Debug, Clone, Copy)]
pub enum ItemType {
    RegularItem,
    AgedBrie,
    BackstagePasses,
    Sulfuras,
    ConjuredItem,
}

/// The category of a name: the first marker that begins it, in a fixed order, else regular.
pub open spec fn item_type_of(name: Seq<char>) -> ItemType {
    if has_prefix(name, "Aged Brie"@) {
        ItemType::AgedBrie
    } else if has_prefix(name, "Backstage passes"@) {
        ItemType::BackstagePasses
    } else if has_prefix(name, "Sulfuras"@) {
        ItemType::Sulfuras
    } else if has_prefix(name, "Conjured"@) {
        ItemType::ConjuredItem
    } else {
        ItemType::RegularItem
    }
}

/// The category of an item, read from its name on every call.
pub fn get_item_type(item: &Item) -> (r: ItemType)
    ensures
        r == item_type_of(item.name@),
{
    let name = item.name.as_str();
    if starts_with(name, "Aged Brie") {
        ItemType::AgedBrie
    } else if starts_with(name, "Backstage passes") {
        ItemType::BackstagePasses
    } else if starts_with(name, "Sulfuras") {
        ItemType::Sulfuras
    } else if starts_with(name, "Conjured") {
        ItemType::ConjuredItem
    } else {
        ItemType::RegularItem
    }
}

} // verus!
