//! The inventory and its daily update.
use vstd::prelude::*;

use crate::item::{get_item_type, item_type_of, Item, ItemType};
use crate::rules::{
    next_state, update_aged_brie, update_backstage_passes, update_conjured_item,
    update_regular_item, MAX_QUALITY,
};

verus! {

/// An item whose days left can be counted down without leaving `i32`: legendary items never count down.
pub open spec fn can_age(item: Item) -> bool {
    item_type_of(item.name@) == ItemType::Sulfuras || item.sell_in > i32::MIN
}

/// `after` is `before` one day later: same name, state moved on by the rules of its category.
pub open spec fn aged_one_day(before: Item, after: Item) -> bool {
    &&& after.name == before.name
    &&& after.state() == next_state(
        item_type_of(before.name@),
        before.sell_in as int,
        before.quality as int,
    )
}

/// `after` is every item of `before` one day later, in the same order.
pub open spec fn all_aged_one_day(before: Seq<Item>, after: Seq<Item>) -> bool {
    &&& after.len() == before.len()
    &&& forall|i: int| 0 <= i < before.len() ==> aged_one_day(before[i], #[trigger] after[i])
}

/// The inventory, in the order its items were given.
pub struct GildedRose {
    pub items: Vec<Item>,
}

impl GildedRose {
    /// An inventory holding `items`.
    pub fn new(items: Vec<Item>) -> (r: GildedRose)
        ensures
            r.items == items,
    {
        GildedRose { items }
    }

    /// Moves every item on by one day.
    pub fn update_quality(&mut self)
        requires
            forall|i: int| 0 <= i < old(self).items@.len() ==> can_age(#[trigger] old(self).items@[i]),
        ensures
            all_aged_one_day(old(self).items@, final(self).items@),
    {
        let n = self.items.len();
        let mut i: usize = 0;
        while i < n
            invariant
                n == old(self).items@.len(),
                self.items@.len() == n,
                0 <= i <= n,
                forall|j: int| 0 <= j < n ==> can_age(#[trigger] old(self).items@[j]),
                forall|j: int| 0 <= j < i ==> aged_one_day(old(self).items@[j], #[trigger] self.items@[j]),
                forall|j: int| i <= j < n ==> #[trigger] self.items@[j] == old(self).items@[j],
            decreases n - i,
        {
            let item = &mut self.items[i];
            match get_item_type(item) {
                ItemType::Sulfuras => {},
                ItemType::AgedBrie => update_aged_brie(item),
                ItemType::BackstagePasses => update_backstage_passes(item),
                ItemType::ConjuredItem => update_conjured_item(item),
                ItemType::RegularItem => update_regular_item(item),
            }
            i = i + 1;
        }
    }
}

/// After a day, every item of the inventory that is not legendary has a quality in
/// `0..=MAX_QUALITY`, and one day less to be sold; every legendary item is as it was.
pub proof fn lemma_inventory_after_a_day(before: Seq<Item>, after: Seq<Item>)
    requires
        all_aged_one_day(before, after),
    ensures
        forall|i: int|
            0 <= i < after.len() && item_type_of(before[i].name@) != ItemType::Sulfuras ==> {
                &&& 0 <= (#[trigger] after[i]).quality <= MAX_QUALITY
                &&& after[i].sell_in == before[i].sell_in - 1
            },
        forall|i: int|
            0 <= i < after.len() && item_type_of(before[i].name@) == ItemType::Sulfuras
                ==> #[trigger] after[i] == before[i],
{
    assert forall|i: int| 0 <= i < after.len() implies aged_one_day(before[i], #[trigger] after[i]) by {}
}

} // verus!
