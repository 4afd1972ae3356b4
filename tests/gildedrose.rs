use gilded_rose::{GildedRose, Item};

#[test]
pub fn quality_and_sell_date_decrease_by_one() {
    let items = vec![Item::new("Random Item", 1, 1)];
    let mut rose = GildedRose::new(items);

    rose.update_quality();

    let expected_items = vec![Item::new("Random Item", 0, 0)];
    assert_eq!(expected_items, rose.items);
}

#[test]
pub fn quality_is_never_negative() {
    let items = vec![Item::new("Random Item", 1, 0)];
    let mut rose = GildedRose::new(items);

    rose.update_quality();

    let expected_items = vec![Item::new("Random Item", 0, 0)];
    assert_eq!(expected_items, rose.items);
}

#[test]
pub fn quality_degrades_twice_as_fast_after_sell_date() {
    let items = vec![Item::new("Random Item", 1, 10)];
    let mut rose = GildedRose::new(items);

    rose.update_quality();
    rose.update_quality();

    let expected_items = vec![Item::new("Random Item", -1, 7)];
    assert_eq!(expected_items, rose.items);
}

#[test]
pub fn aged_brie_increases_in_quality() {
    let items = vec![Item::new("Aged Brie", 3, 1)];
    let mut rose = GildedRose::new(items);

    rose.update_quality();

    let expected_items = vec![Item::new("Aged Brie", 2, 2)];
    assert_eq!(expected_items, rose.items);
}

#[test]
pub fn aged_brie_increases_quality_twice_as_fast_after_sell_date() {
    let items = vec![Item::new("Aged Brie", 1, 0)];
    let mut rose = GildedRose::new(items);

    rose.update_quality();
    rose.update_quality();
    rose.update_quality();

    let expected_items = vec![Item::new("Aged Brie", -2, 5)];
    assert_eq!(expected_items, rose.items);
}

#[test]
pub fn sulfuras_never_degrades_or_has_to_be_sold() {
    let items = vec![Item::new("Sulfuras, Hand of Ragnaros", 0, 80)];
    let mut rose = GildedRose::new(items);

    rose.update_quality();
    rose.update_quality();
    rose.update_quality();

    let expected_items = vec![Item::new("Sulfuras, Hand of Ragnaros", 0, 80)];
    assert_eq!(expected_items, rose.items);
}

#[test]
pub fn backstage_passes_increase_quality_relative_to_sell_date() {
    let items = vec![
        Item::new("Backstage passes to a TAFKAL80ETC concert", 11, 3),
        Item::new("Backstage passes to a TAFKAL80ETC concert", 10, 3),
        Item::new("Backstage passes to a TAFKAL80ETC concert", 9, 3),
        Item::new("Backstage passes to a TAFKAL80ETC concert", 5, 3),
        Item::new("Backstage passes to a TAFKAL80ETC concert", 4, 3),
        Item::new("Backstage passes to a TAFKAL80ETC concert", 1, 3),
        Item::new("Backstage passes to a TAFKAL80ETC concert", 0, 3),
    ];
    let mut rose = GildedRose::new(items);

    rose.update_quality();

    let expected_items = vec![
        Item::new("Backstage passes to a TAFKAL80ETC concert", 10, 4),
        Item::new("Backstage passes to a TAFKAL80ETC concert", 9, 5),
        Item::new("Backstage passes to a TAFKAL80ETC concert", 8, 5),
        Item::new("Backstage passes to a TAFKAL80ETC concert", 4, 6),
        Item::new("Backstage passes to a TAFKAL80ETC concert", 3, 6),
        Item::new("Backstage passes to a TAFKAL80ETC concert", 0, 6),
        Item::new("Backstage passes to a TAFKAL80ETC concert", -1, 0),
    ];
    assert_eq!(expected_items, rose.items);
}

#[test]
pub fn quality_is_always_lower_than_50() {
    let items = vec![
        Item::new("Aged Brie", 0, 50),
        Item::new("Aged Brie", -1, 49),
        Item::new("Backstage passes to a TAFKAL80ETC concert", 1, 50),
        Item::new("Backstage passes to a TAFKAL80ETC concert", 1, 48),
    ];
    let mut rose = GildedRose::new(items);

    rose.update_quality();

    let expected_items = vec![
        Item::new("Aged Brie", -1, 50),
        Item::new("Aged Brie", -2, 50),
        Item::new("Backstage passes to a TAFKAL80ETC concert", 0, 50),
        Item::new("Backstage passes to a TAFKAL80ETC concert", 0, 50),
    ];
    assert_eq!(expected_items, rose.items);
}

#[test]
pub fn quality_of_conjured_items_decreases_twice_as_fast() {
    let items = vec![Item::new("Conjured Mana Cake", 1, 2)];
    let mut rose = GildedRose::new(items);

    rose.update_quality();

    let expected_items = vec![Item::new("Conjured Mana Cake", 0, 0)];
    assert_eq!(expected_items, rose.items);
}
