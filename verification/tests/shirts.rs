//! Tests for the shirt giveaway scenario.

use httpie::shirts::{Inventory, ShirtColor};

#[test]
fn with_favorite_color() {
    let store = Inventory {
        shirts: vec![ShirtColor::Blue, ShirtColor::Red, ShirtColor::Blue],
    };
    let user_favorite_color = Some(ShirtColor::Red);

    let result = store.giveaway(user_favorite_color);

    assert_eq!(result, ShirtColor::Red);
}

#[test]
fn without_favorite_color() {
    let store = Inventory {
        shirts: vec![ShirtColor::Blue, ShirtColor::Red, ShirtColor::Blue],
    };
    let user_favorite_color = None;

    let result = store.giveaway(user_favorite_color);

    assert_eq!(result, ShirtColor::Blue);
}

#[test]
fn most_stocked_ties_go_to_blue() {
    let store = Inventory {
        shirts: vec![ShirtColor::Red, ShirtColor::Blue],
    };
    assert_eq!(ShirtColor::Blue, store.most_stocked());
    let empty = Inventory { shirts: vec![] };
    assert_eq!(ShirtColor::Blue, empty.most_stocked());
    let reds = Inventory {
        shirts: vec![ShirtColor::Red, ShirtColor::Red, ShirtColor::Blue],
    };
    assert_eq!(ShirtColor::Red, reds.most_stocked());
}
