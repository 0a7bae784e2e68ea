use contract_whist::cards::{
    card_options_equal, cards_equal, cards_valid, clone_cards, Card, CardError, Suit, Value,
};

fn card(value: Value, suit: Suit) -> Card {
    Card::new(value, suit, None, false).expect("a value that a card can have")
}

#[test]
fn numbers_outside_two_to_ten_are_refused() {
    for n in [0u8, 1, 11, 12, 100, 200, 255] {
        let made = Card::new(Value::Num(n), Suit::Hearts, None, false);
        assert_eq!(made, Err(CardError::InvalidValue));
    }
}

#[test]
fn numbers_from_two_to_ten_make_a_card_in_every_suit() {
    for n in 2u8..=10 {
        for suit in [Suit::Clubs, Suit::Diamonds, Suit::Hearts, Suit::Spades] {
            let made = Card::new(Value::Num(n), suit, None, false).expect("a card");
            assert_eq!(made.get_value(), Value::Num(n));
            assert_eq!(made.get_suit(), suit);
            assert_eq!(made.owner(), None);
            assert!(!made.is_selected());
            assert!(made.is_valid());
        }
    }
}

#[test]
fn faces_make_a_card_and_keep_owner_and_mark() {
    for value in [Value::J, Value::Q, Value::K, Value::A] {
        let made = Card::new(value, Suit::Spades, Some("Zebra".to_string()), true).expect("a card");
        assert_eq!(made.get_value(), value);
        assert_eq!(made.owner(), Some("Zebra".to_string()));
        assert!(made.is_selected());
    }
}

#[test]
fn toggling_twice_gives_the_card_back() {
    let start = Card::new(Value::Num(7), Suit::Clubs, Some("Tiger".to_string()), false)
        .expect("a card");
    let once = start.clone().toggle_selected();
    assert_ne!(once, start);
    assert!(once.is_selected());
    let twice = once.toggle_selected();
    assert_eq!(twice, start);
}

#[test]
fn equal_faces_with_different_owners_are_different_cards() {
    let plain = card(Value::K, Suit::Hearts);
    let mine = plain.clone().player("Capybara".to_string());
    let yours = plain.clone().player("Anaconda".to_string());
    assert_ne!(mine, yours);
    assert_ne!(mine, plain);
    assert_eq!(mine, plain.clone().player("Capybara".to_string()));
}

#[test]
fn equal_cards_differ_once_one_is_selected() {
    let a = card(Value::Num(2), Suit::Diamonds);
    let b = a.clone().selected(true);
    assert_ne!(a, b);
    assert_eq!(a, b.selected(false));
}

#[test]
fn builders_change_one_field_each() {
    let start = card(Value::Num(5), Suit::Clubs);
    let other = start.clone().value(Value::Q);
    assert_eq!(other, card(Value::Q, Suit::Clubs));
    let other = start.clone().suit(Suit::Spades);
    assert_eq!(other, card(Value::Num(5), Suit::Spades));
    let other = start.clone().player("Iguana".to_string());
    assert_eq!(other.owner(), Some("Iguana".to_string()));
    assert_eq!(other.get_value(), Value::Num(5));
    let other = start.clone().selected(true);
    assert!(other.is_selected());
    assert_eq!(other.get_suit(), Suit::Clubs);
}

#[test]
fn the_value_builder_takes_a_number_that_no_card_has() {
    let odd = card(Value::A, Suit::Clubs).value(Value::Num(0));
    assert_eq!(odd.get_value(), Value::Num(0));
    assert!(!odd.is_valid());
    assert!(!cards_valid(&vec![card(Value::A, Suit::Clubs), odd]));
}

#[test]
fn the_default_card_is_the_ace_of_diamonds() {
    let made = Card::default();
    assert_eq!(made, card(Value::A, Suit::Diamonds));
}

#[test]
fn values_are_ordered_numbers_first_then_faces() {
    assert!(Value::Num(2) < Value::Num(10));
    assert!(Value::Num(10) < Value::J);
    assert!(Value::J < Value::Q);
    assert!(Value::Q < Value::K);
    assert!(Value::K < Value::A);
}

#[test]
fn labels_are_decimal_numbers_and_face_letters() {
    assert_eq!(Value::Num(2).label(), "2");
    assert_eq!(Value::Num(10).label(), "10");
    assert_eq!(Value::Num(0).label(), "0");
    assert_eq!(Value::Num(99).label(), "99");
    assert_eq!(Value::Num(100).label(), "100");
    assert_eq!(Value::Num(205).label(), "205");
    assert_eq!(Value::Num(255).label(), "255");
    assert_eq!(Value::J.label(), "J");
    assert_eq!(Value::Q.label(), "Q");
    assert_eq!(Value::K.label(), "K");
    assert_eq!(Value::A.label(), "A");
}

#[test]
fn every_label_is_the_number_in_decimal() {
    for n in 0u8..=255 {
        assert_eq!(Value::Num(n).label(), format!("{n}"));
    }
}

#[test]
fn suits_have_names_and_symbols() {
    assert_eq!(Suit::Clubs.name(), "Club");
    assert_eq!(Suit::Diamonds.name(), "Diamonds");
    assert_eq!(Suit::Hearts.name(), "Hearts");
    assert_eq!(Suit::Spades.name(), "Spades");
    assert_eq!(String::from(Suit::Clubs), "Club");
    assert_eq!(String::from(Suit::Spades), "Spades");
    assert_eq!(Suit::Clubs.symbol(), "♣️");
    assert_eq!(Suit::Diamonds.symbol(), "♦️");
    assert_eq!(Suit::Hearts.symbol(), "♥️");
    assert_eq!(Suit::Spades.symbol(), "♠️");
}

#[test]
fn rows_of_cards_compare_card_by_card() {
    let row = vec![card(Value::Num(3), Suit::Clubs), card(Value::A, Suit::Hearts)];
    let copy = clone_cards(&row);
    assert!(cards_equal(&row, &copy));
    let shorter = vec![card(Value::Num(3), Suit::Clubs)];
    assert!(!cards_equal(&row, &shorter));
    let other = vec![card(Value::Num(3), Suit::Clubs), card(Value::A, Suit::Spades)];
    assert!(!cards_equal(&row, &other));
    assert!(cards_valid(&row));
    assert!(card_options_equal(&None, &None));
    assert!(!card_options_equal(&Some(card(Value::J, Suit::Clubs)), &None));
    assert!(card_options_equal(
        &Some(card(Value::J, Suit::Clubs)),
        &Some(card(Value::J, Suit::Clubs))
    ));
}
