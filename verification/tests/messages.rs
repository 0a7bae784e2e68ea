use contract_whist::cards::{Card, Suit, Value};
use contract_whist::message::{Game, Message};
use contract_whist::player::{Player, MAX_PLAYERS};

fn card(value: Value, suit: Suit) -> Card {
    Card::new(value, suit, None, false).expect("a value that a card can have")
}

#[test]
fn players_get_their_names_by_number() {
    let names = ["Capybara", "Anaconda", "Axolotl", "Iguana", "Zebra", "Gorilla", "Tiger"];
    assert_eq!(names.len(), MAX_PLAYERS);
    for (id, name) in names.iter().enumerate() {
        let player = Player::new(id as i8);
        assert_eq!(player.id, id as i8);
        assert_eq!(player.name, *name);
    }
    for id in [7i8, 8, 100, 127, -1, -128] {
        assert_eq!(Player::new(id).name, "Error???");
        assert_eq!(Player::new(id).id, id);
    }
}

#[test]
fn the_default_player_has_no_name() {
    let player = Player::default();
    assert_eq!(player.name, "");
    assert_eq!(player.id, 0);
    assert_ne!(player, Player::new(0));
    assert_eq!(player.clone(), player);
}

#[test]
fn messages_are_equal_when_kind_and_contents_are() {
    let game = || Game {
        hand: vec![card(Value::Num(3), Suit::Clubs)],
        table: vec![],
        triumph: Some(card(Value::A, Suit::Hearts)),
    };
    let all = || {
        vec![
            Message::GameStart,
            Message::Rename("a".to_string()),
            Message::Play(card(Value::J, Suit::Clubs)),
            Message::NewRound(game()),
            Message::RequestPlay,
            Message::TimeOut(card(Value::J, Suit::Clubs)),
            Message::Okay,
            Message::Error("a".to_string()),
        ]
    };
    for (i, a) in all().iter().enumerate() {
        for (j, b) in all().iter().enumerate() {
            assert_eq!(a == b, i == j);
        }
        assert_eq!(a.clone(), *a);
    }
    assert_ne!(Message::Rename("a".to_string()), Message::Rename("b".to_string()));
    assert_ne!(
        Message::Play(card(Value::J, Suit::Clubs)),
        Message::Play(card(Value::J, Suit::Spades))
    );
    let mut other = game();
    other.table.push(card(Value::Num(2), Suit::Clubs));
    assert_ne!(Message::NewRound(game()), Message::NewRound(other));
    let mut other = game();
    other.triumph = None;
    assert_ne!(game(), other);
}
