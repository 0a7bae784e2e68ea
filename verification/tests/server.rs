use contract_whist::cards::{Card, Suit, Value};
use contract_whist::message::Game;
use contract_whist::player::Player;
use contract_whist::server::{PlayOutcome, Server, ServerError};
use contract_whist::session::{Phase, Verdict};

fn card(value: Value, suit: Suit) -> Card {
    Card::new(value, suit, None, false).expect("a value that a card can have")
}

fn names(server: &Server) -> Vec<String> {
    server.players().into_iter().map(|p| p.name).collect()
}

fn ids(server: &Server) -> Vec<i8> {
    server.players().into_iter().map(|p| p.id).collect()
}

fn game_of_three() -> Server {
    let mut server = Server::new();
    for _ in 0..3 {
        server.add_user().expect("a free seat");
    }
    assert!(server.request_game_start(0));
    let hands = vec![
        vec![card(Value::A, Suit::Hearts), card(Value::Num(2), Suit::Clubs)],
        vec![card(Value::K, Suit::Hearts)],
        vec![card(Value::Q, Suit::Hearts)],
    ];
    assert!(server.new_round(hands, Some(card(Value::Num(9), Suit::Spades))));
    server
}

#[test]
fn test_change_host() {
    let mut server = Server::new();

    let _ = server.add_user();
    let _ = server.add_user();
    server.change_host(1);

    assert_eq!(server.host_id(), 1);
}

#[test]
fn test_too_many_users() {
    let mut sv = Server::new();

    for _i in 0..7 {
        let _ = sv.add_user();
    }

    let ret = sv.add_user();

    assert_eq!(Err(ServerError::TooManyPlayers), ret);
}

#[test]
fn a_fresh_session_is_an_empty_lobby() {
    let server = Server::new();
    assert_eq!(server.len(), 0);
    assert_eq!(server.phase(), Phase::Lobby);
    assert_eq!(server.host_id(), 0);
    assert!(server.table().is_empty());
    assert!(!server.has_player(0));
}

#[test]
fn players_get_the_numbers_zero_to_six_in_order_of_arrival() {
    let mut server = Server::new();
    for expected in 0i8..7 {
        assert_eq!(server.add_user(), Ok(expected));
        assert_eq!(server.len(), expected as usize + 1);
    }
    assert_eq!(ids(&server), vec![0, 1, 2, 3, 4, 5, 6]);
    assert_eq!(
        names(&server),
        vec!["Capybara", "Anaconda", "Axolotl", "Iguana", "Zebra", "Gorilla", "Tiger"]
    );
}

#[test]
fn the_eighth_player_is_refused_and_the_roster_stays() {
    let mut server = Server::new();
    for _ in 0..7 {
        server.add_user().expect("a free seat");
    }
    let before = server.players();
    for _ in 0..3 {
        assert_eq!(server.add_user(), Err(ServerError::TooManyPlayers));
        assert_eq!(server.len(), 7);
        assert_eq!(server.players(), before);
    }
}

#[test]
fn the_refusal_reads_as_it_always_did() {
    assert_eq!(ServerError::TooManyPlayers.message(), "too many players. max is 7");
}

#[test]
fn a_new_name_replaces_the_old_one_and_nothing_else() {
    let mut server = Server::new();
    for _ in 0..3 {
        server.add_user().expect("a free seat");
    }
    server.change_name(1, "Marmot".to_string());
    assert_eq!(names(&server), vec!["Capybara", "Marmot", "Axolotl"]);
    assert_eq!(ids(&server), vec![0, 1, 2]);
    assert_eq!(server.phase(), Phase::Lobby);
}

#[test]
fn only_the_host_starts_the_game_and_only_once() {
    let mut server = Server::new();
    for _ in 0..3 {
        server.add_user().expect("a free seat");
    }
    assert!(!server.request_game_start(1));
    assert_eq!(server.phase(), Phase::Lobby);
    assert!(!server.request_game_start(2));
    assert!(!server.request_game_start(5));
    assert!(!server.request_game_start(-1));
    assert_eq!(server.phase(), Phase::Lobby);
    assert!(server.request_game_start(0));
    assert_eq!(server.phase(), Phase::InGame);
    assert!(!server.request_game_start(0));
    assert_eq!(server.phase(), Phase::InGame);
}

#[test]
fn nobody_starts_an_empty_session() {
    let mut server = Server::new();
    assert!(!server.request_game_start(0));
    assert_eq!(server.phase(), Phase::Lobby);
}

#[test]
fn a_player_who_leaves_frees_the_number() {
    let mut server = Server::new();
    for _ in 0..4 {
        server.add_user().expect("a free seat");
    }
    assert!(server.remove_user(1));
    assert!(!server.remove_user(1));
    assert_eq!(ids(&server), vec![0, 2, 3]);
    assert!(!server.has_player(1));
    assert_eq!(server.add_user(), Ok(1));
    assert_eq!(ids(&server), vec![0, 2, 3, 1]);
    assert_eq!(names(&server), vec!["Capybara", "Axolotl", "Iguana", "Anaconda"]);
    assert_eq!(server.add_user(), Ok(4));
}

#[test]
fn no_two_players_ever_share_a_number() {
    let mut server = Server::new();
    for _ in 0..7 {
        server.add_user().expect("a free seat");
    }
    for gone in [3i8, 0, 6] {
        assert!(server.remove_user(gone));
    }
    for _ in 0..3 {
        server.add_user().expect("a free seat");
    }
    let mut seen = ids(&server);
    seen.sort();
    assert_eq!(seen, vec![0, 1, 2, 3, 4, 5, 6]);
    assert_eq!(server.add_user(), Err(ServerError::TooManyPlayers));
}

#[test]
fn the_game_cannot_start_once_the_host_has_left() {
    let mut server = Server::new();
    for _ in 0..3 {
        server.add_user().expect("a free seat");
    }
    assert!(server.remove_user(0));
    assert_eq!(server.add_user(), Ok(0));
    assert!(!server.request_game_start(0));
    assert!(!server.request_game_start(1));
    assert_eq!(server.phase(), Phase::Lobby);
    server.change_host(1);
    assert!(server.request_game_start(1));
    assert_eq!(server.phase(), Phase::InGame);
}

#[test]
fn a_deal_is_taken_only_in_the_game_with_a_hand_for_each_seat() {
    let mut server = Server::new();
    for _ in 0..2 {
        server.add_user().expect("a free seat");
    }
    let two = || vec![vec![card(Value::A, Suit::Clubs)], vec![card(Value::K, Suit::Clubs)]];
    assert!(!server.new_round(two(), None));
    assert!(server.request_game_start(0));
    assert!(!server.new_round(vec![vec![card(Value::A, Suit::Clubs)]], None));
    let bad = card(Value::A, Suit::Clubs).value(Value::Num(1));
    assert!(!server.new_round(vec![vec![bad.clone()], vec![]], None));
    assert!(!server.new_round(two(), Some(bad)));
    assert_eq!(server.game_for(0).expect("a player").hand, Vec::<Card>::new());
    assert!(server.new_round(two(), Some(card(Value::Num(4), Suit::Hearts))));
    let seen = server.game_for(1).expect("a player");
    assert_eq!(
        seen,
        Game {
            hand: vec![card(Value::K, Suit::Clubs)],
            table: vec![],
            triumph: Some(card(Value::Num(4), Suit::Hearts)),
        }
    );
    assert!(server.game_for(2).is_none());
}

#[test]
fn a_play_out_of_turn_is_turned_down_and_changes_nothing() {
    let mut server = game_of_three();
    let outcome = server.submit_play(
        1,
        card(Value::K, Suit::Hearts),
        Verdict::Illegal("not your turn".to_string()),
    );
    assert!(matches!(outcome, PlayOutcome::Rejected(reason) if reason == "not your turn"));
    assert!(server.table().is_empty());
    assert_eq!(server.game_for(1).expect("a player").hand, vec![card(Value::K, Suit::Hearts)]);
}

#[test]
fn a_legal_play_moves_the_card_from_the_hand_to_the_table() {
    let mut server = game_of_three();
    let outcome = server.submit_play(0, card(Value::A, Suit::Hearts), Verdict::Legal);
    assert!(matches!(outcome, PlayOutcome::Accepted));
    assert_eq!(server.table(), vec![card(Value::A, Suit::Hearts)]);
    assert_eq!(server.game_for(0).expect("a player").hand, vec![card(Value::Num(2), Suit::Clubs)]);
    assert_eq!(server.game_for(1).expect("a player").hand, vec![card(Value::K, Suit::Hearts)]);
    assert_eq!(server.game_for(2).expect("a player").table, vec![card(Value::A, Suit::Hearts)]);
}

#[test]
fn plays_are_turned_down_for_each_reason_in_turn() {
    let mut lobby = Server::new();
    lobby.add_user().expect("a free seat");
    let early = lobby.submit_play(0, card(Value::A, Suit::Hearts), Verdict::Legal);
    assert!(matches!(early, PlayOutcome::Rejected(r) if r == "the game has not started"));

    let mut server = game_of_three();
    let stranger = server.submit_play(5, card(Value::A, Suit::Hearts), Verdict::Legal);
    assert!(matches!(stranger, PlayOutcome::Rejected(r) if r == "unknown player"));
    let absent = server.submit_play(1, card(Value::A, Suit::Hearts), Verdict::Legal);
    assert!(matches!(absent, PlayOutcome::Rejected(r) if r == "card not in hand"));
    let marked = server.submit_play(0, card(Value::A, Suit::Hearts).selected(true), Verdict::Legal);
    assert!(matches!(marked, PlayOutcome::Rejected(r) if r == "card not in hand"));
    let owned = server.submit_play(
        0,
        card(Value::A, Suit::Hearts).player("Capybara".to_string()),
        Verdict::Legal,
    );
    assert!(matches!(owned, PlayOutcome::Rejected(r) if r == "card not in hand"));
    assert!(server.table().is_empty());
}

#[test]
fn a_card_played_for_a_player_out_of_time_needs_no_verdict() {
    let mut server = game_of_three();
    assert!(!server.handle_timeout(1, card(Value::A, Suit::Hearts)));
    assert!(!server.handle_timeout(4, card(Value::K, Suit::Hearts)));
    assert!(server.table().is_empty());
    assert!(server.handle_timeout(1, card(Value::K, Suit::Hearts)));
    assert_eq!(server.table(), vec![card(Value::K, Suit::Hearts)]);
    assert!(server.game_for(1).expect("a player").hand.is_empty());
    assert!(!server.handle_timeout(1, card(Value::K, Suit::Hearts)));

    let mut lobby = Server::new();
    lobby.add_user().expect("a free seat");
    assert!(!lobby.handle_timeout(0, card(Value::K, Suit::Hearts)));
}

#[test]
fn seats_are_found_by_number() {
    let mut server = Server::new();
    for _ in 0..3 {
        server.add_user().expect("a free seat");
    }
    server.remove_user(0);
    assert_eq!(server.find_seat(1), 0);
    assert_eq!(server.find_seat(2), 1);
    assert_eq!(server.find_seat(0), 2);
    assert_eq!(server.players()[0], Player::new(1));
}
