use contract_whist::cards::{Card, Suit, Value};
use contract_whist::message::{Game, Message};
use contract_whist::requests::{Outcome, Recipient, Request};
use contract_whist::server::Server;
use contract_whist::session::{Phase, Verdict};

fn card(value: Value, suit: Suit) -> Card {
    Card::new(value, suit, None, false).expect("a value that a card can have")
}

fn is_quiet(outcome: &Outcome) -> bool {
    outcome.admitted.is_none() && outcome.reply.is_none() && outcome.pushes.is_empty()
}

fn only_push(outcome: &Outcome) -> (Recipient, Message) {
    assert_eq!(outcome.pushes.len(), 1);
    (outcome.pushes[0].to, outcome.pushes[0].message.clone())
}

fn three_in_the_lobby() -> Server {
    let mut server = Server::new();
    for expected in 0i8..3 {
        let outcome = server.handle(Request::Join);
        assert_eq!(outcome.admitted, Some(expected));
        assert!(outcome.reply.is_none());
        assert!(outcome.pushes.is_empty());
    }
    server
}

fn deal() -> Request {
    Request::Deal(
        vec![
            vec![card(Value::A, Suit::Hearts), card(Value::Num(2), Suit::Clubs)],
            vec![card(Value::K, Suit::Hearts)],
            vec![card(Value::Q, Suit::Hearts)],
        ],
        Some(card(Value::Num(9), Suit::Spades)),
    )
}

#[test]
fn three_join_the_host_starts_and_the_first_trick_begins() {
    let mut server = three_in_the_lobby();

    let start = server.handle(Request::Start(0));
    assert_eq!(server.phase(), Phase::InGame);
    assert!(start.reply.is_none());
    assert_eq!(only_push(&start), (Recipient::All, Message::GameStart));

    let dealt = server.handle(deal());
    assert_eq!(dealt.pushes.len(), 3);
    assert_eq!(dealt.pushes[1].to, Recipient::One(1));
    assert_eq!(
        dealt.pushes[1].message,
        Message::NewRound(Game {
            hand: vec![card(Value::K, Suit::Hearts)],
            table: vec![],
            triumph: Some(card(Value::Num(9), Suit::Spades)),
        })
    );

    let early = server.handle(Request::Play(
        1,
        card(Value::K, Suit::Hearts),
        Verdict::Illegal("not your turn".to_string()),
    ));
    assert_eq!(early.reply, Some(Message::Error("not your turn".to_string())));
    assert!(early.pushes.is_empty());
    assert!(server.table().is_empty());

    let played = server.handle(Request::Play(0, card(Value::A, Suit::Hearts), Verdict::Legal));
    assert_eq!(played.reply, Some(Message::Okay));
    assert_eq!(only_push(&played), (Recipient::All, Message::Play(card(Value::A, Suit::Hearts))));
    assert_eq!(server.table(), vec![card(Value::A, Suit::Hearts)]);
    assert_eq!(
        server.game_for(0).expect("a player").hand,
        vec![card(Value::Num(2), Suit::Clubs)]
    );
}

#[test]
fn the_eighth_newcomer_is_told_that_the_session_is_full() {
    let mut server = Server::new();
    for _ in 0..7 {
        assert!(server.handle(Request::Join).admitted.is_some());
    }
    let before = server.players();
    let outcome = server.handle(Request::Join);
    assert_eq!(outcome.admitted, None);
    assert_eq!(outcome.reply, Some(Message::Error("too many players. max is 7".to_string())));
    assert!(outcome.pushes.is_empty());
    assert_eq!(server.len(), 7);
    assert_eq!(server.players(), before);
}

#[test]
fn a_start_from_anybody_but_the_host_is_passed_over_in_silence() {
    let mut server = three_in_the_lobby();
    for id in [1i8, 2, 9, -3] {
        let outcome = server.handle(Request::Start(id));
        assert!(is_quiet(&outcome));
        assert_eq!(server.phase(), Phase::Lobby);
    }
    let again = {
        server.handle(Request::Start(0));
        server.handle(Request::Start(0))
    };
    assert!(is_quiet(&again));
    assert_eq!(server.phase(), Phase::InGame);
}

#[test]
fn a_new_name_is_confirmed_to_the_player_and_shown_to_the_others() {
    let mut server = three_in_the_lobby();
    let outcome = server.handle(Request::Rename(2, "Marmot".to_string()));
    assert_eq!(outcome.reply, Some(Message::Okay));
    assert_eq!(
        only_push(&outcome),
        (Recipient::AllBut(2), Message::Rename("Marmot".to_string()))
    );
    assert_eq!(server.players()[2].name, "Marmot");

    let stranger = server.handle(Request::Rename(6, "Nobody".to_string()));
    assert_eq!(stranger.reply, Some(Message::Error("unknown player".to_string())));
    assert!(stranger.pushes.is_empty());
    assert_eq!(server.len(), 3);
}

#[test]
fn a_player_who_leaves_is_taken_out_without_a_word() {
    let mut server = three_in_the_lobby();
    assert!(is_quiet(&server.handle(Request::Leave(1))));
    assert_eq!(server.len(), 2);
    assert!(is_quiet(&server.handle(Request::Leave(1))));
    assert_eq!(server.len(), 2);
    assert_eq!(server.handle(Request::Join).admitted, Some(1));
}

#[test]
fn a_card_played_for_a_player_out_of_time_is_shown_to_everybody() {
    let mut server = three_in_the_lobby();
    server.handle(Request::Start(0));
    server.handle(deal());
    let forced = server.handle(Request::Timeout(2, card(Value::Q, Suit::Hearts)));
    assert!(forced.reply.is_none());
    assert_eq!(only_push(&forced), (Recipient::All, Message::TimeOut(card(Value::Q, Suit::Hearts))));
    assert_eq!(server.table(), vec![card(Value::Q, Suit::Hearts)]);
    let again = server.handle(Request::Timeout(2, card(Value::Q, Suit::Hearts)));
    assert!(is_quiet(&again));
}

#[test]
fn a_prompt_reaches_the_player_whose_turn_it_is() {
    let mut server = three_in_the_lobby();
    assert!(is_quiet(&server.handle(Request::Prompt(1))));
    server.handle(Request::Start(0));
    let prompt = server.handle(Request::Prompt(1));
    assert_eq!(only_push(&prompt), (Recipient::One(1), Message::RequestPlay));
    assert!(is_quiet(&server.handle(Request::Prompt(4))));
}

#[test]
fn a_deal_before_the_game_or_of_the_wrong_size_is_passed_over() {
    let mut server = three_in_the_lobby();
    assert!(is_quiet(&server.handle(deal())));
    server.handle(Request::Start(0));
    assert!(is_quiet(&server.handle(Request::Deal(vec![vec![], vec![]], None))));
    assert_eq!(server.handle(deal()).pushes.len(), 3);
}

#[test]
fn messages_from_players_are_read_as_requests() {
    let start = Request::from_message(4, Message::GameStart, Verdict::Legal);
    assert!(matches!(start, Some(Request::Start(4))));
    let rename = Request::from_message(4, Message::Rename("Marmot".to_string()), Verdict::Legal);
    assert!(matches!(rename, Some(Request::Rename(4, name)) if name == "Marmot"));
    let play = Request::from_message(
        4,
        Message::Play(card(Value::J, Suit::Clubs)),
        Verdict::Illegal("not your turn".to_string()),
    );
    match play {
        Some(Request::Play(id, offered, Verdict::Illegal(reason))) => {
            assert_eq!(id, 4);
            assert_eq!(offered, card(Value::J, Suit::Clubs));
            assert_eq!(reason, "not your turn");
        }
        other => panic!("an offered card was due, not {other:?}"),
    }
    for message in [
        Message::RequestPlay,
        Message::Okay,
        Message::Error("no".to_string()),
        Message::TimeOut(card(Value::J, Suit::Clubs)),
        Message::NewRound(Game { hand: vec![], table: vec![], triumph: None }),
    ] {
        assert!(Request::from_message(4, message, Verdict::Legal).is_none());
    }
}

#[test]
fn a_row_of_requests_does_what_the_requests_do_one_by_one() {
    let row = || {
        vec![
            Request::Join,
            Request::Join,
            Request::Rename(1, "Marmot".to_string()),
            Request::Start(1),
            Request::Start(0),
            Request::Join,
            Request::Leave(0),
        ]
    };
    let mut at_once = Server::new();
    let outcomes = at_once.handle_all(row());
    let mut one_by_one = Server::new();
    let mut expected = Vec::new();
    for request in row() {
        expected.push(one_by_one.handle(request));
    }
    assert_eq!(outcomes.len(), expected.len());
    for (got, want) in outcomes.iter().zip(expected.iter()) {
        assert_eq!(got.admitted, want.admitted);
        assert_eq!(got.reply, want.reply);
        assert_eq!(got.pushes.len(), want.pushes.len());
        for (a, b) in got.pushes.iter().zip(want.pushes.iter()) {
            assert_eq!(a.to, b.to);
            assert_eq!(a.message, b.message);
        }
    }
    assert_eq!(at_once.players(), one_by_one.players());
    assert_eq!(at_once.phase(), Phase::InGame);
    assert_eq!(at_once.len(), 2);
    assert_eq!(outcomes[4].pushes[0].message, Message::GameStart);
}

#[test]
fn two_requests_in_either_order_give_what_that_order_gives() {
    let mut first = Server::new();
    first.handle_all(vec![Request::Join, Request::Join]);
    first.handle_all(vec![Request::Rename(0, "Ant".to_string()), Request::Leave(0)]);
    assert_eq!(first.players().len(), 1);
    assert_eq!(first.players()[0].name, "Anaconda");

    let mut second = Server::new();
    second.handle_all(vec![Request::Join, Request::Join]);
    let outcomes =
        second.handle_all(vec![Request::Leave(0), Request::Rename(0, "Ant".to_string())]);
    assert_eq!(outcomes[1].reply, Some(Message::Error("unknown player".to_string())));
    assert_eq!(second.players(), first.players());
}
