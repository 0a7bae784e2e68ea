//! The vocabulary that clients and the session exchange, one message per
//! frame, and the view of a game that a message can carry.

use vstd::prelude::*;
use crate::cards::{
    card_option_view, card_options_equal, cards_equal, cards_view, clone_card_option, clone_cards,
    Card, CardView,
};

verus! {

/// A game as one player sees it, with each card as what it is.
pub struct GameView {
    pub hand: Seq<CardView>,
    pub table: Seq<CardView>,
    pub triumph: Option<CardView>,
}

/// What one player sees of a game: the own hand, the cards played in the
/// current trick, and the card that sets the triumph suit.
#[derive(Debug)]
pub struct Game {
    pub hand: Vec<Card>,
    pub table: Vec<Card>,
    pub triumph: Option<Card>,
}

impl View for Game {
    type V = GameView;

    open spec fn view(&self) -> GameView {
        GameView {
            hand: cards_view(self.hand@),
            table: cards_view(self.table@),
            triumph: card_option_view(self.triumph),
        }
    }
}

impl Clone for Game {
    fn clone(&self) -> (r: Game)
        ensures
            r@ == self@,
    {
        Game {
            hand: clone_cards(&self.hand),
            table: clone_cards(&self.table),
            triumph: clone_card_option(&self.triumph),
        }
    }
}

impl PartialEq for Game {
    fn eq(&self, other: &Game) -> (r: bool) {
        cards_equal(&self.hand, &other.hand) && cards_equal(&self.table, &other.table)
            && card_options_equal(&self.triumph, &other.triumph)
    }
}

impl vstd::std_specs::cmp::PartialEqSpecImpl for Game {
    open spec fn obeys_eq_spec() -> bool {
        true
    }

    open spec fn eq_spec(&self, other: &Game) -> bool {
        self@ == other@
    }
}

impl Eq for Game {

}

/// A message with its texts as sequences of characters and its cards as what
/// they are.
pub enum MessageView {
    GameStart,
    Rename(Seq<char>),
    Play(CardView),
    NewRound(GameView),
    RequestPlay,
    TimeOut(CardView),
    Okay,
    Error(Seq<char>),
}

/// One message of the wire vocabulary.
///
/// From a client, `GameStart` asks for the game to begin, `Rename` asks for a
/// new name and `Play` offers a card. From the session, `GameStart` says that
/// the game has begun, `NewRound` hands out a fresh view of the game,
/// `RequestPlay` asks the receiver to play, `Play` and `TimeOut` show a card
/// that reached the table, and `Okay` and `Error` answer a request.
#[derive(Debug)]
pub enum Message {
    GameStart,
    Rename(String),
    Play(Card),
    NewRound(Game),
    RequestPlay,
    TimeOut(Card),
    Okay,
    Error(String),
}

impl View for Message {
    type V = MessageView;

    open spec fn view(&self) -> MessageView {
        match self {
            Message::GameStart => MessageView::GameStart,
            Message::Rename(name) => MessageView::Rename(name@),
            Message::Play(card) => MessageView::Play(card@),
            Message::NewRound(game) => MessageView::NewRound(game@),
            Message::RequestPlay => MessageView::RequestPlay,
            Message::TimeOut(card) => MessageView::TimeOut(card@),
            Message::Okay => MessageView::Okay,
            Message::Error(reason) => MessageView::Error(reason@),
        }
    }
}

impl Clone for Message {
    fn clone(&self) -> (r: Message)
        ensures
            r@ == self@,
    {
        match self {
            Message::GameStart => Message::GameStart,
            Message::Rename(name) => Message::Rename(name.clone()),
            Message::Play(card) => Message::Play(card.clone()),
            Message::NewRound(game) => Message::NewRound(game.clone()),
            Message::RequestPlay => Message::RequestPlay,
            Message::TimeOut(card) => Message::TimeOut(card.clone()),
            Message::Okay => Message::Okay,
            Message::Error(reason) => Message::Error(reason.clone()),
        }
    }
}

impl PartialEq for Message {
    fn eq(&self, other: &Message) -> (r: bool) {
        match self {
            Message::GameStart => matches!(other, Message::GameStart),
            Message::Rename(a) => match other {
                Message::Rename(b) => a.eq(b),
                _ => false,
            },
            Message::Play(a) => match other {
                Message::Play(b) => a.eq(b),
                _ => false,
            },
            Message::NewRound(a) => match other {
                Message::NewRound(b) => a.eq(b),
                _ => false,
            },
            Message::RequestPlay => matches!(other, Message::RequestPlay),
            Message::TimeOut(a) => match other {
                Message::TimeOut(b) => a.eq(b),
                _ => false,
            },
            Message::Okay => matches!(other, Message::Okay),
            Message::Error(a) => match other {
                Message::Error(b) => a.eq(b),
                _ => false,
            },
        }
    }
}

impl vstd::std_specs::cmp::PartialEqSpecImpl for Message {
    open spec fn obeys_eq_spec() -> bool {
        true
    }

    open spec fn eq_spec(&self, other: &Message) -> bool {
        self@ == other@
    }
}

impl Eq for Message {

}

} // verus!
