//! The requests that reach a session, one at a time, and what comes back.
//!
//! `step` says what one request does to a session and what is sent because
//! of it; `run` applies a row of requests in order. `Server::handle` and
//! `Server::handle_all` do exactly that.

use vstd::prelude::*;
use vstd::string::StringExecFns;
use crate::cards::{card_option_view, Card, CardView};
use crate::message::{Message, MessageView};
use crate::player::{players_view, Id, MAX_PLAYERS};
use crate::server::{hands_view, PlayOutcome, Server, ServerError};
use crate::session::{lemma_has_player, Phase, ServerView, Verdict, VerdictView};

verus! {

/// Who gets a message that the session sends of its own accord.
#[derive(Debug, PartialEq, Eq, Clone, Copy, Structural)]
pub enum Recipient {
    /// The player with this number.
    One(Id),
    /// Everybody but the player with this number.
    AllBut(Id),
    /// Everybody.
    All,
}

/// A message on its way, with its contents as mathematics.
pub struct DeliveryView {
    pub to: Recipient,
    pub message: MessageView,
}

/// A message that the session sends of its own accord, and to whom.
#[derive(Debug)]
pub struct Delivery {
    pub to: Recipient,
    pub message: Message,
}

impl View for Delivery {
    type V = DeliveryView;

    open spec fn view(&self) -> DeliveryView {
        DeliveryView { to: self.to, message: self.message@ }
    }
}

/// The deliveries of a row, each as what it is.
pub open spec fn deliveries_view(pushes: Seq<Delivery>) -> Seq<DeliveryView> {
    pushes.map_values(|d: Delivery| d@)
}

/// An optional message as what it is.
pub open spec fn message_option_view(message: Option<Message>) -> Option<MessageView> {
    match message {
        Some(m) => Some(m@),
        None => None,
    }
}

/// What a request brought about, as mathematics.
pub struct OutcomeView {
    pub admitted: Option<Id>,
    pub reply: Option<MessageView>,
    pub pushes: Seq<DeliveryView>,
}

/// What a request brought about, besides the change to the session.
#[derive(Debug)]
pub struct Outcome {
    /// The number given to a newcomer who was let in.
    pub admitted: Option<Id>,
    /// The answer for whoever made the request, and for nobody else.
    pub reply: Option<Message>,
    /// What the session sends to players because of the request, in order.
    pub pushes: Vec<Delivery>,
}

impl View for Outcome {
    type V = OutcomeView;

    open spec fn view(&self) -> OutcomeView {
        OutcomeView {
            admitted: self.admitted,
            reply: message_option_view(self.reply),
            pushes: deliveries_view(self.pushes@),
        }
    }
}

/// The outcomes of a row, each as what it is.
pub open spec fn outcomes_view(outcomes: Seq<Outcome>) -> Seq<OutcomeView> {
    outcomes.map_values(|o: Outcome| o@)
}

/// A request as mathematics.
pub enum RequestView {
    Join,
    Leave(Id),
    Rename(Id, Seq<char>),
    Start(Id),
    Play(Id, CardView, VerdictView),
    Timeout(Id, CardView),
    Deal(Seq<Seq<CardView>>, Option<CardView>),
    Prompt(Id),
}

/// One request to the session.
#[derive(Debug)]
pub enum Request {
    /// A connection was accepted and asks for a seat.
    Join,
    /// The connection of this player has ended.
    Leave(Id),
    /// This player asks for a new name.
    Rename(Id, String),
    /// This player asks for the game to begin.
    Start(Id),
    /// This player offers a card; the rules have said what they think of it.
    Play(Id, Card, Verdict),
    /// This player's time has run out and the session plays the card.
    Timeout(Id, Card),
    /// A fresh deal: one hand for each seat, and the triumph card.
    Deal(Vec<Vec<Card>>, Option<Card>),
    /// The rules say that it is this player's turn.
    Prompt(Id),
}

impl View for Request {
    type V = RequestView;

    open spec fn view(&self) -> RequestView {
        match self {
            Request::Join => RequestView::Join,
            Request::Leave(id) => RequestView::Leave(*id),
            Request::Rename(id, name) => RequestView::Rename(*id, name@),
            Request::Start(id) => RequestView::Start(*id),
            Request::Play(id, card, verdict) => RequestView::Play(*id, card@, verdict@),
            Request::Timeout(id, card) => RequestView::Timeout(*id, card@),
            Request::Deal(hands, triumph) => RequestView::Deal(
                hands_view(hands@),
                card_option_view(*triumph),
            ),
            Request::Prompt(id) => RequestView::Prompt(*id),
        }
    }
}

/// The requests of a row, each as what it is.
pub open spec fn requests_view(requests: Seq<Request>) -> Seq<RequestView> {
    requests.map_values(|r: Request| r@)
}

/// The request that a message from the player with the number `id` stands
/// for, if it is one that a player can make. The verdict of the rules goes
/// with an offered card and is not looked at otherwise.
pub open spec fn request_of(id: Id, message: MessageView, verdict: VerdictView) -> Option<
    RequestView,
> {
    match message {
        MessageView::GameStart => Some(RequestView::Start(id)),
        MessageView::Rename(name) => Some(RequestView::Rename(id, name)),
        MessageView::Play(card) => Some(RequestView::Play(id, card, verdict)),
        _ => None,
    }
}

/// No answer, nothing sent.
pub open spec fn quiet() -> OutcomeView {
    OutcomeView { admitted: None, reply: None, pushes: Seq::empty() }
}

/// An answer for the requester alone.
pub open spec fn answer(message: MessageView) -> OutcomeView {
    OutcomeView { admitted: None, reply: Some(message), pushes: Seq::empty() }
}

/// One message sent, and no answer.
pub open spec fn notice(to: Recipient, message: MessageView) -> OutcomeView {
    OutcomeView { admitted: None, reply: None, pushes: seq![DeliveryView { to, message }] }
}

/// An answer for the requester and one message sent.
pub open spec fn answer_and_notice(
    reply: MessageView,
    to: Recipient,
    message: MessageView,
) -> OutcomeView {
    OutcomeView { admitted: None, reply: Some(reply), pushes: seq![DeliveryView { to, message }] }
}

/// What is sent after a deal: to each player, seat by seat, the own view of
/// the game.
pub open spec fn round_pushes(s: ServerView) -> Seq<DeliveryView> {
    Seq::new(
        s.seats.len(),
        |i: int|
            DeliveryView {
                to: Recipient::One(s.seats[i].player.id),
                message: MessageView::NewRound(s.game_of(s.seats[i].player.id)),
            },
    )
}

/// What one request does: the session afterwards, and what comes back.
///
/// A newcomer gets a seat and a number, or the answer that the session is
/// full. A player who leaves is taken out without a word. A new name is
/// confirmed to the player and shown to the others. The game begins for
/// everybody when the host asks for it in the lobby; any other such request
/// is passed over in silence. An offered card is confirmed to the player and
/// shown to everybody, or turned down with the reason to the player alone. A
/// card played for a player out of time is shown to everybody. A deal goes
/// to each player as the own view of the game. A prompt goes to the player
/// whose turn it is. What is not followed changes nothing.
pub open spec fn step(s: ServerView, request: RequestView) -> (ServerView, OutcomeView) {
    match request {
        RequestView::Join => if s.seats.len() < MAX_PLAYERS {
            (s.joined(), OutcomeView { admitted: Some(s.free_id()), ..quiet() })
        } else {
            (s, answer(MessageView::Error(ServerError::TooManyPlayers.text())))
        },
        RequestView::Leave(id) => (s.left(id), quiet()),
        RequestView::Rename(id, name) => if s.has_player(id) {
            (
                s.renamed(id, name),
                answer_and_notice(
                    MessageView::Okay,
                    Recipient::AllBut(id),
                    MessageView::Rename(name),
                ),
            )
        } else {
            (s, answer(MessageView::Error("unknown player"@)))
        },
        RequestView::Start(id) => if s.may_start(id) {
            (s.started(), notice(Recipient::All, MessageView::GameStart))
        } else {
            (s, quiet())
        },
        RequestView::Play(id, card, verdict) => match s.refusal(id, card, verdict) {
            Some(reason) => (s, answer(MessageView::Error(reason))),
            None => (
                s.played(id, card),
                answer_and_notice(MessageView::Okay, Recipient::All, MessageView::Play(card)),
            ),
        },
        RequestView::Timeout(id, card) => if s.may_force(id, card) {
            (s.played(id, card), notice(Recipient::All, MessageView::TimeOut(card)))
        } else {
            (s, quiet())
        },
        RequestView::Deal(hands, triumph) => if s.may_deal(hands, triumph) {
            (
                s.dealt(hands, triumph),
                OutcomeView { pushes: round_pushes(s.dealt(hands, triumph)), ..quiet() },
            )
        } else {
            (s, quiet())
        },
        RequestView::Prompt(id) => if s.phase == Phase::InGame && s.has_player(id) {
            (s, notice(Recipient::One(id), MessageView::RequestPlay))
        } else {
            (s, quiet())
        },
    }
}

/// The session after a row of requests, applied one after the other.
pub open spec fn run(s: ServerView, requests: Seq<RequestView>) -> ServerView
    decreases requests.len(),
{
    if requests.len() == 0 {
        s
    } else {
        step(run(s, requests.drop_last()), requests.last()).0
    }
}

/// What comes back for the request at place `k` of a row.
pub open spec fn outcome_at(s: ServerView, requests: Seq<RequestView>, k: int) -> OutcomeView {
    step(run(s, requests.take(k)), requests[k]).1
}

/// What comes back for each request of a row.
pub open spec fn outcomes(s: ServerView, requests: Seq<RequestView>) -> Seq<OutcomeView> {
    Seq::new(requests.len(), |k: int| outcome_at(s, requests, k))
}

impl Request {
    /// Reads a message from the player with the number `id` as a request.
    /// `GameStart`, `Rename` and `Play` are requests; the verdict of the
    /// rules goes with an offered card. The rest of the vocabulary is what
    /// the session itself says, and from a player it is no request.
    pub fn from_message(id: Id, message: Message, verdict: Verdict) -> (r: Option<Request>)
        ensures
            match r {
                Some(request) => request_of(id, message@, verdict@) == Some(request@),
                None => request_of(id, message@, verdict@) is None,
            },
    {
        match message {
            Message::GameStart => Some(Request::Start(id)),
            Message::Rename(name) => Some(Request::Rename(id, name)),
            Message::Play(card) => Some(Request::Play(id, card, verdict)),
            _ => None,
        }
    }
}

impl Outcome {
    fn quiet() -> (r: Outcome)
        ensures
            r@ == quiet(),
    {
        let r = Outcome { admitted: None, reply: None, pushes: Vec::new() };
        assert(r@.pushes =~= Seq::<DeliveryView>::empty());
        r
    }

    fn answer(message: Message) -> (r: Outcome)
        ensures
            r@ == answer(message@),
    {
        let r = Outcome { admitted: None, reply: Some(message), pushes: Vec::new() };
        assert(r@.pushes =~= Seq::<DeliveryView>::empty());
        r
    }

    fn notice(to: Recipient, message: Message) -> (r: Outcome)
        ensures
            r@ == notice(to, message@),
    {
        let mut pushes: Vec<Delivery> = Vec::new();
        pushes.push(Delivery { to, message });
        let r = Outcome { admitted: None, reply: None, pushes };
        assert(r@.pushes =~= seq![DeliveryView { to, message: message@ }]);
        r
    }

    fn answer_and_notice(reply: Message, to: Recipient, message: Message) -> (r: Outcome)
        ensures
            r@ == answer_and_notice(reply@, to, message@),
    {
        let mut pushes: Vec<Delivery> = Vec::new();
        pushes.push(Delivery { to, message });
        let r = Outcome { admitted: None, reply: Some(reply), pushes };
        assert(r@.pushes =~= seq![DeliveryView { to, message: message@ }]);
        r
    }
}

impl Server {
    fn round_pushes(&self) -> (r: Vec<Delivery>)
        ensures
            deliveries_view(r@) == round_pushes(self@),
    {
        let players = self.players();
        let mut pushes: Vec<Delivery> = Vec::new();
        let mut i: usize = 0;
        assert(players@.len() == self@.seats.len()) by {
            assert(players_view(players@).len() == self@.roster().len());
        }
        while i < players.len()
            invariant
                0 <= i <= players.len(),
                players@.len() == self@.seats.len(),
                players_view(players@) == self@.roster(),
                pushes@.len() == i,
                forall|j: int| 0 <= j < i ==> (#[trigger] pushes@[j])@ == round_pushes(self@)[j],
            decreases players.len() - i,
        {
            let id = players[i].id;
            assert(id == self@.seats[i as int].player.id) by {
                assert(players_view(players@)[i as int] == self@.roster()[i as int]);
            }
            proof {
                lemma_has_player(self@, id);
            }
            match self.game_for(id) {
                Some(game) => {
                    pushes.push(Delivery { to: Recipient::One(id), message: Message::NewRound(game) });
                },
                None => {
                    assert(false);
                },
            }
            i += 1;
        }
        assert(deliveries_view(pushes@) =~= round_pushes(self@));
        pushes
    }

    /// Takes one request, changes the session by it and returns what comes
    /// back: exactly what `step` says.
    pub fn handle(&mut self, request: Request) -> (r: Outcome)
        ensures
            final(self)@ == step(old(self)@, request@).0,
            r@ == step(old(self)@, request@).1,
            old(self)@.inv() ==> final(self)@.inv(),
    {
        match request {
            Request::Join => match self.add_user() {
                Ok(id) => {
                    let mut outcome = Outcome::quiet();
                    outcome.admitted = Some(id);
                    outcome
                },
                Err(error) => Outcome::answer(Message::Error(error.message())),
            },
            Request::Leave(id) => {
                let _ = self.remove_user(id);
                Outcome::quiet()
            },
            Request::Rename(id, name) => {
                if self.has_player(id) {
                    let shown = name.clone();
                    self.change_name(id, name);
                    Outcome::answer_and_notice(
                        Message::Okay,
                        Recipient::AllBut(id),
                        Message::Rename(shown),
                    )
                } else {
                    Outcome::answer(Message::Error(String::from_str("unknown player")))
                }
            },
            Request::Start(id) => {
                if self.request_game_start(id) {
                    Outcome::notice(Recipient::All, Message::GameStart)
                } else {
                    Outcome::quiet()
                }
            },
            Request::Play(id, card, verdict) => {
                let shown = card.clone();
                match self.submit_play(id, card, verdict) {
                    PlayOutcome::Accepted => Outcome::answer_and_notice(
                        Message::Okay,
                        Recipient::All,
                        Message::Play(shown),
                    ),
                    PlayOutcome::Rejected(reason) => Outcome::answer(Message::Error(reason)),
                }
            },
            Request::Timeout(id, card) => {
                let shown = card.clone();
                if self.handle_timeout(id, card) {
                    Outcome::notice(Recipient::All, Message::TimeOut(shown))
                } else {
                    Outcome::quiet()
                }
            },
            Request::Deal(hands, triumph) => {
                if self.new_round(hands, triumph) {
                    let mut outcome = Outcome::quiet();
                    outcome.pushes = self.round_pushes();
                    outcome
                } else {
                    Outcome::quiet()
                }
            },
            Request::Prompt(id) => {
                let in_game = match self.phase() {
                    Phase::Lobby => false,
                    Phase::InGame => true,
                };
                if in_game && self.has_player(id) {
                    Outcome::notice(Recipient::One(id), Message::RequestPlay)
                } else {
                    Outcome::quiet()
                }
            },
        }
    }

    /// Takes a row of requests and applies them one after the other, each to
    /// the session as the one before left it. Returns what came back for
    /// each, in the same order.
    pub fn handle_all(&mut self, requests: Vec<Request>) -> (r: Vec<Outcome>)
        ensures
            final(self)@ == run(old(self)@, requests_view(requests@)),
            outcomes_view(r@) == outcomes(old(self)@, requests_view(requests@)),
            old(self)@.inv() ==> final(self)@.inv(),
    {
        let ghost all = requests_view(requests@);
        let ghost start = self@;
        let mut out: Vec<Outcome> = Vec::new();
        assert(all.take(0) =~= Seq::<RequestView>::empty());
        for request in it: requests
            invariant
                it.seq() == requests@,
                all == requests_view(requests@),
                self@ == run(start, all.take(it.index() as int)),
                out@.len() == it.index(),
                forall|j: int| 0 <= j < it.index() ==> (#[trigger] out@[j])@ == outcome_at(start, all, j),
                start.inv() ==> self@.inv(),
        {
            let ghost k = it.index() as int;
            assert(request@ == all[k]);
            assert(all.take(k + 1).drop_last() =~= all.take(k));
            assert(all.take(k + 1).last() == all[k]);
            let outcome = self.handle(request);
            out.push(outcome);
        }
        assert(all.take(all.len() as int) =~= all);
        assert(outcomes_view(out@) =~= outcomes(start, all));
        out
    }
}

} // verus!
