//! The session: the one authority over roster, phase and game.
//!
//! A `Server` is changed by one request at a time. Each operation says in its
//! contract what the session is afterwards, as a function of what it was
//! before, over `ServerView`.

use vstd::prelude::*;
use vstd::string::StringExecFns;
use crate::cards::{
    all_valid, card_option_view, cards_valid, cards_view, clone_card_option, clone_cards, Card,
    CardView,
};
use crate::message::Game;
use crate::player::{players_view, Id, Player, MAX_PLAYERS};
use crate::session::{
    card_from, lemma_dealt_inv, lemma_free_id, lemma_has_player, lemma_joined_inv, lemma_left_inv,
    lemma_played_inv, lemma_renamed_inv, seat_from, Phase, PlayOutcomeView, SeatView, ServerView,
    Verdict,
};

verus! {

/// Why the session refused a newcomer.
#[derive(Debug, PartialEq, Eq, Clone, Copy, Structural)]
pub enum ServerError {
    TooManyPlayers,
}

impl ServerError {
    /// The refusal in words.
    pub open spec fn text(self) -> Seq<char> {
        "too many players. max is 7"@
    }

    /// The refusal in words, as it is told to the newcomer.
    pub fn message(&self) -> (r: String)
        ensures
            r@ == self.text(),
    {
        String::from_str("too many players. max is 7")
    }
}

/// What became of an offered card.
#[derive(Debug)]
pub enum PlayOutcome {
    /// The card lies on the table.
    Accepted,
    /// Nothing changed, for the reason given.
    Rejected(String),
}

impl View for PlayOutcome {
    type V = PlayOutcomeView;

    open spec fn view(&self) -> PlayOutcomeView {
        match self {
            PlayOutcome::Accepted => PlayOutcomeView::Accepted,
            PlayOutcome::Rejected(reason) => PlayOutcomeView::Rejected(reason@),
        }
    }
}

/// One place at the table: a player and the authoritative copy of the hand.
#[derive(Debug)]
pub struct Seat {
    pub player: Player,
    pub hand: Vec<Card>,
}

impl View for Seat {
    type V = SeatView;

    open spec fn view(&self) -> SeatView {
        SeatView { player: self.player@, hand: cards_view(self.hand@) }
    }
}

/// The seats of a row, each as what it is.
pub open spec fn seats_view(seats: Seq<Seat>) -> Seq<SeatView> {
    seats.map_values(|s: Seat| s@)
}

/// The hands of a deal, each as the cards it holds.
pub open spec fn hands_view(hands: Seq<Vec<Card>>) -> Seq<Seq<CardView>> {
    hands.map_values(|h: Vec<Card>| cards_view(h@))
}

/// The session.
#[derive(Debug)]
pub struct Server {
    seats: Vec<Seat>,
    host_id: Id,
    host_left: bool,
    phase: Phase,
    table: Vec<Card>,
    triumph: Option<Card>,
}

impl View for Server {
    type V = ServerView;

    closed spec fn view(&self) -> ServerView {
        ServerView {
            seats: seats_view(self.seats@),
            host_id: self.host_id,
            host_left: self.host_left,
            phase: self.phase,
            table: cards_view(self.table@),
            triumph: card_option_view(self.triumph),
        }
    }
}

impl Server {
    /// A fresh session in the lobby, with nobody in it.
    pub fn new() -> (r: Server)
        ensures
            r@ == ServerView::init(),
            r@.inv(),
    {
        let r = Server {
            seats: Vec::with_capacity(7),
            host_id: 0,
            host_left: false,
            phase: Phase::Lobby,
            table: Vec::new(),
            triumph: None,
        };
        assert(r@.seats =~= Seq::<SeatView>::empty());
        assert(r@.table =~= Seq::<CardView>::empty());
        r
    }

    /// The seat of the player with the number `id`, or the number of seats.
    pub fn find_seat(&self, id: Id) -> (r: usize)
        ensures
            r == self@.seat_of(id),
            r <= self@.seats.len(),
    {
        let mut i: usize = 0;
        while i < self.seats.len()
            invariant
                0 <= i <= self.seats.len(),
                seat_from(self@.seats, id, 0) == seat_from(self@.seats, id, i as int),
            decreases self.seats.len() - i,
        {
            if self.seats[i].player.id == id {
                assert(self@.seats[i as int] == self.seats@[i as int]@);
                return i;
            }
            assert(self@.seats[i as int] == self.seats@[i as int]@);
            i += 1;
        }
        i
    }

    /// Whether a player with the number `id` is in the session.
    pub fn has_player(&self, id: Id) -> (r: bool)
        ensures
            r == self@.has_player(id),
    {
        self.find_seat(id) < self.seats.len()
    }

    /// How many players are in the session.
    pub fn len(&self) -> (n: usize)
        ensures
            n == self@.seats.len(),
    {
        self.seats.len()
    }

    fn first_free_id(&self) -> (c: Id)
        ensures
            c == self@.free_from(0),
            0 <= c <= 7,
    {
        let mut c: Id = 0;
        while c < 7
            invariant
                0 <= c <= 7,
                self@.free_from(0) == self@.free_from(c as int),
            decreases 7 - c,
        {
            if !self.has_player(c) {
                return c;
            }
            c += 1;
        }
        c
    }

    /// Lets one more player in. With seven players in the session the
    /// newcomer is refused and nothing changes; otherwise the newcomer takes
    /// a new last seat under the lowest free number, with the name that
    /// belongs to that number and no cards.
    pub fn add_user(&mut self) -> (r: Result<Id, ServerError>)
        ensures
            old(self)@.seats.len() < MAX_PLAYERS ==> r == Ok::<Id, ServerError>(
                old(self)@.free_id(),
            ) && final(self)@ == old(self)@.joined(),
            old(self)@.seats.len() >= MAX_PLAYERS ==> r == Err::<Id, ServerError>(
                ServerError::TooManyPlayers,
            ) && final(self)@ == old(self)@,
            old(self)@.seats.len() <= MAX_PLAYERS ==> final(self)@.seats.len() <= MAX_PLAYERS,
            old(self)@.inv() ==> final(self)@.inv(),
    {
        if self.seats.len() >= MAX_PLAYERS {
            return Err(ServerError::TooManyPlayers);
        }
        let id = self.first_free_id();
        proof {
            lemma_free_id(self@);
            if self@.inv() {
                lemma_joined_inv(self@);
            }
        }
        let seat = Seat { player: Player::new(id), hand: Vec::new() };
        assert(seat@.hand =~= Seq::<CardView>::empty());
        self.seats.push(seat);
        assert(self@.seats =~= old(self)@.joined().seats);
        Ok(id)
    }

    /// Takes the player with the number `id` out of the session and says
    /// whether there was one. The seat and its cards are gone, the others
    /// keep their order, and if the host leaves, nobody can start the game
    /// until the right is handed on.
    pub fn remove_user(&mut self, id: Id) -> (r: bool)
        ensures
            r == old(self)@.has_player(id),
            final(self)@ == old(self)@.left(id),
            old(self)@.inv() ==> final(self)@.inv(),
    {
        let seat = self.find_seat(id);
        if seat >= self.seats.len() {
            return false;
        }
        proof {
            if self@.inv() {
                lemma_left_inv(self@, id);
            }
        }
        let _ = self.seats.remove(seat);
        if id == self.host_id {
            self.host_left = true;
        }
        assert(self@.seats =~= old(self)@.left(id).seats);
        true
    }

    /// Gives the player with the number `id` a new name. Nothing else
    /// changes.
    pub fn change_name(&mut self, id: Id, new_name: String)
        requires
            old(self)@.has_player(id),
        ensures
            final(self)@ == old(self)@.renamed(id, new_name@),
            old(self)@.inv() ==> final(self)@.inv(),
    {
        let at = self.find_seat(id);
        proof {
            lemma_has_player(self@, id);
            if self@.inv() {
                lemma_renamed_inv(self@, id, new_name@);
            }
        }
        let mut seat = self.seats.remove(at);
        assert(seat@ == old(self)@.seats[at as int]);
        seat.player.name = new_name;
        self.seats.insert(at, seat);
        assert(self@.seats =~= old(self)@.renamed(id, new_name@).seats);
    }

    /// Hands the right to start the game to the number `new_host_id`.
    pub fn change_host(&mut self, new_host_id: Id)
        ensures
            final(self)@ == old(self)@.with_host(new_host_id),
            old(self)@.inv() ==> final(self)@.inv(),
    {
        self.host_id = new_host_id;
        self.host_left = false;
    }

    /// Begins the game if the request comes from the host in the lobby, and
    /// says whether it did. Any other request changes nothing.
    pub fn request_game_start(&mut self, id: Id) -> (r: bool)
        ensures
            r == old(self)@.may_start(id),
            r ==> final(self)@ == old(self)@.started(),
            !r ==> final(self)@ == old(self)@,
            old(self)@.inv() ==> final(self)@.inv(),
    {
        let lobby = match self.phase {
            Phase::Lobby => true,
            Phase::InGame => false,
        };
        if lobby && id == self.host_id && !self.host_left && self.has_player(id) {
            self.phase = Phase::InGame;
            true
        } else {
            false
        }
    }

    /// Takes a deal from whoever shuffles: one hand for each seat in the
    /// order of the roster, and the triumph card. Says whether the deal was
    /// taken; it is not before the game has begun, with another number of
    /// hands than seats, or with a card that cannot exist, and then nothing
    /// changes.
    pub fn new_round(&mut self, hands: Vec<Vec<Card>>, triumph: Option<Card>) -> (r: bool)
        ensures
            r == old(self)@.may_deal(hands_view(hands@), card_option_view(triumph)),
            r ==> final(self)@ == old(self)@.dealt(hands_view(hands@), card_option_view(triumph)),
            !r ==> final(self)@ == old(self)@,
            old(self)@.inv() ==> final(self)@.inv(),
    {
        let in_game = match self.phase {
            Phase::Lobby => false,
            Phase::InGame => true,
        };
        if !in_game || hands.len() != self.seats.len() {
            return false;
        }
        let sound = match &triumph {
            Some(card) => card.is_valid(),
            None => true,
        };
        if !sound {
            return false;
        }
        let mut i: usize = 0;
        while i < hands.len()
            invariant
                0 <= i <= hands.len(),
                forall|j: int| 0 <= j < i ==> all_valid(#[trigger] hands_view(hands@)[j]),
            decreases hands.len() - i,
        {
            if !cards_valid(&hands[i]) {
                assert(!all_valid(hands_view(hands@)[i as int]));
                return false;
            }
            i += 1;
        }
        proof {
            if self@.inv() {
                lemma_dealt_inv(self@, hands_view(hands@), card_option_view(triumph));
            }
        }
        let ghost given = hands_view(hands@);
        let ghost before = self@;
        let mut hands = hands;
        let mut seats: Vec<Seat> = Vec::new();
        let n: usize = self.seats.len();
        let mut k: usize = 0;
        while k < n
            invariant
                0 <= k <= n,
                n == before.seats.len(),
                n == given.len(),
                self.host_id == before.host_id,
                self.host_left == before.host_left,
                self.phase == before.phase,
                self.seats@.len() == n - k,
                hands@.len() == n - k,
                seats@.len() == k,
                forall|j: int| 0 <= j < n - k ==> (#[trigger] self.seats@[j])@ == before.seats[k + j],
                forall|j: int| 0 <= j < n - k ==> cards_view((#[trigger] hands@[j])@) == given[k + j],
                forall|j: int|
                    0 <= j < k ==> (#[trigger] seats@[j])@ == (SeatView {
                        player: before.seats[j].player,
                        hand: given[j],
                    }),
            decreases n - k,
        {
            let mut seat = self.seats.remove(0);
            let hand = hands.remove(0);
            assert(seat@ == before.seats[k as int]);
            assert(cards_view(hand@) == given[k as int]);
            seat.hand = hand;
            seats.push(seat);
            k += 1;
        }
        self.seats = seats;
        self.table = Vec::new();
        self.triumph = triumph;
        assert(self@.seats =~= before.dealt(given, card_option_view(triumph)).seats);
        assert(self@.table =~= Seq::<CardView>::empty());
        true
    }

    fn find_card(hand: &Vec<Card>, card: &Card) -> (r: usize)
        ensures
            r == card_from(cards_view(hand@), card@, 0),
            r <= hand@.len(),
    {
        let mut i: usize = 0;
        while i < hand.len()
            invariant
                0 <= i <= hand.len(),
                card_from(cards_view(hand@), card@, 0) == card_from(
                    cards_view(hand@),
                    card@,
                    i as int,
                ),
            decreases hand.len() - i,
        {
            assert(cards_view(hand@)[i as int] == hand@[i as int]@);
            if hand[i].eq(card) {
                return i;
            }
            i += 1;
        }
        i
    }

    fn move_to_table(&mut self, id: Id, seat: usize, at: usize, card: Card)
        requires
            old(self)@.has_player(id),
            seat == old(self)@.seat_of(id),
            at == card_from(old(self)@.hand_of(id), card@, 0),
            at < old(self)@.hand_of(id).len(),
        ensures
            final(self)@ == old(self)@.played(id, card@),
    {
        proof {
            lemma_has_player(self@, id);
        }
        let mut place = self.seats.remove(seat);
        assert(place@ == old(self)@.seats[seat as int]);
        let _ = place.hand.remove(at);
        assert(cards_view(place.hand@) =~= old(self)@.hand_of(id).remove(at as int));
        self.seats.insert(seat, place);
        self.table.push(card);
        assert(self@.seats =~= old(self)@.played(id, card@).seats);
        assert(self@.table =~= old(self)@.played(id, card@).table);
    }

    /// Judges a card that the player with the number `id` offers, given what
    /// the rules say of it. A card that is turned down changes nothing and
    /// comes back with the reason. An accepted card leaves the player's hand
    /// and lies last on the table.
    pub fn submit_play(&mut self, id: Id, card: Card, verdict: Verdict) -> (r: PlayOutcome)
        ensures
            match old(self)@.refusal(id, card@, verdict@) {
                Some(reason) => r@ == PlayOutcomeView::Rejected(reason) && final(self)@ == old(
                    self,
                )@,
                None => r@ == PlayOutcomeView::Accepted && final(self)@ == old(self)@.played(
                    id,
                    card@,
                ),
            },
            old(self)@.inv() ==> final(self)@.inv(),
    {
        let in_game = match self.phase {
            Phase::Lobby => false,
            Phase::InGame => true,
        };
        if !in_game {
            return PlayOutcome::Rejected(String::from_str("the game has not started"));
        }
        let seat = self.find_seat(id);
        if seat >= self.seats.len() {
            return PlayOutcome::Rejected(String::from_str("unknown player"));
        }
        proof {
            lemma_has_player(self@, id);
        }
        let at = Self::find_card(&self.seats[seat].hand, &card);
        if at >= self.seats[seat].hand.len() {
            return PlayOutcome::Rejected(String::from_str("card not in hand"));
        }
        match verdict {
            Verdict::Illegal(reason) => {
                return PlayOutcome::Rejected(reason);
            },
            Verdict::Legal => {},
        }
        proof {
            if self@.inv() {
                lemma_played_inv(self@, id, card@);
            }
        }
        self.move_to_table(id, seat, at, card);
        PlayOutcome::Accepted
    }

    /// Plays `card` for the player with the number `id`, whose time has run
    /// out, and says whether it did. The rules are not asked. In the game,
    /// a card that the player holds leaves the hand and lies last on the
    /// table; anything else changes nothing.
    pub fn handle_timeout(&mut self, id: Id, card: Card) -> (r: bool)
        ensures
            r == old(self)@.may_force(id, card@),
            r ==> final(self)@ == old(self)@.played(id, card@),
            !r ==> final(self)@ == old(self)@,
            old(self)@.inv() ==> final(self)@.inv(),
    {
        let in_game = match self.phase {
            Phase::Lobby => false,
            Phase::InGame => true,
        };
        if !in_game {
            return false;
        }
        let seat = self.find_seat(id);
        if seat >= self.seats.len() {
            return false;
        }
        proof {
            lemma_has_player(self@, id);
        }
        let at = Self::find_card(&self.seats[seat].hand, &card);
        if at >= self.seats[seat].hand.len() {
            return false;
        }
        proof {
            if self@.inv() {
                lemma_played_inv(self@, id, card@);
            }
        }
        self.move_to_table(id, seat, at, card);
        true
    }

    /// What the player with the number `id` sees of the game, if there is
    /// such a player: the own hand, the table and the triumph card.
    pub fn game_for(&self, id: Id) -> (r: Option<Game>)
        ensures
            self@.has_player(id) ==> r is Some && r->Some_0@ == self@.game_of(id),
            !self@.has_player(id) ==> r is None,
    {
        let seat = self.find_seat(id);
        if seat >= self.seats.len() {
            return None;
        }
        Some(
            Game {
                hand: clone_cards(&self.seats[seat].hand),
                table: clone_cards(&self.table),
                triumph: clone_card_option(&self.triumph),
            },
        )
    }

    /// The players in the order in which they joined.
    pub fn players(&self) -> (r: Vec<Player>)
        ensures
            players_view(r@) == self@.roster(),
    {
        let mut out: Vec<Player> = Vec::new();
        let mut i: usize = 0;
        while i < self.seats.len()
            invariant
                0 <= i <= self.seats.len(),
                out@.len() == i,
                forall|j: int| 0 <= j < i ==> (#[trigger] out@[j])@ == self.seats@[j].player@,
            decreases self.seats.len() - i,
        {
            out.push(self.seats[i].player.clone());
            i += 1;
        }
        assert(players_view(out@) =~= self@.roster());
        out
    }

    /// The cards on the table in the order of play.
    pub fn table(&self) -> (r: Vec<Card>)
        ensures
            cards_view(r@) == self@.table,
    {
        clone_cards(&self.table)
    }

    /// The number of the player who may start the game.
    pub fn host_id(&self) -> (r: Id)
        ensures
            r == self@.host_id,
    {
        self.host_id
    }

    /// The stage the session is in.
    pub fn phase(&self) -> (r: Phase)
        ensures
            r == self@.phase,
    {
        self.phase
    }
}

} // verus!
