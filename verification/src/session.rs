//! What a session is and how each request changes it, as mathematics.
//!
//! `ServerView` is the state of a session. Each operation of the session is
//! a function from one `ServerView` to the next; the lemmas say that every
//! one of them keeps the session in order.

use vstd::prelude::*;
use crate::cards::{all_valid, CardView};
use crate::message::GameView;
use crate::player::{default_name, Id, PlayerView, MAX_PLAYERS};

verus! {

/// The stage a session is in. A session starts in the lobby and moves to the
/// game once; it never moves back.
#[derive(Debug, PartialEq, Eq, Clone, Copy, Structural)]
pub enum Phase {
    Lobby,
    InGame,
}

/// What the rules of the game say of a card that a player offers.
pub enum VerdictView {
    Legal,
    Illegal(Seq<char>),
}

/// What the rules of the game say of a card that a player offers: whether it
/// is this player's turn and the card may be played now. The session does
/// not know the rules; it is handed their verdict with the request.
#[derive(Debug)]
pub enum Verdict {
    Legal,
    /// The play is against the rules, for the reason given.
    Illegal(String),
}

impl View for Verdict {
    type V = VerdictView;

    open spec fn view(&self) -> VerdictView {
        match self {
            Verdict::Legal => VerdictView::Legal,
            Verdict::Illegal(reason) => VerdictView::Illegal(reason@),
        }
    }
}

/// What became of an offered card, with the reason as characters.
pub enum PlayOutcomeView {
    Accepted,
    Rejected(Seq<char>),
}

/// Whether all hands of a deal hold only cards that can exist.
pub open spec fn hands_valid(hands: Seq<Seq<CardView>>) -> bool {
    forall|i: int| 0 <= i < hands.len() ==> all_valid(#[trigger] hands[i])
}

/// Whether an optional card, if there is one, can exist.
pub open spec fn option_valid(card: Option<CardView>) -> bool {
    card matches Some(c) ==> c.value.valid()
}

/// A seat as the player who sits there and the cards that player holds.
pub struct SeatView {
    pub player: PlayerView,
    pub hand: Seq<CardView>,
}

/// The first seat at or after `from` whose player has the number `id`; the
/// number of seats if there is none.
pub open spec fn seat_from(seats: Seq<SeatView>, id: Id, from: int) -> int
    decreases seats.len() - from,
{
    if from < 0 || from >= seats.len() {
        seats.len() as int
    } else if seats[from].player.id == id {
        from
    } else {
        seat_from(seats, id, from + 1)
    }
}

/// The first place at or after `from` where `card` lies in `hand`; the
/// number of cards if it lies nowhere.
pub open spec fn card_from(hand: Seq<CardView>, card: CardView, from: int) -> int
    decreases hand.len() - from,
{
    if from < 0 || from >= hand.len() {
        hand.len() as int
    } else if hand[from] == card {
        from
    } else {
        card_from(hand, card, from + 1)
    }
}

/// What a session is: who sits where with which cards, who may start the
/// game, the phase, and the cards on the table.
pub struct ServerView {
    /// The seats in the order in which their players joined.
    pub seats: Seq<SeatView>,
    /// The number of the player who may start the game.
    pub host_id: Id,
    /// Whether the player who may start the game has left.
    pub host_left: bool,
    pub phase: Phase,
    /// The cards played in the current trick, in the order of play.
    pub table: Seq<CardView>,
    /// The card that sets the triumph suit.
    pub triumph: Option<CardView>,
}

impl ServerView {
    /// A fresh session: nobody there, the first to come will be the host.
    pub open spec fn init() -> ServerView {
        ServerView {
            seats: Seq::empty(),
            host_id: 0,
            host_left: false,
            phase: Phase::Lobby,
            table: Seq::empty(),
            triumph: None,
        }
    }

    /// The players in the order in which they joined.
    pub open spec fn roster(self) -> Seq<PlayerView> {
        self.seats.map_values(|s: SeatView| s.player)
    }

    /// The seat of the player with the number `id`; the number of seats if no
    /// player has it.
    pub open spec fn seat_of(self, id: Id) -> int {
        seat_from(self.seats, id, 0)
    }

    /// Whether a player with the number `id` is in the session.
    pub open spec fn has_player(self, id: Id) -> bool {
        self.seat_of(id) < self.seats.len()
    }

    /// Whether a player in the session has the number `c`.
    pub open spec fn taken(self, c: int) -> bool {
        self.has_player(c as Id)
    }

    /// The lowest number from `c` up to 6 that no player has; 7 if all are
    /// taken.
    pub open spec fn free_from(self, c: int) -> int
        decreases 7 - c,
    {
        if c >= 7 {
            7
        } else if !self.taken(c) {
            c
        } else {
            self.free_from(c + 1)
        }
    }

    /// The number that the next player gets: the lowest that is free.
    pub open spec fn free_id(self) -> Id {
        self.free_from(0) as Id
    }

    /// Whether each player's number is the place in the roster, as it is as
    /// long as nobody has left.
    pub open spec fn dense(self) -> bool {
        forall|i: int| 0 <= i < self.seats.len() ==> (#[trigger] self.seats[i]).player.id == i
    }

    /// The session after one more player has taken a seat, with the free
    /// number, the name that belongs to it and no cards.
    pub open spec fn joined(self) -> ServerView {
        ServerView {
            seats: self.seats.push(
                SeatView {
                    player: PlayerView { id: self.free_id(), name: default_name(self.free_id()) },
                    hand: Seq::empty(),
                },
            ),
            ..self
        }
    }

    /// The session after the player with the number `id` has left: the seat
    /// is gone with its cards, the others keep their order, and a host who
    /// leaves stays away. Nothing changes if there is no such player.
    pub open spec fn left(self, id: Id) -> ServerView {
        if self.has_player(id) {
            ServerView {
                seats: self.seats.remove(self.seat_of(id)),
                host_left: self.host_left || id == self.host_id,
                ..self
            }
        } else {
            self
        }
    }

    /// The session after the player with the number `id` has taken the name
    /// `name`.
    pub open spec fn renamed(self, id: Id, name: Seq<char>) -> ServerView {
        ServerView {
            seats: self.seats.update(
                self.seat_of(id),
                SeatView {
                    player: PlayerView { id, name },
                    hand: self.seats[self.seat_of(id)].hand,
                },
            ),
            ..self
        }
    }

    /// The session with the right to start the game handed to the number
    /// `id`.
    pub open spec fn with_host(self, id: Id) -> ServerView {
        ServerView { host_id: id, host_left: false, ..self }
    }

    /// Whether a request to start the game from `id` is followed: only in the
    /// lobby, and only from the host, who must be in the session and must
    /// never have left it.
    pub open spec fn may_start(self, id: Id) -> bool {
        &&& self.phase == Phase::Lobby
        &&& id == self.host_id
        &&& !self.host_left
        &&& self.has_player(id)
    }

    /// The session with the game begun.
    pub open spec fn started(self) -> ServerView {
        ServerView { phase: Phase::InGame, ..self }
    }

    /// The hand of the player with the number `id`.
    pub open spec fn hand_of(self, id: Id) -> Seq<CardView> {
        self.seats[self.seat_of(id)].hand
    }

    /// What the player with the number `id` sees of the game: the own hand,
    /// the table and the triumph card.
    pub open spec fn game_of(self, id: Id) -> GameView {
        GameView { hand: self.hand_of(id), table: self.table, triumph: self.triumph }
    }

    /// Whether a deal is taken: only in the game, with one hand for each
    /// seat, and only if every card in it can exist.
    pub open spec fn may_deal(self, hands: Seq<Seq<CardView>>, triumph: Option<CardView>) -> bool {
        &&& self.phase == Phase::InGame
        &&& hands.len() == self.seats.len()
        &&& hands_valid(hands)
        &&& option_valid(triumph)
    }

    /// The session after a deal: each seat holds its new hand, the table is
    /// empty and the triumph card is the one dealt.
    pub open spec fn dealt(self, hands: Seq<Seq<CardView>>, triumph: Option<CardView>) -> ServerView {
        ServerView {
            seats: Seq::new(
                self.seats.len(),
                |i: int| SeatView { player: self.seats[i].player, hand: hands[i] },
            ),
            table: Seq::empty(),
            triumph,
            ..self
        }
    }

    /// Whether the player with the number `id` is in the session and holds
    /// a card equal to `card` in value, suit, owner and selection mark.
    pub open spec fn holds(self, id: Id, card: CardView) -> bool {
        self.has_player(id) && card_from(self.hand_of(id), card, 0) < self.hand_of(id).len()
    }

    /// The session after the player with the number `id` has played `card`:
    /// the first such card has left the hand and lies last on the table.
    pub open spec fn played(self, id: Id, card: CardView) -> ServerView {
        ServerView {
            seats: self.seats.update(
                self.seat_of(id),
                SeatView {
                    player: self.seats[self.seat_of(id)].player,
                    hand: self.hand_of(id).remove(card_from(self.hand_of(id), card, 0)),
                },
            ),
            table: self.table.push(card),
            ..self
        }
    }

    /// Why an offered card is turned down, if it is: before the game has
    /// begun, from somebody who is not in the session, a card that the player
    /// does not hold, or a play that the rules forbid, in this order.
    pub open spec fn refusal(self, id: Id, card: CardView, verdict: VerdictView) -> Option<
        Seq<char>,
    > {
        if self.phase != Phase::InGame {
            Some("the game has not started"@)
        } else if !self.has_player(id) {
            Some("unknown player"@)
        } else if !self.holds(id, card) {
            Some("card not in hand"@)
        } else {
            match verdict {
                VerdictView::Illegal(reason) => Some(reason),
                VerdictView::Legal => None,
            }
        }
    }

    /// Whether a card that the session plays for a player whose time has run
    /// out reaches the table: in the game, and if the player holds it.
    pub open spec fn may_force(self, id: Id, card: CardView) -> bool {
        self.phase == Phase::InGame && self.holds(id, card)
    }

    /// What always holds of a session: at most seven players, numbers from 0
    /// to 6 that no two players share, only cards that can exist, and no
    /// cards anywhere before the game has begun.
    pub open spec fn inv(self) -> bool {
        &&& self.seats.len() <= MAX_PLAYERS
        &&& forall|i: int|
            0 <= i < self.seats.len() ==> 0 <= (#[trigger] self.seats[i]).player.id < 7
        &&& forall|i: int, j: int|
            0 <= i < j < self.seats.len() ==> (#[trigger] self.seats[i]).player.id != (
            #[trigger] self.seats[j]).player.id
        &&& forall|i: int| 0 <= i < self.seats.len() ==> all_valid((#[trigger] self.seats[i]).hand)
        &&& all_valid(self.table)
        &&& (self.triumph matches Some(c) ==> c.value.valid())
        &&& (self.phase == Phase::Lobby ==> {
            &&& self.table.len() == 0
            &&& self.triumph is None
            &&& forall|i: int|
                0 <= i < self.seats.len() ==> (#[trigger] self.seats[i]).hand.len() == 0
        })
    }
}

/// Where `seat_from` lands: on the first seat from `from` on whose player has
/// the number, or behind the last seat.
pub proof fn lemma_seat_from(seats: Seq<SeatView>, id: Id, from: int)
    requires
        0 <= from <= seats.len(),
    ensures
        from <= seat_from(seats, id, from) <= seats.len(),
        seat_from(seats, id, from) < seats.len() ==> seats[seat_from(seats, id, from)].player.id
            == id,
        forall|j: int| from <= j < seat_from(seats, id, from) ==> seats[j].player.id != id,
    decreases seats.len() - from,
{
    if from < seats.len() && seats[from].player.id != id {
        lemma_seat_from(seats, id, from + 1);
    }
}

/// Where `card_from` lands: on the first place from `from` on where the card
/// lies, or behind the last card.
pub proof fn lemma_card_from(hand: Seq<CardView>, card: CardView, from: int)
    requires
        0 <= from <= hand.len(),
    ensures
        from <= card_from(hand, card, from) <= hand.len(),
        card_from(hand, card, from) < hand.len() ==> hand[card_from(hand, card, from)] == card,
        forall|j: int| from <= j < card_from(hand, card, from) ==> hand[j] != card,
    decreases hand.len() - from,
{
    if from < hand.len() && hand[from] != card {
        lemma_card_from(hand, card, from + 1);
    }
}

/// A player is in the session exactly if some seat carries the number.
pub proof fn lemma_has_player(s: ServerView, id: Id)
    ensures
        s.has_player(id) <==> exists|i: int|
            0 <= i < s.seats.len() && (#[trigger] s.seats[i]).player.id == id,
        s.has_player(id) ==> 0 <= s.seat_of(id) < s.seats.len() && s.seats[s.seat_of(
            id,
        )].player.id == id,
{
    lemma_seat_from(s.seats, id, 0);
    if s.has_player(id) {
        assert(s.seats[s.seat_of(id)].player.id == id);
    }
}

/// Where `free_from` lands: on the lowest free number from `c` on, or on 7.
pub proof fn lemma_free_from(s: ServerView, c: int)
    requires
        0 <= c <= 7,
    ensures
        c <= s.free_from(c) <= 7,
        s.free_from(c) < 7 ==> !s.taken(s.free_from(c)),
        forall|k: int| c <= k < s.free_from(c) ==> s.taken(k),
    decreases 7 - c,
{
    if c < 7 && s.taken(c) {
        lemma_free_from(s, c + 1);
    }
}

/// With fewer than seven players a number is free: the next player's number
/// lies from 0 to 6 and nobody in the session has it.
pub proof fn lemma_free_id(s: ServerView)
    requires
        s.seats.len() < MAX_PLAYERS,
    ensures
        0 <= s.free_id() < 7,
        s.free_id() == s.free_from(0),
        !s.has_player(s.free_id()),
{
    lemma_free_from(s, 0);
    if s.free_from(0) == 7 {
        let ids = Seq::new(s.seats.len(), |i: int| s.seats[i].player.id as int);
        assert forall|k: int| 0 <= k < 7 implies ids.to_set().contains(k) by {
            assert(s.taken(k));
            lemma_has_player(s, k as Id);
            let i = s.seat_of(k as Id);
            assert(ids[i] == k);
            assert(ids.contains(k));
        }
        vstd::set_lib::lemma_int_range(0, 7);
        vstd::seq_lib::seq_to_set_is_finite(ids);
        assert(vstd::set_lib::set_int_range(0, 7).subset_of(ids.to_set()));
        vstd::set_lib::lemma_len_subset(vstd::set_lib::set_int_range(0, 7), ids.to_set());
        ids.lemma_cardinality_of_set();
        assert(false);
    }
}

/// As long as nobody has left, the next player's number is the number of
/// players in the session.
pub proof fn lemma_free_id_dense(s: ServerView)
    requires
        s.seats.len() < MAX_PLAYERS,
        s.dense(),
    ensures
        s.free_id() == s.seats.len(),
        s.joined().dense(),
{
    let n = s.seats.len() as int;
    lemma_free_from(s, 0);
    lemma_free_id(s);
    assert forall|k: int| 0 <= k < n implies s.taken(k) by {
        lemma_has_player(s, k as Id);
        assert(s.seats[k].player.id == k as Id);
    }
    assert(!s.has_player(n as Id)) by {
        lemma_has_player(s, n as Id);
    }
    if s.free_from(0) < n {
        assert(s.taken(s.free_from(0)));
    }
    if s.free_from(0) > n {
        assert(s.taken(n));
    }
}

/// Taking a seat keeps a session in order.
pub proof fn lemma_joined_inv(s: ServerView)
    requires
        s.inv(),
        s.seats.len() < MAX_PLAYERS,
    ensures
        s.joined().inv(),
{
    lemma_free_id(s);
    let t = s.joined();
    let n = s.seats.len() as int;
    assert forall|i: int, j: int| 0 <= i < j < t.seats.len() implies (#[trigger] t.seats[i]).player.id
        != (#[trigger] t.seats[j]).player.id by {
        if j == n {
            lemma_has_player(s, s.free_id());
            assert(t.seats[i] == s.seats[i]);
        } else {
            assert(t.seats[i] == s.seats[i]);
            assert(t.seats[j] == s.seats[j]);
        }
    }
    assert forall|i: int| 0 <= i < t.seats.len() implies 0 <= (#[trigger] t.seats[i]).player.id
        < 7 by {
        if i < n {
            assert(t.seats[i] == s.seats[i]);
        }
    }
    assert forall|i: int| 0 <= i < t.seats.len() implies all_valid((#[trigger] t.seats[i]).hand) by {
        if i < n {
            assert(t.seats[i] == s.seats[i]);
        }
    }
    if t.phase == Phase::Lobby {
        assert forall|i: int| 0 <= i < t.seats.len() implies (#[trigger] t.seats[i]).hand.len()
            == 0 by {
            if i < n {
                assert(t.seats[i] == s.seats[i]);
            }
        }
    }
}

/// A player's leaving keeps a session in order.
pub proof fn lemma_left_inv(s: ServerView, id: Id)
    requires
        s.inv(),
    ensures
        s.left(id).inv(),
{
    if s.has_player(id) {
        lemma_has_player(s, id);
        let k = s.seat_of(id);
        let t = s.left(id);
        assert forall|i: int| 0 <= i < t.seats.len() implies #[trigger] t.seats[i] == s.seats[if i
            < k {
            i
        } else {
            i + 1
        }] by {}
        assert forall|i: int, j: int| 0 <= i < j < t.seats.len() implies (#[trigger] t.seats[i]).player.id
            != (#[trigger] t.seats[j]).player.id by {
            let a = if i < k { i } else { i + 1 };
            let b = if j < k { j } else { j + 1 };
            assert(t.seats[i] == s.seats[a]);
            assert(t.seats[j] == s.seats[b]);
        }
        assert forall|i: int| 0 <= i < t.seats.len() implies 0 <= (#[trigger] t.seats[i]).player.id
            < 7 by {
            let a = if i < k { i } else { i + 1 };
            assert(t.seats[i] == s.seats[a]);
        }
        assert forall|i: int| 0 <= i < t.seats.len() implies all_valid((#[trigger] t.seats[i]).hand) by {
            let a = if i < k { i } else { i + 1 };
            assert(t.seats[i] == s.seats[a]);
        }
        if t.phase == Phase::Lobby {
            assert forall|i: int| 0 <= i < t.seats.len() implies (#[trigger] t.seats[i]).hand.len()
                == 0 by {
                let a = if i < k { i } else { i + 1 };
                assert(t.seats[i] == s.seats[a]);
            }
        }
    }
}

/// A change of name keeps a session in order.
pub proof fn lemma_renamed_inv(s: ServerView, id: Id, name: Seq<char>)
    requires
        s.inv(),
        s.has_player(id),
    ensures
        s.renamed(id, name).inv(),
{
    lemma_has_player(s, id);
    let k = s.seat_of(id);
    let t = s.renamed(id, name);
    assert forall|i: int| 0 <= i < t.seats.len() implies (#[trigger] t.seats[i]).player.id
        == s.seats[i].player.id && t.seats[i].hand == s.seats[i].hand by {}
    assert forall|i: int, j: int| 0 <= i < j < t.seats.len() implies (#[trigger] t.seats[i]).player.id
        != (#[trigger] t.seats[j]).player.id by {
        assert(t.seats[i].player.id == s.seats[i].player.id);
        assert(t.seats[j].player.id == s.seats[j].player.id);
    }
    assert forall|i: int| 0 <= i < t.seats.len() implies 0 <= (#[trigger] t.seats[i]).player.id
        < 7 by {
        assert(t.seats[i].player.id == s.seats[i].player.id);
    }
    assert forall|i: int| 0 <= i < t.seats.len() implies all_valid((#[trigger] t.seats[i]).hand) by {
        assert(t.seats[i].hand == s.seats[i].hand);
    }
    if t.phase == Phase::Lobby {
        assert forall|i: int| 0 <= i < t.seats.len() implies (#[trigger] t.seats[i]).hand.len()
            == 0 by {
            assert(t.seats[i].hand == s.seats[i].hand);
        }
    }
}

/// A deal keeps a session in order.
pub proof fn lemma_dealt_inv(s: ServerView, hands: Seq<Seq<CardView>>, triumph: Option<CardView>)
    requires
        s.inv(),
        s.may_deal(hands, triumph),
    ensures
        s.dealt(hands, triumph).inv(),
{
    let t = s.dealt(hands, triumph);
    assert forall|i: int, j: int| 0 <= i < j < t.seats.len() implies (#[trigger] t.seats[i]).player.id
        != (#[trigger] t.seats[j]).player.id by {
        assert(t.seats[i].player == s.seats[i].player);
        assert(t.seats[j].player == s.seats[j].player);
    }
    assert forall|i: int| 0 <= i < t.seats.len() implies 0 <= (#[trigger] t.seats[i]).player.id
        < 7 by {
        assert(t.seats[i].player == s.seats[i].player);
    }
    assert forall|i: int| 0 <= i < t.seats.len() implies all_valid((#[trigger] t.seats[i]).hand) by {
        assert(t.seats[i].hand == hands[i]);
    }
}

/// A card that moves from a hand to the table keeps a session in order.
pub proof fn lemma_played_inv(s: ServerView, id: Id, card: CardView)
    requires
        s.inv(),
        s.phase == Phase::InGame,
        s.holds(id, card),
    ensures
        s.played(id, card).inv(),
        card.value.valid(),
{
    lemma_has_player(s, id);
    let k = s.seat_of(id);
    let hand = s.hand_of(id);
    lemma_card_from(hand, card, 0);
    let at = card_from(hand, card, 0);
    let t = s.played(id, card);
    assert(all_valid(s.seats[k].hand));
    assert(hand[at].value.valid());
    assert forall|i: int| 0 <= i < t.seats.len() implies (#[trigger] t.seats[i]).player
        == s.seats[i].player by {}
    assert forall|i: int, j: int| 0 <= i < j < t.seats.len() implies (#[trigger] t.seats[i]).player.id
        != (#[trigger] t.seats[j]).player.id by {
        assert(t.seats[i].player == s.seats[i].player);
        assert(t.seats[j].player == s.seats[j].player);
    }
    assert forall|i: int| 0 <= i < t.seats.len() implies 0 <= (#[trigger] t.seats[i]).player.id
        < 7 by {
        assert(t.seats[i].player == s.seats[i].player);
    }
    assert forall|i: int| 0 <= i < t.seats.len() implies all_valid((#[trigger] t.seats[i]).hand) by {
        if i == k {
            let h = t.seats[i].hand;
            assert forall|c: int| 0 <= c < h.len() implies (#[trigger] h[c]).value.valid() by {
                assert(h[c] == hand[if c < at {
                    c
                } else {
                    c + 1
                }]);
            }
        } else {
            assert(t.seats[i] == s.seats[i]);
        }
    }
    assert forall|c: int| 0 <= c < t.table.len() implies (#[trigger] t.table[c]).value.valid() by {
        if c < s.table.len() {
            assert(t.table[c] == s.table[c]);
        }
    }
}

} // verus!
