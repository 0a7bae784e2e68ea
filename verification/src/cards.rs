//! Playing cards: suits, values and the card itself with its annotations.
//!
//! A card carries two annotations besides its face: the name of the player
//! who holds it and a selection mark. Both count when two cards are compared.

use vstd::prelude::*;
use vstd::string::StringExecFns;

verus! {

/// The four suits.
#[derive(Debug, PartialEq, Eq, Clone, Copy, Structural)]
pub enum Suit {
    Clubs,
    Diamonds,
    Hearts,
    Spades,
}

impl Suit {
    /// The suit's pictogram.
    pub open spec fn symbol_text(self) -> Seq<char> {
        match self {
            Suit::Clubs => "♣️"@,
            Suit::Diamonds => "♦️"@,
            Suit::Hearts => "♥️"@,
            Suit::Spades => "♠️"@,
        }
    }

    /// The suit's name in words.
    pub open spec fn name_text(self) -> Seq<char> {
        match self {
            Suit::Clubs => "Club"@,
            Suit::Diamonds => "Diamonds"@,
            Suit::Hearts => "Hearts"@,
            Suit::Spades => "Spades"@,
        }
    }

    /// The pictogram as it is drawn on a card.
    pub fn symbol(&self) -> (r: String)
        ensures
            r@ == self.symbol_text(),
    {
        match self {
            Suit::Clubs => String::from_str("♣️"),
            Suit::Diamonds => String::from_str("♦️"),
            Suit::Hearts => String::from_str("♥️"),
            Suit::Spades => String::from_str("♠️"),
        }
    }

    /// The name in words.
    pub fn name(&self) -> (r: String)
        ensures
            r@ == self.name_text(),
    {
        match self {
            Suit::Clubs => String::from_str("Club"),
            Suit::Diamonds => String::from_str("Diamonds"),
            Suit::Hearts => String::from_str("Hearts"),
            Suit::Spades => String::from_str("Spades"),
        }
    }
}

impl From<Suit> for String {
    /// The suit's name in words.
    fn from(value: Suit) -> (r: String)
        ensures
            r@ == value.name_text(),
    {
        value.name()
    }
}

impl vstd::std_specs::convert::FromSpecImpl<Suit> for String {
    /// A string is known by its characters only, so the conversion is
    /// described by the contract on `from` and not by `from_spec`.
    open spec fn obeys_from_spec() -> bool {
        false
    }

    open spec fn from_spec(value: Suit) -> String {
        arbitrary()
    }
}

/// The value printed on a card: a number or a face.
#[derive(PartialEq, Eq, PartialOrd, Ord, Debug, Clone, Copy, Structural)]
pub enum Value {
    Num(u8),
    J,
    Q,
    K,
    A,
}

/// One decimal digit as text; the empty text for anything above nine.
pub open spec fn digit_text(d: nat) -> Seq<char> {
    if d == 0 {
        "0"@
    } else if d == 1 {
        "1"@
    } else if d == 2 {
        "2"@
    } else if d == 3 {
        "3"@
    } else if d == 4 {
        "4"@
    } else if d == 5 {
        "5"@
    } else if d == 6 {
        "6"@
    } else if d == 7 {
        "7"@
    } else if d == 8 {
        "8"@
    } else if d == 9 {
        "9"@
    } else {
        Seq::empty()
    }
}

/// A number written in decimal, without leading zeros.
pub open spec fn decimal_text(n: nat) -> Seq<char>
    decreases n,
{
    if n < 10 {
        digit_text(n)
    } else {
        decimal_text(n / 10) + digit_text(n % 10)
    }
}

fn digit_str(d: u8) -> (r: &'static str)
    requires
        d < 10,
    ensures
        r@ == digit_text(d as nat),
{
    match d {
        0 => "0",
        1 => "1",
        2 => "2",
        3 => "3",
        4 => "4",
        5 => "5",
        6 => "6",
        7 => "7",
        8 => "8",
        _ => "9",
    }
}

impl Value {
    /// A number is a card value only from 2 to 10; every face is one.
    pub open spec fn valid(self) -> bool {
        match self {
            Value::Num(n) => 2 <= n <= 10,
            _ => true,
        }
    }

    /// What is printed in a card's corners: the number in decimal, or the
    /// face's letter.
    pub open spec fn label_text(self) -> Seq<char> {
        match self {
            Value::Num(n) => decimal_text(n as nat),
            Value::J => "J"@,
            Value::Q => "Q"@,
            Value::K => "K"@,
            Value::A => "A"@,
        }
    }

    /// Whether this value can stand on a card.
    pub fn is_valid(&self) -> (b: bool)
        ensures
            b == self.valid(),
    {
        match self {
            Value::Num(n) => 2 <= *n && *n <= 10,
            _ => true,
        }
    }

    /// The text printed in a card's corners.
    pub fn label(&self) -> (r: String)
        ensures
            r@ == self.label_text(),
    {
        match self {
            Value::Num(n) => {
                let n: u8 = *n;
                let mut text = String::new();
                if n >= 100 {
                    text.append(digit_str(n / 100));
                }
                if n >= 10 {
                    text.append(digit_str((n / 10) % 10));
                }
                text.append(digit_str(n % 10));
                proof {
                    let m = n as nat;
                    if m >= 100 {
                        assert(decimal_text(m / 10) == decimal_text(m / 100) + digit_text(
                            (m / 10) % 10,
                        ));
                        assert(decimal_text(m / 100) == digit_text(m / 100));
                    } else if m >= 10 {
                        assert(decimal_text(m / 10) == digit_text(m / 10));
                    }
                    assert(text@ =~= decimal_text(m));
                }
                text
            },
            Value::J => String::from_str("J"),
            Value::Q => String::from_str("Q"),
            Value::K => String::from_str("K"),
            Value::A => String::from_str("A"),
        }
    }
}

/// Why a card could not be made.
#[derive(Debug, PartialEq, Eq, Clone, Copy, Structural)]
pub enum CardError {
    InvalidValue,
}

/// What a card is, with its owner's name as a sequence of characters.
pub struct CardView {
    pub value: Value,
    pub suit: Suit,
    pub owner: Option<Seq<char>>,
    pub selected: bool,
}

impl CardView {
    /// The card with its selection mark flipped.
    pub open spec fn toggled(self) -> CardView {
        CardView { selected: !self.selected, ..self }
    }

    /// The card with the selection mark set as given.
    pub open spec fn marked(self, selected: bool) -> CardView {
        CardView { selected, ..self }
    }
}

/// The characters of an optional name.
pub open spec fn name_view(name: Option<String>) -> Option<Seq<char>> {
    match name {
        Some(s) => Some(s@),
        None => None,
    }
}

/// A card with the name of the player who holds it and a selection mark.
#[derive(Debug)]
pub struct Card {
    value: Value,
    suit: Suit,
    player: Option<String>,
    selected: bool,
}

impl View for Card {
    type V = CardView;

    closed spec fn view(&self) -> CardView {
        CardView {
            value: self.value,
            suit: self.suit,
            owner: name_view(self.player),
            selected: self.selected,
        }
    }
}

impl Card {
    /// Makes a card. A number outside 2..=10 is refused; everything else gives
    /// the card with exactly the fields handed in.
    pub fn new(value: Value, suit: Suit, player: Option<String>, selected: bool) -> (r: Result<
        Card,
        CardError,
    >)
        ensures
            value.valid() ==> r is Ok && r->Ok_0@ == (CardView {
                value,
                suit,
                owner: name_view(player),
                selected,
            }),
            !value.valid() ==> r == Err::<Card, CardError>(CardError::InvalidValue),
    {
        if !value.is_valid() {
            return Err(CardError::InvalidValue);
        }
        Ok(Card { value, suit, player, selected })
    }

    /// The same card with another value. The value is taken as it comes:
    /// `is_valid` tells whether the result can be played.
    pub fn value(self, value: Value) -> (r: Card)
        ensures
            r@ == (CardView { value, ..self@ }),
    {
        let mut card = self;
        card.value = value;
        card
    }

    /// The same card in another suit.
    pub fn suit(self, suit: Suit) -> (r: Card)
        ensures
            r@ == (CardView { suit, ..self@ }),
    {
        let mut card = self;
        card.suit = suit;
        card
    }

    /// The same card held by `player`.
    pub fn player(self, player: String) -> (r: Card)
        ensures
            r@ == (CardView { owner: Some(player@), ..self@ }),
    {
        let mut card = self;
        card.player = Some(player);
        card
    }

    /// The same card with the selection mark set as given.
    pub fn selected(self, selected: bool) -> (r: Card)
        ensures
            r@ == self@.marked(selected),
    {
        let mut card = self;
        card.selected = selected;
        card
    }

    /// The same card with the selection mark flipped.
    pub fn toggle_selected(self) -> (r: Card)
        ensures
            r@ == self@.toggled(),
    {
        let mut card = self;
        card.selected = !card.selected;
        card
    }

    /// The card's value.
    pub fn get_value(&self) -> (r: Value)
        ensures
            r == self@.value,
    {
        self.value
    }

    /// The card's suit.
    pub fn get_suit(&self) -> (r: Suit)
        ensures
            r == self@.suit,
    {
        self.suit
    }

    /// The name of the player who holds the card, if anybody does.
    pub fn owner(&self) -> (r: Option<String>)
        ensures
            name_view(r) == self@.owner,
    {
        match &self.player {
            Some(name) => Some(name.clone()),
            None => None,
        }
    }

    /// Whether the card carries the selection mark.
    pub fn is_selected(&self) -> (r: bool)
        ensures
            r == self@.selected,
    {
        self.selected
    }

    /// Whether the card's value is one that a card can have.
    pub fn is_valid(&self) -> (b: bool)
        ensures
            b == self@.value.valid(),
    {
        self.value.is_valid()
    }
}

impl Default for Card {
    /// The ace of diamonds, held by nobody and not selected.
    fn default() -> (r: Card)
        ensures
            r@ == (CardView {
                value: Value::A,
                suit: Suit::Diamonds,
                owner: None,
                selected: false,
            }),
    {
        Card { value: Value::A, suit: Suit::Diamonds, player: None, selected: false }
    }
}

impl Clone for Card {
    fn clone(&self) -> (r: Card)
        ensures
            r == *self,
    {
        let player = match &self.player {
            Some(name) => Some(name.clone()),
            None => None,
        };
        Card { value: self.value, suit: self.suit, player, selected: self.selected }
    }
}

impl PartialEq for Card {
    fn eq(&self, other: &Card) -> (r: bool) {
        let same_owner = match &self.player {
            Some(a) => match &other.player {
                Some(b) => a.eq(b),
                None => false,
            },
            None => other.player.is_none(),
        };
        self.value == other.value && self.suit == other.suit && same_owner && self.selected
            == other.selected
    }
}

impl vstd::std_specs::cmp::PartialEqSpecImpl for Card {
    open spec fn obeys_eq_spec() -> bool {
        true
    }

    /// Two cards are equal when value, suit, owner and selection mark all are.
    open spec fn eq_spec(&self, other: &Card) -> bool {
        self@ == other@
    }
}

impl Eq for Card {

}

/// The cards of a sequence, each as what it is.
pub open spec fn cards_view(cards: Seq<Card>) -> Seq<CardView> {
    cards.map_values(|c: Card| c@)
}

/// An optional card as what it is.
pub open spec fn card_option_view(card: Option<Card>) -> Option<CardView> {
    match card {
        Some(c) => Some(c@),
        None => None,
    }
}

/// Whether every card of a sequence has a value that a card can have.
pub open spec fn all_valid(cards: Seq<CardView>) -> bool {
    forall|i: int| 0 <= i < cards.len() ==> (#[trigger] cards[i]).value.valid()
}

/// Flipping the selection mark twice gives back the card one started with.
pub proof fn lemma_toggle_twice(card: CardView)
    ensures
        card.toggled().toggled() == card,
{
}

/// Copies a row of cards.
pub fn clone_cards(cards: &Vec<Card>) -> (r: Vec<Card>)
    ensures
        r@ == cards@,
{
    let r = cards.clone();
    assert(r@ =~= cards@);
    r
}

/// Copies an optional card.
pub fn clone_card_option(card: &Option<Card>) -> (r: Option<Card>)
    ensures
        r == *card,
{
    match card {
        Some(c) => Some(c.clone()),
        None => None,
    }
}

/// Whether two rows hold equal cards in the same order.
pub fn cards_equal(a: &Vec<Card>, b: &Vec<Card>) -> (r: bool)
    ensures
        r == (cards_view(a@) == cards_view(b@)),
{
    if a.len() != b.len() {
        return false;
    }
    let mut i: usize = 0;
    while i < a.len()
        invariant
            0 <= i <= a.len(),
            a.len() == b.len(),
            forall|j: int| 0 <= j < i ==> (#[trigger] a@[j])@ == b@[j]@,
        decreases a.len() - i,
    {
        if !a[i].eq(&b[i]) {
            assert(cards_view(a@)[i as int] != cards_view(b@)[i as int]);
            return false;
        }
        i += 1;
    }
    assert(cards_view(a@) =~= cards_view(b@));
    true
}

/// Whether two optional cards are both absent or equal.
pub fn card_options_equal(a: &Option<Card>, b: &Option<Card>) -> (r: bool)
    ensures
        r == (card_option_view(*a) == card_option_view(*b)),
{
    match a {
        Some(x) => match b {
            Some(y) => x.eq(y),
            None => false,
        },
        None => b.is_none(),
    }
}

/// Whether every card of the row has a value that a card can have.
pub fn cards_valid(cards: &Vec<Card>) -> (r: bool)
    ensures
        r == all_valid(cards_view(cards@)),
{
    let mut i: usize = 0;
    while i < cards.len()
        invariant
            0 <= i <= cards.len(),
            forall|j: int| 0 <= j < i ==> (#[trigger] cards_view(cards@)[j]).value.valid(),
        decreases cards.len() - i,
    {
        if !cards[i].is_valid() {
            assert(!cards_view(cards@)[i as int].value.valid());
            return false;
        }
        i += 1;
    }
    true
}

} // verus!
