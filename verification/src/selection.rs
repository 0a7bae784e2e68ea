//! The selection mark on the cards of a hand, and finding a card in a hand
//! whatever its mark.

use vstd::prelude::*;
use crate::cards::{cards_view, Card, CardView};

verus! {

/// The first place at or after `from` where a card of `hand` carries the
/// selection mark; the number of cards if none does.
pub open spec fn selected_from(hand: Seq<CardView>, from: int) -> int
    decreases hand.len() - from,
{
    if from < 0 || from >= hand.len() {
        hand.len() as int
    } else if hand[from].selected {
        from
    } else {
        selected_from(hand, from + 1)
    }
}

/// The place of the first card that carries the selection mark; the number
/// of cards if none does.
pub open spec fn selected_place(hand: Seq<CardView>) -> int {
    selected_from(hand, 0)
}

/// The first place at or after `from` where a card of `hand` is `card` but
/// for the selection mark; the number of cards if there is none.
pub open spec fn face_from(hand: Seq<CardView>, card: CardView, from: int) -> int
    decreases hand.len() - from,
{
    if from < 0 || from >= hand.len() {
        hand.len() as int
    } else if hand[from].marked(false) == card.marked(false) {
        from
    } else {
        face_from(hand, card, from + 1)
    }
}

/// Whether `hand` holds `card`, whatever the selection marks.
pub open spec fn holds_face(hand: Seq<CardView>, card: CardView) -> bool {
    face_from(hand, card, 0) < hand.len()
}

/// The hand without the first card that is `card` but for the selection
/// mark; the hand as it is if there is none.
pub open spec fn without(hand: Seq<CardView>, card: CardView) -> Seq<CardView> {
    if holds_face(hand, card) {
        hand.remove(face_from(hand, card, 0))
    } else {
        hand
    }
}

/// The hand with the mark moved from the card at `from` to the card at `to`.
pub open spec fn mark_moved(hand: Seq<CardView>, from: int, to: int) -> Seq<CardView> {
    hand.update(from, hand[from].marked(false)).update(to, hand[to].marked(true))
}

/// The hand after a step to the right: with no card marked, the first card
/// gets the mark; otherwise the mark moves one card on, unless it is on the
/// last card already.
pub open spec fn stepped_right(hand: Seq<CardView>) -> Seq<CardView> {
    let at = selected_place(hand);
    if hand.len() == 0 {
        hand
    } else if at >= hand.len() {
        hand.update(0, hand[0].marked(true))
    } else if at + 1 < hand.len() {
        mark_moved(hand, at, at + 1)
    } else {
        hand
    }
}

/// The hand after a step to the left: with no card marked, the last card
/// gets the mark; otherwise the mark moves one card back, unless it is on
/// the first card already.
pub open spec fn stepped_left(hand: Seq<CardView>) -> Seq<CardView> {
    let at = selected_place(hand);
    if hand.len() == 0 {
        hand
    } else if at >= hand.len() {
        hand.update(hand.len() - 1, hand[hand.len() - 1].marked(true))
    } else if at > 0 {
        mark_moved(hand, at, at - 1)
    } else {
        hand
    }
}

/// Where `selected_from` lands: on the first marked card from `from` on, or
/// behind the last card.
pub proof fn lemma_selected_from(hand: Seq<CardView>, from: int)
    requires
        0 <= from <= hand.len(),
    ensures
        from <= selected_from(hand, from) <= hand.len(),
        selected_from(hand, from) < hand.len() ==> hand[selected_from(hand, from)].selected,
        forall|j: int| from <= j < selected_from(hand, from) ==> !hand[j].selected,
    decreases hand.len() - from,
{
    if from < hand.len() && !hand[from].selected {
        lemma_selected_from(hand, from + 1);
    }
}

/// Where `face_from` lands: on the first card from `from` on that is the
/// card but for the mark, or behind the last card.
pub proof fn lemma_face_from(hand: Seq<CardView>, card: CardView, from: int)
    requires
        0 <= from <= hand.len(),
    ensures
        from <= face_from(hand, card, from) <= hand.len(),
        face_from(hand, card, from) < hand.len() ==> hand[face_from(hand, card, from)].marked(
            false,
        ) == card.marked(false),
    decreases hand.len() - from,
{
    if from < hand.len() && hand[from].marked(false) != card.marked(false) {
        lemma_face_from(hand, card, from + 1);
    }
}

/// The place of the first card of the hand that carries the selection mark;
/// the number of cards if none does.
pub fn find_selected(hand: &Vec<Card>) -> (r: usize)
    ensures
        r == selected_place(cards_view(hand@)),
        r <= hand@.len(),
        r < hand@.len() ==> hand@[r as int]@.selected,
{
    let mut i: usize = 0;
    while i < hand.len()
        invariant
            0 <= i <= hand.len(),
            selected_from(cards_view(hand@), 0) == selected_from(cards_view(hand@), i as int),
        decreases hand.len() - i,
    {
        assert(cards_view(hand@)[i as int] == hand@[i as int]@);
        if hand[i].is_selected() {
            return i;
        }
        i += 1;
    }
    i
}

/// The place of the first card of the hand that is `card` but for the
/// selection mark; the number of cards if there is none.
pub fn find_face(hand: &Vec<Card>, card: &Card) -> (r: usize)
    ensures
        r == face_from(cards_view(hand@), card@, 0),
        r <= hand@.len(),
{
    let plain = card.clone().selected(false);
    let mut i: usize = 0;
    while i < hand.len()
        invariant
            0 <= i <= hand.len(),
            plain@ == card@.marked(false),
            face_from(cards_view(hand@), card@, 0) == face_from(
                cards_view(hand@),
                card@,
                i as int,
            ),
        decreases hand.len() - i,
    {
        assert(cards_view(hand@)[i as int] == hand@[i as int]@);
        let other = hand[i].clone().selected(false);
        if other.eq(&plain) {
            return i;
        }
        i += 1;
    }
    i
}

/// Sets the selection mark of the card at `at` as given.
pub fn set_mark(hand: &mut Vec<Card>, at: usize, selected: bool)
    requires
        at < old(hand)@.len(),
    ensures
        final(hand)@.len() == old(hand)@.len(),
        cards_view(final(hand)@) == cards_view(old(hand)@).update(
            at as int,
            cards_view(old(hand)@)[at as int].marked(selected),
        ),
{
    let card = hand.remove(at);
    assert(card@ == cards_view(old(hand)@)[at as int]);
    hand.insert(at, card.selected(selected));
    assert(cards_view(hand@) =~= cards_view(old(hand)@).update(
        at as int,
        cards_view(old(hand)@)[at as int].marked(selected),
    ));
}

/// Moves the selection mark one card to the right.
pub fn select_right(hand: &mut Vec<Card>)
    ensures
        cards_view(final(hand)@) == stepped_right(cards_view(old(hand)@)),
{
    if hand.len() == 0 {
        return ;
    }
    let at = find_selected(hand);
    if at >= hand.len() {
        set_mark(hand, 0, true);
    } else if at + 1 < hand.len() {
        set_mark(hand, at, false);
        set_mark(hand, at + 1, true);
    }
}

/// Moves the selection mark one card to the left.
pub fn select_left(hand: &mut Vec<Card>)
    ensures
        cards_view(final(hand)@) == stepped_left(cards_view(old(hand)@)),
{
    if hand.len() == 0 {
        return ;
    }
    let at = find_selected(hand);
    if at >= hand.len() {
        let last: usize = hand.len() - 1;
        set_mark(hand, last, true);
    } else if at > 0 {
        set_mark(hand, at, false);
        set_mark(hand, at - 1, true);
    }
}

/// Takes the first card that is `card` but for the selection mark out of
/// the hand, and says whether there was one.
pub fn take_face(hand: &mut Vec<Card>, card: &Card) -> (r: bool)
    ensures
        r == holds_face(cards_view(old(hand)@), card@),
        cards_view(final(hand)@) == without(cards_view(old(hand)@), card@),
{
    let at = find_face(hand, card);
    if at < hand.len() {
        let _ = hand.remove(at);
        assert(cards_view(hand@) =~= cards_view(old(hand)@).remove(at as int));
        true
    } else {
        false
    }
}

/// A step to the right and a step back leave the mark where it was, if it
/// was on one card and that card was not the last.
pub proof fn lemma_right_then_left(hand: Seq<CardView>)
    requires
        selected_place(hand) + 1 < hand.len(),
        forall|j: int| 0 <= j < hand.len() && j != selected_place(hand) ==> !hand[j].selected,
    ensures
        stepped_left(stepped_right(hand)) == hand,
{
    lemma_selected_from(hand, 0);
    let at = selected_place(hand);
    let moved = stepped_right(hand);
    assert(moved == mark_moved(hand, at, at + 1));
    lemma_selected_from(moved, 0);
    assert(moved[at + 1].selected);
    assert forall|j: int| 0 <= j <= at implies !(#[trigger] moved[j]).selected by {}
    assert(selected_place(moved) == at + 1) by {
        if selected_place(moved) < at + 1 {
            assert(moved[selected_place(moved)].selected);
        }
    }
    assert(stepped_left(moved) =~= hand);
}

} // verus!
