//! What holds of every session, whatever requests reach it.

use vstd::prelude::*;
use crate::message::MessageView;
use crate::player::{Id, MAX_PLAYERS};
use crate::requests::{
    answer, outcome_at, quiet, run, step, DeliveryView, OutcomeView, Recipient, RequestView,
};
use crate::server::ServerError;
use crate::session::{
    lemma_dealt_inv, lemma_free_id_dense, lemma_has_player, lemma_joined_inv, lemma_left_inv,
    lemma_played_inv, lemma_renamed_inv, Phase, ServerView,
};

verus! {

/// Whether an outcome tells everybody that the game has begun.
pub open spec fn announces_start(outcome: OutcomeView) -> bool {
    outcome.pushes == seq![
        DeliveryView { to: Recipient::All, message: MessageView::GameStart },
    ]
}

/// Whether an outcome confirms a card: an `Okay` to the player together with
/// the card shown to everybody.
pub open spec fn confirms_play(outcome: OutcomeView) -> bool {
    &&& outcome.reply == Some(MessageView::Okay)
    &&& outcome.pushes.len() == 1
    &&& outcome.pushes[0].to == Recipient::All
    &&& outcome.pushes[0].message is Play
}

/// A row of `n` newcomers.
pub open spec fn joins(n: nat) -> Seq<RequestView> {
    Seq::new(n, |i: int| RequestView::Join)
}

/// A fresh session is in order.
pub proof fn lemma_init_inv()
    ensures
        ServerView::init().inv(),
{
}

/// A session in order has at most seven players.
pub proof fn lemma_inv_bounds_roster(s: ServerView)
    requires
        s.inv(),
    ensures
        s.seats.len() <= MAX_PLAYERS,
        s.roster().len() <= MAX_PLAYERS,
{
}

/// Every request leaves a session in order.
pub proof fn lemma_step_inv(s: ServerView, request: RequestView)
    requires
        s.inv(),
    ensures
        step(s, request).0.inv(),
{
    match request {
        RequestView::Join => {
            if s.seats.len() < MAX_PLAYERS {
                lemma_joined_inv(s);
            }
        },
        RequestView::Leave(id) => {
            lemma_left_inv(s, id);
        },
        RequestView::Rename(id, name) => {
            if s.has_player(id) {
                lemma_renamed_inv(s, id, name);
            }
        },
        RequestView::Start(id) => {},
        RequestView::Play(id, card, verdict) => {
            if s.refusal(id, card, verdict) is None {
                lemma_played_inv(s, id, card);
            }
        },
        RequestView::Timeout(id, card) => {
            if s.may_force(id, card) {
                lemma_played_inv(s, id, card);
            }
        },
        RequestView::Deal(hands, triumph) => {
            if s.may_deal(hands, triumph) {
                lemma_dealt_inv(s, hands, triumph);
            }
        },
        RequestView::Prompt(id) => {},
    }
}

/// Whatever requests reach a session in order, it stays in order, and so
/// never has more than seven players.
pub proof fn lemma_run_inv(s: ServerView, requests: Seq<RequestView>)
    requires
        s.inv(),
    ensures
        run(s, requests).inv(),
        run(s, requests).seats.len() <= MAX_PLAYERS,
    decreases requests.len(),
{
    if requests.len() > 0 {
        lemma_run_inv(s, requests.drop_last());
        lemma_step_inv(run(s, requests.drop_last()), requests.last());
    }
}

/// Requests take effect in the order of the row: a row cut in two gives the
/// same session as the first part followed by the second on what the first
/// left.
pub proof fn lemma_run_concat(s: ServerView, first: Seq<RequestView>, second: Seq<RequestView>)
    ensures
        run(s, first + second) == run(run(s, first), second),
    decreases second.len(),
{
    if second.len() == 0 {
        assert(first + second =~= first);
    } else {
        assert((first + second).drop_last() =~= first + second.drop_last());
        assert((first + second).last() == second.last());
        lemma_run_concat(s, first, second.drop_last());
    }
}

/// Two requests in a row give the session that the second gives on what the
/// first left: however they were handed in, their effect is that of one
/// after the other.
pub proof fn lemma_run_pair(s: ServerView, first: RequestView, second: RequestView)
    ensures
        run(s, seq![first, second]) == step(step(s, first).0, second).0,
        outcome_at(s, seq![first, second], 0) == step(s, first).1,
        outcome_at(s, seq![first, second], 1) == step(step(s, first).0, second).1,
{
    let both = seq![first, second];
    assert(both.drop_last() =~= seq![first]);
    assert(seq![first].drop_last() =~= Seq::<RequestView>::empty());
    assert(run(s, Seq::<RequestView>::empty()) == s);
    assert(run(s, seq![first]) == step(s, first).0);
    assert(both.take(0) =~= Seq::<RequestView>::empty());
    assert(both.take(1) =~= seq![first]);
}

/// A request never takes a session back to the lobby.
pub proof fn lemma_step_keeps_game(s: ServerView, request: RequestView)
    requires
        s.phase == Phase::InGame,
    ensures
        step(s, request).0.phase == Phase::InGame,
{
}

/// Once in the game, always in the game.
pub proof fn lemma_run_keeps_game(s: ServerView, requests: Seq<RequestView>)
    requires
        s.phase == Phase::InGame,
    ensures
        run(s, requests).phase == Phase::InGame,
    decreases requests.len(),
{
    if requests.len() > 0 {
        lemma_run_keeps_game(s, requests.drop_last());
    }
}

/// A request to start from anybody but the host changes nothing and nobody
/// hears of it. From the host in the lobby, present and never gone, it
/// begins the game and everybody is told.
pub proof fn lemma_start(s: ServerView, id: Id)
    ensures
        id != s.host_id ==> step(s, RequestView::Start(id)) == (s, quiet()),
        s.may_start(id) ==> step(s, RequestView::Start(id)).0.phase == Phase::InGame
            && announces_start(step(s, RequestView::Start(id)).1),
        !s.may_start(id) ==> step(s, RequestView::Start(id)) == (s, quiet()),
{
}

/// The beginning of the game is told exactly when the session leaves the
/// lobby.
pub proof fn lemma_announcement_is_the_start(s: ServerView, request: RequestView)
    ensures
        announces_start(step(s, request).1) <==> (s.phase == Phase::Lobby && step(
            s,
            request,
        ).0.phase == Phase::InGame),
{
    let pushes = step(s, request).1.pushes;
    let told = seq![DeliveryView { to: Recipient::All, message: MessageView::GameStart }];
    assert(told.len() == 1);
    assert(told[0].message is GameStart);
    assert(told[0].to == Recipient::All);
    if pushes.len() == 1 {
        match request {
            RequestView::Deal(hands, triumph) => {
                assert(pushes[0].message is NewRound);
            },
            RequestView::Rename(id, name) => {
                assert(pushes[0].message is Rename);
            },
            RequestView::Play(id, card, verdict) => {
                assert(pushes[0].message is Play);
            },
            RequestView::Timeout(id, card) => {
                assert(pushes[0].message is TimeOut);
            },
            RequestView::Prompt(id) => {
                assert(pushes[0].message is RequestPlay);
            },
            RequestView::Start(id) => {
                assert(s.may_start(id));
                assert(pushes =~= told);
            },
            _ => {},
        }
    } else {
        assert(pushes != told);
        match request {
            RequestView::Start(id) => {
                assert(!s.may_start(id));
            },
            _ => {},
        }
    }
}

/// A card is confirmed only in the game.
pub proof fn lemma_confirmation_needs_game(s: ServerView, request: RequestView)
    requires
        confirms_play(step(s, request).1),
    ensures
        s.phase == Phase::InGame,
{
    match request {
        RequestView::Rename(id, name) => {
            if s.has_player(id) {
                assert(step(s, request).1.pushes[0].message is Rename);
            }
        },
        _ => {},
    }
}

/// A session that has run from the lobby into the game has told everybody
/// so at some request on the way.
pub proof fn lemma_game_was_announced(s: ServerView, requests: Seq<RequestView>, k: int)
    requires
        s.phase == Phase::Lobby,
        0 <= k <= requests.len(),
        run(s, requests.take(k)).phase == Phase::InGame,
    ensures
        exists|i: int| 0 <= i < k && announces_start(#[trigger] outcome_at(s, requests, i)),
    decreases k,
{
    if k == 0 {
        assert(requests.take(0) =~= Seq::<RequestView>::empty());
    } else {
        let before = run(s, requests.take(k - 1));
        assert(requests.take(k).drop_last() =~= requests.take(k - 1));
        assert(requests.take(k).last() == requests[k - 1]);
        assert(run(s, requests.take(k)) == step(before, requests[k - 1]).0);
        if before.phase == Phase::InGame {
            lemma_game_was_announced(s, requests, k - 1);
        } else {
            lemma_announcement_is_the_start(before, requests[k - 1]);
            assert(announces_start(outcome_at(s, requests, k - 1)));
        }
    }
}

/// In a session that starts in the lobby, no card is confirmed before
/// everybody has been told that the game has begun: the request that
/// announces the game comes earlier in the row than any request whose card
/// is confirmed.
pub proof fn lemma_start_precedes_play(s: ServerView, requests: Seq<RequestView>, j: int)
    requires
        s.phase == Phase::Lobby,
        0 <= j < requests.len(),
        confirms_play(outcome_at(s, requests, j)),
    ensures
        exists|i: int| 0 <= i < j && announces_start(#[trigger] outcome_at(s, requests, i)),
{
    lemma_confirmation_needs_game(run(s, requests.take(j)), requests[j]);
    lemma_game_was_announced(s, requests, j);
}

/// The phase along a row of requests only moves forward.
pub proof fn lemma_phase_moves_forward(s: ServerView, requests: Seq<RequestView>, i: int, j: int)
    requires
        0 <= i <= j <= requests.len(),
        run(s, requests.take(i)).phase == Phase::InGame,
    ensures
        run(s, requests.take(j)).phase == Phase::InGame,
    decreases j - i,
{
    if i < j {
        lemma_phase_moves_forward(s, requests, i, j - 1);
        assert(requests.take(j).drop_last() =~= requests.take(j - 1));
    }
}

/// The game begins at most once: in any row of requests, at most one is
/// answered by telling everybody that the game has begun.
pub proof fn lemma_start_once(s: ServerView, requests: Seq<RequestView>, i: int, j: int)
    requires
        0 <= i < requests.len(),
        0 <= j < requests.len(),
        announces_start(outcome_at(s, requests, i)),
        announces_start(outcome_at(s, requests, j)),
    ensures
        i == j,
{
    if i < j {
        lemma_announcement_is_the_start(run(s, requests.take(i)), requests[i]);
        assert(requests.take(i + 1).drop_last() =~= requests.take(i));
        assert(requests.take(i + 1).last() == requests[i]);
        lemma_phase_moves_forward(s, requests, i + 1, j);
        lemma_announcement_is_the_start(run(s, requests.take(j)), requests[j]);
    } else if j < i {
        lemma_announcement_is_the_start(run(s, requests.take(j)), requests[j]);
        assert(requests.take(j + 1).drop_last() =~= requests.take(j));
        assert(requests.take(j + 1).last() == requests[j]);
        lemma_phase_moves_forward(s, requests, j + 1, i);
        lemma_announcement_is_the_start(run(s, requests.take(i)), requests[i]);
    }
}

/// A newcomer to a full session is told so, and the session stays exactly as
/// it was.
pub proof fn lemma_full_session_refuses(s: ServerView)
    requires
        s.seats.len() >= MAX_PLAYERS,
    ensures
        step(s, RequestView::Join) == (
            s,
            answer(MessageView::Error(ServerError::TooManyPlayers.text())),
        ),
{
}

/// After `n` newcomers in a row a session has as many players more, but
/// never more than seven: the roster grows by one with each until it is
/// full, and stays as it is from then on.
pub proof fn lemma_joins(s: ServerView, n: nat)
    requires
        s.seats.len() <= MAX_PLAYERS,
    ensures
        run(s, joins(n)).seats.len() == if s.seats.len() + n <= MAX_PLAYERS {
            s.seats.len() + n
        } else {
            MAX_PLAYERS as nat
        },
        s.seats.len() + n > MAX_PLAYERS ==> n > 0 && run(s, joins(n)) == run(
            s,
            joins((n - 1) as nat),
        ),
    decreases n,
{
    if n > 0 {
        let fewer = (n - 1) as nat;
        assert(joins(n).drop_last() =~= joins(fewer));
        assert(joins(n).last() == RequestView::Join);
        lemma_joins(s, fewer);
    }
}

/// As long as nobody leaves, every player's number is the place in the
/// roster: no request but a player's leaving changes that.
pub proof fn lemma_step_keeps_dense(s: ServerView, request: RequestView)
    requires
        s.dense(),
        s.seats.len() <= MAX_PLAYERS,
        !(request is Leave),
    ensures
        step(s, request).0.dense(),
{
    match request {
        RequestView::Join => {
            if s.seats.len() < MAX_PLAYERS {
                lemma_free_id_dense(s);
            }
        },
        RequestView::Rename(id, name) => {
            if s.has_player(id) {
                lemma_has_player(s, id);
            }
        },
        RequestView::Play(id, card, verdict) => {
            if s.refusal(id, card, verdict) is None {
                lemma_has_player(s, id);
            }
        },
        RequestView::Timeout(id, card) => {
            if s.may_force(id, card) {
                lemma_has_player(s, id);
            }
        },
        _ => {},
    }
}

/// As long as nobody has left, a newcomer who is let in gets the number of
/// players that were there before: the first gets 0, the next 1, and so on.
pub proof fn lemma_join_number(s: ServerView)
    requires
        s.dense(),
        s.seats.len() < MAX_PLAYERS,
    ensures
        step(s, RequestView::Join).1.admitted == Some(s.seats.len() as Id),
        step(s, RequestView::Join).0.seats.len() == s.seats.len() + 1,
        step(s, RequestView::Join).0.seats.last().player.id == s.seats.len(),
{
    lemma_free_id_dense(s);
}

/// A request that is answered with an error changes nothing in the session
/// and nobody else hears of it.
pub proof fn lemma_error_changes_nothing(s: ServerView, request: RequestView)
    requires
        step(s, request).1.reply matches Some(m) && m is Error,
    ensures
        step(s, request).0 == s,
        step(s, request).1.pushes.len() == 0,
        step(s, request).1.admitted is None,
{
}

} // verus!
