//! What the session's messages do to the client, and what holds of the
//! client whatever keys and messages reach it.

use vstd::prelude::*;
use crate::cards::{cards_view, Card, CardView};
use crate::client::{
    App, AppView, Chat, ChatView, GameInfo, GameInfoView, GameState, LobbyInfo, LobbyInfoView, LobbyState,
    Screen, ScreenView,
};
use crate::handler::{key_step, CommandView, KeyPress};
use crate::message::{Game, GameView, Message, MessageView};
use crate::player::{players_view, Player, PlayerView};
use crate::selection::{holds_face, lemma_selected_from, take_face, without};

verus! {

/// A game in which no card has been dealt.
pub open spec fn empty_game() -> GameView {
    GameView { hand: Seq::empty(), table: Seq::empty(), triumph: None }
}

/// The game screen after a card has left the hand: the first card of the
/// hand that is `card` but for the selection mark is gone and it is no
/// longer this player's turn. Nothing changes if the hand holds no such
/// card.
pub open spec fn card_gone(info: GameInfoView, card: CardView) -> GameInfoView {
    if holds_face(info.game.hand, card) {
        (GameInfoView {
            game: GameView { hand: without(info.game.hand, card), ..info.game },
            ..info
        }).turned_to(GameState::Idle)
    } else {
        info
    }
}

/// The game screen with one more card on the table.
pub open spec fn card_shown(info: GameInfoView, card: CardView) -> GameInfoView {
    GameInfoView { game: GameView { table: info.game.table.push(card), ..info.game }, ..info }
}

/// The client with another game screen, if it shows the game; as it is
/// otherwise.
pub open spec fn on_game(app: AppView, change: spec_fn(GameInfoView) -> GameInfoView) -> AppView {
    match app.current_screen {
        ScreenView::Game(info) => AppView { current_screen: ScreenView::Game(change(info)), ..app },
        _ => app,
    }
}

/// The client after the session's `Okay`: the request that was waiting has
/// taken effect. An offered card leaves the hand; a new name is the
/// player's name. Nothing is waiting any more.
pub open spec fn confirmed(app: AppView) -> AppView {
    match app.pending {
        Some(MessageView::Play(card)) => AppView {
            pending: None,
            ..on_game(app, |info: GameInfoView| card_gone(info, card))
        },
        Some(MessageView::Rename(name)) => AppView {
            pending: None,
            player: PlayerView { name, ..app.player },
            ..app
        },
        _ => AppView { pending: None, ..app },
    }
}

/// The client after a message from the session.
///
/// `GameStart` turns the lobby into the game screen, with the lobby's chat
/// and no cards yet. `NewRound` replaces the player's view of the game.
/// `RequestPlay` makes it this player's turn. `Play` puts a card on the
/// table. `TimeOut` puts a card on the table and takes it out of the hand if
/// it was there. `Okay` lets the waiting request take effect. `Error`
/// forgets the waiting request and keeps the reason for showing. A message
/// that does not concern the screen shown changes nothing.
pub open spec fn applied(app: AppView, message: MessageView) -> AppView {
    match message {
        MessageView::GameStart => match app.current_screen {
            ScreenView::Lobby(info) => AppView {
                current_screen: ScreenView::Game(
                    GameInfoView {
                        game: empty_game(),
                        chat: info.chat,
                        state: GameState::Idle,
                        last_state: GameState::Idle,
                    },
                ),
                ..app
            },
            _ => app,
        },
        MessageView::NewRound(game) => on_game(
            app,
            |info: GameInfoView| GameInfoView { game, ..info },
        ),
        MessageView::RequestPlay => on_game(
            app,
            |info: GameInfoView| info.turned_to(GameState::Playing),
        ),
        MessageView::Play(card) => on_game(app, |info: GameInfoView| card_shown(info, card)),
        MessageView::TimeOut(card) => on_game(
            app,
            |info: GameInfoView| card_gone(card_shown(info, card), card),
        ),
        MessageView::Okay => confirmed(app),
        MessageView::Error(reason) => AppView { pending: None, notice: Some(reason), ..app },
        MessageView::Rename(_) => app,
    }
}

/// The client after the session has let the player in: from the main menu
/// into the lobby, as the player the session made of it. From any other
/// screen there is no way into the lobby.
pub open spec fn entered(
    app: AppView,
    me: PlayerView,
    player_list: Seq<PlayerView>,
    host: PlayerView,
) -> AppView {
    match app.current_screen {
        ScreenView::MainMenu => AppView {
            current_screen: ScreenView::Lobby(
                LobbyInfoView {
                    chat: ChatView { history: Seq::empty(), curr_input: Seq::empty() },
                    player_list,
                    host,
                    state: LobbyState::Readying,
                    last_state: LobbyState::Readying,
                },
            ),
            player: me,
            ..app
        },
        _ => app,
    }
}

fn show_card(info: &mut GameInfo, card: Card)
    ensures
        final(info)@ == card_shown(old(info)@, card@),
{
    info.game.table.push(card);
    assert(cards_view(info.game.table@) =~= cards_view(old(info).game.table@).push(card@));
}

fn drop_card(info: &mut GameInfo, card: &Card)
    ensures
        final(info)@ == card_gone(old(info)@, card@),
{
    if take_face(&mut info.game.hand, card) {
        info.turn_to(GameState::Idle);
    }
}

impl App {
    /// Takes the client from the main menu into the lobby once the session
    /// has let the player in, and says whether it did.
    pub fn enter_lobby(&mut self, me: Player, player_list: Vec<Player>, host: Player) -> (r: bool)
        ensures
            r == (old(self)@.current_screen is MainMenu),
            final(self)@ == entered(old(self)@, me@, players_view(player_list@), host@),
    {
        let at_menu = match &self.current_screen {
            Screen::MainMenu => true,
            _ => false,
        };
        if at_menu {
            self.current_screen = Screen::Lobby(LobbyInfo::new(Chat::new(), player_list, host));
            self.player = me;
        }
        at_menu
    }

    fn confirm(&mut self)
        ensures
            final(self)@ == confirmed(old(self)@),
    {
        match self.pending.take() {
            Some(Message::Play(card)) => {
                let mut screen = Screen::MainMenu;
                core::mem::swap(&mut self.current_screen, &mut screen);
                match screen {
                    Screen::Game(info) => {
                        let mut info = info;
                        drop_card(&mut info, &card);
                        self.current_screen = Screen::Game(info);
                    },
                    other => {
                        self.current_screen = other;
                    },
                }
            },
            Some(Message::Rename(name)) => {
                self.player.name = name;
            },
            _ => {},
        }
    }

    /// Takes a message from the session and changes the client by it:
    /// exactly what `applied` says.
    pub fn apply(&mut self, message: Message)
        ensures
            final(self)@ == applied(old(self)@, message@),
    {
        match message {
            Message::Okay => {
                self.confirm();
            },
            Message::Error(reason) => {
                self.pending = None;
                self.notice = Some(reason);
            },
            Message::Rename(_) => {},
            other => {
                let mut screen = Screen::MainMenu;
                core::mem::swap(&mut self.current_screen, &mut screen);
                let next = match screen {
                    Screen::Lobby(info) => match other {
                        Message::GameStart => {
                            let game = Game { hand: Vec::new(), table: Vec::new(), triumph: None };
                            assert(game@ =~= empty_game()) by {
                                assert(game@.hand =~= Seq::<CardView>::empty());
                                assert(game@.table =~= Seq::<CardView>::empty());
                            }
                            Screen::Game(GameInfo::new(game, info.chat))
                        },
                        _ => Screen::Lobby(info),
                    },
                    Screen::Game(info) => {
                        let mut info = info;
                        match other {
                            Message::NewRound(game) => {
                                info.game = game;
                            },
                            Message::RequestPlay => {
                                info.turn_to(GameState::Playing);
                            },
                            Message::Play(card) => {
                                show_card(&mut info, card);
                            },
                            Message::TimeOut(card) => {
                                let shown = card.clone();
                                show_card(&mut info, shown);
                                drop_card(&mut info, &card);
                            },
                            _ => {},
                        }
                        Screen::Game(info)
                    },
                    Screen::MainMenu => Screen::MainMenu,
                };
                self.current_screen = next;
            },
        }
    }
}

/// No key changes which screen is shown, and no message takes the client
/// back: the way from the main menu over the lobby to the game is one way.
pub proof fn lemma_screens_one_way(app: AppView, press: KeyPress, message: MessageView)
    ensures
        key_step(app, press).0.current_screen.rank() == app.current_screen.rank(),
        applied(app, message).current_screen.rank() >= app.current_screen.rank(),
        applied(app, message).current_screen.rank() <= app.current_screen.rank() + 1,
{
}

/// While a window lies over the screen, no key reaches the screen below.
pub proof fn lemma_popup_takes_every_key(app: AppView, press: KeyPress)
    requires
        app.popups is Some,
    ensures
        key_step(app, press).0.current_screen == app.current_screen,
        key_step(app, press).0.player == app.player,
{
}

/// A key alone never makes the client show what it has asked the session
/// for: the player's name and the cards on the table stay, and the hand
/// keeps its cards in their order, whatever happens to the selection mark.
pub proof fn lemma_keys_wait_for_the_session(app: AppView, press: KeyPress)
    ensures
        key_step(app, press).0.player == app.player,
        app.current_screen matches ScreenView::Game(before) ==> {
            &&& key_step(app, press).0.current_screen matches ScreenView::Game(after)
            &&& after.game.table == before.game.table
            &&& after.game.triumph == before.game.triumph
            &&& after.game.hand.len() == before.game.hand.len()
            &&& forall|i: int|
                0 <= i < before.game.hand.len() ==> (#[trigger] after.game.hand[i]).marked(false)
                    == before.game.hand[i].marked(false)
        },
{
    match app.current_screen {
        ScreenView::Game(before) => {
            lemma_selected_from(before.game.hand, 0);
        },
        _ => {},
    }
}

/// A request is sent only when none is waiting for its answer, and is then
/// the one that waits; the session's `Okay` or `Error` ends the waiting.
pub proof fn lemma_one_request_at_a_time(app: AppView, press: KeyPress)
    ensures
        key_step(app, press).1 matches CommandView::Send(m) ==> m is GameStart
            || (app.pending is None && key_step(app, press).0.pending == Some(m)),
        !(key_step(app, press).1 is Send) ==> key_step(app, press).0.pending == app.pending,
        applied(app, MessageView::Okay).pending is None,
        forall|reason: Seq<char>| (#[trigger] applied(app, MessageView::Error(reason))).pending is None,
{
}

/// The chat stays one step deep: if the state to go back to from the chat
/// is not the chat itself, no key and no message changes that.
pub proof fn lemma_chat_stays_settled(app: AppView, press: KeyPress, message: MessageView)
    requires
        app.current_screen.settled(),
    ensures
        key_step(app, press).0.current_screen.settled(),
        applied(app, message).current_screen.settled(),
{
}

} // verus!
