//! The client's picture of the session: which screen is shown, what state
//! it is in, and which request is waiting for its answer.
//!
//! Screens follow each other one way only: from the main menu to the lobby,
//! from the lobby to the game. Lobby and game each have a chat that can be
//! opened over the state one was in, and closed back to it.

use vstd::prelude::*;
use crate::message::{Game, GameView, Message, MessageView};
use crate::player::{players_view, Player, PlayerView};
use crate::requests::message_option_view;
use crate::text::texts_view;

verus! {

/// A window that lies over the screen, with its text as characters.
pub enum PopupView {
    Exiting,
    TextBox(Seq<char>),
}

/// A window that lies over the screen. While there is one, every key goes
/// to it and none to the screen below.
#[derive(Debug)]
pub enum Popup {
    /// Asks whether to leave the program.
    Exiting,
    /// Takes a line of text: the new name of the player.
    TextBox(String),
}

impl View for Popup {
    type V = PopupView;

    open spec fn view(&self) -> PopupView {
        match self {
            Popup::Exiting => PopupView::Exiting,
            Popup::TextBox(text) => PopupView::TextBox(text@),
        }
    }
}

/// An optional window as what it is.
pub open spec fn popup_option_view(popup: Option<Popup>) -> Option<PopupView> {
    match popup {
        Some(p) => Some(p@),
        None => None,
    }
}

/// An optional text as its characters.
pub open spec fn text_option_view(text: Option<String>) -> Option<Seq<char>> {
    match text {
        Some(t) => Some(t@),
        None => None,
    }
}

/// What a player does in the game.
#[derive(Debug, PartialEq, Eq, Clone, Copy, Structural)]
pub enum GameState {
    /// It is this player's turn.
    Playing,
    /// The chat is open.
    Chatting,
    /// Somebody else's turn.
    Idle,
}

/// What a player does in the lobby.
#[derive(Debug, PartialEq, Eq, Clone, Copy, Structural)]
pub enum LobbyState {
    /// The chat is open.
    Chatting,
    /// Waiting for the game to start.
    Readying,
}

/// A chat as what was said and what is being typed.
pub struct ChatView {
    pub history: Seq<Seq<char>>,
    pub curr_input: Seq<char>,
}

impl ChatView {
    /// The chat with one more character typed.
    pub open spec fn typed(self, ch: char) -> ChatView {
        ChatView { curr_input: self.curr_input.push(ch), ..self }
    }

    /// The chat with the last typed character taken back, if there is one.
    pub open spec fn erased(self) -> ChatView {
        if self.curr_input.len() > 0 {
            ChatView { curr_input: self.curr_input.drop_last(), ..self }
        } else {
            self
        }
    }

    /// The chat after the typed line was sent: the line is the last of what
    /// was said, and nothing is typed.
    pub open spec fn sent(self) -> ChatView {
        ChatView { history: self.history.push(self.curr_input), curr_input: Seq::empty() }
    }
}

/// The chat of a screen.
#[derive(Debug)]
pub struct Chat {
    pub history: Vec<String>,
    pub curr_input: String,
}

impl View for Chat {
    type V = ChatView;

    open spec fn view(&self) -> ChatView {
        ChatView { history: texts_view(self.history@), curr_input: self.curr_input@ }
    }
}

impl Chat {
    /// A chat in which nothing was said and nothing is typed.
    pub fn new() -> (r: Chat)
        ensures
            r@ == (ChatView { history: Seq::empty(), curr_input: Seq::empty() }),
    {
        let r = Chat { history: Vec::new(), curr_input: String::new() };
        assert(r@.history =~= Seq::<Seq<char>>::empty());
        r
    }

    /// Adds a character to the line being typed.
    pub fn type_char(&mut self, ch: char)
        ensures
            final(self)@ == old(self)@.typed(ch),
    {
        self.curr_input.push(ch);
    }

    /// Takes the last character of the line being typed back.
    pub fn erase(&mut self)
        ensures
            final(self)@ == old(self)@.erased(),
    {
        let _ = self.curr_input.pop();
    }

    /// Moves the typed line to what was said and returns a copy of it for
    /// the others.
    pub fn send(&mut self) -> (r: String)
        ensures
            final(self)@ == old(self)@.sent(),
            r@ == old(self)@.curr_input,
    {
        let mut line = String::new();
        core::mem::swap(&mut self.curr_input, &mut line);
        let copy = line.clone();
        self.history.push(line);
        assert(self@.history =~= old(self)@.history.push(old(self)@.curr_input));
        copy
    }
}

/// The lobby screen as mathematics.
pub struct LobbyInfoView {
    pub chat: ChatView,
    pub player_list: Seq<PlayerView>,
    pub host: PlayerView,
    pub state: LobbyState,
    pub last_state: LobbyState,
}

impl LobbyInfoView {
    /// The lobby in the state `state`, remembering the state it was in.
    pub open spec fn changed_to(self, state: LobbyState) -> LobbyInfoView {
        LobbyInfoView { state, last_state: self.state, ..self }
    }

    /// The lobby back in the state it was in before, remembering the state
    /// it is in now.
    pub open spec fn toggled(self) -> LobbyInfoView {
        LobbyInfoView { state: self.last_state, last_state: self.state, ..self }
    }

    /// With the chat open, the state to go back to is not the chat.
    pub open spec fn settled(self) -> bool {
        self.state == LobbyState::Chatting ==> self.last_state != LobbyState::Chatting
    }
}

/// The lobby screen: who is there, who is the host, and the chat.
#[derive(Debug)]
pub struct LobbyInfo {
    pub chat: Chat,
    pub player_list: Vec<Player>,
    pub host: Player,
    pub state: LobbyState,
    pub last_state: LobbyState,
}

impl View for LobbyInfo {
    type V = LobbyInfoView;

    open spec fn view(&self) -> LobbyInfoView {
        LobbyInfoView {
            chat: self.chat@,
            player_list: players_view(self.player_list@),
            host: self.host@,
            state: self.state,
            last_state: self.last_state,
        }
    }
}

impl LobbyInfo {
    /// A lobby with the given players, waiting for the game to start.
    pub fn new(chat: Chat, player_list: Vec<Player>, host: Player) -> (r: LobbyInfo)
        ensures
            r@ == (LobbyInfoView {
                chat: chat@,
                player_list: players_view(player_list@),
                host: host@,
                state: LobbyState::Readying,
                last_state: LobbyState::Readying,
            }),
    {
        LobbyInfo {
            chat,
            player_list,
            host,
            state: LobbyState::Readying,
            last_state: LobbyState::Readying,
        }
    }

    /// Goes to `state` and remembers the state left behind.
    pub fn change_state_to(&mut self, state: LobbyState)
        ensures
            final(self)@ == old(self)@.changed_to(state),
    {
        self.last_state = self.state;
        self.state = state;
    }

    /// Goes back to the remembered state and remembers the one left behind.
    pub fn toggle_state(&mut self)
        ensures
            final(self)@ == old(self)@.toggled(),
    {
        let now = self.state;
        self.state = self.last_state;
        self.last_state = now;
    }
}

/// The game screen as mathematics.
pub struct GameInfoView {
    pub game: GameView,
    pub chat: ChatView,
    pub state: GameState,
    pub last_state: GameState,
}

impl GameInfoView {
    /// The game screen in the state `state`, remembering the state it was
    /// in.
    pub open spec fn changed_to(self, state: GameState) -> GameInfoView {
        GameInfoView { state, last_state: self.state, ..self }
    }

    /// The game screen back in the state it was in before, remembering the
    /// state it is in now.
    pub open spec fn toggled(self) -> GameInfoView {
        GameInfoView { state: self.last_state, last_state: self.state, ..self }
    }

    /// With the chat open, the state to go back to is not the chat.
    pub open spec fn settled(self) -> bool {
        self.state == GameState::Chatting ==> self.last_state != GameState::Chatting
    }

    /// The game screen with `state` as what the player does apart from
    /// chatting: under an open chat it becomes the state to go back to.
    pub open spec fn turned_to(self, state: GameState) -> GameInfoView {
        if self.state == GameState::Chatting {
            GameInfoView { last_state: state, ..self }
        } else {
            GameInfoView { state, ..self }
        }
    }
}

/// The game screen: the player's view of the game, and the chat.
#[derive(Debug)]
pub struct GameInfo {
    pub game: Game,
    pub chat: Chat,
    pub state: GameState,
    pub last_state: GameState,
}

impl View for GameInfo {
    type V = GameInfoView;

    open spec fn view(&self) -> GameInfoView {
        GameInfoView {
            game: self.game@,
            chat: self.chat@,
            state: self.state,
            last_state: self.last_state,
        }
    }
}

impl GameInfo {
    /// A game screen on which it is somebody else's turn.
    pub fn new(game: Game, chat: Chat) -> (r: GameInfo)
        ensures
            r@ == (GameInfoView {
                game: game@,
                chat: chat@,
                state: GameState::Idle,
                last_state: GameState::Idle,
            }),
    {
        GameInfo { game, chat, state: GameState::Idle, last_state: GameState::Idle }
    }

    /// Goes to `state` and remembers the state left behind.
    pub fn change_state_to(&mut self, state: GameState)
        ensures
            final(self)@ == old(self)@.changed_to(state),
    {
        self.last_state = self.state;
        self.state = state;
    }

    /// Goes back to the remembered state and remembers the one left behind.
    pub fn toggle_state(&mut self)
        ensures
            final(self)@ == old(self)@.toggled(),
    {
        let now = self.state;
        self.state = self.last_state;
        self.last_state = now;
    }

    /// Makes `state` what the player does apart from chatting.
    pub fn turn_to(&mut self, state: GameState)
        ensures
            final(self)@ == old(self)@.turned_to(state),
    {
        let chatting = match self.state {
            GameState::Chatting => true,
            _ => false,
        };
        if chatting {
            self.last_state = state;
        } else {
            self.state = state;
        }
    }
}

/// A screen as mathematics.
pub enum ScreenView {
    MainMenu,
    Lobby(LobbyInfoView),
    Game(GameInfoView),
}

/// What the player looks at.
#[derive(Debug)]
pub enum Screen {
    MainMenu,
    Lobby(LobbyInfo),
    Game(GameInfo),
}

impl View for Screen {
    type V = ScreenView;

    open spec fn view(&self) -> ScreenView {
        match self {
            Screen::MainMenu => ScreenView::MainMenu,
            Screen::Lobby(info) => ScreenView::Lobby(info@),
            Screen::Game(info) => ScreenView::Game(info@),
        }
    }
}

impl ScreenView {
    /// How far along the one way from main menu to game a screen is.
    pub open spec fn rank(self) -> int {
        match self {
            ScreenView::MainMenu => 0,
            ScreenView::Lobby(_) => 1,
            ScreenView::Game(_) => 2,
        }
    }

    /// With the chat open, the state to go back to is not the chat.
    pub open spec fn settled(self) -> bool {
        match self {
            ScreenView::MainMenu => true,
            ScreenView::Lobby(info) => info.settled(),
            ScreenView::Game(info) => info.settled(),
        }
    }
}

/// The client as mathematics.
pub struct AppView {
    pub running: bool,
    pub popups: Option<PopupView>,
    pub current_screen: ScreenView,
    pub player: PlayerView,
    pub pending: Option<MessageView>,
    pub notice: Option<Seq<char>>,
}

/// The client.
#[derive(Debug)]
pub struct App {
    /// Whether the program goes on.
    pub running: bool,
    /// The window over the screen, if there is one.
    pub popups: Option<Popup>,
    /// The screen the player looks at.
    pub current_screen: Screen,
    /// The player as the session last confirmed it.
    pub player: Player,
    /// The request that was sent and not answered yet. Its effect is not
    /// shown before the answer is there.
    pub pending: Option<Message>,
    /// The reason the session gave for turning the last request down.
    pub notice: Option<String>,
}

impl View for App {
    type V = AppView;

    open spec fn view(&self) -> AppView {
        AppView {
            running: self.running,
            popups: popup_option_view(self.popups),
            current_screen: self.current_screen@,
            player: self.player@,
            pending: message_option_view(self.pending),
            notice: text_option_view(self.notice),
        }
    }
}

impl AppView {
    /// A client that has just started: running, at the main menu, with
    /// nothing over it, and a player the session has not named yet.
    pub open spec fn init() -> AppView {
        AppView {
            running: true,
            popups: None,
            current_screen: ScreenView::MainMenu,
            player: PlayerView { id: 0, name: Seq::empty() },
            pending: None,
            notice: None,
        }
    }
}

impl Default for App {
    fn default() -> (r: App)
        ensures
            r@ == AppView::init(),
    {
        App {
            running: true,
            popups: None,
            current_screen: Screen::MainMenu,
            player: Player::default(),
            pending: None,
            notice: None,
        }
    }
}

impl App {
    /// A client that has just started.
    pub fn new() -> (r: App)
        ensures
            r@ == AppView::init(),
    {
        App::default()
    }

    /// What the passing of time does to the client: nothing.
    pub fn tick(&self) {
    }

    /// Ends the program: only `running` changes, to false.
    pub fn quit(&mut self)
        ensures
            final(self)@ == (AppView { running: false, ..old(self)@ }),
    {
        self.running = false;
    }
}

/// Closing the chat brings back the state in which it was opened, and going
/// back and forth twice changes nothing.
pub proof fn lemma_lobby_chat_round_trip(info: LobbyInfoView)
    ensures
        info.changed_to(LobbyState::Chatting).toggled().state == info.state,
        info.toggled().toggled() == info,
        info.state != LobbyState::Chatting ==> info.changed_to(LobbyState::Chatting).settled(),
        info.settled() ==> info.toggled().settled(),
{
}

/// Closing the chat brings back the state in which it was opened, and going
/// back and forth twice changes nothing.
pub proof fn lemma_game_chat_round_trip(info: GameInfoView)
    ensures
        info.changed_to(GameState::Chatting).toggled().state == info.state,
        info.toggled().toggled() == info,
        info.state != GameState::Chatting ==> info.changed_to(GameState::Chatting).settled(),
        info.settled() ==> info.toggled().settled(),
{
}

} // verus!
