//! What a key does to the client.
//!
//! `key_step` says for every client and every key what the client is
//! afterwards and what is to be done outside it; `handle_key_events` does
//! exactly that. A key never changes the session by itself: where the
//! session is concerned, the key gives a message to send, and what the
//! message asks for shows only when the session has answered.

use vstd::prelude::*;
use crate::cards::{cards_view, CardView};
use crate::client::{
    App, AppView, Chat, ChatView, GameInfo, GameInfoView, GameState, LobbyInfo, LobbyInfoView,
    LobbyState, Popup, PopupView, Screen, ScreenView,
};
use crate::message::{GameView, Message, MessageView};
use crate::selection::{
    find_selected, select_left, select_right, selected_place, stepped_left, stepped_right,
};

verus! {

/// A key, as far as the client tells keys apart.
#[derive(Debug, PartialEq, Eq, Clone, Copy, Structural)]
pub enum Key {
    Char(char),
    Esc,
    Enter,
    Backspace,
    Left,
    Right,
    /// Any other key.
    Other,
}

/// One press of a key.
#[derive(Debug, PartialEq, Eq, Clone, Copy, Structural)]
pub struct KeyPress {
    pub key: Key,
    /// Whether control, and nothing else, was held down with the key.
    pub control: bool,
}

/// What is to be done outside the client, as mathematics.
pub enum CommandView {
    Nothing,
    CreateServer,
    JoinServer,
    Send(MessageView),
    Chat(Seq<char>),
}

/// What is to be done outside the client after a key.
#[derive(Debug)]
pub enum Command {
    Nothing,
    /// Open a session on this machine and join it.
    CreateServer,
    /// Join a session.
    JoinServer,
    /// Send this message to the session.
    Send(Message),
    /// Send this line to the other players' chats.
    Chat(String),
}

impl View for Command {
    type V = CommandView;

    open spec fn view(&self) -> CommandView {
        match self {
            Command::Nothing => CommandView::Nothing,
            Command::CreateServer => CommandView::CreateServer,
            Command::JoinServer => CommandView::JoinServer,
            Command::Send(message) => CommandView::Send(message@),
            Command::Chat(line) => CommandView::Chat(line@),
        }
    }
}

/// Whether the key is the letter, small or capital.
pub open spec fn is_letter(key: Key, small: char, capital: char) -> bool {
    key == Key::Char(small) || key == Key::Char(capital)
}

/// Whether the key asks to leave: escape, or the letter q.
pub open spec fn asks_exit(key: Key) -> bool {
    key == Key::Esc || is_letter(key, 'q', 'Q')
}

/// A text without its last character, if it has one.
pub open spec fn shortened(text: Seq<char>) -> Seq<char> {
    if text.len() > 0 {
        text.drop_last()
    } else {
        text
    }
}

/// What a key does in an open chat, but for closing it: a character is
/// typed, backspace takes one back, and enter sends the line if there is
/// one.
pub open spec fn chat_key(chat: ChatView, key: Key) -> (ChatView, CommandView) {
    match key {
        Key::Char(ch) => (chat.typed(ch), CommandView::Nothing),
        Key::Backspace => (chat.erased(), CommandView::Nothing),
        Key::Enter => if chat.curr_input.len() > 0 {
            (chat.sent(), CommandView::Chat(chat.curr_input))
        } else {
            (chat, CommandView::Nothing)
        },
        _ => (chat, CommandView::Nothing),
    }
}

/// What a key does while a window lies over the screen. The screen below is
/// never touched.
///
/// The question whether to leave is answered with y, which ends the program,
/// or n, which closes the window. The text box takes characters and
/// backspace; escape closes it; enter closes it and, if there is a text and
/// no request is waiting for its answer, asks the session for that name.
pub open spec fn popup_key(app: AppView, popup: PopupView, key: Key) -> (AppView, CommandView) {
    match popup {
        PopupView::Exiting => if is_letter(key, 'y', 'Y') {
            (AppView { running: false, ..app }, CommandView::Nothing)
        } else if is_letter(key, 'n', 'N') {
            (AppView { popups: None, ..app }, CommandView::Nothing)
        } else {
            (app, CommandView::Nothing)
        },
        PopupView::TextBox(text) => match key {
            Key::Char(ch) => (
                AppView { popups: Some(PopupView::TextBox(text.push(ch))), ..app },
                CommandView::Nothing,
            ),
            Key::Backspace => (
                AppView { popups: Some(PopupView::TextBox(shortened(text))), ..app },
                CommandView::Nothing,
            ),
            Key::Esc => (AppView { popups: None, ..app }, CommandView::Nothing),
            Key::Enter => if text.len() > 0 && app.pending is None {
                (
                    AppView { popups: None, pending: Some(MessageView::Rename(text)), ..app },
                    CommandView::Send(MessageView::Rename(text)),
                )
            } else {
                (AppView { popups: None, ..app }, CommandView::Nothing)
            },
            _ => (app, CommandView::Nothing),
        },
    }
}

/// What a key does at the main menu: escape or q asks whether to leave, c
/// opens a session and joins it, j joins one.
pub open spec fn menu_key(app: AppView, key: Key) -> (AppView, CommandView) {
    if asks_exit(key) {
        (AppView { popups: Some(PopupView::Exiting), ..app }, CommandView::Nothing)
    } else if is_letter(key, 'c', 'C') {
        (app, CommandView::CreateServer)
    } else if is_letter(key, 'j', 'J') {
        (app, CommandView::JoinServer)
    } else {
        (app, CommandView::Nothing)
    }
}

/// What a key does in the lobby. While waiting, s asks the session to start
/// the game if this player is the host, t opens the chat and r opens the
/// text box for a new name. In the chat, escape goes back and every other
/// key is the chat's.
pub open spec fn lobby_key(app: AppView, info: LobbyInfoView, key: Key) -> (AppView, CommandView) {
    match info.state {
        LobbyState::Readying => if is_letter(key, 's', 'S') {
            if app.player == info.host {
                (app, CommandView::Send(MessageView::GameStart))
            } else {
                (app, CommandView::Nothing)
            }
        } else if is_letter(key, 't', 'T') {
            (
                AppView {
                    current_screen: ScreenView::Lobby(info.changed_to(LobbyState::Chatting)),
                    ..app
                },
                CommandView::Nothing,
            )
        } else if is_letter(key, 'r', 'R') {
            (
                AppView { popups: Some(PopupView::TextBox(Seq::empty())), ..app },
                CommandView::Nothing,
            )
        } else {
            (app, CommandView::Nothing)
        },
        LobbyState::Chatting => if key == Key::Esc {
            (
                AppView { current_screen: ScreenView::Lobby(info.toggled()), ..app },
                CommandView::Nothing,
            )
        } else {
            (
                AppView {
                    current_screen: ScreenView::Lobby(
                        LobbyInfoView { chat: chat_key(info.chat, key).0, ..info },
                    ),
                    ..app
                },
                chat_key(info.chat, key).1,
            )
        },
    }
}

/// What the keys that work whenever the game screen is shown without the
/// chat do: escape or q asks whether to leave, c with control ends the
/// program, t opens the chat. `None` for any other key.
pub open spec fn game_common_key(app: AppView, info: GameInfoView, press: KeyPress) -> Option<
    AppView,
> {
    if asks_exit(press.key) {
        Some(AppView { popups: Some(PopupView::Exiting), ..app })
    } else if is_letter(press.key, 'c', 'C') {
        if press.control {
            Some(AppView { running: false, ..app })
        } else {
            Some(app)
        }
    } else if is_letter(press.key, 't', 'T') {
        Some(
            AppView {
                current_screen: ScreenView::Game(info.changed_to(GameState::Chatting)),
                ..app
            },
        )
    } else {
        None
    }
}

/// The game screen with another hand.
pub open spec fn with_hand(info: GameInfoView, hand: Seq<CardView>) -> GameInfoView {
    GameInfoView { game: GameView { hand, ..info.game }, ..info }
}

/// What a key does on the game screen. When it is this player's turn, the
/// arrows move the selection mark and enter offers the marked card to the
/// session, without its mark, if no request is waiting for its answer; the
/// card stays in the hand until the session has confirmed it. In the chat,
/// escape goes back and every other key is the chat's.
pub open spec fn game_key(app: AppView, info: GameInfoView, press: KeyPress) -> (
    AppView,
    CommandView,
) {
    match info.state {
        GameState::Chatting => if press.key == Key::Esc {
            (
                AppView { current_screen: ScreenView::Game(info.toggled()), ..app },
                CommandView::Nothing,
            )
        } else {
            (
                AppView {
                    current_screen: ScreenView::Game(
                        GameInfoView { chat: chat_key(info.chat, press.key).0, ..info },
                    ),
                    ..app
                },
                chat_key(info.chat, press.key).1,
            )
        },
        GameState::Idle => match game_common_key(app, info, press) {
            Some(next) => (next, CommandView::Nothing),
            None => (app, CommandView::Nothing),
        },
        GameState::Playing => match game_common_key(app, info, press) {
            Some(next) => (next, CommandView::Nothing),
            None => match press.key {
                Key::Right => (
                    AppView {
                        current_screen: ScreenView::Game(
                            with_hand(info, stepped_right(info.game.hand)),
                        ),
                        ..app
                    },
                    CommandView::Nothing,
                ),
                Key::Left => (
                    AppView {
                        current_screen: ScreenView::Game(
                            with_hand(info, stepped_left(info.game.hand)),
                        ),
                        ..app
                    },
                    CommandView::Nothing,
                ),
                Key::Enter => if selected_place(info.game.hand) < info.game.hand.len()
                    && app.pending is None {
                    (
                        AppView {
                            pending: Some(
                                MessageView::Play(
                                    info.game.hand[selected_place(info.game.hand)].marked(false),
                                ),
                            ),
                            ..app
                        },
                        CommandView::Send(
                            MessageView::Play(
                                info.game.hand[selected_place(info.game.hand)].marked(false),
                            ),
                        ),
                    )
                } else {
                    (app, CommandView::Nothing)
                },
                _ => (app, CommandView::Nothing),
            },
        },
    }
}

/// What a key does to the client, and what is to be done outside it. A
/// window over the screen gets every key; without one, the key is the
/// screen's.
pub open spec fn key_step(app: AppView, press: KeyPress) -> (AppView, CommandView) {
    match app.popups {
        Some(popup) => popup_key(app, popup, press.key),
        None => match app.current_screen {
            ScreenView::MainMenu => menu_key(app, press.key),
            ScreenView::Lobby(info) => lobby_key(app, info, press.key),
            ScreenView::Game(info) => game_key(app, info, press),
        },
    }
}

fn letter(key: Key, small: char, capital: char) -> (r: bool)
    ensures
        r == is_letter(key, small, capital),
{
    match key {
        Key::Char(ch) => ch == small || ch == capital,
        _ => false,
    }
}

fn exit_key(key: Key) -> (r: bool)
    ensures
        r == asks_exit(key),
{
    match key {
        Key::Esc => true,
        Key::Char(ch) => ch == 'q' || ch == 'Q',
        _ => false,
    }
}

fn chat_input(chat: &mut Chat, key: Key) -> (r: Command)
    ensures
        final(chat)@ == chat_key(old(chat)@, key).0,
        r@ == chat_key(old(chat)@, key).1,
{
    match key {
        Key::Char(ch) => {
            chat.type_char(ch);
            Command::Nothing
        },
        Key::Backspace => {
            chat.erase();
            Command::Nothing
        },
        Key::Enter => {
            if !chat.curr_input.as_str().is_empty() {
                Command::Chat(chat.send())
            } else {
                Command::Nothing
            }
        },
        _ => Command::Nothing,
    }
}

fn popup_input(app: &mut App, popup: Popup, key: Key) -> (r: Command)
    requires
        old(app).popups is None,
    ensures
        final(app)@ == popup_key(
            AppView { popups: Some(popup@), ..old(app)@ },
            popup@,
            key,
        ).0,
        r@ == popup_key(AppView { popups: Some(popup@), ..old(app)@ }, popup@, key).1,
{
    match popup {
        Popup::Exiting => {
            if letter(key, 'y', 'Y') {
                app.popups = Some(Popup::Exiting);
                app.quit();
            } else if !letter(key, 'n', 'N') {
                app.popups = Some(Popup::Exiting);
            }
            Command::Nothing
        },
        Popup::TextBox(text) => {
            let mut text = text;
            match key {
                Key::Char(ch) => {
                    text.push(ch);
                    app.popups = Some(Popup::TextBox(text));
                    Command::Nothing
                },
                Key::Backspace => {
                    let _ = text.pop();
                    app.popups = Some(Popup::TextBox(text));
                    Command::Nothing
                },
                Key::Esc => Command::Nothing,
                Key::Enter => {
                    if !text.as_str().is_empty() && app.pending.is_none() {
                        app.pending = Some(Message::Rename(text.clone()));
                        Command::Send(Message::Rename(text))
                    } else {
                        Command::Nothing
                    }
                },
                _ => {
                    app.popups = Some(Popup::TextBox(text));
                    Command::Nothing
                },
            }
        },
    }
}

fn menu_input(app: &mut App, key: Key) -> (r: Command)
    ensures
        final(app)@ == menu_key(old(app)@, key).0,
        r@ == menu_key(old(app)@, key).1,
{
    if exit_key(key) {
        app.popups = Some(Popup::Exiting);
        Command::Nothing
    } else if letter(key, 'c', 'C') {
        Command::CreateServer
    } else if letter(key, 'j', 'J') {
        Command::JoinServer
    } else {
        Command::Nothing
    }
}

fn lobby_input(app: &mut App, info: LobbyInfo, key: Key) -> (r: Command)
    ensures
        final(app)@ == lobby_key(
            AppView { current_screen: ScreenView::Lobby(info@), ..old(app)@ },
            info@,
            key,
        ).0,
        r@ == lobby_key(
            AppView { current_screen: ScreenView::Lobby(info@), ..old(app)@ },
            info@,
            key,
        ).1,
{
    let mut info = info;
    let command = match info.state {
        LobbyState::Readying => {
            if letter(key, 's', 'S') {
                if app.player.eq(&info.host) {
                    Command::Send(Message::GameStart)
                } else {
                    Command::Nothing
                }
            } else if letter(key, 't', 'T') {
                info.change_state_to(LobbyState::Chatting);
                Command::Nothing
            } else if letter(key, 'r', 'R') {
                app.popups = Some(Popup::TextBox(String::new()));
                Command::Nothing
            } else {
                Command::Nothing
            }
        },
        LobbyState::Chatting => {
            match key {
                Key::Esc => {
                    info.toggle_state();
                    Command::Nothing
                },
                _ => chat_input(&mut info.chat, key),
            }
        },
    };
    app.current_screen = Screen::Lobby(info);
    command
}

fn game_common_input(app: &mut App, info: &mut GameInfo, press: KeyPress) -> (r: bool)
    ensures
        match game_common_key(
            AppView { current_screen: ScreenView::Game(old(info)@), ..old(app)@ },
            old(info)@,
            press,
        ) {
            Some(next) => r && (AppView {
                current_screen: ScreenView::Game(final(info)@),
                ..final(app)@
            }) == next,
            None => !r && final(app)@ == old(app)@ && final(info)@ == old(info)@,
        },
        final(app)@.current_screen == old(app)@.current_screen,
{
    if exit_key(press.key) {
        app.popups = Some(Popup::Exiting);
        true
    } else if letter(press.key, 'c', 'C') {
        if press.control {
            app.quit();
        }
        true
    } else if letter(press.key, 't', 'T') {
        info.change_state_to(GameState::Chatting);
        true
    } else {
        false
    }
}

fn game_input(app: &mut App, info: GameInfo, press: KeyPress) -> (r: Command)
    ensures
        final(app)@ == game_key(
            AppView { current_screen: ScreenView::Game(info@), ..old(app)@ },
            info@,
            press,
        ).0,
        r@ == game_key(
            AppView { current_screen: ScreenView::Game(info@), ..old(app)@ },
            info@,
            press,
        ).1,
{
    let mut info = info;
    let command = match info.state {
        GameState::Chatting => {
            match press.key {
                Key::Esc => {
                    info.toggle_state();
                    Command::Nothing
                },
                _ => chat_input(&mut info.chat, press.key),
            }
        },
        GameState::Idle => {
            let _ = game_common_input(app, &mut info, press);
            Command::Nothing
        },
        GameState::Playing => {
            if game_common_input(app, &mut info, press) {
                Command::Nothing
            } else {
                match press.key {
                    Key::Right => {
                        select_right(&mut info.game.hand);
                        Command::Nothing
                    },
                    Key::Left => {
                        select_left(&mut info.game.hand);
                        Command::Nothing
                    },
                    Key::Enter => {
                        let at = find_selected(&info.game.hand);
                        if at < info.game.hand.len() && app.pending.is_none() {
                            assert(cards_view(info.game.hand@)[at as int]
                                == info.game.hand@[at as int]@);
                            let offered = info.game.hand[at].clone().selected(false);
                            app.pending = Some(Message::Play(offered.clone()));
                            Command::Send(Message::Play(offered))
                        } else {
                            Command::Nothing
                        }
                    },
                    _ => Command::Nothing,
                }
            }
        },
    };
    app.current_screen = Screen::Game(info);
    command
}

/// Takes one press of a key, changes the client by it and returns what is
/// to be done outside it: exactly what `key_step` says.
pub fn handle_key_events(key_event: KeyPress, app: &mut App) -> (r: Command)
    ensures
        final(app)@ == key_step(old(app)@, key_event).0,
        r@ == key_step(old(app)@, key_event).1,
{
    match app.popups.take() {
        Some(popup) => popup_input(app, popup, key_event.key),
        None => {
            let mut screen = Screen::MainMenu;
            core::mem::swap(&mut app.current_screen, &mut screen);
            match screen {
                Screen::MainMenu => menu_input(app, key_event.key),
                Screen::Lobby(info) => lobby_input(app, info, key_event.key),
                Screen::Game(info) => game_input(app, info, key_event),
            }
        },
    }
}

} // verus!
