//! The screen on which a guest logs in or registers.

use vstd::prelude::*;
use crate::requests::{LoginInfo, Session};
use crate::ws_client::{SocketStep, State};

verus! {

/// What reaches the login screen.
#[derive(Debug, PartialEq)]
pub enum LoginScreenMessage {
    UsernameInputChanged(String),
    PasswordInputChanged(String),
    Login,
    Register,
    /// The server let the user in. The application acts on it.
    LoggedIn(Session),
    /// The user pressed enter in a field.
    FocusChange,
    Error(String),
}

/// The two ways in.
#[derive(Debug, Clone, Copy, PartialEq, Eq)]
pub enum Entry {
    Login,
    Register,
}

/// What the login screen asks its caller to do.
#[derive(Debug, PartialEq)]
pub enum LoginScreenCommand {
    /// Nothing to do.
    Nothing,
    /// Move the input focus to the next field.
    FocusNext,
    /// Send `info` to the login or the registration route and report the
    /// session as `LoggedIn`.
    Enter { entry: Entry, info: LoginInfo },
}

/// The login screen.
#[derive(Debug, PartialEq)]
pub struct LoginScreen {
    /// Whether a request is under way; the buttons are dead meanwhile.
    logging_in: bool,
    username_input: String,
    password_input: String,
}

/// `LoginScreen` as contracts see it.
pub struct LoginScreenView {
    pub logging_in: bool,
    pub username_input: Seq<char>,
    pub password_input: Seq<char>,
}

impl View for LoginScreen {
    type V = LoginScreenView;

    closed spec fn view(&self) -> LoginScreenView {
        LoginScreenView {
            logging_in: self.logging_in,
            username_input: self.username_input@,
            password_input: self.password_input@,
        }
    }
}

impl LoginScreenView {
    /// The screen after `message` reached it.
    pub open spec fn next(self, message: LoginScreenMessage) -> LoginScreenView {
        match message {
            LoginScreenMessage::UsernameInputChanged(value) => LoginScreenView {
                username_input: value@,
                ..self
            },
            LoginScreenMessage::PasswordInputChanged(value) => LoginScreenView {
                password_input: value@,
                ..self
            },
            LoginScreenMessage::Login | LoginScreenMessage::Register => LoginScreenView {
                logging_in: true,
                ..self
            },
            _ => self,
        }
    }

    /// Whether `command` sends what was typed to the given route.
    pub open spec fn enters(self, entry: Entry, command: LoginScreenCommand) -> bool {
        &&& command matches LoginScreenCommand::Enter { entry: chosen, info }
        &&& chosen == entry
        &&& info@.username == self.username_input
        &&& info@.password == self.password_input
    }

    /// Whether `command` is what the screen asks for when `message` reaches
    /// it in this state.
    pub open spec fn asks(self, message: LoginScreenMessage, command: LoginScreenCommand) -> bool {
        match message {
            LoginScreenMessage::FocusChange => command is FocusNext,
            LoginScreenMessage::Login => self.enters(Entry::Login, command),
            LoginScreenMessage::Register => self.enters(Entry::Register, command),
            _ => command is Nothing,
        }
    }
}

impl LoginScreen {
    /// An idle screen with empty fields.
    pub fn new() -> (screen: Self)
        ensures
            screen@ == (LoginScreenView {
                logging_in: false,
                username_input: Seq::empty(),
                password_input: Seq::empty(),
            }),
    {
        LoginScreen {
            logging_in: false,
            username_input: String::new(),
            password_input: String::new(),
        }
    }

    /// Marks the screen as idle again, after a request failed.
    pub fn stop_logging_in(&mut self)
        ensures
            final(self)@ == (LoginScreenView { logging_in: false, ..old(self)@ }),
    {
        self.logging_in = false;
    }

    /// The event socket that the screen listens to: none.
    pub fn subscription(&self) -> (socket: Option<(State, SocketStep)>)
        ensures
            socket is None,
    {
        None
    }

    /// The name typed so far.
    pub fn username_input(&self) -> (text: &String)
        ensures
            text@ == self@.username_input,
    {
        &self.username_input
    }

    /// The password typed so far.
    pub fn password_input(&self) -> (text: &String)
        ensures
            text@ == self@.password_input,
    {
        &self.password_input
    }

    /// Whether a request is under way.
    pub fn is_logging_in(&self) -> (busy: bool)
        ensures
            busy == self@.logging_in,
    {
        self.logging_in
    }

    /// Takes one message and says what to do next.
    pub fn update(&mut self, message: LoginScreenMessage) -> (command: LoginScreenCommand)
        ensures
            final(self)@ == old(self)@.next(message),
            old(self)@.asks(message, command),
    {
        match message {
            LoginScreenMessage::UsernameInputChanged(value) => {
                self.username_input = value;
                LoginScreenCommand::Nothing
            },
            LoginScreenMessage::PasswordInputChanged(value) => {
                self.password_input = value;
                LoginScreenCommand::Nothing
            },
            LoginScreenMessage::FocusChange => LoginScreenCommand::FocusNext,
            LoginScreenMessage::Login => self.enter(Entry::Login),
            LoginScreenMessage::Register => self.enter(Entry::Register),
            _ => LoginScreenCommand::Nothing,
        }
    }

    /// Starts a request with what was typed.
    fn enter(&mut self, entry: Entry) -> (command: LoginScreenCommand)
        ensures
            final(self)@ == (LoginScreenView { logging_in: true, ..old(self)@ }),
            old(self)@.enters(entry, command),
    {
        self.logging_in = true;
        LoginScreenCommand::Enter {
            entry,
            info: LoginInfo {
                username: self.username_input.clone(),
                password: self.password_input.clone(),
            },
        }
    }
}

} // verus!
