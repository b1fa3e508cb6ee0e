//! The application as a whole: a guest at the login screen or a user at the
//! main screen, and the error that is on display.

use vstd::prelude::*;
use crate::bearer::bearer_value;
use crate::chat_list::ChatListMessage;
use crate::clock::{is_clock_reading, utc_now_millis, Timestamp};
use crate::header::{HeaderCommand, HeaderMessage};
use crate::letter_list::LetterListMessage;
use crate::login_screen::{
    LoginScreen, LoginScreenCommand, LoginScreenMessage, LoginScreenView,
};
use crate::main_screen::{MainScreen, MainScreenCommand, MainScreenMessage, MainScreenView};
use crate::requests::opt_text;
use crate::settings::SettingsMessage;
use crate::ws_client::{SocketStep, State};

verus! {

/// What reaches the application.
#[derive(Debug, PartialEq)]
pub enum AppMessage {
    LoginScreen(LoginScreenMessage),
    MainScreen(MainScreenMessage),
    /// Something failed and is to be shown.
    Error(String),
    /// The user dismissed the error.
    CloseError,
    /// The server ended the session.
    LoggedOut,
}

/// What the application asks its caller to do.
#[derive(Debug, PartialEq)]
pub enum AppCommand {
    /// Nothing to do.
    Nothing,
    /// End the session at the server and report `LoggedOut`.
    LogOut { session_id: String },
    /// Carry out the commands of the main screen and report their outcomes
    /// through [`AppMessage::from_main_screen`].
    MainScreen(Vec<MainScreenCommand>),
    /// Carry out a command of the login screen and report its outcome
    /// through [`AppMessage::from_login_screen`].
    LoginScreen(LoginScreenCommand),
}

impl AppMessage {
    /// The message that an outcome of the main screen becomes: an error
    /// goes to the application, the rest back to the screen.
    pub fn from_main_screen(message: MainScreenMessage) -> (lifted: AppMessage)
        ensures
            lifted == match message {
                MainScreenMessage::Error(error) => AppMessage::Error(error),
                other => AppMessage::MainScreen(other),
            },
    {
        match message {
            MainScreenMessage::Error(error) => AppMessage::Error(error),
            other => AppMessage::MainScreen(other),
        }
    }

    /// The message that an outcome of the login screen becomes.
    pub fn from_login_screen(message: LoginScreenMessage) -> (lifted: AppMessage)
        ensures
            lifted == match message {
                LoginScreenMessage::Error(error) => AppMessage::Error(error),
                other => AppMessage::LoginScreen(other),
            },
    {
        match message {
            LoginScreenMessage::Error(error) => AppMessage::Error(error),
            other => AppMessage::LoginScreen(other),
        }
    }
}

/// The message that an outcome of the chat list becomes for the main
/// screen.
pub fn from_chat_list(message: ChatListMessage) -> (lifted: MainScreenMessage)
    ensures
        lifted == match message {
            ChatListMessage::Error(error) => MainScreenMessage::Error(error),
            other => MainScreenMessage::ChatList(other),
        },
{
    match message {
        ChatListMessage::Error(error) => MainScreenMessage::Error(error),
        other => MainScreenMessage::ChatList(other),
    }
}

/// The message that an outcome of the settings dialog becomes for the main
/// screen.
pub fn from_settings(message: SettingsMessage) -> (lifted: MainScreenMessage)
    ensures
        lifted == match message {
            SettingsMessage::Error(error) => MainScreenMessage::Error(error),
            other => MainScreenMessage::Settings(other),
        },
{
    match message {
        SettingsMessage::Error(error) => MainScreenMessage::Error(error),
        other => MainScreenMessage::Settings(other),
    }
}

/// The message that an outcome of the message list becomes for the chat
/// list.
pub fn from_letter_list(message: LetterListMessage) -> (lifted: ChatListMessage)
    ensures
        lifted == match message {
            LetterListMessage::Error(error) => ChatListMessage::Error(error),
            other => ChatListMessage::LetterListMessage(other),
        },
{
    match message {
        LetterListMessage::Error(error) => ChatListMessage::Error(error),
        other => ChatListMessage::LetterListMessage(other),
    }
}

/// Who is at the application.
#[derive(Debug)]
pub enum AppState {
    LoggedIn(MainScreen),
    Guest(LoginScreen),
}

/// `AppState` as contracts see it.
pub enum AppStateView {
    LoggedIn(MainScreenView),
    Guest(LoginScreenView),
}

impl View for AppState {
    type V = AppStateView;

    open spec fn view(&self) -> AppStateView {
        match self {
            AppState::LoggedIn(screen) => AppStateView::LoggedIn(screen@),
            AppState::Guest(screen) => AppStateView::Guest(screen@),
        }
    }
}

/// The application.
#[derive(Debug)]
pub struct Taco {
    state: AppState,
    error: Option<String>,
}

/// `Taco` as contracts see it.
pub struct TacoView {
    pub state: AppStateView,
    pub error: Option<Seq<char>>,
}

impl View for Taco {
    type V = TacoView;

    closed spec fn view(&self) -> TacoView {
        TacoView { state: self.state@, error: opt_text(self.error) }
    }
}

/// The login screen as a guest first sees it.
pub open spec fn fresh_login() -> LoginScreenView {
    LoginScreenView {
        logging_in: false,
        username_input: Seq::empty(),
        password_input: Seq::empty(),
    }
}

impl TacoView {
    /// Whether `after` and `command` are what follows when `message` reaches
    /// the application in this state at the instant `now`.
    ///
    /// An error is put on display and frees the login buttons. A logout that
    /// the server confirmed leads back to a fresh login screen. A login
    /// that the server accepted leads to the main screen of the session. A
    /// request to log out goes to the server. Every other message goes to
    /// the screen that is showing, if it is meant for it.
    pub open spec fn follows(
        self,
        message: AppMessage,
        now: Timestamp,
        after: TacoView,
        command: AppCommand,
    ) -> bool {
        match message {
            AppMessage::Error(error) => {
                &&& after.error == Some(error@)
                &&& after.state == match self.state {
                    AppStateView::Guest(screen) => AppStateView::Guest(
                        LoginScreenView { logging_in: false, ..screen },
                    ),
                    other => other,
                }
                &&& command is Nothing
            },
            AppMessage::CloseError => {
                &&& after == (TacoView { error: None, ..self })
                &&& command is Nothing
            },
            AppMessage::LoggedOut => {
                &&& after == (TacoView {
                    state: AppStateView::Guest(fresh_login()),
                    ..self
                })
                &&& command is Nothing
            },
            AppMessage::MainScreen(inner) => match self.state {
                AppStateView::LoggedIn(screen) => match inner {
                    MainScreenMessage::Header(HeaderMessage::LogOut) => {
                        &&& after == self
                        &&& command matches AppCommand::LogOut { session_id }
                        &&& session_id@ == screen.session.session_id
                    },
                    _ => {
                        &&& after == (TacoView {
                            state: AppStateView::LoggedIn(screen.next(inner, now)),
                            ..self
                        })
                        &&& command matches AppCommand::MainScreen(passed)
                        &&& screen.asks(inner, passed@)
                    },
                },
                AppStateView::Guest(_) => after == self && command is Nothing,
            },
            AppMessage::LoginScreen(inner) => match self.state {
                AppStateView::Guest(screen) => match inner {
                    LoginScreenMessage::LoggedIn(session) => {
                        &&& after.error == self.error
                        &&& after.state matches AppStateView::LoggedIn(entered)
                        &&& entered.session == session@
                        &&& entered.settings is None
                        &&& entered.chat_list.chats.len() == 0
                        &&& entered.chat_list.opened_chat is None
                        &&& command matches AppCommand::MainScreen(passed)
                        &&& passed@.len() == 2
                        &&& passed@[0] matches MainScreenCommand::LoadChats { session_id }
                        &&& session_id@ == session@.session_id
                        &&& passed@[1] matches MainScreenCommand::Header(
                            HeaderCommand::LoadProfilePicture { user_id },
                        )
                        &&& user_id@ == session@.user_id
                    },
                    _ => {
                        &&& after == (TacoView {
                            state: AppStateView::Guest(screen.next(inner)),
                            ..self
                        })
                        &&& command matches AppCommand::LoginScreen(passed)
                        &&& screen.asks(inner, passed)
                    },
                },
                AppStateView::LoggedIn(_) => after == self && command is Nothing,
            },
        }
    }
}

impl Taco {
    /// The main screen, if there is one, is well formed.
    pub closed spec fn wf(&self) -> bool {
        match self.state {
            AppState::LoggedIn(screen) => screen.wf(),
            AppState::Guest(_) => true,
        }
    }

    /// The application as it starts: a guest at the login screen, no error.
    pub fn new() -> (app: Self)
        ensures
            app.wf(),
            app@ == (TacoView { state: AppStateView::Guest(fresh_login()), error: None }),
    {
        Taco { state: AppState::Guest(LoginScreen::new()), error: None }
    }

    /// The event socket that the application listens to: that of the main
    /// screen while a user is logged in, none for a guest.
    pub fn subscription(&self) -> (socket: Option<(State, SocketStep)>)
        ensures
            match self@.state {
                AppStateView::LoggedIn(screen) => {
                    &&& socket matches Some(start)
                    &&& start.0 == State::Starting
                    &&& start.1 matches SocketStep::Connect { authorization }
                    &&& authorization@ == bearer_value(
                        screen.chat_list.letters.session.session_id,
                    )
                },
                AppStateView::Guest(_) => socket is None,
            },
    {
        match &self.state {
            AppState::LoggedIn(screen) => Some(screen.subscription()),
            AppState::Guest(screen) => screen.subscription(),
        }
    }

    /// Who is at the application.
    pub fn state(&self) -> (state: &AppState)
        ensures
            state@ == self@.state,
    {
        &self.state
    }

    /// The error on display.
    pub fn error(&self) -> (error: &Option<String>)
        ensures
            opt_text(*error) == self@.error,
    {
        &self.error
    }

    /// Takes one message at the instant that the clock shows and says what
    /// to do next.
    pub fn update(&mut self, message: AppMessage) -> (command: AppCommand)
        requires
            old(self).wf(),
        ensures
            final(self).wf(),
            exists|now: Timestamp|
                is_clock_reading(now) && #[trigger] old(self)@.follows(
                    message,
                    now,
                    final(self)@,
                    command,
                ),
    {
        let now = utc_now_millis();
        self.update_at(message, now)
    }

    /// Takes one message at the instant `now` and says what to do next.
    pub fn update_at(&mut self, message: AppMessage, now: Timestamp) -> (command: AppCommand)
        requires
            old(self).wf(),
        ensures
            final(self).wf(),
            old(self)@.follows(message, now, final(self)@, command),
    {
        match message {
            AppMessage::Error(error) => {
                self.error = Some(error);
                match &mut self.state {
                    AppState::Guest(screen) => {
                        screen.stop_logging_in();
                    },
                    AppState::LoggedIn(_) => {},
                }
                AppCommand::Nothing
            },
            AppMessage::CloseError => {
                self.error = None;
                AppCommand::Nothing
            },
            AppMessage::LoggedOut => {
                self.state = AppState::Guest(LoginScreen::new());
                AppCommand::Nothing
            },
            AppMessage::MainScreen(inner) => {
                match &mut self.state {
                    AppState::LoggedIn(screen) => {
                        match inner {
                            MainScreenMessage::Header(HeaderMessage::LogOut) => AppCommand::LogOut {
                                session_id: screen.session().session_id.clone(),
                            },
                            other => AppCommand::MainScreen(screen.update_at(other, now)),
                        }
                    },
                    AppState::Guest(_) => AppCommand::Nothing,
                }
            },
            AppMessage::LoginScreen(inner) => {
                match &mut self.state {
                    AppState::Guest(screen) => {
                        match inner {
                            LoginScreenMessage::LoggedIn(session) => {
                                let (entered, passed) = MainScreen::new(session);
                                self.state = AppState::LoggedIn(entered);
                                AppCommand::MainScreen(passed)
                            },
                            other => AppCommand::LoginScreen(screen.update(other)),
                        }
                    },
                    AppState::LoggedIn(_) => AppCommand::Nothing,
                }
            },
        }
    }
}

} // verus!
