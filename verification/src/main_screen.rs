//! The screen of a logged-in user: header, chat list and, at times, the
//! settings dialog.

use vstd::prelude::*;
use crate::bearer::bearer_value;
use crate::chat_list::{ChatList, ChatListCommand, ChatListMessage, ChatListView};
use crate::clock::{is_clock_reading, utc_now_millis, Timestamp};
use crate::header::{header_asks, Header, HeaderCommand, HeaderMessage, HeaderView};
use crate::requests::{ChatWithMembers, Session, SessionView};
use crate::settings::{Settings, SettingsCommand, SettingsMessage, SettingsView};
use crate::ws_client::{SocketStep, State};

verus! {

/// What reaches the main screen.
#[derive(Debug, PartialEq)]
pub enum MainScreenMessage {
    /// The server listed the user's chats.
    ChatsLoaded(Vec<ChatWithMembers>),
    ChatList(ChatListMessage),
    Header(HeaderMessage),
    Error(String),
    /// The user dismissed the settings dialog.
    SettingsClosed,
    Settings(SettingsMessage),
}

/// What the main screen asks its caller to do.
#[derive(Debug, PartialEq)]
pub enum MainScreenCommand {
    /// Fetch the user's chats and report them as `ChatsLoaded`.
    LoadChats { session_id: String },
    /// Carry out a command of the chat list and report its outcome as
    /// `ChatList`.
    ChatList(ChatListCommand),
    /// Carry out a command of the header and report its outcome as `Header`.
    Header(HeaderCommand),
    /// Carry out a command of the settings dialog and report its outcome as
    /// `Settings`.
    Settings(SettingsCommand),
}

/// The screen of a logged-in user.
#[derive(Debug)]
pub struct MainScreen {
    session: Session,
    header: Header,
    chat_list: ChatList,
    settings: Option<Settings>,
}

/// `MainScreen` as contracts see it.
pub struct MainScreenView {
    pub session: SessionView,
    pub header: HeaderView,
    pub chat_list: ChatListView,
    pub settings: Option<SettingsView>,
}

/// The contract view of an optional dialog.
pub open spec fn opt_settings(settings: Option<Settings>) -> Option<SettingsView> {
    match settings {
        Some(dialog) => Some(dialog@),
        None => None,
    }
}

impl View for MainScreen {
    type V = MainScreenView;

    closed spec fn view(&self) -> MainScreenView {
        MainScreenView {
            session: self.session@,
            header: self.header@,
            chat_list: self.chat_list@,
            settings: opt_settings(self.settings),
        }
    }
}

/// The chat list after the chats of `loaded` were entered one by one.
pub open spec fn with_loaded(list: ChatListView, loaded: Seq<ChatWithMembers>) -> ChatListView
    decreases loaded.len(),
{
    if loaded.len() == 0 {
        list
    } else {
        with_loaded(list, loaded.drop_last()).adding(
            loaded.last()@.id,
            loaded.last()@.members,
            loaded.last()@.last_updated,
        )
    }
}

impl MainScreenView {
    /// The screen after `message` reached it at the instant `now`.
    pub open spec fn next(self, message: MainScreenMessage, now: Timestamp) -> MainScreenView {
        match message {
            MainScreenMessage::Header(HeaderMessage::SettingsOpen) => MainScreenView {
                settings: Some(SettingsView { session: self.session, profile_picture: Seq::empty() }),
                ..self
            },
            MainScreenMessage::Header(inner) => MainScreenView {
                header: self.header.next(inner),
                ..self
            },
            MainScreenMessage::ChatList(inner) => MainScreenView {
                chat_list: self.chat_list.next(inner, now),
                ..self
            },
            MainScreenMessage::ChatsLoaded(loaded) => MainScreenView {
                chat_list: with_loaded(self.chat_list, loaded@),
                ..self
            },
            MainScreenMessage::Settings(SettingsMessage::ChangesApplied) => MainScreenView {
                settings: None,
                ..self
            },
            MainScreenMessage::SettingsClosed => MainScreenView { settings: None, ..self },
            MainScreenMessage::Settings(inner) => match self.settings {
                Some(dialog) => MainScreenView { settings: Some(dialog.next(inner)), ..self },
                None => self,
            },
            MainScreenMessage::Error(_) => self,
        }
    }

    /// Whether `commands` are what the screen asks for when `message`
    /// reaches it in this state: one command for each chat that was loaded,
    /// one command for a message that is passed on, none otherwise.
    pub open spec fn asks(self, message: MainScreenMessage, commands: Seq<MainScreenCommand>) -> bool {
        match message {
            MainScreenMessage::Header(HeaderMessage::SettingsOpen) => {
                &&& commands.len() == 1
                &&& commands[0] matches MainScreenCommand::Settings(
                    SettingsCommand::LoadProfilePicture { user_id },
                )
                &&& user_id@ == self.session.user_id
            },
            MainScreenMessage::Header(inner) => {
                &&& commands.len() == 1
                &&& commands[0] matches MainScreenCommand::Header(passed)
                &&& header_asks(inner, passed)
            },
            MainScreenMessage::ChatList(inner) => {
                &&& commands.len() == 1
                &&& commands[0] matches MainScreenCommand::ChatList(passed)
                &&& self.chat_list.asks(inner, passed)
            },
            MainScreenMessage::ChatsLoaded(loaded) => {
                &&& commands.len() == loaded@.len()
                &&& forall|i: int|
                    0 <= i < commands.len() ==> {
                        &&& (#[trigger] commands[i]) matches MainScreenCommand::ChatList(passed)
                        &&& self.chat_list.asks_picture(loaded@[i]@.id, loaded@[i]@.members, passed)
                    }
            },
            MainScreenMessage::Settings(SettingsMessage::ChangesApplied) => commands.len() == 0,
            MainScreenMessage::SettingsClosed => commands.len() == 0,
            MainScreenMessage::Settings(inner) => match self.settings {
                Some(dialog) => {
                    &&& commands.len() == 1
                    &&& commands[0] matches MainScreenCommand::Settings(passed)
                    &&& dialog.asks(inner, passed)
                },
                None => commands.len() == 0,
            },
            MainScreenMessage::Error(_) => commands.len() == 0,
        }
    }
}

/// Entering chats leaves the session of a chat list alone.
proof fn lemma_with_loaded_session(list: ChatListView, loaded: Seq<ChatWithMembers>)
    ensures
        with_loaded(list, loaded).session == list.session,
    decreases loaded.len(),
{
    if loaded.len() > 0 {
        lemma_with_loaded_session(list, loaded.drop_last());
    }
}

impl MainScreen {
    /// The chat list is well formed.
    pub closed spec fn wf(&self) -> bool {
        self.chat_list.wf() && self.chat_list@.session == self.session@
    }

    /// The screen for a session, with no chats yet, and the requests for the
    /// user's chats and picture.
    pub fn new(session: Session) -> (made: (Self, Vec<MainScreenCommand>))
        ensures
            made.0.wf(),
            made.0@.session == session@,
            made.0@.header == (HeaderView { session: session@, profile_picture: None }),
            made.0@.settings is None,
            made.0@.chat_list.chats.len() == 0,
            made.0@.chat_list.opened_chat is None,
            made.0@.chat_list.session == session@,
            made.1@.len() == 2,
            made.1@[0] matches MainScreenCommand::LoadChats { session_id } && session_id@
                == session@.session_id,
            made.1@[1] matches MainScreenCommand::Header(
                HeaderCommand::LoadProfilePicture { user_id },
            ) && user_id@ == session@.user_id,
    {
        let (header, load_picture) = Header::new(session.clone());
        let mut commands: Vec<MainScreenCommand> = Vec::new();
        commands.push(MainScreenCommand::LoadChats { session_id: session.session_id.clone() });
        commands.push(MainScreenCommand::Header(load_picture));
        let chat_list = ChatList::new(session.clone());
        (MainScreen { session, header, chat_list, settings: None }, commands)
    }

    /// The event socket that the screen listens to: that of its chat list.
    pub fn subscription(&self) -> (socket: (State, SocketStep))
        ensures
            socket.0 == State::Starting,
            socket.1 matches SocketStep::Connect { authorization } && authorization@
                == bearer_value(self@.chat_list.letters.session.session_id),
    {
        self.chat_list.subscription()
    }

    /// The session of the user.
    pub fn session(&self) -> (session: &Session)
        ensures
            session@ == self@.session,
    {
        &self.session
    }

    /// The header.
    pub fn header(&self) -> (header: &Header)
        ensures
            header@ == self@.header,
    {
        &self.header
    }

    /// The chat list.
    pub fn chat_list(&self) -> (list: &ChatList)
        ensures
            list@ == self@.chat_list,
            self.wf() ==> list.wf(),
    {
        &self.chat_list
    }

    /// The settings dialog, while it is open.
    pub fn settings(&self) -> (dialog: &Option<Settings>)
        ensures
            opt_settings(*dialog) == self@.settings,
    {
        &self.settings
    }

    /// Takes one message at the instant that the clock shows and says what
    /// to do next.
    pub fn update(&mut self, message: MainScreenMessage) -> (commands: Vec<MainScreenCommand>)
        requires
            old(self).wf(),
        ensures
            final(self).wf(),
            old(self)@.asks(message, commands@),
            exists|now: Timestamp|
                is_clock_reading(now) && final(self)@ == #[trigger] old(self)@.next(message, now),
    {
        let now = utc_now_millis();
        self.update_at(message, now)
    }

    /// Takes one message at the instant `now` and says what to do next.
    pub fn update_at(&mut self, message: MainScreenMessage, now: Timestamp) -> (commands: Vec<
        MainScreenCommand,
    >)
        requires
            old(self).wf(),
        ensures
            final(self).wf(),
            final(self)@ == old(self)@.next(message, now),
            old(self)@.asks(message, commands@),
    {
        let mut commands: Vec<MainScreenCommand> = Vec::new();
        match message {
            MainScreenMessage::Header(HeaderMessage::SettingsOpen) => {
                let (dialog, load_picture) = Settings::new(self.session.clone());
                self.settings = Some(dialog);
                commands.push(MainScreenCommand::Settings(load_picture));
            },
            MainScreenMessage::Header(inner) => {
                commands.push(MainScreenCommand::Header(self.header.update(inner)));
            },
            MainScreenMessage::ChatList(inner) => {
                proof {
                    lemma_next_keeps_session(self.chat_list@, inner, now);
                }
                commands.push(MainScreenCommand::ChatList(self.chat_list.update_at(inner, now)));
            },
            MainScreenMessage::ChatsLoaded(loaded) => {
                let ghost before = self.chat_list@;
                let mut i: usize = 0;
                while i < loaded.len()
                    invariant
                        i <= loaded.len(),
                        self.chat_list.wf(),
                        self.chat_list@ == with_loaded(before, loaded@.take(i as int)),
                        before.session == self.session@,
                        self.header == old(self).header,
                        self.session == old(self).session,
                        self.settings == old(self).settings,
                        commands@.len() == i,
                        forall|k: int|
                            0 <= k < i ==> {
                                &&& (#[trigger] commands@[k]) matches MainScreenCommand::ChatList(
                                    passed,
                                )
                                &&& before.asks_picture(
                                    loaded@[k]@.id,
                                    loaded@[k]@.members,
                                    passed,
                                )
                            },
                    decreases loaded.len() - i,
                {
                    proof {
                        assert(loaded@.take(i + 1).drop_last() == loaded@.take(i as int));
                        lemma_with_loaded_session(before, loaded@.take(i as int));
                    }
                    let chat = loaded[i].clone();
                    let command = self.chat_list.update_at(ChatListMessage::ChatAdded(chat), now);
                    commands.push(MainScreenCommand::ChatList(command));
                    i = i + 1;
                }
                proof {
                    assert(loaded@.take(loaded.len() as int) == loaded@);
                    lemma_with_loaded_session(before, loaded@);
                }
            },
            MainScreenMessage::Settings(SettingsMessage::ChangesApplied) => {
                self.settings = None;
            },
            MainScreenMessage::SettingsClosed => {
                self.settings = None;
            },
            MainScreenMessage::Settings(inner) => {
                match &mut self.settings {
                    Some(dialog) => {
                        commands.push(MainScreenCommand::Settings(dialog.update(inner)));
                    },
                    None => {},
                }
            },
            MainScreenMessage::Error(_) => {},
        }
        commands
    }
}

/// No message changes the session of a chat list.
pub proof fn lemma_next_keeps_session(list: ChatListView, message: ChatListMessage, now: Timestamp)
    ensures
        list.next(message, now).session == list.session,
{
}

} // verus!
