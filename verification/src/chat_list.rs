//! The user's chats, the open one among them, and their order on screen.

use vstd::prelude::*;
use crate::bearer::bearer_value;
use crate::chat::{other_member, Chat, ChatCommand, ChatMessage, ChatView};
use crate::clock::{is_clock_reading, utc_now_millis, Timestamp};
use crate::letter_list::{
    message_views, LetterList, LetterListCommand, LetterListMessage, LetterListView,
};
use crate::letters::reloaded;
use crate::ordering::{newest_first, order_newest_first};
use crate::requests::{
    opt_text, texts, ChatWithMembers, CreateChat, Session, SessionView, WsChatMessage,
    WsMessageData,
};
use crate::text::{is_text, same_text};
use crate::ws_client::{SocketStep, State, WsEvent};

verus! {

/// The position of the first chat with the given id, or the number of chats
/// when there is none.
pub open spec fn chat_position(chats: Seq<ChatView>, id: Seq<char>) -> int
    decreases chats.len(),
{
    if chats.len() == 0 {
        0
    } else if chats[0].id == id {
        0
    } else {
        1 + chat_position(chats.drop_first(), id)
    }
}

/// Whether the list has a chat with the given id.
pub open spec fn has_chat(chats: Seq<ChatView>, id: Seq<char>) -> bool {
    chat_position(chats, id) < chats.len()
}

/// The chat with the given id.
pub open spec fn chat_of(chats: Seq<ChatView>, id: Seq<char>) -> ChatView
    recommends
        has_chat(chats, id),
{
    chats[chat_position(chats, id)]
}

/// No two chats share an id.
pub open spec fn distinct_chats(chats: Seq<ChatView>) -> bool {
    forall|i: int, j: int| 0 <= i < j < chats.len() ==> chats[i].id != chats[j].id
}

/// The chats with `chat` put under its id: in place of the chat that had the
/// id, or else as a further chat.
pub open spec fn with_chat(chats: Seq<ChatView>, chat: ChatView) -> Seq<ChatView> {
    if has_chat(chats, chat.id) {
        chats.update(chat_position(chats, chat.id), chat)
    } else {
        chats.push(chat)
    }
}

/// The chats without the one that has the given id.
pub open spec fn without_chat(chats: Seq<ChatView>, id: Seq<char>) -> Seq<ChatView> {
    if has_chat(chats, id) {
        chats.remove(chat_position(chats, id))
    } else {
        chats
    }
}

/// The chats with the sort key of the one under `id` set to `at`.
pub open spec fn touched(chats: Seq<ChatView>, id: Seq<char>, at: Timestamp) -> Seq<ChatView> {
    if has_chat(chats, id) {
        chats.update(chat_position(chats, id), ChatView { last_updated: at, ..chat_of(chats, id) })
    } else {
        chats
    }
}

/// The chats with the one under `id` marked as open or as closed.
pub open spec fn marked(chats: Seq<ChatView>, id: Seq<char>, open: bool) -> Seq<ChatView> {
    if has_chat(chats, id) {
        chats.update(chat_position(chats, id), ChatView { is_open: open, ..chat_of(chats, id) })
    } else {
        chats
    }
}

/// The chats with `message` handed to the one under `id`.
pub open spec fn delivered(chats: Seq<ChatView>, id: Seq<char>, message: ChatMessage) -> Seq<
    ChatView,
> {
    if has_chat(chats, id) {
        chats.update(chat_position(chats, id), chat_of(chats, id).next(message))
    } else {
        chats
    }
}

/// The sort key of each chat.
pub open spec fn times_of(chats: Seq<ChatView>) -> Seq<Timestamp> {
    Seq::new(chats.len(), |i: int| chats[i].last_updated)
}

/// The positions among `chats` of the chats that `ids` name.
pub open spec fn positions_of(chats: Seq<ChatView>, ids: Seq<String>) -> Seq<usize> {
    Seq::new(ids.len(), |k: int| chat_position(chats, ids[k]@) as usize)
}

/// The contract view of each chat of a list.
pub open spec fn chat_views(chats: Seq<Chat>) -> Seq<ChatView> {
    Seq::new(chats.len(), |i: int| chats[i]@)
}

/// `chat_position` finds a chat with the id before all others, or reports
/// the number of chats exactly when there is none.
pub proof fn lemma_chat_position(chats: Seq<ChatView>, id: Seq<char>)
    ensures
        0 <= chat_position(chats, id) <= chats.len(),
        has_chat(chats, id) ==> chats[chat_position(chats, id)].id == id,
        forall|j: int| 0 <= j < chat_position(chats, id) ==> (#[trigger] chats[j]).id != id,
    decreases chats.len(),
{
    if chats.len() > 0 && chats[0].id != id {
        let rest = chats.drop_first();
        lemma_chat_position(rest, id);
        assert forall|j: int| 0 <= j < chat_position(chats, id) implies (#[trigger] chats[j]).id
            != id by {
            if j > 0 {
                assert(chats[j] == rest[j - 1]);
            }
        }
    }
}

/// An index of a chat with the id, with no earlier one, is its position.
pub proof fn lemma_chat_position_is(chats: Seq<ChatView>, id: Seq<char>, i: int)
    requires
        0 <= i < chats.len(),
        chats[i].id == id,
        forall|j: int| 0 <= j < i ==> (#[trigger] chats[j]).id != id,
    ensures
        chat_position(chats, id) == i,
{
    lemma_chat_position(chats, id);
    let p = chat_position(chats, id);
    if p < i {
        assert(chats[p].id != id);
    }
}

/// What reaches the chat list.
#[derive(Debug, PartialEq)]
pub enum ChatListMessage {
    /// A message for the chat with the given id.
    Chat(ChatMessage, String),
    /// The user asked for a chat with the user named in the input field.
    AddChat,
    /// The server created a chat, or listed one at start-up.
    ChatAdded(ChatWithMembers),
    UsernameInputChanged(String),
    /// The server sent the history of the open chat, oldest message first.
    MessagesLoaded(Vec<WsChatMessage>),
    LetterListMessage(LetterListMessage),
    Error(String),
}

/// What the chat list asks its caller to do after an update.
#[derive(Debug, PartialEq)]
pub enum ChatListCommand {
    /// Nothing to do.
    Nothing,
    /// Fetch the history of the chat and report it as `MessagesLoaded`.
    LoadMessages { chat_id: String, session_id: String },
    /// Send `creation` with the session and report the new chat as
    /// `ChatAdded`.
    CreateChat { creation: CreateChat, session_id: String },
    /// Look up the picture address of `user_id` and report it to the chat
    /// as `ChatMessage::ProfilePictureLoaded`.
    LoadProfilePicture { chat_id: String, user_id: String },
    /// Fetch the picture at `url` and report it to the chat as
    /// `ChatMessage::ProfilePicture`.
    LoadImage { chat_id: String, url: String },
    /// Carry out a command of the message list and report its outcome as
    /// `LetterListMessage`.
    Letters(LetterListCommand),
}

/// The user's chats and the messages of the open one.
#[derive(Debug)]
pub struct ChatList {
    chats: Vec<Chat>,
    username_input: String,
    session: Session,
    opened_chat: Option<String>,
    opened_chat_messages: LetterList,
}

/// `ChatList` as contracts see it.
pub struct ChatListView {
    pub chats: Seq<ChatView>,
    pub username_input: Seq<char>,
    pub session: SessionView,
    pub opened_chat: Option<Seq<char>>,
    pub letters: LetterListView,
}

impl View for ChatList {
    type V = ChatListView;

    closed spec fn view(&self) -> ChatListView {
        ChatListView {
            chats: chat_views(self.chats@),
            username_input: self.username_input@,
            session: self.session@,
            opened_chat: opt_text(self.opened_chat),
            letters: self.opened_chat_messages@,
        }
    }
}

impl ChatListView {
    /// The state after the user opened the chat `id`: the chat shown before
    /// is marked closed, `id` is marked open, and the message list points at
    /// `id` without a reply draft.
    pub open spec fn opening(self, id: Seq<char>) -> ChatListView {
        let closed = match self.opened_chat {
            Some(shown) => marked(self.chats, shown, false),
            None => self.chats,
        };
        ChatListView {
            chats: marked(closed, id, true),
            opened_chat: Some(id),
            letters: LetterListView { chat_id: Some(id), replying_to: None, ..self.letters },
            ..self
        }
    }

    /// The state after a chat became known: it enters the list closed and
    /// with the stock avatar, in place of a chat of the same id.
    pub open spec fn adding(self, id: Seq<char>, members: Seq<Seq<char>>, last_updated: Timestamp) -> ChatListView {
        ChatListView {
            chats: with_chat(
                self.chats,
                ChatView { id, members, profile_picture: None, last_updated, is_open: false },
            ),
            ..self
        }
    }

    /// The state after the chat `id` ended for this user: it leaves the
    /// list, and if it was the open one, no chat is open any more.
    pub open spec fn leaving(self, id: Seq<char>) -> ChatListView {
        if self.opened_chat == Some(id) {
            ChatListView {
                chats: without_chat(self.chats, id),
                opened_chat: None,
                letters: LetterListView { chat_id: None, ..self.letters },
                ..self
            }
        } else {
            ChatListView { chats: without_chat(self.chats, id), ..self }
        }
    }

    /// The chats after an event bumped the sort key of the open chat.
    pub open spec fn open_chat_touched(self, at: Timestamp) -> Seq<ChatView> {
        match self.opened_chat {
            Some(shown) => touched(self.chats, shown, at),
            None => self.chats,
        }
    }

    /// The state that follows a message of the message list or of the
    /// socket at the instant `now`.
    ///
    /// A pushed message bumps its chat to the time the message was created,
    /// a pushed delete and this user's own confirmed changes bump to `now`.
    /// Events about chats other than the open one change the sort key only.
    pub open spec fn next_inner(self, inner: LetterListMessage, now: Timestamp) -> ChatListView {
        match inner {
            LetterListMessage::MessageSent { .. } | LetterListMessage::MessageDeleted(_) => {
                ChatListView {
                    chats: self.open_chat_touched(now),
                    letters: self.letters.next(inner, now),
                    ..self
                }
            },
            LetterListMessage::WsEvent(WsEvent::Message(WsMessageData::CreateChat(created))) => {
                self.adding(created@.chat_id, created@.members, now)
            },
            LetterListMessage::WsEvent(WsEvent::Message(WsMessageData::ChatMessage(pushed))) => {
                ChatListView {
                    chats: touched(self.chats, pushed@.chat_id, pushed@.created_at),
                    letters: self.letters.next(inner, now),
                    ..self
                }
            },
            LetterListMessage::WsEvent(WsEvent::Message(WsMessageData::DeleteMessage(pushed))) => {
                ChatListView {
                    chats: touched(self.chats, pushed@.chat_id, now),
                    letters: self.letters.next(inner, now),
                    ..self
                }
            },
            LetterListMessage::WsEvent(WsEvent::Message(WsMessageData::LeaveChat(left))) => {
                self.leaving(left@.chat_id)
            },
            LetterListMessage::ChatDeleted(left) => self.leaving(left@.chat_id),
            LetterListMessage::WsEvent(WsEvent::Ready) => self,
            _ => ChatListView { letters: self.letters.next(inner, now), ..self },
        }
    }

    /// The state that follows `message` when it arrives at the instant `now`.
    pub open spec fn next(self, message: ChatListMessage, now: Timestamp) -> ChatListView {
        match message {
            ChatListMessage::Chat(ChatMessage::OpenChat, id) => if has_chat(self.chats, id@) {
                self.opening(id@)
            } else {
                self
            },
            ChatListMessage::Chat(other, id) => ChatListView {
                chats: delivered(self.chats, id@, other),
                ..self
            },
            ChatListMessage::AddChat => ChatListView { username_input: Seq::empty(), ..self },
            ChatListMessage::ChatAdded(chat) => self.adding(
                chat@.id,
                chat@.members,
                chat@.last_updated,
            ),
            ChatListMessage::UsernameInputChanged(value) => ChatListView {
                username_input: value@,
                ..self
            },
            ChatListMessage::MessagesLoaded(history) => ChatListView {
                letters: LetterListView {
                    letters: reloaded(message_views(history@)),
                    ..self.letters
                },
                ..self
            },
            ChatListMessage::LetterListMessage(inner) => self.next_inner(inner, now),
            ChatListMessage::Error(_) => self,
        }
    }

    /// Whether `command` asks for the history of the chat `id`.
    pub open spec fn asks_history(self, id: Seq<char>, command: ChatListCommand) -> bool {
        &&& command matches ChatListCommand::LoadMessages { chat_id, session_id }
        &&& chat_id@ == id
        &&& session_id@ == self.session.session_id
    }

    /// Whether `command` is what a newly known chat calls for: the picture
    /// of its other member, where it has a member at all.
    pub open spec fn asks_picture(self, id: Seq<char>, members: Seq<Seq<char>>, command: ChatListCommand) -> bool {
        if members.len() >= 1 {
            &&& command matches ChatListCommand::LoadProfilePicture { chat_id, user_id }
            &&& chat_id@ == id
            &&& user_id@ == other_member(self.session.user_id, members)
        } else {
            command is Nothing
        }
    }

    /// Whether `command` is what the list asks for when `message` reaches it
    /// in this state.
    pub open spec fn asks(self, message: ChatListMessage, command: ChatListCommand) -> bool {
        match message {
            ChatListMessage::Chat(ChatMessage::OpenChat, id) => if has_chat(self.chats, id@) {
                self.asks_history(id@, command)
            } else {
                command is Nothing
            },
            ChatListMessage::Chat(ChatMessage::ProfilePictureLoaded(Some(address)), id) => {
                if has_chat(self.chats, id@) {
                    &&& command matches ChatListCommand::LoadImage { chat_id, url }
                    &&& chat_id@ == id@
                    &&& url@ == address@
                } else {
                    command is Nothing
                }
            },
            ChatListMessage::AddChat => {
                &&& command matches ChatListCommand::CreateChat { creation, session_id }
                &&& creation@.other_members == self.username_input
                &&& session_id@ == self.session.session_id
            },
            ChatListMessage::ChatAdded(chat) => self.asks_picture(chat@.id, chat@.members, command),
            ChatListMessage::LetterListMessage(inner) => match inner {
                LetterListMessage::WsEvent(WsEvent::Message(WsMessageData::CreateChat(created))) => {
                    self.asks_picture(created@.chat_id, created@.members, command)
                },
                LetterListMessage::WsEvent(WsEvent::Message(WsMessageData::LeaveChat(_))) => {
                    command is Nothing
                },
                LetterListMessage::ChatDeleted(_) => command is Nothing,
                LetterListMessage::WsEvent(WsEvent::Ready) => match self.opened_chat {
                    Some(shown) => self.asks_history(shown, command),
                    None => command is Nothing,
                },
                _ => {
                    &&& command matches ChatListCommand::Letters(passed)
                    &&& self.letters.asks(inner, passed)
                },
            },
            _ => command is Nothing,
        }
    }
}

/// Replacing a chat by one of the same id keeps the ids distinct and every
/// position where it was.
pub proof fn lemma_update_keeps_ids(chats: Seq<ChatView>, i: int, chat: ChatView, id: Seq<char>)
    requires
        0 <= i < chats.len(),
        chat.id == chats[i].id,
    ensures
        distinct_chats(chats) ==> distinct_chats(chats.update(i, chat)),
        chat_position(chats.update(i, chat), id) == chat_position(chats, id),
        chats.update(i, chat).len() == chats.len(),
{
    let after = chats.update(i, chat);
    lemma_chat_position(chats, id);
    lemma_chat_position(after, id);
    let p = chat_position(chats, id);
    if p < chats.len() {
        assert(after[p].id == id);
        assert forall|j: int| 0 <= j < p implies (#[trigger] after[j]).id != id by {
            assert(chats[j].id != id);
        }
        lemma_chat_position_is(after, id, p);
    } else {
        let q = chat_position(after, id);
        if q < after.len() {
            assert(after[q].id == id);
            assert(chats[q].id == id);
        }
    }
}

impl ChatList {
    /// No two chats share an id, and the message list is well formed.
    pub open spec fn wf(&self) -> bool {
        &&& distinct_chats(self@.chats)
        &&& crate::letters::distinct_keys(self@.letters.letters)
        &&& crate::letters::keyed_by_id(self@.letters.letters)
    }

    /// A list without chats for the user of `session`.
    pub fn new(session: Session) -> (list: Self)
        ensures
            list.wf(),
            list@.chats.len() == 0,
            list@.username_input.len() == 0,
            list@.session == session@,
            list@.opened_chat is None,
            list@.letters == (LetterListView {
                letters: Seq::empty(),
                message_input: Seq::empty(),
                chat_id: None,
                session: session@,
                replying_to: None,
            }),
    {
        let letters = LetterList::new(None, session.clone());
        ChatList {
            chats: Vec::new(),
            username_input: String::new(),
            session,
            opened_chat: None,
            opened_chat_messages: letters,
        }
    }

    /// Where the chat with the given id stands among the chats.
    fn find(&self, id: &String) -> (at: Option<usize>)
        ensures
            at is Some <==> has_chat(self@.chats, id@),
            at matches Some(i) ==> i == chat_position(self@.chats, id@),
    {
        let ghost chats = self@.chats;
        let mut i: usize = 0;
        while i < self.chats.len()
            invariant
                i <= self.chats.len(),
                chats == self@.chats,
                chats.len() == self.chats.len(),
                forall|j: int| 0 <= j < i ==> (#[trigger] chats[j]).id != id@,
            decreases self.chats.len() - i,
        {
            if same_text(&self.chats[i].id, id) {
                proof {
                    lemma_chat_position_is(chats, id@, i as int);
                }
                return Some(i);
            }
            i = i + 1;
        }
        proof {
            lemma_chat_position(chats, id@);
            let p = chat_position(chats, id@);
            if p < chats.len() {
                assert(chats[p].id == id@);
            }
        }
        None
    }

    /// Sets the sort key of the chat with the given id, if there is one.
    fn touch(&mut self, id: &String, at: Timestamp)
        ensures
            final(self)@ == (ChatListView { chats: touched(old(self)@.chats, id@, at), ..old(self)@ }),
            old(self).wf() ==> final(self).wf(),
    {
        match self.find(id) {
            Some(i) => {
                self.chats[i].last_updated = at;
                proof {
                    let before = old(self)@.chats;
                    lemma_chat_position(before, id@);
                    let chat = ChatView { last_updated: at, ..before[i as int] };
                    assert(self@.chats =~= before.update(i as int, chat));
                    lemma_update_keeps_ids(before, i as int, chat, id@);
                }
            },
            None => {},
        }
    }

    /// Marks the chat with the given id, if there is one, as open or closed.
    fn mark(&mut self, id: &String, open: bool)
        ensures
            final(self)@ == (ChatListView { chats: marked(old(self)@.chats, id@, open), ..old(self)@ }),
            old(self).wf() ==> final(self).wf(),
    {
        match self.find(id) {
            Some(i) => {
                self.chats[i].is_open = open;
                proof {
                    let before = old(self)@.chats;
                    lemma_chat_position(before, id@);
                    let chat = ChatView { is_open: open, ..before[i as int] };
                    assert(self@.chats =~= before.update(i as int, chat));
                    lemma_update_keeps_ids(before, i as int, chat, id@);
                }
            },
            None => {},
        }
    }

    /// Puts `chat` under its id: in place of the chat that had the id, or
    /// else as a further chat.
    fn put(&mut self, chat: Chat)
        ensures
            final(self)@ == (ChatListView { chats: with_chat(old(self)@.chats, chat@), ..old(self)@ }),
            old(self).wf() ==> final(self).wf(),
    {
        proof {
            lemma_chat_position(old(self)@.chats, chat@.id);
        }
        match self.find(&chat.id) {
            Some(i) => {
                proof {
                    lemma_update_keeps_ids(old(self)@.chats, i as int, chat@, chat@.id);
                }
                self.chats.set(i, chat);
                assert(self@.chats =~= old(self)@.chats.update(i as int, chat@));
            },
            None => {
                self.chats.push(chat);
                assert(self@.chats =~= old(self)@.chats.push(chat@));
            },
        }
    }

    /// Takes the chat with the given id, if there is one, off the list.
    fn take(&mut self, id: &String)
        ensures
            final(self)@ == (ChatListView { chats: without_chat(old(self)@.chats, id@), ..old(self)@ }),
            old(self).wf() ==> final(self).wf(),
    {
        match self.find(id) {
            Some(i) => {
                self.chats.remove(i);
                assert(self@.chats =~= old(self)@.chats.remove(i as int));
            },
            None => {},
        }
    }

    /// Enters a chat that became known and asks for its picture.
    fn add_chat(&mut self, id: String, members: Vec<String>, last_updated: Timestamp) -> (command:
        ChatListCommand)
        requires
            old(self).wf(),
        ensures
            final(self).wf(),
            final(self)@ == old(self)@.adding(id@, texts(members@), last_updated),
            old(self)@.asks_picture(id@, texts(members@), command),
    {
        let command = if members.len() >= 1 {
            ChatListCommand::LoadProfilePicture {
                chat_id: id.clone(),
                user_id: Chat::get_other_member(self.session.user_id.clone(), members.as_slice()),
            }
        } else {
            ChatListCommand::Nothing
        };
        self.put(Chat::new(id, members, last_updated));
        command
    }

    /// Takes a chat that ended for this user off the list and closes it if
    /// it was the open one.
    fn leave(&mut self, id: &String)
        requires
            old(self).wf(),
        ensures
            final(self).wf(),
            final(self)@ == old(self)@.leaving(id@),
    {
        if is_text(&self.opened_chat, id) {
            self.opened_chat = None;
            self.opened_chat_messages.close_chat();
        }
        self.take(id);
    }

    /// Asks for the history of a chat.
    fn load_messages(&self, chat_id: String) -> (command: ChatListCommand)
        ensures
            self@.asks_history(chat_id@, command),
    {
        ChatListCommand::LoadMessages { chat_id, session_id: self.session.session_id.clone() }
    }

    /// Takes one message at the instant that the clock shows and says what
    /// to do next.
    pub fn update(&mut self, message: ChatListMessage) -> (command: ChatListCommand)
        requires
            old(self).wf(),
        ensures
            final(self).wf(),
            old(self)@.asks(message, command),
            exists|now: Timestamp|
                is_clock_reading(now) && final(self)@ == #[trigger] old(self)@.next(message, now),
    {
        let now = utc_now_millis();
        self.update_at(message, now)
    }

    /// Takes one message at the instant `now` and says what to do next.
    pub fn update_at(&mut self, message: ChatListMessage, now: Timestamp) -> (command:
        ChatListCommand)
        requires
            old(self).wf(),
        ensures
            final(self).wf(),
            final(self)@ == old(self)@.next(message, now),
            old(self)@.asks(message, command),
    {
        match message {
            ChatListMessage::Chat(ChatMessage::OpenChat, id) => {
                if self.find(&id).is_none() {
                    return ChatListCommand::Nothing;
                }
                match &self.opened_chat {
                    Some(shown) => {
                        let shown = shown.clone();
                        self.mark(&shown, false);
                    },
                    None => {},
                }
                self.mark(&id, true);
                self.opened_chat = Some(id.clone());
                self.opened_chat_messages.show_chat(id.clone());
                self.load_messages(id)
            },
            ChatListMessage::Chat(other, id) => {
                match self.find(&id) {
                    Some(i) => {
                        proof {
                            lemma_chat_position(self@.chats, id@);
                            lemma_update_keeps_ids(
                                self@.chats,
                                i as int,
                                self@.chats[i as int].next(other),
                                id@,
                            );
                        }
                        let asked = self.chats[i].update(other);
                        assert(self@.chats =~= old(self)@.chats.update(
                            i as int,
                            old(self)@.chats[i as int].next(other),
                        ));
                        match asked {
                            ChatCommand::LoadImage { url } => ChatListCommand::LoadImage {
                                chat_id: id,
                                url,
                            },
                            ChatCommand::Nothing => ChatListCommand::Nothing,
                        }
                    },
                    None => ChatListCommand::Nothing,
                }
            },
            ChatListMessage::AddChat => {
                let creation = CreateChat { other_members: self.username_input.clone() };
                self.username_input = String::new();
                ChatListCommand::CreateChat {
                    creation,
                    session_id: self.session.session_id.clone(),
                }
            },
            ChatListMessage::ChatAdded(chat) => self.add_chat(
                chat.id,
                chat.members,
                chat.last_updated,
            ),
            ChatListMessage::UsernameInputChanged(value) => {
                self.username_input = value;
                ChatListCommand::Nothing
            },
            ChatListMessage::MessagesLoaded(history) => {
                self.opened_chat_messages.reload(&history);
                ChatListCommand::Nothing
            },
            ChatListMessage::LetterListMessage(inner) => self.update_inner(inner, now),
            ChatListMessage::Error(_) => ChatListCommand::Nothing,
        }
    }

    /// Takes one message of the message list or of the socket.
    fn update_inner(&mut self, inner: LetterListMessage, now: Timestamp) -> (command:
        ChatListCommand)
        requires
            old(self).wf(),
        ensures
            final(self).wf(),
            final(self)@ == old(self)@.next_inner(inner, now),
            old(self)@.asks(ChatListMessage::LetterListMessage(inner), command),
    {
        match inner {
            LetterListMessage::WsEvent(WsEvent::Message(WsMessageData::CreateChat(created))) => {
                self.add_chat(created.chat_id, created.members, now)
            },
            LetterListMessage::WsEvent(WsEvent::Message(WsMessageData::LeaveChat(left))) => {
                self.leave(&left.chat_id);
                ChatListCommand::Nothing
            },
            LetterListMessage::ChatDeleted(left) => {
                self.leave(&left.chat_id);
                ChatListCommand::Nothing
            },
            LetterListMessage::WsEvent(WsEvent::Ready) => {
                match &self.opened_chat {
                    Some(shown) => self.load_messages(shown.clone()),
                    None => ChatListCommand::Nothing,
                }
            },
            other => {
                match &other {
                    LetterListMessage::MessageSent { .. } | LetterListMessage::MessageDeleted(_) => {
                        match &self.opened_chat {
                            Some(shown) => {
                                let shown = shown.clone();
                                self.touch(&shown, now);
                            },
                            None => {},
                        }
                    },
                    LetterListMessage::WsEvent(
                        WsEvent::Message(WsMessageData::ChatMessage(pushed)),
                    ) => {
                        self.touch(&pushed.chat_id, pushed.created_at);
                    },
                    LetterListMessage::WsEvent(
                        WsEvent::Message(WsMessageData::DeleteMessage(pushed)),
                    ) => {
                        self.touch(&pushed.chat_id, now);
                    },
                    _ => {},
                }
                ChatListCommand::Letters(self.opened_chat_messages.update_at(other, now))
            },
        }
    }

    /// The ids of the chats in the order in which the list shows them: the
    /// most recently updated chat first, and of two chats updated at the
    /// same instant the one that joined the list later.
    pub fn ordered_chats(&self) -> (ids: Vec<String>)
        requires
            self.wf(),
        ensures
            ids@.len() == self@.chats.len(),
            forall|k: int| 0 <= k < ids@.len() ==> has_chat(self@.chats, (#[trigger] ids@[k])@),
            newest_first(times_of(self@.chats), positions_of(self@.chats, ids@)),
    {
        let ghost chats = self@.chats;
        let mut times: Vec<Timestamp> = Vec::new();
        let mut i: usize = 0;
        while i < self.chats.len()
            invariant
                i <= self.chats.len(),
                chats == self@.chats,
                times@.len() == i,
                forall|m: int| 0 <= m < i ==> times@[m] == (#[trigger] chats[m]).last_updated,
            decreases self.chats.len() - i,
        {
            times.push(self.chats[i].last_updated);
            i = i + 1;
        }
        assert(times@ =~= times_of(chats));
        let order = order_newest_first(&times);
        let mut ids: Vec<String> = Vec::new();
        let mut k: usize = 0;
        while k < order.len()
            invariant
                k <= order.len(),
                chats == self@.chats,
                chats.len() == self.chats.len(),
                newest_first(times_of(chats), order@),
                ids@.len() == k,
                forall|m: int| 0 <= m < k ==> (#[trigger] ids@[m])@ == chats[order@[m] as int].id,
            decreases order.len() - k,
        {
            ids.push(self.chats[order[k]].id.clone());
            k = k + 1;
        }
        proof {
            assert forall|m: int| 0 <= m < ids@.len() implies chat_position(
                chats,
                (#[trigger] ids@[m])@,
            ) == order@[m] by {
                let at = order@[m] as int;
                assert forall|j: int| 0 <= j < at implies (#[trigger] chats[j]).id
                    != chats[at].id by {}
                lemma_chat_position_is(chats, ids@[m]@, at);
            }
            assert(positions_of(chats, ids@) =~= order@);
        }
        ids
    }

    /// The event socket that the list listens to: that of its message list.
    pub fn subscription(&self) -> (socket: (State, SocketStep))
        ensures
            socket.0 == State::Starting,
            socket.1 matches SocketStep::Connect { authorization } && authorization@
                == bearer_value(self@.letters.session.session_id),
    {
        self.opened_chat_messages.subscription()
    }

    /// The number of chats.
    pub fn len(&self) -> (n: usize)
        ensures
            n == self@.chats.len(),
    {
        self.chats.len()
    }

    /// The chat with the given id.
    pub fn chat(&self, id: &String) -> (found: Option<&Chat>)
        ensures
            found is Some <==> has_chat(self@.chats, id@),
            found matches Some(chat) ==> chat@ == chat_of(self@.chats, id@),
    {
        match self.find(id) {
            Some(i) => Some(&self.chats[i]),
            None => None,
        }
    }

    /// The name under which the chat with the given id is shown to the user
    /// of the list: that of the other member. There is none for a chat that
    /// the list does not have, and none for a chat without members.
    pub fn title_of(&self, id: &String) -> (title: Option<String>)
        ensures
            title is Some <==> has_chat(self@.chats, id@) && chat_of(self@.chats, id@).members.len()
                >= 1,
            title matches Some(name) ==> name@ == other_member(
                self@.session.user_id,
                chat_of(self@.chats, id@).members,
            ),
    {
        match self.find(id) {
            Some(i) => {
                if self.chats[i].members.len() >= 1 {
                    Some(
                        Chat::get_other_member(
                            self.session.user_id.clone(),
                            self.chats[i].members.as_slice(),
                        ),
                    )
                } else {
                    None
                }
            },
            None => None,
        }
    }

    /// The text of the field that names the user to chat with.
    pub fn username_input(&self) -> (text: &String)
        ensures
            text@ == self@.username_input,
    {
        &self.username_input
    }

    /// The session under which requests are sent.
    pub fn session(&self) -> (session: &Session)
        ensures
            session@ == self@.session,
    {
        &self.session
    }

    /// The id of the chat whose messages are shown.
    pub fn opened_chat(&self) -> (id: &Option<String>)
        ensures
            opt_text(*id) == self@.opened_chat,
    {
        &self.opened_chat
    }

    /// The messages of the open chat.
    pub fn opened_chat_messages(&self) -> (letters: &LetterList)
        ensures
            letters@ == self@.letters,
    {
        &self.opened_chat_messages
    }
}

} // verus!
