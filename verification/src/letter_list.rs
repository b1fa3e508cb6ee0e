//! The messages of the open chat, kept in arrival order.

use vstd::prelude::*;
use indexmap::IndexMap;
use crate::bearer::bearer_value;
use crate::clock::{is_clock_reading, utc_now_millis, Timestamp};
use crate::letters::{
    distinct_keys, holds, inserted, keyed_by_id, lemma_inserted_wf, lemma_removed_wf, position,
    reloaded, removed, stored, Letters,
};
use crate::requests::{
    opt_text, CreateMessage, DeleteMessage, LeaveChat, Session, SessionView, WsChatMessage,
    WsChatMessageView, WsLeaveChat, WsMessageData,
};
use crate::text::{is_text, same_text, truncate_message, truncated};
use crate::ws_client::{connect, SocketStep, State, WsEvent};

verus! {

/// One message of the open chat.
#[derive(Debug, PartialEq)]
pub struct Letter(pub WsChatMessage);

impl View for Letter {
    type V = WsChatMessageView;

    open spec fn view(&self) -> WsChatMessageView {
        self.0@
    }
}

/// The longest excerpt, in characters, that a quoted preview shows.
pub const MAX_PREVIEW_LENGTH: usize = 80;

/// What is shown of the message that another one answers.
#[derive(Debug, PartialEq)]
pub struct ReplyPreview {
    pub sender_id: String,
    pub excerpt: String,
}

impl Letter {
    /// Takes a request of the user. Both requests are the list's business:
    /// the message itself stays as it is.
    pub fn update(&mut self, message: LetterMessage)
        ensures
            final(self)@ == old(self)@,
    {
    }

    /// Whether `user_id` wrote the message. Only the writer is offered to
    /// delete it.
    pub fn is_from(&self, user_id: &String) -> (own: bool)
        ensures
            own == (self@.sender_id == user_id@),
    {
        same_text(&self.0.sender_id, user_id)
    }

    /// The preview to quote above this message: the sender and the shortened
    /// text of the message that it answers. There is none when the message
    /// answers nothing, and none when the message it answers has left
    /// `letter_list`.
    pub fn reply_preview(&self, letter_list: &LetterList) -> (preview: Option<ReplyPreview>)
        ensures
            match self@.reply_to {
                Some(target) if holds(letter_list@.letters, target) => {
                    &&& preview matches Some(shown)
                    &&& shown.sender_id@ == stored(letter_list@.letters, target).sender_id
                    &&& shown.excerpt@ == truncated(
                        stored(letter_list@.letters, target).message,
                        MAX_PREVIEW_LENGTH as nat,
                    )
                },
                _ => preview is None,
            },
    {
        match &self.0.reply_to {
            Some(target) => letter_list.preview_of(target),
            None => None,
        }
    }
}

/// What the user can ask of one message.
#[derive(Debug, Clone, Copy, PartialEq, Eq)]
pub enum LetterMessage {
    ReplyStarted,
    LetterDelete,
}

/// Trusted: makes `indexmap::IndexMap`, the insertion-ordered hash map, known
/// as a type. Nothing is claimed of its fields.
#[verifier::external_type_specification]
#[verifier::external_body]
#[verifier::reject_recursive_types(K)]
#[verifier::reject_recursive_types(V)]
#[verifier::reject_recursive_types(S)]
pub struct ExIndexMap<K, V, S>(IndexMap<K, V, S>);

/// The key-value pairs that a map holds, in the map's own order: the order
/// in which `IndexMap::iter` and `IndexMap::get_index` yield them. Keys and
/// values are given by their characters and fields.
pub uninterp spec fn pairs(map: IndexMap<String, Letter>) -> Letters;

/// Trusted: `IndexMap::new` makes a map without pairs.
#[verifier::external_body]
fn map_new() -> (map: IndexMap<String, Letter>)
    ensures
        pairs(map) == Seq::<(Seq<char>, WsChatMessageView)>::empty(),
{
    IndexMap::new()
}

/// Trusted: `IndexMap::len` counts the pairs.
#[verifier::external_body]
fn map_len(map: &IndexMap<String, Letter>) -> (n: usize)
    ensures
        n == pairs(*map).len(),
{
    map.len()
}

/// Trusted: `IndexMap::clear` removes every pair.
#[verifier::external_body]
fn map_clear(map: &mut IndexMap<String, Letter>)
    ensures
        pairs(*final(map)) == Seq::<(Seq<char>, WsChatMessageView)>::empty(),
{
    map.clear()
}

/// Trusted: `IndexMap::insert` replaces the value of an equal key where it
/// stands in the order, and otherwise appends the pair as the last one.
#[verifier::external_body]
fn map_insert(map: &mut IndexMap<String, Letter>, key: String, value: Letter)
    ensures
        pairs(*final(map)) == inserted(pairs(*old(map)), key@, value@),
{
    map.insert(key, value);
}

/// Trusted: `IndexMap::shift_remove` takes out the pair of an equal key and
/// moves the later pairs up without reordering them; it returns the value, or
/// `None` and leaves the map alone when the key is not there.
#[verifier::external_body]
fn map_shift_remove(map: &mut IndexMap<String, Letter>, key: &String) -> (taken: Option<Letter>)
    ensures
        pairs(*final(map)) == removed(pairs(*old(map)), key@),
        taken is Some <==> holds(pairs(*old(map)), key@),
        taken matches Some(letter) ==> letter@ == pairs(*old(map))[position(
            pairs(*old(map)),
            key@,
        )].1,
{
    map.shift_remove(key)
}

/// Trusted: `IndexMap::get` returns the value stored under an equal key.
#[verifier::external_body]
fn map_get<'a>(map: &'a IndexMap<String, Letter>, key: &String) -> (found: Option<&'a Letter>)
    ensures
        found is Some <==> holds(pairs(*map), key@),
        found matches Some(letter) ==> letter@ == pairs(*map)[position(pairs(*map), key@)].1,
{
    map.get(key)
}

/// Trusted: `IndexMap::get_index` returns the pair at a position of the
/// order, `None` past the end.
#[verifier::external_body]
fn map_get_index<'a>(map: &'a IndexMap<String, Letter>, index: usize) -> (found: Option<
    (&'a String, &'a Letter),
>)
    ensures
        found is Some <==> index < pairs(*map).len(),
        found matches Some(pair) ==> pair.0@ == pairs(*map)[index as int].0 && pair.1@ == pairs(
            *map,
        )[index as int].1,
{
    map.get_index(index)
}

/// The number of characters after which the text of the input field is cut
/// and marked as cut.
pub const MAX_INPUT_LENGTH: usize = 300;

/// What reaches the message list: the user's actions, the answers of the
/// server and the events of the socket.
#[derive(Debug, PartialEq)]
pub enum LetterListMessage {
    /// The user acted on the message with the given id.
    LetterMessage(LetterMessage, String),
    MessageInputChanged(String),
    SendPressed,
    /// The server stored a message of this user under `id`.
    MessageSent { id: String, message: String, sender: String, reply_to: Option<String> },
    CancelReply,
    /// The message with the given id is gone.
    MessageDeleted(String),
    WsEvent(WsEvent),
    /// The user asked to leave the open chat.
    ChatDelete,
    /// The server confirmed that the user left a chat.
    ChatDeleted(WsLeaveChat),
    Error(String),
}

/// What the message list asks its caller to do after an update.
#[derive(Debug, PartialEq)]
pub enum LetterListCommand {
    /// Nothing to do.
    Nothing,
    /// Send `deletion` with the session; whatever the answer, report
    /// `MessageDeleted` with its id.
    DeleteMessage { deletion: DeleteMessage, session_id: String },
    /// Send `creation` with the session and report the answer: the new id
    /// as `MessageSent`, together with the text, `sender` and the reply
    /// target of `creation`.
    CreateMessage { creation: CreateMessage, session_id: String, sender: String },
    /// Scroll the list to its last message.
    SnapToEnd,
    /// Send `leave` with the session and report the answer: success as
    /// `ChatDeleted` for `member`.
    LeaveChat { leave: LeaveChat, session_id: String, member: String },
}

/// The open chat's messages and the state of its input line.
#[derive(Debug)]
pub struct LetterList {
    messages: IndexMap<String, Letter>,
    message_input: String,
    chat_id: Option<String>,
    session: Session,
    replying_to: Option<String>,
}

/// `LetterList` as contracts see it.
pub struct LetterListView {
    pub letters: Letters,
    pub message_input: Seq<char>,
    pub chat_id: Option<Seq<char>>,
    pub session: SessionView,
    pub replying_to: Option<Seq<char>>,
}

impl View for LetterList {
    type V = LetterListView;

    closed spec fn view(&self) -> LetterListView {
        LetterListView {
            letters: pairs(self.messages),
            message_input: self.message_input@,
            chat_id: opt_text(self.chat_id),
            session: self.session@,
            replying_to: opt_text(self.replying_to),
        }
    }
}

impl LetterListView {
    /// The reply target that may be sent along with a new message: the draft
    /// target, unless the list no longer holds that message.
    pub open spec fn live_reply(self) -> Option<Seq<char>> {
        match self.replying_to {
            Some(id) => if holds(self.letters, id) {
                Some(id)
            } else {
                None
            },
            None => None,
        }
    }

    /// The state after the message under `id` is gone: it leaves the list,
    /// and a reply draft that pointed at it is dropped.
    pub open spec fn without(self, id: Seq<char>) -> LetterListView {
        LetterListView {
            letters: removed(self.letters, id),
            replying_to: if self.replying_to == Some(id) {
                None
            } else {
                self.replying_to
            },
            ..self
        }
    }

    /// The state after `message` arrived or was confirmed.
    pub open spec fn with(self, message: WsChatMessageView) -> LetterListView {
        LetterListView { letters: inserted(self.letters, message.message_id, message), ..self }
    }

    /// The state that follows `message` when it arrives at the instant `now`.
    ///
    /// Messages enter the list only once the server has stored them: as the
    /// answer to this user's own request, stamped with `now`, or as a pushed
    /// event. Pushed events count for the open chat only.
    pub open spec fn next(self, message: LetterListMessage, now: Timestamp) -> LetterListView {
        match message {
            LetterListMessage::LetterMessage(LetterMessage::ReplyStarted, id) => LetterListView {
                replying_to: Some(id@),
                ..self
            },
            LetterListMessage::MessageInputChanged(value) => LetterListView {
                message_input: truncated(value@, MAX_INPUT_LENGTH as nat),
                ..self
            },
            LetterListMessage::SendPressed => if self.chat_id is Some {
                LetterListView { message_input: Seq::empty(), replying_to: None, ..self }
            } else {
                self
            },
            LetterListMessage::MessageSent { id, message, sender, reply_to } => match self.chat_id {
                Some(chat) => self.with(
                    WsChatMessageView {
                        chat_id: chat,
                        sender_id: sender@,
                        message_id: id@,
                        message: message@,
                        reply_to: opt_text(reply_to),
                        created_at: now,
                    },
                ),
                None => self,
            },
            LetterListMessage::CancelReply => LetterListView { replying_to: None, ..self },
            LetterListMessage::MessageDeleted(id) => self.without(id@),
            LetterListMessage::WsEvent(WsEvent::Message(WsMessageData::ChatMessage(pushed))) => {
                if self.chat_id == Some(pushed@.chat_id) {
                    self.with(pushed@)
                } else {
                    self
                }
            },
            LetterListMessage::WsEvent(WsEvent::Message(WsMessageData::DeleteMessage(pushed))) => {
                if self.chat_id == Some(pushed@.chat_id) {
                    self.without(pushed@.message_id)
                } else {
                    self
                }
            },
            _ => self,
        }
    }

    /// Whether `command` is what the list asks for when `message` reaches it
    /// in this state.
    pub open spec fn asks(self, message: LetterListMessage, command: LetterListCommand) -> bool {
        match message {
            LetterListMessage::LetterMessage(LetterMessage::LetterDelete, id) => {
                &&& command matches LetterListCommand::DeleteMessage { deletion, session_id }
                &&& deletion@.id == id@
                &&& session_id@ == self.session.session_id
            },
            LetterListMessage::SendPressed => match self.chat_id {
                Some(chat) => {
                    &&& command matches LetterListCommand::CreateMessage {
                        creation,
                        session_id,
                        sender,
                    }
                    &&& creation@.chat_id == chat
                    &&& creation@.content == self.message_input
                    &&& creation@.reply_to_id == self.live_reply()
                    &&& session_id@ == self.session.session_id
                    &&& sender@ == self.session.user_id
                },
                None => command is Nothing,
            },
            LetterListMessage::MessageSent { .. } => if self.chat_id is Some {
                command is SnapToEnd
            } else {
                command is Nothing
            },
            LetterListMessage::WsEvent(WsEvent::Message(WsMessageData::ChatMessage(pushed))) => {
                if self.chat_id == Some(pushed@.chat_id) {
                    command is SnapToEnd
                } else {
                    command is Nothing
                }
            },
            LetterListMessage::ChatDelete => match self.chat_id {
                Some(chat) => {
                    &&& command matches LetterListCommand::LeaveChat { leave, session_id, member }
                    &&& leave@.chat_id == chat
                    &&& session_id@ == self.session.session_id
                    &&& member@ == self.session.user_id
                },
                None => command is Nothing,
            },
            _ => command is Nothing,
        }
    }
}

/// The contract view of each message of a list.
pub open spec fn message_views(messages: Seq<WsChatMessage>) -> Seq<WsChatMessageView> {
    Seq::new(messages.len(), |i: int| messages[i]@)
}

impl LetterList {
    /// Every message is stored under its own id, and no id occurs twice.
    pub open spec fn wf(&self) -> bool {
        distinct_keys(self@.letters) && keyed_by_id(self@.letters)
    }

    /// An empty list for `chat_id`, with an empty input line.
    pub fn new(chat_id: Option<String>, session: Session) -> (list: Self)
        ensures
            list.wf(),
            list@ == (LetterListView {
                letters: Seq::empty(),
                message_input: Seq::empty(),
                chat_id: opt_text(chat_id),
                session: session@,
                replying_to: None,
            }),
    {
        LetterList {
            messages: map_new(),
            message_input: String::new(),
            chat_id,
            session,
            replying_to: None,
        }
    }

    /// Forgets every message; the input line and the reply draft stay.
    pub fn clear(&mut self)
        ensures
            final(self).wf(),
            final(self)@ == (LetterListView { letters: Seq::empty(), ..old(self)@ }),
    {
        map_clear(&mut self.messages);
    }

    /// Stores `chat_message` under its id: a message already known is
    /// replaced where it stands, a new one goes to the end.
    pub fn add_message(&mut self, chat_message: WsChatMessage)
        requires
            old(self).wf(),
        ensures
            final(self).wf(),
            final(self)@ == old(self)@.with(chat_message@),
    {
        proof {
            lemma_inserted_wf(self@.letters, chat_message@);
        }
        let key = chat_message.message_id.clone();
        map_insert(&mut self.messages, key, Letter(chat_message));
    }

    /// Deletes the message with the given id, if the list holds it, together
    /// with a reply draft that points at it. Says whether a message left.
    pub fn remove_message(&mut self, id: &String) -> (was_held: bool)
        requires
            old(self).wf(),
        ensures
            final(self).wf(),
            final(self)@ == old(self)@.without(id@),
            was_held == holds(old(self)@.letters, id@),
    {
        proof {
            lemma_removed_wf(self@.letters, id@);
        }
        if is_text(&self.replying_to, id) {
            self.replying_to = None;
        }
        let taken = map_shift_remove(&mut self.messages, id);
        taken.is_some()
    }

    /// Replaces the messages by a history that the server sent, entered in
    /// the order given. The input line and the reply draft stay.
    pub fn reload(&mut self, history: &Vec<WsChatMessage>)
        ensures
            final(self).wf(),
            final(self)@ == (LetterListView {
                letters: reloaded(message_views(history@)),
                ..old(self)@
            }),
    {
        self.clear();
        let ghost views = message_views(history@);
        let mut i: usize = 0;
        while i < history.len()
            invariant
                i <= history.len(),
                views == message_views(history@),
                self.wf(),
                self@ == (LetterListView { letters: reloaded(views.take(i as int)), ..old(self)@ }),
            decreases history.len() - i,
        {
            proof {
                assert(views.take(i + 1).drop_last() == views.take(i as int));
                assert(views.take(i + 1).last() == history@[i as int]@);
            }
            self.add_message(history[i].clone());
            i = i + 1;
        }
        proof {
            assert(views.take(history.len() as int) == views);
        }
    }

    /// The preview of the message stored under `target`, if the list holds it.
    pub fn preview_of(&self, target: &String) -> (preview: Option<ReplyPreview>)
        ensures
            preview is Some <==> holds(self@.letters, target@),
            preview matches Some(shown) ==> {
                &&& shown.sender_id@ == stored(self@.letters, target@).sender_id
                &&& shown.excerpt@ == truncated(
                    stored(self@.letters, target@).message,
                    MAX_PREVIEW_LENGTH as nat,
                )
            },
    {
        match map_get(&self.messages, target) {
            Some(quoted) => Some(
                ReplyPreview {
                    sender_id: quoted.0.sender_id.clone(),
                    excerpt: truncate_message(quoted.0.message.clone(), MAX_PREVIEW_LENGTH),
                },
            ),
            None => None,
        }
    }

    /// The preview of the message that the next message will answer. There
    /// is none without a reply draft, and none when the draft's target has
    /// left the list.
    pub fn draft_preview(&self) -> (preview: Option<ReplyPreview>)
        ensures
            preview is Some <==> self@.live_reply() is Some,
            preview matches Some(shown) ==> {
                &&& shown.sender_id@ == stored(self@.letters, self@.replying_to->0).sender_id
                &&& shown.excerpt@ == truncated(
                    stored(self@.letters, self@.replying_to->0).message,
                    MAX_PREVIEW_LENGTH as nat,
                )
            },
    {
        match &self.replying_to {
            Some(target) => self.preview_of(target),
            None => None,
        }
    }

    /// The event socket that the list listens to: a socket that is yet to
    /// be opened under the list's session.
    pub fn subscription(&self) -> (socket: (State, SocketStep))
        ensures
            socket.0 == State::Starting,
            socket.1 matches SocketStep::Connect { authorization } && authorization@
                == bearer_value(self@.session.session_id),
    {
        connect(self.session.session_id.clone())
    }

    /// The number of messages.
    pub fn len(&self) -> (n: usize)
        ensures
            n == self@.letters.len(),
    {
        map_len(&self.messages)
    }

    /// The message with the given id.
    pub fn get(&self, id: &String) -> (found: Option<&Letter>)
        ensures
            found is Some <==> holds(self@.letters, id@),
            found matches Some(letter) ==> letter@ == self@.letters[position(
                self@.letters,
                id@,
            )].1,
    {
        map_get(&self.messages, id)
    }

    /// The message at a position of the list, `None` past its end.
    pub fn message_at(&self, index: usize) -> (found: Option<&Letter>)
        ensures
            found is Some <==> index < self@.letters.len(),
            found matches Some(letter) ==> letter@ == self@.letters[index as int].1,
    {
        match map_get_index(&self.messages, index) {
            Some(pair) => Some(pair.1),
            None => None,
        }
    }

    /// The text of the input line.
    pub fn message_input(&self) -> (text: &String)
        ensures
            text@ == self@.message_input,
    {
        &self.message_input
    }

    /// The chat whose messages the list shows.
    pub fn chat_id(&self) -> (id: &Option<String>)
        ensures
            opt_text(*id) == self@.chat_id,
    {
        &self.chat_id
    }

    /// The session under which requests are sent.
    pub fn session(&self) -> (session: &Session)
        ensures
            session@ == self@.session,
    {
        &self.session
    }

    /// The message that the next message will answer.
    pub fn replying_to(&self) -> (id: &Option<String>)
        ensures
            opt_text(*id) == self@.replying_to,
    {
        &self.replying_to
    }

    /// Points the list at the chat that the user opened and drops the reply
    /// draft. The messages stay until they are reloaded.
    pub fn show_chat(&mut self, chat_id: String)
        ensures
            final(self)@ == (LetterListView {
                chat_id: Some(chat_id@),
                replying_to: None,
                ..old(self)@
            }),
    {
        self.chat_id = Some(chat_id);
        self.replying_to = None;
    }

    /// Points the list at no chat.
    pub fn close_chat(&mut self)
        ensures
            final(self)@ == (LetterListView { chat_id: None, ..old(self)@ }),
    {
        self.chat_id = None;
    }

    /// The reply target to send along with a new message: the draft target,
    /// unless the list no longer holds that message.
    pub fn live_reply(&self) -> (id: Option<String>)
        ensures
            opt_text(id) == self@.live_reply(),
    {
        match &self.replying_to {
            Some(target) => {
                if map_get(&self.messages, target).is_some() {
                    Some(target.clone())
                } else {
                    None
                }
            },
            None => None,
        }
    }

    /// Takes one message at the instant that the clock shows and says what
    /// to do next.
    pub fn update(&mut self, message: LetterListMessage) -> (command: LetterListCommand)
        requires
            old(self).wf(),
        ensures
            final(self).wf(),
            old(self)@.asks(message, command),
            exists|now: Timestamp|
                is_clock_reading(now) && final(self)@ == #[trigger] old(self)@.next(message, now),
    {
        let now = utc_now_millis();
        self.update_at(message, now)
    }

    /// Takes one message at the instant `now` and says what to do next.
    pub fn update_at(&mut self, message: LetterListMessage, now: Timestamp) -> (command:
        LetterListCommand)
        requires
            old(self).wf(),
        ensures
            final(self).wf(),
            final(self)@ == old(self)@.next(message, now),
            old(self)@.asks(message, command),
    {
        match message {
            LetterListMessage::LetterMessage(LetterMessage::ReplyStarted, id) => {
                self.replying_to = Some(id);
                LetterListCommand::Nothing
            },
            LetterListMessage::LetterMessage(LetterMessage::LetterDelete, id) => {
                LetterListCommand::DeleteMessage {
                    deletion: DeleteMessage { id },
                    session_id: self.session.session_id.clone(),
                }
            },
            LetterListMessage::MessageInputChanged(value) => {
                self.message_input = truncate_message(value, MAX_INPUT_LENGTH);
                LetterListCommand::Nothing
            },
            LetterListMessage::SendPressed => {
                match &self.chat_id {
                    Some(chat) => {
                        let creation = CreateMessage {
                            chat_id: chat.clone(),
                            content: self.message_input.clone(),
                            reply_to_id: self.live_reply(),
                        };
                        self.message_input = String::new();
                        self.replying_to = None;
                        LetterListCommand::CreateMessage {
                            creation,
                            session_id: self.session.session_id.clone(),
                            sender: self.session.user_id.clone(),
                        }
                    },
                    None => LetterListCommand::Nothing,
                }
            },
            LetterListMessage::MessageSent { id, message, sender, reply_to } => {
                match &self.chat_id {
                    Some(chat) => {
                        let confirmed = WsChatMessage {
                            chat_id: chat.clone(),
                            sender_id: sender,
                            message_id: id,
                            message,
                            reply_to,
                            created_at: now,
                        };
                        self.add_message(confirmed);
                        LetterListCommand::SnapToEnd
                    },
                    None => LetterListCommand::Nothing,
                }
            },
            LetterListMessage::CancelReply => {
                self.replying_to = None;
                LetterListCommand::Nothing
            },
            LetterListMessage::MessageDeleted(id) => {
                self.remove_message(&id);
                LetterListCommand::Nothing
            },
            LetterListMessage::WsEvent(WsEvent::Message(WsMessageData::ChatMessage(pushed))) => {
                if is_text(&self.chat_id, &pushed.chat_id) {
                    self.add_message(pushed);
                    LetterListCommand::SnapToEnd
                } else {
                    LetterListCommand::Nothing
                }
            },
            LetterListMessage::WsEvent(WsEvent::Message(WsMessageData::DeleteMessage(pushed))) => {
                if is_text(&self.chat_id, &pushed.chat_id) {
                    self.remove_message(&pushed.message_id);
                }
                LetterListCommand::Nothing
            },
            LetterListMessage::ChatDelete => {
                match &self.chat_id {
                    Some(chat) => LetterListCommand::LeaveChat {
                        leave: LeaveChat { chat_id: chat.clone() },
                        session_id: self.session.session_id.clone(),
                        member: self.session.user_id.clone(),
                    },
                    None => LetterListCommand::Nothing,
                }
            },
            _ => LetterListCommand::Nothing,
        }
    }
}

} // verus!
