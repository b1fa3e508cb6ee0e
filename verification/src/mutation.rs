//! The rules of the requests that change chats and messages: which are
//! refused, what is written, and which event goes to whom once it is
//! written.
//!
//! Every change runs in two steps with the storage between them. The first
//! step judges the request against what the storage holds and says what to
//! write. The second step takes what the storage wrote and read back and
//! makes the event from that alone, so that a change that was not written
//! has no event and the recipients are the members on record.

use vstd::prelude::*;
use crate::bus::{names, WsMessage, WsMessageView};
use crate::clock::{is_clock_reading, utc_now_millis, Timestamp};
use crate::ordering::{oldest_first, order_oldest_first};
use crate::requests::{
    clone_opt, clone_texts, opt_text, texts, ChatWithMembers, CreateChat, CreateMessage,
    LeaveChat, Session, WsChatMessage, WsChatMessageView, WsCreateChat, WsCreateChatView,
    WsDeleteMessage, WsDeleteMessageView, WsLeaveChat, WsLeaveChatView, WsMessageData,
    WsMessageDataView,
};
use crate::text::same_text;

verus! {

/// Why a change was refused.
#[derive(Debug, Clone, Copy, PartialEq, Eq)]
pub enum MutationError {
    /// A user asked for a chat with themselves.
    SelfChat,
    /// The other user of a new chat does not exist.
    UnknownUser,
    /// The chat does not exist, or the user is not one of its members.
    ChatNotFound,
    /// The message does not exist.
    MessageNotFound,
    /// The message to reply to is not a message of the chat.
    ReplyNotFound,
}

impl MutationError {
    /// The HTTP status that reports the refusal: conflict for a chat with
    /// oneself, bad request for an unknown user, not found for the rest.
    pub fn status(&self) -> (code: u16)
        ensures
            code == match *self {
                MutationError::SelfChat => 409u16,
                MutationError::UnknownUser => 400u16,
                _ => 404u16,
            },
    {
        match self {
            MutationError::SelfChat => 409,
            MutationError::UnknownUser => 400,
            _ => 404,
        }
    }
}

/// A new sort key for a chat.
#[derive(Debug, PartialEq)]
pub struct ChatTouch {
    pub chat_id: String,
    pub last_updated: Timestamp,
}

/// A message that is ready to be stored. Storing it includes setting the
/// sort key of its chat to `created_at`: both are written or neither is.
#[derive(Debug, PartialEq)]
pub struct NewMessage {
    pub chat_id: String,
    pub sender_id: String,
    pub content: String,
    pub reply_to: Option<String>,
    pub created_at: Timestamp,
}

/// `NewMessage` as contracts see it.
pub struct NewMessageView {
    pub chat_id: Seq<char>,
    pub sender_id: Seq<char>,
    pub content: Seq<char>,
    pub reply_to: Option<Seq<char>>,
    pub created_at: Timestamp,
}

impl View for NewMessage {
    type V = NewMessageView;

    open spec fn view(&self) -> NewMessageView {
        NewMessageView {
            chat_id: self.chat_id@,
            sender_id: self.sender_id@,
            content: self.content@,
            reply_to: opt_text(self.reply_to),
            created_at: self.created_at,
        }
    }
}

impl NewMessage {
    /// The write to the chat that goes with the message.
    pub fn touch(&self) -> (touch: ChatTouch)
        ensures
            touch.chat_id@ == self@.chat_id,
            touch.last_updated == self@.created_at,
    {
        ChatTouch { chat_id: self.chat_id.clone(), last_updated: self.created_at }
    }
}

/// Whether `user_id` may act on the chat that the storage returned for
/// `chat_id`: the chat exists, is the one asked for, and has the user among
/// its members.
pub open spec fn may_act(chat: Option<&ChatWithMembers>, chat_id: Seq<char>, user_id: Seq<char>) -> bool {
    match chat {
        Some(found) => found@.id == chat_id && found@.members.contains(user_id),
        None => false,
    }
}

/// Whether `user_id` may act on the chat that the storage returned for
/// `chat_id`.
pub fn check_member(chat: Option<&ChatWithMembers>, chat_id: &String, user_id: &String) -> (allowed:
    Result<(), MutationError>)
    ensures
        allowed == if may_act(chat, chat_id@, user_id@) {
            Ok::<(), MutationError>(())
        } else {
            Err::<(), MutationError>(MutationError::ChatNotFound)
        },
{
    match chat {
        Some(found) => {
            if same_text(&found.id, chat_id) && names(&found.members, user_id) {
                Ok(())
            } else {
                Err(MutationError::ChatNotFound)
            }
        },
        None => Err(MutationError::ChatNotFound),
    }
}

/// What becomes of a request by `requester` for a chat with `other`: the
/// members to create the chat with, or the reason for the refusal. A chat
/// with oneself is refused before the other user is looked at.
pub open spec fn create_chat_verdict(requester: Seq<char>, other: Seq<char>, other_exists: bool) -> Result<
    Seq<Seq<char>>,
    MutationError,
> {
    if other == requester {
        Err(MutationError::SelfChat)
    } else if !other_exists {
        Err(MutationError::UnknownUser)
    } else {
        Ok(seq![requester, other])
    }
}

/// Judges a request for a new chat and names the members to create it
/// with: the requester and the other user.
pub fn create_chat(session: &Session, request: &CreateChat, other_exists: bool) -> (members: Result<
    Vec<String>,
    MutationError,
>)
    ensures
        match create_chat_verdict(session@.user_id, request@.other_members, other_exists) {
            Ok(wanted) => members matches Ok(both) && texts(both@) == wanted,
            Err(error) => members == Err::<Vec<String>, MutationError>(error),
        },
{
    if same_text(&request.other_members, &session.user_id) {
        return Err(MutationError::SelfChat);
    }
    if !other_exists {
        return Err(MutationError::UnknownUser);
    }
    let mut both: Vec<String> = Vec::new();
    both.push(session.user_id.clone());
    both.push(request.other_members.clone());
    assert(texts(both@) =~= seq![session@.user_id, request@.other_members]);
    Ok(both)
}

/// The event that announces a chat to its members, made from the chat as
/// stored.
pub fn chat_created(stored: &ChatWithMembers) -> (event: WsMessage)
    ensures
        event.wf(),
        event@ == (WsMessageView {
            recipient_ids: stored@.members.to_set(),
            data: WsMessageDataView::CreateChat(
                WsCreateChatView { chat_id: stored@.id, members: stored@.members },
            ),
        }),
{
    WsMessage::new(
        &stored.members,
        WsMessageData::CreateChat(
            WsCreateChat { chat_id: stored.id.clone(), members: clone_texts(&stored.members) },
        ),
    )
}

/// Whether a reply target fits a request: the request names none, or it
/// names the message that the storage returned, and that message belongs to
/// the chat of the request.
pub open spec fn reply_fits(request: CreateMessage, target: Option<&WsChatMessage>) -> bool {
    match request@.reply_to_id {
        None => true,
        Some(wanted) => match target {
            Some(found) => found@.message_id == wanted && found@.chat_id == request@.chat_id,
            None => false,
        },
    }
}

/// What becomes of a request to post a message: the message to store, or
/// the reason for the refusal.
pub open spec fn send_message_verdict(
    session: Session,
    request: CreateMessage,
    chat: Option<&ChatWithMembers>,
    reply_target: Option<&WsChatMessage>,
    now: Timestamp,
) -> Result<NewMessageView, MutationError> {
    if !may_act(chat, request@.chat_id, session@.user_id) {
        Err(MutationError::ChatNotFound)
    } else if !reply_fits(request, reply_target) {
        Err(MutationError::ReplyNotFound)
    } else {
        Ok(
            NewMessageView {
                chat_id: request@.chat_id,
                sender_id: session@.user_id,
                content: request@.content,
                reply_to: request@.reply_to_id,
                created_at: now,
            },
        )
    }
}

/// Whether `message` is what a request to post a message gets at `now`.
pub open spec fn send_message_answers(
    session: Session,
    request: CreateMessage,
    chat: Option<&ChatWithMembers>,
    reply_target: Option<&WsChatMessage>,
    now: Timestamp,
    message: Result<NewMessage, MutationError>,
) -> bool {
    match send_message_verdict(session, request, chat, reply_target, now) {
        Ok(wanted) => message matches Ok(new) && new@ == wanted,
        Err(error) => message == Err::<NewMessage, MutationError>(error),
    }
}

/// Judges a request to post a message at the instant that the clock shows,
/// given the chat and the reply target as the storage returned them, and
/// says what to store.
pub fn send_message(
    session: &Session,
    request: &CreateMessage,
    chat: Option<&ChatWithMembers>,
    reply_target: Option<&WsChatMessage>,
) -> (message: Result<NewMessage, MutationError>)
    ensures
        exists|now: Timestamp|
            is_clock_reading(now) && #[trigger] send_message_answers(
                *session,
                *request,
                chat,
                reply_target,
                now,
                message,
            ),
{
    let now = utc_now_millis();
    send_message_at(session, request, chat, reply_target, now)
}

/// Judges a request to post a message at the instant `now`, given the chat
/// and the reply target as the storage returned them, and says what to
/// store. The message is the requester's, whoever the request claims to be.
pub fn send_message_at(
    session: &Session,
    request: &CreateMessage,
    chat: Option<&ChatWithMembers>,
    reply_target: Option<&WsChatMessage>,
    now: Timestamp,
) -> (message: Result<NewMessage, MutationError>)
    ensures
        send_message_answers(*session, *request, chat, reply_target, now, message),
{
    match check_member(chat, &request.chat_id, &session.user_id) {
        Err(error) => {
            return Err(error);
        },
        Ok(_) => {},
    }
    match &request.reply_to_id {
        Some(wanted) => {
            let fits = match reply_target {
                Some(found) => same_text(&found.message_id, wanted) && same_text(
                    &found.chat_id,
                    &request.chat_id,
                ),
                None => false,
            };
            if !fits {
                return Err(MutationError::ReplyNotFound);
            }
        },
        None => {},
    }
    Ok(
        NewMessage {
            chat_id: request.chat_id.clone(),
            sender_id: session.user_id.clone(),
            content: request.content.clone(),
            reply_to: clone_opt(&request.reply_to_id),
            created_at: now,
        },
    )
}

/// The event that announces a stored message to the members of its chat,
/// made from the message as stored under `message_id` and from the chat as
/// read back after the write.
pub fn message_created(stored: &NewMessage, message_id: &String, chat: &ChatWithMembers) -> (event:
    WsMessage)
    ensures
        event.wf(),
        event@ == (WsMessageView {
            recipient_ids: chat@.members.to_set(),
            data: WsMessageDataView::ChatMessage(
                WsChatMessageView {
                    chat_id: stored@.chat_id,
                    sender_id: stored@.sender_id,
                    message_id: message_id@,
                    message: stored@.content,
                    reply_to: stored@.reply_to,
                    created_at: stored@.created_at,
                },
            ),
        }),
{
    WsMessage::new(
        &chat.members,
        WsMessageData::ChatMessage(
            WsChatMessage {
                chat_id: stored.chat_id.clone(),
                sender_id: stored.sender_id.clone(),
                message_id: message_id.clone(),
                message: stored.content.clone(),
                reply_to: clone_opt(&stored.reply_to),
                created_at: stored.created_at,
            },
        ),
    )
}

/// Whether `touch` is what a request to delete the message `found` gets at
/// `now`: the bump of the message's chat to `now`, or the refusal of a
/// message that is not there.
pub open spec fn delete_message_answers(
    found: Option<&WsChatMessage>,
    now: Timestamp,
    touch: Result<ChatTouch, MutationError>,
) -> bool {
    match found {
        Some(message) => {
            &&& touch matches Ok(bump)
            &&& bump.chat_id@ == message@.chat_id
            &&& bump.last_updated == now
        },
        None => touch == Err::<ChatTouch, MutationError>(MutationError::MessageNotFound),
    }
}

/// Judges a request to delete a message at the instant that the clock
/// shows, given the message as the storage returned it.
pub fn delete_message(found: Option<&WsChatMessage>) -> (touch: Result<ChatTouch, MutationError>)
    ensures
        exists|now: Timestamp|
            is_clock_reading(now) && #[trigger] delete_message_answers(found, now, touch),
{
    let now = utc_now_millis();
    delete_message_at(found, now)
}

/// Judges a request to delete a message at the instant `now`, given the
/// message as the storage returned it. Anyone may delete a message that
/// exists. The write that goes with the delete bumps the chat.
pub fn delete_message_at(found: Option<&WsChatMessage>, now: Timestamp) -> (touch: Result<
    ChatTouch,
    MutationError,
>)
    ensures
        delete_message_answers(found, now, touch),
{
    match found {
        Some(message) => Ok(ChatTouch { chat_id: message.chat_id.clone(), last_updated: now }),
        None => Err(MutationError::MessageNotFound),
    }
}

/// The event that announces a delete to the members of the chat, made from
/// the message that the storage deleted and from the chat as read back.
pub fn message_deleted(deleted: &WsChatMessage, chat: &ChatWithMembers) -> (event: WsMessage)
    ensures
        event.wf(),
        event@ == (WsMessageView {
            recipient_ids: chat@.members.to_set(),
            data: WsMessageDataView::DeleteMessage(
                WsDeleteMessageView {
                    chat_id: deleted@.chat_id,
                    message_id: deleted@.message_id,
                },
            ),
        }),
{
    WsMessage::new(
        &chat.members,
        WsMessageData::DeleteMessage(
            WsDeleteMessage {
                chat_id: deleted.chat_id.clone(),
                message_id: deleted.message_id.clone(),
            },
        ),
    )
}

/// Whether `touch` is what a request to leave a chat gets at `now`: the
/// bump of the chat to `now` for a member, a refusal for anyone else.
pub open spec fn leave_chat_answers(
    session: Session,
    request: LeaveChat,
    chat: Option<&ChatWithMembers>,
    now: Timestamp,
    touch: Result<ChatTouch, MutationError>,
) -> bool {
    if may_act(chat, request@.chat_id, session@.user_id) {
        &&& touch matches Ok(bump)
        &&& bump.chat_id@ == request@.chat_id
        &&& bump.last_updated == now
    } else {
        touch == Err::<ChatTouch, MutationError>(MutationError::ChatNotFound)
    }
}

/// Judges a request to leave a chat at the instant that the clock shows,
/// given the chat as the storage returned it.
pub fn leave_chat(session: &Session, request: &LeaveChat, chat: Option<&ChatWithMembers>) -> (touch:
    Result<ChatTouch, MutationError>)
    ensures
        exists|now: Timestamp|
            is_clock_reading(now) && #[trigger] leave_chat_answers(
                *session,
                *request,
                chat,
                now,
                touch,
            ),
{
    let now = utc_now_millis();
    leave_chat_at(session, request, chat, now)
}

/// Judges a request to leave a chat at the instant `now`, given the chat as
/// the storage returned it. The chat itself stays; the write bumps it.
pub fn leave_chat_at(
    session: &Session,
    request: &LeaveChat,
    chat: Option<&ChatWithMembers>,
    now: Timestamp,
) -> (touch: Result<ChatTouch, MutationError>)
    ensures
        leave_chat_answers(*session, *request, chat, now, touch),
{
    match check_member(chat, &request.chat_id, &session.user_id) {
        Err(error) => Err(error),
        Ok(_) => Ok(ChatTouch { chat_id: request.chat_id.clone(), last_updated: now }),
    }
}

/// The event that tells the members of a chat, the leaver among them, that
/// the user of `session` left, made from the chat as read back.
pub fn chat_left(session: &Session, chat: &ChatWithMembers) -> (event: WsMessage)
    ensures
        event.wf(),
        event@ == (WsMessageView {
            recipient_ids: chat@.members.to_set(),
            data: WsMessageDataView::LeaveChat(
                WsLeaveChatView { chat_id: chat@.id, member: session@.user_id },
            ),
        }),
{
    WsMessage::new(
        &chat.members,
        WsMessageData::LeaveChat(
            WsLeaveChat { chat_id: chat.id.clone(), member: session.user_id.clone() },
        ),
    )
}

/// The creation time of each message.
pub open spec fn created_times(messages: Seq<WsChatMessage>) -> Seq<Timestamp> {
    Seq::new(messages.len(), |i: int| messages[i].created_at)
}

/// Whether `history` is `messages` in the order of their creation, messages
/// of the same instant in the order given.
pub open spec fn is_history(messages: Seq<WsChatMessage>, history: Seq<WsChatMessage>) -> bool {
    exists|order: Seq<usize>|
        {
            &&& oldest_first(created_times(messages), order)
            &&& history.len() == messages.len()
            &&& forall|k: int|
                0 <= k < history.len() ==> (#[trigger] history[k])@ == messages[order[k] as int]@
        }
}

/// Answers a request for the history of a chat, given the chat and its
/// messages as the storage returned them: the messages, oldest first, for a
/// member of the chat, and a refusal for anyone else.
pub fn get_messages(
    session: &Session,
    chat_id: &String,
    chat: Option<&ChatWithMembers>,
    messages: &Vec<WsChatMessage>,
) -> (history: Result<Vec<WsChatMessage>, MutationError>)
    ensures
        match history {
            Ok(sorted) => may_act(chat, chat_id@, session@.user_id) && is_history(
                messages@,
                sorted@,
            ),
            Err(error) => !may_act(chat, chat_id@, session@.user_id) && error
                == MutationError::ChatNotFound,
        },
{
    match check_member(chat, chat_id, &session.user_id) {
        Err(error) => {
            return Err(error);
        },
        Ok(_) => {},
    }
    let mut times: Vec<Timestamp> = Vec::new();
    let mut i: usize = 0;
    while i < messages.len()
        invariant
            i <= messages.len(),
            times@.len() == i,
            forall|m: int| 0 <= m < i ==> times@[m] == (#[trigger] messages@[m]).created_at,
        decreases messages.len() - i,
    {
        times.push(messages[i].created_at);
        i = i + 1;
    }
    assert(times@ =~= created_times(messages@));
    let order = order_oldest_first(&times);
    let mut sorted: Vec<WsChatMessage> = Vec::new();
    let mut k: usize = 0;
    while k < order.len()
        invariant
            k <= order.len(),
            oldest_first(created_times(messages@), order@),
            sorted@.len() == k,
            forall|m: int| 0 <= m < k ==> (#[trigger] sorted@[m])@ == messages@[order@[m] as int]@,
        decreases order.len() - k,
    {
        sorted.push(messages[order[k]].clone());
        k = k + 1;
    }
    Ok(sorted)
}

} // verus!
