//! The values exchanged between client and server.

use vstd::prelude::*;
use crate::clock::Timestamp;

verus! {

/// The characters of an optional text.
pub open spec fn opt_text(o: Option<String>) -> Option<Seq<char>> {
    match o {
        Some(s) => Some(s@),
        None => None,
    }
}

/// The characters of each text of a list.
pub open spec fn texts(v: Seq<String>) -> Seq<Seq<char>> {
    Seq::new(v.len(), |i: int| v[i]@)
}

/// Copies an optional text.
pub fn clone_opt(o: &Option<String>) -> (r: Option<String>)
    ensures
        r == *o,
{
    match o {
        Some(s) => Some(s.clone()),
        None => None,
    }
}

/// Copies a list of texts.
pub fn clone_texts(v: &Vec<String>) -> (r: Vec<String>)
    ensures
        r@ == v@,
{
    let mut r: Vec<String> = Vec::new();
    let mut i: usize = 0;
    while i < v.len()
        invariant
            i <= v.len(),
            r@ == v@.take(i as int),
        decreases v.len() - i,
    {
        r.push(v[i].clone());
        assert(v@.take(i + 1) == v@.take(i as int).push(v@[i as int]));
        i = i + 1;
    }
    assert(v@.take(v.len() as int) == v@);
    r
}

/// A logged-in user's credentials for later calls.
#[derive(Debug, PartialEq)]
pub struct Session {
    pub session_id: String,
    pub user_id: String,
}

/// `Session` as contracts see it.
pub struct SessionView {
    pub session_id: Seq<char>,
    pub user_id: Seq<char>,
}

impl View for Session {
    type V = SessionView;

    open spec fn view(&self) -> SessionView {
        SessionView { session_id: self.session_id@, user_id: self.user_id@ }
    }
}

impl Clone for Session {
    fn clone(&self) -> (r: Self)
        ensures
            r == *self,
    {
        Session { session_id: self.session_id.clone(), user_id: self.user_id.clone() }
    }
}

/// A message of a chat, as the server reports it.
#[derive(Debug, PartialEq)]
pub struct WsChatMessage {
    pub chat_id: String,
    pub sender_id: String,
    pub message_id: String,
    pub message: String,
    pub reply_to: Option<String>,
    pub created_at: Timestamp,
}

/// `WsChatMessage` as contracts see it.
pub struct WsChatMessageView {
    pub chat_id: Seq<char>,
    pub sender_id: Seq<char>,
    pub message_id: Seq<char>,
    pub message: Seq<char>,
    pub reply_to: Option<Seq<char>>,
    pub created_at: Timestamp,
}

impl View for WsChatMessage {
    type V = WsChatMessageView;

    open spec fn view(&self) -> WsChatMessageView {
        WsChatMessageView {
            chat_id: self.chat_id@,
            sender_id: self.sender_id@,
            message_id: self.message_id@,
            message: self.message@,
            reply_to: opt_text(self.reply_to),
            created_at: self.created_at,
        }
    }
}

impl Clone for WsChatMessage {
    fn clone(&self) -> (r: Self)
        ensures
            r == *self,
    {
        WsChatMessage {
            chat_id: self.chat_id.clone(),
            sender_id: self.sender_id.clone(),
            message_id: self.message_id.clone(),
            message: self.message.clone(),
            reply_to: clone_opt(&self.reply_to),
            created_at: self.created_at,
        }
    }
}

/// What a user types to log in or to register.
#[derive(Debug, PartialEq)]
pub struct LoginInfo {
    pub username: String,
    pub password: String,
}

/// `LoginInfo` as contracts see it.
pub struct LoginInfoView {
    pub username: Seq<char>,
    pub password: Seq<char>,
}

impl View for LoginInfo {
    type V = LoginInfoView;

    open spec fn view(&self) -> LoginInfoView {
        LoginInfoView {
            username: self.username@,
            password: self.password@,
        }
    }
}

impl Clone for LoginInfo {
    fn clone(&self) -> (r: Self)
        ensures
            r == *self,
    {
        LoginInfo {
            username: self.username.clone(),
            password: self.password.clone(),
        }
    }
}

/// What everyone may know of a user.
#[derive(Debug, PartialEq)]
pub struct UserStatus {
    pub id: String,
    pub display_name: String,
    pub profile_picture: Option<String>,
    pub online: bool,
}

/// `UserStatus` as contracts see it.
pub struct UserStatusView {
    pub id: Seq<char>,
    pub display_name: Seq<char>,
    pub profile_picture: Option<Seq<char>>,
    pub online: bool,
}

impl View for UserStatus {
    type V = UserStatusView;

    open spec fn view(&self) -> UserStatusView {
        UserStatusView {
            id: self.id@,
            display_name: self.display_name@,
            profile_picture: opt_text(self.profile_picture),
            online: self.online,
        }
    }
}

impl Clone for UserStatus {
    fn clone(&self) -> (r: Self)
        ensures
            r == *self,
    {
        UserStatus {
            id: self.id.clone(),
            display_name: self.display_name.clone(),
            profile_picture: clone_opt(&self.profile_picture),
            online: self.online,
        }
    }
}

/// Asks for a chat with one other user.
#[derive(Debug, PartialEq)]
pub struct CreateChat {
    pub other_members: String,
}

/// `CreateChat` as contracts see it.
pub struct CreateChatView {
    pub other_members: Seq<char>,
}

impl View for CreateChat {
    type V = CreateChatView;

    open spec fn view(&self) -> CreateChatView {
        CreateChatView {
            other_members: self.other_members@,
        }
    }
}

impl Clone for CreateChat {
    fn clone(&self) -> (r: Self)
        ensures
            r == *self,
    {
        CreateChat {
            other_members: self.other_members.clone(),
        }
    }
}

/// Asks to leave a chat.
#[derive(Debug, PartialEq)]
pub struct LeaveChat {
    pub chat_id: String,
}

/// `LeaveChat` as contracts see it.
pub struct LeaveChatView {
    pub chat_id: Seq<char>,
}

impl View for LeaveChat {
    type V = LeaveChatView;

    open spec fn view(&self) -> LeaveChatView {
        LeaveChatView {
            chat_id: self.chat_id@,
        }
    }
}

impl Clone for LeaveChat {
    fn clone(&self) -> (r: Self)
        ensures
            r == *self,
    {
        LeaveChat {
            chat_id: self.chat_id.clone(),
        }
    }
}

/// Asks to post a message, optionally as a reply.
#[derive(Debug, PartialEq)]
pub struct CreateMessage {
    pub chat_id: String,
    pub content: String,
    pub reply_to_id: Option<String>,
}

/// `CreateMessage` as contracts see it.
pub struct CreateMessageView {
    pub chat_id: Seq<char>,
    pub content: Seq<char>,
    pub reply_to_id: Option<Seq<char>>,
}

impl View for CreateMessage {
    type V = CreateMessageView;

    open spec fn view(&self) -> CreateMessageView {
        CreateMessageView {
            chat_id: self.chat_id@,
            content: self.content@,
            reply_to_id: opt_text(self.reply_to_id),
        }
    }
}

impl Clone for CreateMessage {
    fn clone(&self) -> (r: Self)
        ensures
            r == *self,
    {
        CreateMessage {
            chat_id: self.chat_id.clone(),
            content: self.content.clone(),
            reply_to_id: clone_opt(&self.reply_to_id),
        }
    }
}

/// Asks to delete a message.
#[derive(Debug, PartialEq)]
pub struct DeleteMessage {
    pub id: String,
}

/// `DeleteMessage` as contracts see it.
pub struct DeleteMessageView {
    pub id: Seq<char>,
}

impl View for DeleteMessage {
    type V = DeleteMessageView;

    open spec fn view(&self) -> DeleteMessageView {
        DeleteMessageView {
            id: self.id@,
        }
    }
}

impl Clone for DeleteMessage {
    fn clone(&self) -> (r: Self)
        ensures
            r == *self,
    {
        DeleteMessage {
            id: self.id.clone(),
        }
    }
}

/// Asks to change the fields that are given; the picture is always set.
#[derive(Debug, PartialEq)]
pub struct UpdateProfile {
    pub id: Option<String>,
    pub display_name: Option<String>,
    pub profile_picture: Option<String>,
}

/// `UpdateProfile` as contracts see it.
pub struct UpdateProfileView {
    pub id: Option<Seq<char>>,
    pub display_name: Option<Seq<char>>,
    pub profile_picture: Option<Seq<char>>,
}

impl View for UpdateProfile {
    type V = UpdateProfileView;

    open spec fn view(&self) -> UpdateProfileView {
        UpdateProfileView {
            id: opt_text(self.id),
            display_name: opt_text(self.display_name),
            profile_picture: opt_text(self.profile_picture),
        }
    }
}

impl Clone for UpdateProfile {
    fn clone(&self) -> (r: Self)
        ensures
            r == *self,
    {
        UpdateProfile {
            id: clone_opt(&self.id),
            display_name: clone_opt(&self.display_name),
            profile_picture: clone_opt(&self.profile_picture),
        }
    }
}

/// Tells the members of a new chat about it.
#[derive(Debug, PartialEq)]
pub struct WsCreateChat {
    pub chat_id: String,
    pub members: Vec<String>,
}

/// `WsCreateChat` as contracts see it.
pub struct WsCreateChatView {
    pub chat_id: Seq<char>,
    pub members: Seq<Seq<char>>,
}

impl View for WsCreateChat {
    type V = WsCreateChatView;

    open spec fn view(&self) -> WsCreateChatView {
        WsCreateChatView {
            chat_id: self.chat_id@,
            members: texts(self.members@),
        }
    }
}

impl Clone for WsCreateChat {
    fn clone(&self) -> (r: Self)
        ensures
            r@ == self@,
    {
        WsCreateChat {
            chat_id: self.chat_id.clone(),
            members: clone_texts(&self.members),
        }
    }
}

/// Tells the members of a chat that one of them left.
#[derive(Debug, PartialEq)]
pub struct WsLeaveChat {
    pub chat_id: String,
    pub member: String,
}

/// `WsLeaveChat` as contracts see it.
pub struct WsLeaveChatView {
    pub chat_id: Seq<char>,
    pub member: Seq<char>,
}

impl View for WsLeaveChat {
    type V = WsLeaveChatView;

    open spec fn view(&self) -> WsLeaveChatView {
        WsLeaveChatView {
            chat_id: self.chat_id@,
            member: self.member@,
        }
    }
}

impl Clone for WsLeaveChat {
    fn clone(&self) -> (r: Self)
        ensures
            r == *self,
    {
        WsLeaveChat {
            chat_id: self.chat_id.clone(),
            member: self.member.clone(),
        }
    }
}

/// Tells the members of a chat that a message is gone.
#[derive(Debug, PartialEq)]
pub struct WsDeleteMessage {
    pub chat_id: String,
    pub message_id: String,
}

/// `WsDeleteMessage` as contracts see it.
pub struct WsDeleteMessageView {
    pub chat_id: Seq<char>,
    pub message_id: Seq<char>,
}

impl View for WsDeleteMessage {
    type V = WsDeleteMessageView;

    open spec fn view(&self) -> WsDeleteMessageView {
        WsDeleteMessageView {
            chat_id: self.chat_id@,
            message_id: self.message_id@,
        }
    }
}

impl Clone for WsDeleteMessage {
    fn clone(&self) -> (r: Self)
        ensures
            r == *self,
    {
        WsDeleteMessage {
            chat_id: self.chat_id.clone(),
            message_id: self.message_id.clone(),
        }
    }
}

/// A chat as the server stores it.
#[derive(Debug, PartialEq)]
pub struct ChatWithMembers {
    pub id: String,
    pub members: Vec<String>,
    pub last_updated: Timestamp,
}

/// `ChatWithMembers` as contracts see it.
pub struct ChatWithMembersView {
    pub id: Seq<char>,
    pub members: Seq<Seq<char>>,
    pub last_updated: Timestamp,
}

impl View for ChatWithMembers {
    type V = ChatWithMembersView;

    open spec fn view(&self) -> ChatWithMembersView {
        ChatWithMembersView {
            id: self.id@,
            members: texts(self.members@),
            last_updated: self.last_updated,
        }
    }
}

impl Clone for ChatWithMembers {
    fn clone(&self) -> (r: Self)
        ensures
            r@ == self@,
    {
        ChatWithMembers {
            id: self.id.clone(),
            members: clone_texts(&self.members),
            last_updated: self.last_updated,
        }
    }
}

/// What the server pushes to the sockets of the users concerned.
#[derive(Debug, PartialEq)]
pub enum WsMessageData {
    ChatMessage(WsChatMessage),
    CreateChat(WsCreateChat),
    LeaveChat(WsLeaveChat),
    DeleteMessage(WsDeleteMessage),
}

/// `WsMessageData` as contracts see it.
pub enum WsMessageDataView {
    ChatMessage(WsChatMessageView),
    CreateChat(WsCreateChatView),
    LeaveChat(WsLeaveChatView),
    DeleteMessage(WsDeleteMessageView),
}

impl View for WsMessageData {
    type V = WsMessageDataView;

    open spec fn view(&self) -> WsMessageDataView {
        match self {
            WsMessageData::ChatMessage(m) => WsMessageDataView::ChatMessage(m@),
            WsMessageData::CreateChat(m) => WsMessageDataView::CreateChat(m@),
            WsMessageData::LeaveChat(m) => WsMessageDataView::LeaveChat(m@),
            WsMessageData::DeleteMessage(m) => WsMessageDataView::DeleteMessage(m@),
        }
    }
}

impl Clone for WsMessageData {
    fn clone(&self) -> (r: Self)
        ensures
            r@ == self@,
    {
        match self {
            WsMessageData::ChatMessage(m) => WsMessageData::ChatMessage(m.clone()),
            WsMessageData::CreateChat(m) => WsMessageData::CreateChat(m.clone()),
            WsMessageData::LeaveChat(m) => WsMessageData::LeaveChat(m.clone()),
            WsMessageData::DeleteMessage(m) => WsMessageData::DeleteMessage(m.clone()),
        }
    }
}

impl WsMessageData {
    /// The chat that the event is about.
    pub fn chat_id(&self) -> (id: &String)
        ensures
            id@ == self@.chat_id(),
    {
        match self {
            WsMessageData::ChatMessage(m) => &m.chat_id,
            WsMessageData::CreateChat(m) => &m.chat_id,
            WsMessageData::LeaveChat(m) => &m.chat_id,
            WsMessageData::DeleteMessage(m) => &m.chat_id,
        }
    }
}

impl WsMessageDataView {
    /// The chat that the event is about.
    pub open spec fn chat_id(self) -> Seq<char> {
        match self {
            WsMessageDataView::ChatMessage(m) => m.chat_id,
            WsMessageDataView::CreateChat(m) => m.chat_id,
            WsMessageDataView::LeaveChat(m) => m.chat_id,
            WsMessageDataView::DeleteMessage(m) => m.chat_id,
        }
    }
}

} // verus!
