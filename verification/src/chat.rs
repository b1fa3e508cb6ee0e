//! One conversation of the chat list.

use vstd::prelude::*;
use crate::clock::Timestamp;
use crate::requests::texts;

verus! {

/// What the download of a picture reports.
#[derive(Debug, PartialEq)]
pub enum WebImageMessage {
    Error(String),
    /// The bytes of the picture, or `None` when they could not be had.
    ImageLoaded(Option<Vec<u8>>),
}

/// A picture that is fetched from the network once its address is known.
#[derive(Debug, PartialEq)]
pub struct WebImage {
    /// The bytes of the picture; `None` stands for the stock avatar.
    pub image: Option<Vec<u8>>,
}

/// The bytes of an optional picture.
pub open spec fn opt_bytes(o: Option<Vec<u8>>) -> Option<Seq<u8>> {
    match o {
        Some(bytes) => Some(bytes@),
        None => None,
    }
}

impl View for WebImage {
    type V = Option<Seq<u8>>;

    open spec fn view(&self) -> Option<Seq<u8>> {
        opt_bytes(self.image)
    }
}

impl WebImage {
    /// The stock avatar.
    pub fn new() -> (picture: Self)
        ensures
            picture@ is None,
    {
        WebImage { image: None }
    }

    /// Takes the bytes that a download delivered and keeps what was shown
    /// before when it delivered none.
    pub fn update(&mut self, message: WebImageMessage)
        ensures
            final(self)@ == match message {
                WebImageMessage::ImageLoaded(Some(bytes)) => Some(bytes@),
                _ => old(self)@,
            },
    {
        match message {
            WebImageMessage::ImageLoaded(Some(bytes)) => {
                self.image = Some(bytes);
            },
            _ => {},
        }
    }
}

/// What reaches one chat of the list.
#[derive(Debug, PartialEq)]
pub enum ChatMessage {
    /// The user selected the chat.
    OpenChat,
    /// The address of the other member's picture is known, or known to be
    /// missing.
    ProfilePictureLoaded(Option<String>),
    ProfilePicture(WebImageMessage),
}

/// What a chat asks its caller to do after an update.
#[derive(Debug, PartialEq)]
pub enum ChatCommand {
    /// Nothing to do.
    Nothing,
    /// Fetch the picture at `url` and report it as
    /// `ChatMessage::ProfilePicture`.
    LoadImage { url: String },
}

/// A conversation between this user and one other.
#[derive(Debug, PartialEq)]
pub struct Chat {
    pub id: String,
    pub members: Vec<String>,
    pub profile_picture: WebImage,
    pub last_updated: Timestamp,
    pub is_open: bool,
}

/// `Chat` as contracts see it.
pub struct ChatView {
    pub id: Seq<char>,
    pub members: Seq<Seq<char>>,
    pub profile_picture: Option<Seq<u8>>,
    pub last_updated: Timestamp,
    pub is_open: bool,
}

impl View for Chat {
    type V = ChatView;

    open spec fn view(&self) -> ChatView {
        ChatView {
            id: self.id@,
            members: texts(self.members@),
            profile_picture: self.profile_picture@,
            last_updated: self.last_updated,
            is_open: self.is_open,
        }
    }
}

/// The member to name a chat after: of the first two members the one that is
/// not `current`; the first member where the chat has no second one.
pub open spec fn other_member(current: Seq<char>, members: Seq<Seq<char>>) -> Seq<char>
    recommends
        members.len() >= 1,
{
    let first = members[0];
    let second = if members.len() >= 2 {
        members[1]
    } else {
        members[0]
    };
    if first == current {
        second
    } else {
        first
    }
}

impl ChatView {
    /// The chat after `message` reached it.
    pub open spec fn next(self, message: ChatMessage) -> ChatView {
        match message {
            ChatMessage::ProfilePicture(WebImageMessage::ImageLoaded(Some(bytes))) => ChatView {
                profile_picture: Some(bytes@),
                ..self
            },
            _ => self,
        }
    }
}

impl Chat {
    /// A closed chat with the stock avatar.
    pub fn new(id: String, members: Vec<String>, last_updated: Timestamp) -> (chat: Self)
        ensures
            chat@ == (ChatView {
                id: id@,
                members: texts(members@),
                profile_picture: None,
                last_updated,
                is_open: false,
            }),
    {
        Chat { id, members, profile_picture: WebImage::new(), last_updated, is_open: false }
    }

    /// Takes one message. A picture address leads to a download; nothing
    /// else asks for anything. Opening is the chat list's business and
    /// changes nothing here.
    pub fn update(&mut self, message: ChatMessage) -> (command: ChatCommand)
        ensures
            final(self)@ == old(self)@.next(message),
            match message {
                ChatMessage::ProfilePictureLoaded(Some(address)) => {
                    command matches ChatCommand::LoadImage { url } && url@ == address@
                },
                _ => command is Nothing,
            },
    {
        match message {
            ChatMessage::ProfilePictureLoaded(Some(address)) => ChatCommand::LoadImage {
                url: address,
            },
            ChatMessage::ProfilePicture(picture) => {
                self.profile_picture.update(picture);
                ChatCommand::Nothing
            },
            _ => ChatCommand::Nothing,
        }
    }

    /// The member to name the chat after, as seen by `current_user_id`.
    pub fn get_other_member(current_user_id: String, members: &[String]) -> (other: String)
        requires
            members@.len() >= 1,
        ensures
            other@ == other_member(current_user_id@, texts(members@)),
    {
        let first = &members[0];
        let second = if members.len() >= 2 {
            &members[1]
        } else {
            &members[0]
        };
        if *first == current_user_id {
            second.clone()
        } else {
            first.clone()
        }
    }
}

} // verus!
