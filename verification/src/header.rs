//! The bar at the top of the main screen: who is logged in, and their
//! picture.

use vstd::prelude::*;
use crate::chat::{WebImage, WebImageMessage};
use crate::requests::{Session, SessionView};

verus! {

/// What reaches the header.
#[derive(Debug, PartialEq)]
pub enum HeaderMessage {
    ProfilePicture(WebImageMessage),
    /// The address of the user's picture is known, or known to be missing.
    ProfilePictureLoaded(Option<String>),
    /// The user asked for the settings. The main screen acts on it.
    SettingsOpen,
    /// The user asked to log out. The application acts on it.
    LogOut,
}

/// What the header asks its caller to do.
#[derive(Debug, PartialEq)]
pub enum HeaderCommand {
    /// Nothing to do.
    Nothing,
    /// Look up the picture address of `user_id` and report it as
    /// `ProfilePictureLoaded`.
    LoadProfilePicture { user_id: String },
    /// Fetch the picture at `url` and report it as `ProfilePicture`.
    LoadImage { url: String },
}

/// The header of the main screen.
#[derive(Debug, PartialEq)]
pub struct Header {
    pub session: Session,
    pub profile_picture: WebImage,
}

/// `Header` as contracts see it.
pub struct HeaderView {
    pub session: SessionView,
    pub profile_picture: Option<Seq<u8>>,
}

impl View for Header {
    type V = HeaderView;

    open spec fn view(&self) -> HeaderView {
        HeaderView { session: self.session@, profile_picture: self.profile_picture@ }
    }
}

impl HeaderView {
    /// The header after `message` reached it.
    pub open spec fn next(self, message: HeaderMessage) -> HeaderView {
        match message {
            HeaderMessage::ProfilePicture(WebImageMessage::ImageLoaded(Some(bytes))) => HeaderView {
                profile_picture: Some(bytes@),
                ..self
            },
            _ => self,
        }
    }
}

/// Whether `command` is what a header asks for on `message`.
pub open spec fn header_asks(message: HeaderMessage, command: HeaderCommand) -> bool {
    match message {
        HeaderMessage::ProfilePictureLoaded(Some(address)) => {
            command matches HeaderCommand::LoadImage { url } && url@ == address@
        },
        _ => command is Nothing,
    }
}

impl Header {
    /// The header for a session, with the stock avatar, and the request for
    /// the user's picture.
    pub fn new(session: Session) -> (made: (Self, HeaderCommand))
        ensures
            made.0@ == (HeaderView { session: session@, profile_picture: None }),
            made.1 matches HeaderCommand::LoadProfilePicture { user_id } && user_id@
                == session@.user_id,
    {
        let user_id = session.user_id.clone();
        (
            Header { session, profile_picture: WebImage::new() },
            HeaderCommand::LoadProfilePicture { user_id },
        )
    }

    /// Takes one message. A picture address leads to a download, a
    /// downloaded picture is shown; the user's requests are left to the
    /// screens above.
    pub fn update(&mut self, msg: HeaderMessage) -> (command: HeaderCommand)
        ensures
            final(self)@ == old(self)@.next(msg),
            header_asks(msg, command),
    {
        match msg {
            HeaderMessage::ProfilePicture(picture) => {
                self.profile_picture.update(picture);
                HeaderCommand::Nothing
            },
            HeaderMessage::ProfilePictureLoaded(Some(address)) => HeaderCommand::LoadImage {
                url: address,
            },
            _ => HeaderCommand::Nothing,
        }
    }
}

} // verus!
