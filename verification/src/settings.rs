//! The settings dialog: the address of the user's picture.

use vstd::prelude::*;
use vstd::string::*;
use crate::requests::{Session, SessionView, UpdateProfile};

verus! {

/// What reaches the settings dialog.
#[derive(Debug, PartialEq)]
pub enum SettingsMessage {
    /// The user asked to pick a picture file.
    ProfilePictureSelecting,
    /// A picture address arrived: the one on record, or that of a file just
    /// uploaded; `None` when there is none.
    ProfilePictureLoaded(Option<String>),
    /// The user edited the address.
    ProfilePictureChanged(String),
    Error(String),
    /// The user asked to save.
    ApplyChanges,
    /// The server saved the changes. The main screen closes the dialog.
    ChangesApplied,
}

/// What the settings dialog asks its caller to do.
#[derive(Debug, PartialEq)]
pub enum SettingsCommand {
    /// Nothing to do.
    Nothing,
    /// Look up the picture address of `user_id` and report it as
    /// `ProfilePictureLoaded`.
    LoadProfilePicture { user_id: String },
    /// Let the user pick a picture file, upload it, and report the address
    /// of the upload as `ProfilePictureLoaded`.
    UploadPicture,
    /// Send `change` with the session and report success as
    /// `ChangesApplied`.
    UpdateProfile { change: UpdateProfile, session_id: String },
}

/// The settings dialog.
#[derive(Debug, PartialEq)]
pub struct Settings {
    pub session: Session,
    pub profile_picture: String,
}

/// `Settings` as contracts see it.
pub struct SettingsView {
    pub session: SessionView,
    pub profile_picture: Seq<char>,
}

impl View for Settings {
    type V = SettingsView;

    open spec fn view(&self) -> SettingsView {
        SettingsView { session: self.session@, profile_picture: self.profile_picture@ }
    }
}

impl SettingsView {
    /// The dialog after `message` reached it.
    pub open spec fn next(self, message: SettingsMessage) -> SettingsView {
        match message {
            SettingsMessage::ProfilePictureLoaded(Some(address)) => SettingsView {
                profile_picture: address@,
                ..self
            },
            SettingsMessage::ProfilePictureChanged(address) => SettingsView {
                profile_picture: address@,
                ..self
            },
            _ => self,
        }
    }

    /// Whether `command` is what the dialog asks for when `message` reaches
    /// it in this state. Saving sends the picture address alone, and no
    /// address at all when the field is empty.
    pub open spec fn asks(self, message: SettingsMessage, command: SettingsCommand) -> bool {
        match message {
            SettingsMessage::ProfilePictureSelecting => command is UploadPicture,
            SettingsMessage::ApplyChanges => {
                &&& command matches SettingsCommand::UpdateProfile { change, session_id }
                &&& change@.id is None
                &&& change@.display_name is None
                &&& change@.profile_picture == if self.profile_picture.len() == 0 {
                    None::<Seq<char>>
                } else {
                    Some(self.profile_picture)
                }
                &&& session_id@ == self.session.session_id
            },
            _ => command is Nothing,
        }
    }
}

impl Settings {
    /// The dialog for a session, with an empty address, and the request for
    /// the address on record.
    pub fn new(session: Session) -> (made: (Self, SettingsCommand))
        ensures
            made.0@ == (SettingsView { session: session@, profile_picture: Seq::empty() }),
            made.1 matches SettingsCommand::LoadProfilePicture { user_id } && user_id@
                == session@.user_id,
    {
        let user_id = session.user_id.clone();
        (
            Settings { session, profile_picture: String::new() },
            SettingsCommand::LoadProfilePicture { user_id },
        )
    }

    /// Takes one message and says what to do next.
    pub fn update(&mut self, msg: SettingsMessage) -> (command: SettingsCommand)
        ensures
            final(self)@ == old(self)@.next(msg),
            old(self)@.asks(msg, command),
    {
        match msg {
            SettingsMessage::ProfilePictureSelecting => SettingsCommand::UploadPicture,
            SettingsMessage::ProfilePictureLoaded(Some(address)) => {
                self.profile_picture = address;
                SettingsCommand::Nothing
            },
            SettingsMessage::ProfilePictureChanged(address) => {
                self.profile_picture = address;
                SettingsCommand::Nothing
            },
            SettingsMessage::ApplyChanges => {
                let picture = if self.profile_picture.as_str().is_empty() {
                    None
                } else {
                    Some(self.profile_picture.clone())
                };
                SettingsCommand::UpdateProfile {
                    change: UpdateProfile { id: None, display_name: None, profile_picture: picture },
                    session_id: self.session.session_id.clone(),
                }
            },
            _ => SettingsCommand::Nothing,
        }
    }
}

} // verus!
