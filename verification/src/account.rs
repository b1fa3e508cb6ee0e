//! Registration and login: which names are accepted and how a password is
//! kept and compared.

use vstd::prelude::*;
use vstd::string::*;
use vstd::utf8::encode_utf8;
use crate::requests::{opt_text, LoginInfo, UpdateProfile};
use crate::text::same_text;

verus! {

/// The longest user name, in bytes of its UTF-8 form, that may register.
pub const MAX_USERNAME_LENGTH: usize = 20;

/// The SHA-256 digest of a text's UTF-8 bytes, written as 64 lower-case
/// hexadecimal digits.
pub uninterp spec fn sha256_hex(text: Seq<char>) -> Seq<char>;

/// Digests a password.
///
/// Trusted: calls `sha256::digest` on the text, which hands the text's bytes
/// to SHA-256 and writes the digest in hexadecimal. The digest depends on
/// the text alone.
#[verifier::external_body]
fn hash(s: &String) -> (digest: String)
    ensures
        digest@ == sha256_hex(s@),
{
    sha256::digest(s.as_str())
}

/// A user as the storage keeps it. The password is kept as its digest.
#[derive(Debug, PartialEq)]
pub struct UserRecord {
    pub id: String,
    pub password: String,
    pub display_name: String,
}

/// Why a registration failed.
#[derive(Debug, Clone, Copy, PartialEq, Eq)]
pub enum RegisterError {
    /// The name is longer than `MAX_USERNAME_LENGTH`.
    UsernameTooLong,
    /// The storage already has a user of that name.
    NameTaken,
    /// The storage failed for another reason.
    Storage,
}

impl RegisterError {
    /// The HTTP status that reports the failure: bad request for a long
    /// name, conflict for a taken one, internal error for the rest.
    pub fn status(&self) -> (code: u16)
        ensures
            code == match *self {
                RegisterError::UsernameTooLong => 400u16,
                RegisterError::NameTaken => 409u16,
                RegisterError::Storage => 500u16,
            },
    {
        match self {
            RegisterError::UsernameTooLong => 400,
            RegisterError::NameTaken => 409,
            RegisterError::Storage => 500,
        }
    }

    /// The failure to report when the storage refused to create the user.
    pub fn from_storage(name_exists: bool) -> (error: RegisterError)
        ensures
            error == if name_exists {
                RegisterError::NameTaken
            } else {
                RegisterError::Storage
            },
    {
        if name_exists {
            RegisterError::NameTaken
        } else {
            RegisterError::Storage
        }
    }
}

/// Judges a registration and makes the user to store: the name serves as id
/// and as display name, the password is digested. A name of more than
/// `MAX_USERNAME_LENGTH` bytes is refused.
pub fn register(info: &LoginInfo) -> (user: Result<UserRecord, RegisterError>)
    ensures
        if encode_utf8(info@.username).len() > MAX_USERNAME_LENGTH {
            user == Err::<UserRecord, RegisterError>(RegisterError::UsernameTooLong)
        } else {
            &&& user matches Ok(record)
            &&& record.id@ == info@.username
            &&& record.display_name@ == info@.username
            &&& record.password@ == sha256_hex(info@.password)
        },
{
    if info.username.as_str().as_bytes().len() > MAX_USERNAME_LENGTH {
        return Err(RegisterError::UsernameTooLong);
    }
    Ok(
        UserRecord {
            id: info.username.clone(),
            password: hash(&info.password),
            display_name: info.username.clone(),
        },
    )
}

/// Whether `info` logs in as `user`: the name is the user's and the
/// password has the digest on record.
pub fn log_in(user: &UserRecord, info: &LoginInfo) -> (accepted: bool)
    ensures
        accepted == (user.id@ == info@.username && user.password@ == sha256_hex(info@.password)),
{
    same_text(&user.id, &info.username) && same_text(&user.password, &hash(&info.password))
}

/// One field of a user to set.
#[derive(Debug, PartialEq)]
pub enum ProfileChange {
    SetId(String),
    SetDisplayName(String),
    /// The picture address, or `None` to remove the picture.
    SetProfilePicture(Option<String>),
}

/// `ProfileChange` as contracts see it.
pub enum ProfileChangeView {
    SetId(Seq<char>),
    SetDisplayName(Seq<char>),
    SetProfilePicture(Option<Seq<char>>),
}

impl View for ProfileChange {
    type V = ProfileChangeView;

    open spec fn view(&self) -> ProfileChangeView {
        match self {
            ProfileChange::SetId(id) => ProfileChangeView::SetId(id@),
            ProfileChange::SetDisplayName(name) => ProfileChangeView::SetDisplayName(name@),
            ProfileChange::SetProfilePicture(picture) => ProfileChangeView::SetProfilePicture(
                opt_text(*picture),
            ),
        }
    }
}

/// The fields that a profile update sets: the id and the display name
/// where the update names them, and the picture in every case.
pub open spec fn changes_of(update: UpdateProfile) -> Seq<ProfileChangeView> {
    let id = match update@.id {
        Some(id) => seq![ProfileChangeView::SetId(id)],
        None => seq![],
    };
    let name = match update@.display_name {
        Some(name) => seq![ProfileChangeView::SetDisplayName(name)],
        None => seq![],
    };
    id + name + seq![ProfileChangeView::SetProfilePicture(update@.profile_picture)]
}

/// The contract view of each change of a list.
pub open spec fn change_views(changes: Seq<ProfileChange>) -> Seq<ProfileChangeView> {
    Seq::new(changes.len(), |i: int| changes[i]@)
}

/// Turns a profile update into the fields to set.
pub fn update_profile(update: UpdateProfile) -> (changes: Vec<ProfileChange>)
    ensures
        change_views(changes@) == changes_of(update),
{
    let mut changes: Vec<ProfileChange> = Vec::new();
    match update.id {
        Some(id) => {
            changes.push(ProfileChange::SetId(id));
        },
        None => {},
    }
    match update.display_name {
        Some(name) => {
            changes.push(ProfileChange::SetDisplayName(name));
        },
        None => {},
    }
    changes.push(ProfileChange::SetProfilePicture(update.profile_picture));
    assert(change_views(changes@) =~= changes_of(update));
    changes
}

} // verus!
