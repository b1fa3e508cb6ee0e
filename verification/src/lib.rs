//! Real-time delivery and reconciliation rules of a direct-messaging chat,
//! with machine-checked contracts.
//!
//! Users log in, open one-to-one chats, send, answer and delete messages,
//! and see what the others do while it happens. This crate holds the rules
//! of both sides and leaves the wires to its caller: every function here
//! takes plain values and returns plain values, together with a command
//! where something has to be fetched, stored or sent.
//!
//! On the server:
//! - [`session`] issues, renews and ends rolling sessions; [`bearer`] reads
//!   and writes the header that carries them; [`account`] judges
//!   registrations and logins.
//! - [`mutation`] judges the requests that change chats and messages and
//!   makes the event that announces each change to the members on record.
//! - [`bus`] is the hub that hands every published event to every
//!   subscription, and the event with its recipients; [`connection`] is the
//!   life of one socket, which forwards exactly the events meant for its
//!   user.
//! - [`upload`] names the place of uploaded pictures.
//!
//! On the client:
//! - [`letter_list`] keeps the messages of the open chat in arrival order
//!   and merges the three ways in which they arrive; [`letters`] is the
//!   map behind it as contracts see it, with the laws that hold of it.
//! - [`chat_list`] keeps the chats and their order on screen; [`chat`] is
//!   one of them.
//! - [`ws_client`] is the client's end of the event socket.
//! - [`taco`], [`main_screen`], [`login_screen`], [`header`] and
//!   [`settings`] are the application around them.
//!
//! [`requests`] holds the values that travel between the two, [`clock`] the
//! instants, [`ordering`] the sorting by time, [`text`] helpers for texts,
//! [`guest`] the state of a user who has not logged in.
//!
//! A few items rest on code outside this crate and are believed, not
//! proved; each says so in its documentation. They are the wall clock in
//! [`clock`], the random ids in [`ids`], the password digest in [`account`],
//! the ordered map in [`letter_list`] and the broadcast channel in [`bus`].

pub mod account;
pub mod bearer;
pub mod bus;
pub mod chat;
pub mod chat_list;
pub mod clock;
pub mod connection;
pub mod guest;
pub mod header;
pub mod ids;
pub mod letter_list;
pub mod letters;
pub mod login_screen;
pub mod main_screen;
pub mod mutation;
pub mod ordering;
pub mod requests;
pub mod session;
pub mod settings;
pub mod taco;
pub mod text;
pub mod upload;
pub mod ws_client;
