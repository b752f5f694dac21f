//! The decision logic of a GTK Spotify client: obtaining and polling for
//! credentials, the login and session flow, playback state and search results.
//! Every function here is verified; the keyring, terminal and network work
//! that the decisions call for is left to the program that uses the library.

pub mod credentials;
pub mod auth_poll;
pub mod login;
pub mod playback;
pub mod search;
