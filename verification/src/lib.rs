//! Vanity key search: key pairs are generated until the text of a public
//! key starts with a wanted prefix, or until an attempt budget is used up.
//!
//! [`search`] holds the search and what is proved of it, [`openssh`] the
//! generator and encoder for OpenSSH keys, [`persist`] what is decided once
//! a key is found, [`scripted`] a generator and an encoder without chance.
//! [`http`] holds the plain data of an HTTP exchange.

pub mod clock;
pub mod error;
pub mod http;
pub mod openssh;
pub mod persist;
pub mod progress;
pub mod request;
pub mod scripted;
pub mod search;
pub mod text;
