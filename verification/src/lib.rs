//! The Autocrypt peer state: what is known of a correspondent's keys and
//! encryption preference, and how incoming headers update it.
pub mod aheader;
pub mod key;
pub mod text;
pub mod peerstate;
pub mod store;
pub mod laws;
