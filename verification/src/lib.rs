//! Documentation bookkeeping for Lua user data.
//!
//! A [`wrapper::UserDataWrapper`] records, while the methods and fields of a
//! user data type are registered, one documentation page per registered name.
//! [`help::HelpPages`] answers the questions that a Lua `help` function is
//! asked: the page of one name, or the index of all of them.

pub mod help;
pub mod laws;
pub mod pages;
pub mod wrapper;
