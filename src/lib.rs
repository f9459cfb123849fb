//! An HTTP request echo: the verified logic that turns one inbound request,
//! given as plain values, into the record that describes it.
pub mod text;
pub mod cookies;
pub mod echo;
