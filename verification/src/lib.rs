//! Shared types and decision logic of a tool that hands the mouse and the
//! keyboard of one machine (the server) over to others (the listeners): screen
//! geometry, the datagrams the two sides exchange, and the steps that the
//! server's input hooks and the listener's receive loop take.
pub mod geometry;
pub mod screen;
pub mod win_key_codes;
pub mod protocol;
pub mod keyboard;
pub mod mouse;
pub mod listener;
pub mod replay;
pub mod pointer;
