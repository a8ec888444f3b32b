//! Interaction controller of a floating desktop companion.
//!
//! The controller owns every piece of state behind the overlay: the sprite
//! animation cursor, the pointer bookkeeping used for debouncing and hover
//! detection, the chat session and the typed reveal of a reply. Each entry
//! point takes the current state and one event, commits the next state and
//! returns the list of display actions that the host has to perform.

pub mod action;
pub mod animation;
pub mod chat;
pub mod frames;
pub mod geometry;
pub mod json;
pub mod laws;
pub mod overlay;
pub mod pointer;
pub mod query;
