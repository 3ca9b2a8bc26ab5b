//! Core of a keyboard-macro recorder and player: the event-routing state
//! machines of the listener, the player and the controller, with their
//! contracts.

pub mod controller;
pub mod event;
pub mod key;
pub mod listener;
pub mod missed;
pub mod player;
pub mod printable;
pub mod selection;
pub mod text;
pub mod time;
pub mod utils;
