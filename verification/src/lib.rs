//! Locating numbered cards in a binder made of pages of slots.
//!
//! A card has a number counted from one ([`card_number::CardNumber`]) and
//! lies in the slot whose index, counted from zero, is one less
//! ([`card_number::SlotIndex`]). A binder ([`binder::Binder`]) has pages of
//! rows and columns of slots, and [`binder::BinderSlot`] gives the page, row
//! and column of a slot. [`state::App`] is what a viewer keeps of all this
//! between two frames. No dimension and no card number is ever zero
//! ([`positive::Positive`]).

pub mod binder;
pub mod card_number;
pub mod positive;
pub mod state;
