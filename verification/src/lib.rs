//! The logic behind a set of small desktop samples: a health tracker that
//! two buttons drive, and a generator of article markup from three text
//! fields. Widgets and the event loop live elsewhere; here are the values
//! and the rules, with their proofs.

pub mod health;
pub mod text;
pub mod article;
pub mod boxer;
