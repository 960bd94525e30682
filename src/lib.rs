//! Input remapping for a handheld controller: the decisions that turn raw
//! controller events into keyboard, mouse and scroll-wheel events.
use vstd::prelude::*;

pub mod codes;
pub mod layout;
pub mod event;
pub mod position;
pub mod remap;
pub mod scroll;
pub mod glyph;
pub mod laws;
pub mod keysym;
pub mod output;
