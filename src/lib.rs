pub mod color;
mod index_set;
pub mod mana;
pub mod name_facts;
pub mod phase;
pub mod round_trip;
pub mod text;
pub mod type_;
pub mod type_line;

pub use crate::color::{Color, ColorIdentity};
