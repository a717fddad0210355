//! Fundamental data types for cetkaik, a two-player abstract board game:
//! player sides, piece colors, piece professions, combined piece identities,
//! and the textual notation for moves.

pub mod absolute_side;
pub mod color;
pub mod color_and_prof;
pub mod profession;
pub mod pure_move;
pub mod text;

pub use absolute_side::AbsoluteSide;
pub use color::Color;
pub use color::serialize_color;
pub use color_and_prof::ColorAndProf;
pub use profession::Profession;
pub use profession::serialize_prof;
pub use pure_move::PureMove_;
pub use pure_move::serialize_pure_move;
pub use text::ParseError;
