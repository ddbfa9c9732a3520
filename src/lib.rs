use vstd::prelude::*;

pub mod animation;
pub mod frame;
pub mod glyph;
pub mod player;
pub mod render;

pub use animation::{Animation, DecodeError};
pub use frame::{Frame, Rgb};
pub use player::{AnimationPlayer, PlaybackAction};
pub use render::Cell;

verus! {

} // verus!
