//! The rules of a brick-breaking sandbox game: the scoreboard and its phases,
//! which colliding bodies break, what mouse clicks and the reset key may
//! place or clear, the scoreboard's text, and where textures are found.

use vstd::prelude::*;

pub mod controls;
pub mod objects;
pub mod scoreboard;
pub mod session;
pub mod texture;

verus! {

} // verus!
