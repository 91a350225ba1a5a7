//! A status bar's drawing core: styled boxes, their composition into one draw
//! list per output, the orthographic projection, and the per-output surface
//! lifecycle that follows the compositor's configure handshake.
use vstd::prelude::*;

pub mod buffers;
pub mod math;
pub mod output;
pub mod rectangle;

verus! {

} // verus!
