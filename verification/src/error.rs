//! Why a call on the registry is turned down.

use vstd::prelude::*;

verus! {

/// The three refusals. A refused call changes nothing.
#[derive(Clone, Copy, Debug, PartialEq, Eq, Structural)]
pub enum Error {
    /// The id counter stands at `u32::MAX`: no further id can be handed out.
    KittiesIdOverflow,
    /// The caller owns no kitty under one of the ids named.
    InvalidKittyId,
    /// Both parents have the same gender.
    SameGender,
}

} // verus!
