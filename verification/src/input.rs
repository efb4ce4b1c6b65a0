//! The per-tick input snapshot: four plain booleans, read fresh once per
//! tick by the host and handed to the core.  Edge detection is the core's
//! job (see `pause`).

use vstd::prelude::*;

verus! {

#[derive(Debug, Clone, Copy, PartialEq, Eq, Structural)]
pub struct KeyDown {
    pub left: bool,
    pub right: bool,
    pub shot: bool,
    pub pause: bool,
}

} // verus!
