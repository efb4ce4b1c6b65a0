//! The sprite assets the core is initialized with.
//!
//! Decoding image data into byte-column sprites is the asset collaborator's
//! job; the core only checks the shapes it depends on — a malformed sprite
//! is a configuration error and is rejected at construction.

use vstd::prelude::*;

use crate::top_area::num_sprites_wf;

verus! {

/// Every sprite bitmap the game uses, in byte-column form.
pub struct SpriteSet {
    pub player: Vec<u8>,
    pub player_explosion_1: Vec<u8>,
    pub player_explosion_2: Vec<u8>,
    pub player_bullet: Vec<u8>,
    pub ufo: Vec<u8>,
    pub ufo_explosion: Vec<u8>,
    pub shield: Vec<u8>,
    pub octopus_open: Vec<u8>,
    pub octopus_close: Vec<u8>,
    pub crab_banzai: Vec<u8>,
    pub crab_down: Vec<u8>,
    pub squid_open: Vec<u8>,
    pub squid_close: Vec<u8>,
    pub alien_explosion: Vec<u8>,
    pub num: Vec<Vec<u8>>,
}

impl SpriteSet {
    /// The fixed widths the game is built around: 16-column player and
    /// flyer sprites, a one-column shot, 12-column aliens, a 44-byte shield
    /// (two stacked 22-column strips), and ten 8-column digits.
    pub open spec fn wf(self) -> bool {
        &&& self.player@.len() == 16
        &&& self.player_explosion_1@.len() == 16
        &&& self.player_explosion_2@.len() == 16
        &&& self.player_bullet@.len() == 1
        &&& self.ufo@.len() == 16
        &&& self.ufo_explosion@.len() == 16
        &&& self.shield@.len() == 44
        &&& self.octopus_open@.len() == 12
        &&& self.octopus_close@.len() == 12
        &&& self.crab_banzai@.len() == 12
        &&& self.crab_down@.len() == 12
        &&& self.squid_open@.len() == 12
        &&& self.squid_close@.len() == 12
        &&& self.alien_explosion@.len() == 12
        &&& num_sprites_wf(self.num@)
    }
}

/// A value copy of one byte-column sprite.
#[verifier::loop_isolation(false)]
pub fn clone_row(v: &Vec<u8>) -> (r: Vec<u8>)
    ensures
        r@ == v@,
{
    let mut r: Vec<u8> = Vec::new();
    let mut i: usize = 0;
    while i < v.len()
        invariant
            i <= v@.len(),
            r@ == v@.subrange(0, i as int),
        decreases v@.len() - i,
    {
        r.push(v[i]);
        proof {
            assert(r@ =~= v@.subrange(0, i + 1));
        }
        i += 1;
    }
    proof {
        assert(r@ =~= v@);
    }
    r
}

/// A value copy of a sprite list (the digit set).
#[verifier::loop_isolation(false)]
pub fn clone_grid(v: &Vec<Vec<u8>>) -> (r: Vec<Vec<u8>>)
    ensures
        r@.len() == v@.len(),
        forall|i: int| 0 <= i < v@.len() ==> (#[trigger] r@[i])@ == v@[i]@,
{
    let mut r: Vec<Vec<u8>> = Vec::new();
    let mut i: usize = 0;
    while i < v.len()
        invariant
            i <= v@.len(),
            r@.len() == i,
            forall|j: int| 0 <= j < i ==> (#[trigger] r@[j])@ == v@[j]@,
        decreases v@.len() - i,
    {
        r.push(clone_row(&v[i]));
        i += 1;
    }
    r
}

} // verus!
