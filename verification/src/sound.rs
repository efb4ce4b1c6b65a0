//! Audio requests, as plain values.
//!
//! The core never talks to an audio device: each tick appends the cues it
//! wants played to a list, and the host performs them (fire-and-forget for
//! one-shot cues; the flyer's looping flight sound is bracketed by an
//! explicit start and stop cue).

use vstd::prelude::*;

verus! {

#[derive(Debug, Clone, Copy, PartialEq, Eq, Structural)]
pub enum SoundCue {
    /// The player fired a shot.
    Shoot,
    /// The player's explosion began.
    PlayerExplosion,
    /// The alien swarm advanced one step.
    AlienMove,
    /// An alien was destroyed.
    AlienExplosion,
    /// The bonus flyer was destroyed.
    UfoExplosion,
    /// Start looping the bonus flyer's flight sound.
    UfoFlyingStart,
    /// Stop the bonus flyer's flight sound.
    UfoFlyingStop,
}

} // verus!
