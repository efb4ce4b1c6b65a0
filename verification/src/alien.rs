//! The alien swarm and the alien projectile pool.
//!
//! The swarm is a fixed 11 x 5 grid of alien slots over a shared reference
//! position.  Each frame the whole swarm advances one shared horizontal
//! step, alternating between two animation sprites; on reaching a horizontal
//! bound it drops down one band and reverses direction.  Aliens are removed
//! one by one when hit, and the swarm "invades" — ends the game — once any
//! live alien reaches the threshold row near the player.

use vstd::prelude::*;

use vstd::arithmetic::div_mod::{lemma_fundamental_div_mod, lemma_mod_bound};

use crate::array_sprite::{
    array_sprite, draw_column_shifted, erase_column_shifted, erase_sprite, test_overlap_column,
};
use crate::dot_map::DotMap;
use crate::math::Vec2;
use crate::player::Player;
use crate::sound::SoundCue;

verus! {

/// Number of live slots in a swarm state.
pub open spec fn count_live(s: Seq<bool>) -> int
    decreases s.len(),
{
    if s.len() == 0 {
        0
    } else {
        count_live(s.drop_last()) + if s.last() {
            1int
        } else {
            0int
        }
    }
}

pub proof fn lemma_count_live_bounds(s: Seq<bool>)
    ensures
        0 <= count_live(s) <= s.len(),
    decreases s.len(),
{
    if s.len() > 0 {
        lemma_count_live_bounds(s.drop_last());
    }
}

/// A positive live count yields a live slot.
pub proof fn lemma_count_live_pos(s: Seq<bool>)
    requires
        count_live(s) > 0,
    ensures
        exists|i: int| 0 <= i < s.len() && s[i],
    decreases s.len(),
{
    if s.len() > 0 {
        if s.last() {
            assert(s[s.len() - 1]);
        } else {
            lemma_count_live_pos(s.drop_last());
            let w = choose|i: int| 0 <= i < s.drop_last().len() && s.drop_last()[i];
            assert(s[w]);
        }
    }
}

/// Clearing one live slot lowers the live count by exactly one.
pub proof fn lemma_count_live_clear(s: Seq<bool>, i: int)
    requires
        0 <= i < s.len(),
        s[i],
    ensures
        count_live(s.update(i, false)) == count_live(s) - 1,
    decreases s.len(),
{
    let t = s.update(i, false);
    if i == s.len() - 1 {
        assert(t.drop_last() =~= s.drop_last());
        assert(t.last() == false);
        assert(s.last() == true);
    } else {
        assert(t.drop_last() =~= s.drop_last().update(i, false));
        lemma_count_live_clear(s.drop_last(), i);
        assert(t.last() == s.last());
    }
}

/// Horizontal cell position of slot `i` (11 columns, 16 dots apart).
pub open spec fn alien_x(ref_x: int, i: int) -> int {
    ref_x + 16 * (i % 11)
}

/// Vertical cell position of slot `i` (5 rows, 16 dots apart; row 0 on top).
pub open spec fn alien_y(ref_y: int, i: int) -> int {
    ref_y + 16 * (i / 11)
}

/// Point value of slot `i`: the top row is worth 30, the next two rows 20,
/// the bottom two rows 10.
pub open spec fn alien_points(i: int) -> int {
    if i / 11 == 0 {
        30
    } else if i / 11 <= 2 {
        20
    } else {
        10
    }
}

pub struct Alien {
    /// One alive flag per grid slot; slot `i` is column `i % 11` of row
    /// `i / 11`, row 0 being the top (squid) row.
    pub live: Vec<bool>,
    /// Count of live slots; gates flyer spawn and stage clear.
    pub live_num: i32,
    /// Position of slot 0; every slot is a fixed offset from it.
    pub ref_pos: Vec2,
    /// Reference position at the previous draw.
    pub pre_ref_pos: Vec2,
    /// Shared horizontal direction, +1 or -1 (two dots per step).
    pub move_dir: i32,
    /// Which of the two animation sprites the swarm currently shows.
    pub anim_open: bool,
    /// Animation state at the previous draw.
    pub pre_anim_open: bool,
    /// The single per-alien explosion slot: position and frame count.
    pub explosion: Option<(Vec2, i32)>,
    pub sprite_squid_open: Vec<u8>,
    pub sprite_squid_close: Vec<u8>,
    pub sprite_crab_banzai: Vec<u8>,
    pub sprite_crab_down: Vec<u8>,
    pub sprite_octopus_open: Vec<u8>,
    pub sprite_octopus_close: Vec<u8>,
    pub sprite_explosion: Vec<u8>,
}

impl Alien {
    pub open spec fn wf(self) -> bool {
        &&& self.live@.len() == 55
        &&& self.live_num == count_live(self.live@)
        &&& 0 <= self.live_num <= 55
        &&& (self.move_dir == 1 || self.move_dir == -1)
        &&& self.ref_pos.y % 8 == 0
        &&& self.pre_ref_pos.y % 8 == 0
        &&& 0 <= self.ref_pos.y
        &&& 0 <= self.pre_ref_pos.y
        &&& self.ref_pos.x % 2 == 0
        &&& -160 <= self.ref_pos.x <= 224
        &&& -160 <= self.pre_ref_pos.x <= 224
        &&& (forall|i: int|
            0 <= i < 55 && self.live@[i] ==> 0 <= alien_x(self.ref_pos.x as int, i)
                && alien_x(self.ref_pos.x as int, i) + 12 <= 216)
        &&& (forall|i: int|
            0 <= i < 55 && self.live@[i] ==> alien_y(self.ref_pos.y as int, i) <= 200)
        &&& (forall|i: int|
            0 <= i < 55 && self.live@[i] ==> 0 <= alien_x(self.pre_ref_pos.x as int, i)
                && alien_x(self.pre_ref_pos.x as int, i) + 12 <= 216)
        &&& (forall|i: int|
            0 <= i < 55 && self.live@[i] ==> alien_y(self.pre_ref_pos.y as int, i) <= 200)
        &&& (self.explosion matches Some(e) ==> {
            &&& 0 <= e.1 <= 15
            &&& 0 <= e.0.x && e.0.x + 12 <= 224
            &&& e.0.y % 8 == 0
            &&& 0 <= e.0.y <= 200
        })
        &&& self.sprite_squid_open@.len() == 12
        &&& self.sprite_squid_close@.len() == 12
        &&& self.sprite_crab_banzai@.len() == 12
        &&& self.sprite_crab_down@.len() == 12
        &&& self.sprite_octopus_open@.len() == 12
        &&& self.sprite_octopus_close@.len() == 12
        &&& self.sprite_explosion@.len() == 12
    }

    /// Some live alien's cell touches the right movement bound.
    pub open spec fn at_right_bound(self) -> bool {
        exists|i: int| 0 <= i < 55 && self.live@[i] && alien_x(self.ref_pos.x as int, i) >= 200
    }

    /// Some live alien's cell touches the left movement bound.
    pub open spec fn at_left_bound(self) -> bool {
        exists|i: int| 0 <= i < 55 && self.live@[i] && alien_x(self.ref_pos.x as int, i) <= 8
    }

    /// The direction after one movement step: reversed at the bound in the
    /// direction of travel.
    pub open spec fn next_move_dir(self) -> int {
        if self.move_dir == 1 {
            if self.at_right_bound() {
                -1
            } else {
                1
            }
        } else {
            if self.at_left_bound() {
                1
            } else {
                -1
            }
        }
    }

    /// The reference column after one movement step: two dots sideways, or
    /// unchanged on a bounce tick.
    pub open spec fn next_ref_x(self) -> int {
        if self.move_dir == 1 {
            if self.at_right_bound() {
                self.ref_pos.x as int
            } else {
                self.ref_pos.x + 2
            }
        } else {
            if self.at_left_bound() {
                self.ref_pos.x as int
            } else {
                self.ref_pos.x - 2
            }
        }
    }

    /// The reference row after one movement step: one band down on a bounce
    /// tick, else unchanged.
    pub open spec fn next_ref_y(self) -> int {
        if (self.move_dir == 1 && self.at_right_bound()) || (self.move_dir == -1
            && self.at_left_bound()) {
            self.ref_pos.y + 8
        } else {
            self.ref_pos.y as int
        }
    }

    /// Some live alien has descended to the threshold row near the player.
    pub open spec fn spec_invaded(self) -> bool {
        exists|i: int| 0 <= i < 55 && self.live@[i] && alien_y(self.ref_pos.y as int, i) >= 184
    }

    pub fn new(
        octopus_open: Vec<u8>,
        octopus_close: Vec<u8>,
        crab_banzai: Vec<u8>,
        crab_down: Vec<u8>,
        squid_open: Vec<u8>,
        squid_close: Vec<u8>,
        explosion: Vec<u8>,
    ) -> (a: Alien)
        requires
            octopus_open@.len() == 12,
            octopus_close@.len() == 12,
            crab_banzai@.len() == 12,
            crab_down@.len() == 12,
            squid_open@.len() == 12,
            squid_close@.len() == 12,
            explosion@.len() == 12,
        ensures
            a.wf(),
            a.live_num == 55,
            forall|i: int| 0 <= i < 55 ==> a.live@[i],
    {
        let live = full_grid();
        proof {
            lemma_count_full_grid(live@);
        }
        Alien {
            live,
            live_num: 55,
            ref_pos: Vec2::new(8, 48),
            pre_ref_pos: Vec2::new(8, 48),
            move_dir: 1,
            anim_open: true,
            pre_anim_open: true,
            explosion: None,
            sprite_squid_open: squid_open,
            sprite_squid_close: squid_close,
            sprite_crab_banzai: crab_banzai,
            sprite_crab_down: crab_down,
            sprite_octopus_open: octopus_open,
            sprite_octopus_close: octopus_close,
            sprite_explosion: explosion,
        }
    }

    /// Repopulates the full grid for a stage start; a higher stage starts
    /// the swarm one band lower, down to a fixed cap.
    pub fn reset(&mut self, stage: usize)
        requires
            old(self).wf(),
            stage >= 1,
        ensures
            final(self).wf(),
            final(self).live_num == 55,
            forall|i: int| 0 <= i < 55 ==> final(self).live@[i],
            final(self).move_dir == 1,
            final(self).ref_pos.x == 8,
            final(self).ref_pos.y == 48 + 8 * (if stage <= 9 {
                (stage - 1) as int
            } else {
                8
            }),
            final(self).explosion is None,
            !final(self).spec_invaded(),
    {
        self.live = full_grid();
        proof {
            lemma_count_full_grid(self.live@);
        }
        self.live_num = 55;
        self.move_dir = 1;
        self.anim_open = true;
        self.pre_anim_open = true;
        self.explosion = None;
        let band: i32 = if stage <= 9 {
            (stage as i32) - 1
        } else {
            8
        };
        self.ref_pos = Vec2::new(8, 48 + 8 * band);
        self.pre_ref_pos = self.ref_pos;
        proof {
            assert forall|i: int| 0 <= i < 55 && self.live@[i] implies alien_y(
                self.ref_pos.y as int,
                i,
            ) <= 176 by {
                assert(i / 11 <= 4);
            }
            assert(!self.spec_invaded());
        }
    }

    /// The game is over once any live alien reaches the threshold row.
    pub fn invaded(&self) -> (r: bool)
        requires
            self.wf(),
        ensures
            r == self.spec_invaded(),
    {
        let mut i: usize = 0;
        while i < 55
            invariant
                i <= 55,
                self.wf(),
                forall|j: int|
                    0 <= j < i ==> !(self.live@[j] && alien_y(self.ref_pos.y as int, j) >= 184),
            decreases 55 - i,
        {
            if self.live[i] && self.ref_pos.y + 16 * ((i as i32) / 11) >= 184 {
                proof {
                    assert(self.live@[i as int] && alien_y(self.ref_pos.y as int, i as int)
                        >= 184);
                }
                return true;
            }
            i += 1;
        }
        false
    }

    /// The sprite of slot `i` for an animation phase: squid on the top row,
    /// crab on the middle rows, octopus on the bottom rows.
    fn row_sprite(&self, i: usize, open: bool) -> (s: &Vec<u8>)
        requires
            self.wf(),
            i < 55,
        ensures
            s@.len() == 12,
            s@ == (if i / 11 == 0 {
                if open {
                    self.sprite_squid_open@
                } else {
                    self.sprite_squid_close@
                }
            } else if i / 11 <= 2 {
                if open {
                    self.sprite_crab_banzai@
                } else {
                    self.sprite_crab_down@
                }
            } else {
                if open {
                    self.sprite_octopus_open@
                } else {
                    self.sprite_octopus_close@
                }
            }),
    {
        let row = i / 11;
        if row == 0 {
            if open {
                &self.sprite_squid_open
            } else {
                &self.sprite_squid_close
            }
        } else if row <= 2 {
            if open {
                &self.sprite_crab_banzai
            } else {
                &self.sprite_crab_down
            }
        } else {
            if open {
                &self.sprite_octopus_open
            } else {
                &self.sprite_octopus_close
            }
        }
    }

    /// Erases every live alien at the previous reference position (previous
    /// animation phase), then draws every live alien at the current one.
    #[verifier::loop_isolation(false)]
    fn redraw(&self, dot_map: &mut DotMap)
        requires
            self.wf(),
            old(dot_map).wf(),
        ensures
            final(dot_map).wf(),
            forall|r: int, c: int|
                0 <= r < 26 && 0 <= c < 224 && !(self.pre_ref_pos.y / 8 <= r
                    <= self.pre_ref_pos.y / 8 + 8) && !(self.ref_pos.y / 8 <= r <= self.ref_pos.y
                    / 8 + 8) ==> #[trigger] final(dot_map).map@[r]@[c] == old(dot_map).map@[r]@[c],
    {
        let mut i: usize = 0;
        while i < 55
            invariant
                i <= 55,
                dot_map.wf(),
                forall|r: int, c: int|
                    0 <= r < 26 && 0 <= c < 224 && !(self.pre_ref_pos.y / 8 <= r
                        <= self.pre_ref_pos.y / 8 + 8) && !(self.ref_pos.y / 8 <= r
                        <= self.ref_pos.y / 8 + 8) ==> #[trigger] dot_map.map@[r]@[c] == old(dot_map).map@[r]@[c],
            decreases 55 - i,
        {
            if self.live[i] {
                let x = self.pre_ref_pos.x + 16 * ((i as i32) % 11);
                let y = self.pre_ref_pos.y + 16 * ((i as i32) / 11);
                proof {
                    assert(x == alien_x(self.pre_ref_pos.x as int, i as int));
                    assert(y == alien_y(self.pre_ref_pos.y as int, i as int));
                    assert(self.pre_ref_pos.y / 8 <= y / 8 <= self.pre_ref_pos.y / 8 + 8)
                        by (nonlinear_arith)
                        requires
                            self.pre_ref_pos.y % 8 == 0,
                            0 <= self.pre_ref_pos.y,
                            y == self.pre_ref_pos.y + 16 * (i as int / 11),
                            0 <= i < 55,
                    ;
                }
                erase_sprite(&mut dot_map.map, Vec2::new(x, y), self.row_sprite(i, self.pre_anim_open));
            }
            i += 1;
        }
        let mut j: usize = 0;
        while j < 55
            invariant
                j <= 55,
                dot_map.wf(),
                forall|r: int, c: int|
                    0 <= r < 26 && 0 <= c < 224 && !(self.pre_ref_pos.y / 8 <= r
                        <= self.pre_ref_pos.y / 8 + 8) && !(self.ref_pos.y / 8 <= r
                        <= self.ref_pos.y / 8 + 8) ==> #[trigger] dot_map.map@[r]@[c] == old(dot_map).map@[r]@[c],
            decreases 55 - j,
        {
            if self.live[j] {
                let x = self.ref_pos.x + 16 * ((j as i32) % 11);
                let y = self.ref_pos.y + 16 * ((j as i32) / 11);
                proof {
                    assert(x == alien_x(self.ref_pos.x as int, j as int));
                    assert(y == alien_y(self.ref_pos.y as int, j as int));
                    assert(self.ref_pos.y / 8 <= y / 8 <= self.ref_pos.y / 8 + 8)
                        by (nonlinear_arith)
                        requires
                            self.ref_pos.y % 8 == 0,
                            0 <= self.ref_pos.y,
                            y == self.ref_pos.y + 16 * (j as int / 11),
                            0 <= j < 55,
                    ;
                }
                array_sprite(&mut dot_map.map, Vec2::new(x, y), self.row_sprite(j, self.anim_open));
            }
            j += 1;
        }
    }

    /// Is any live alien's cell at the right (`200`) or left (`8`) bound?
    fn at_bound(&self, right: bool) -> (r: bool)
        requires
            self.wf(),
        ensures
            right ==> r == self.at_right_bound(),
            !right ==> r == self.at_left_bound(),
    {
        let mut i: usize = 0;
        while i < 55
            invariant
                i <= 55,
                self.wf(),
                right ==> forall|j: int|
                    0 <= j < i ==> !(self.live@[j] && alien_x(self.ref_pos.x as int, j) >= 200),
                !right ==> forall|j: int|
                    0 <= j < i ==> !(self.live@[j] && alien_x(self.ref_pos.x as int, j) <= 8),
            decreases 55 - i,
        {
            if self.live[i] {
                let x = self.ref_pos.x + 16 * ((i as i32) % 11);
                proof {
                    assert(x == alien_x(self.ref_pos.x as int, i as int));
                }
                if right && x >= 200 {
                    return true;
                }
                if !right && x <= 8 {
                    return true;
                }
            }
            i += 1;
        }
        false
    }

    /// Advances the per-alien explosion effect one frame.
    fn step_explosion(&mut self, dot_map: &mut DotMap)
        requires
            old(self).wf(),
            old(dot_map).wf(),
        ensures
            final(self).wf(),
            final(dot_map).wf(),
            final(self).live == old(self).live,
            final(self).live_num == old(self).live_num,
            final(self).ref_pos == old(self).ref_pos,
            final(self).pre_ref_pos == old(self).pre_ref_pos,
            final(self).move_dir == old(self).move_dir,
            final(self).anim_open == old(self).anim_open,
            final(self).pre_anim_open == old(self).pre_anim_open,
            final(self).sprite_squid_open == old(self).sprite_squid_open,
            final(self).sprite_squid_close == old(self).sprite_squid_close,
            final(self).sprite_crab_banzai == old(self).sprite_crab_banzai,
            final(self).sprite_crab_down == old(self).sprite_crab_down,
            final(self).sprite_octopus_open == old(self).sprite_octopus_open,
            final(self).sprite_octopus_close == old(self).sprite_octopus_close,
            final(self).sprite_explosion == old(self).sprite_explosion,
            match old(self).explosion {
                Option::None => final(self).explosion is None,
                Option::Some(e) => if e.1 >= 15 {
                    final(self).explosion is None
                } else {
                    final(self).explosion == Some((e.0, (e.1 + 1) as i32))
                },
            },
            old(self).explosion is None ==> final(dot_map).map@ == old(dot_map).map@,
            forall|r: int, c: int|
                0 <= r < 26 && 0 <= c < 224 && (old(self).explosion matches Some(e) ==> r
                    != e.0.y / 8) ==> #[trigger] final(dot_map).map@[r]@[c] == old(dot_map).map@[r]@[c],
    {
        if let Some((p, c)) = self.explosion {
            if c >= 15 {
                erase_sprite(&mut dot_map.map, p, &self.sprite_explosion);
                self.explosion = None;
            } else {
                self.explosion = Some((p, c + 1));
            }
        }
    }

    /// One frame of the swarm.  While the player is exploding the swarm is
    /// frozen.  Otherwise, with any alien left alive, the swarm steps two
    /// dots in its direction — or, if a live alien touches the bound in the
    /// direction of travel, reverses direction and drops one band instead —
    /// toggles its animation phase, and redraws itself.
    pub fn update(&mut self, dot_map: &mut DotMap, player_exploding: bool, cues: &mut Vec<SoundCue>)
        requires
            old(self).wf(),
            old(dot_map).wf(),
            forall|i: int|
                0 <= i < 55 && old(self).live@[i] ==> alien_y(old(self).ref_pos.y as int, i)
                    <= 192,
        ensures
            final(self).wf(),
            final(dot_map).wf(),
            final(self).live@ == old(self).live@,
            final(self).live_num == old(self).live_num,
            final(self).sprite_explosion@ == old(self).sprite_explosion@,
            player_exploding ==> {
                &&& final(self).ref_pos == old(self).ref_pos
                &&& final(self).move_dir == old(self).move_dir
                &&& final(self).anim_open == old(self).anim_open
                &&& final(self).explosion == old(self).explosion
                &&& final(cues)@ == old(cues)@
                &&& final(dot_map).map@ == old(dot_map).map@
            },
            (!player_exploding && old(self).live_num == 0) ==> {
                &&& final(self).ref_pos == old(self).ref_pos
                &&& final(self).move_dir == old(self).move_dir
                &&& final(cues)@ == old(cues)@
            },
            (!player_exploding && old(self).live_num > 0) ==> {
                &&& final(self).move_dir == old(self).next_move_dir()
                &&& final(self).ref_pos.x == old(self).next_ref_x()
                &&& final(self).ref_pos.y == old(self).next_ref_y()
                &&& (old(self).move_dir == 1 && old(self).at_right_bound()) ==> {
                    &&& final(self).move_dir == -1
                    &&& final(self).ref_pos.x == old(self).ref_pos.x
                    &&& final(self).ref_pos.y == old(self).ref_pos.y + 8
                }
                &&& (old(self).move_dir == 1 && !old(self).at_right_bound()) ==> {
                    &&& final(self).move_dir == 1
                    &&& final(self).ref_pos.x == old(self).ref_pos.x + 2
                    &&& final(self).ref_pos.y == old(self).ref_pos.y
                }
                &&& (old(self).move_dir == -1 && old(self).at_left_bound()) ==> {
                    &&& final(self).move_dir == 1
                    &&& final(self).ref_pos.x == old(self).ref_pos.x
                    &&& final(self).ref_pos.y == old(self).ref_pos.y + 8
                }
                &&& (old(self).move_dir == -1 && !old(self).at_left_bound()) ==> {
                    &&& final(self).move_dir == -1
                    &&& final(self).ref_pos.x == old(self).ref_pos.x - 2
                    &&& final(self).ref_pos.y == old(self).ref_pos.y
                }
                &&& final(self).anim_open == !old(self).anim_open
                &&& final(self).pre_ref_pos == old(self).ref_pos
                &&& final(cues)@ == old(cues)@.push(SoundCue::AlienMove)
            },
            forall|r: int, c: int|
                0 <= r < 26 && 0 <= c < 224 && !(old(self).ref_pos.y / 8 <= r <= old(self).ref_pos.y / 8 + 8) && !(final(self).ref_pos.y / 8 <= r <= final(self).ref_pos.y
                / 8 + 8) && (old(self).explosion matches Some(e) ==> r != e.0.y / 8)
                ==> #[trigger] final(dot_map).map@[r]@[c] == old(dot_map).map@[r]@[c],
    {
        if player_exploding {
            return;
        }
        self.step_explosion(dot_map);
        if self.live_num == 0 {
            return;
        }
        self.pre_ref_pos = self.ref_pos;
        self.pre_anim_open = self.anim_open;
        if self.move_dir == 1 {
            if self.at_bound(true) {
                self.move_dir = -1;
                self.ref_pos.y += 8;
            } else {
                self.ref_pos.x += 2;
            }
        } else {
            if self.at_bound(false) {
                self.move_dir = 1;
                self.ref_pos.y += 8;
            } else {
                self.ref_pos.x -= 2;
            }
        }
        self.anim_open = !self.anim_open;
        cues.push(SoundCue::AlienMove);
        proof {
            assert forall|i: int| 0 <= i < 55 && self.live@[i] implies 0 <= alien_x(
                self.ref_pos.x as int,
                i,
            ) && alien_x(self.ref_pos.x as int, i) + 12 <= 216 by {
                assert(old(self).live@[i]);
            }
            assert forall|i: int| 0 <= i < 55 && self.live@[i] implies alien_y(
                self.ref_pos.y as int,
                i,
            ) <= 200 by {
                assert(old(self).live@[i]);
            }
            lemma_count_live_bounds(self.live@);
            lemma_count_live_pos(self.live@);
            let w = choose|i: int| 0 <= i < self.live@.len() && self.live@[i];
            assert(0 <= alien_x(self.ref_pos.x as int, w) <= 204);
            assert(0 <= w % 11 <= 10);
            assert(-160 <= self.ref_pos.x <= 224);
        }
        self.redraw(dot_map);
    }

    /// The live slot whose cell contains the probe point, if any: used by
    /// the player's shot to identify which alien its lit-pixel overlap hit.
    pub fn find_alien_at(&self, pos: Vec2) -> (r: Option<usize>)
        requires
            self.wf(),
        ensures
            match r {
                Option::Some(i) => {
                    &&& i < 55
                    &&& self.live@[i as int]
                    &&& alien_x(self.ref_pos.x as int, i as int) <= pos.x < alien_x(
                        self.ref_pos.x as int,
                        i as int,
                    ) + 12
                    &&& alien_y(self.ref_pos.y as int, i as int) - 3 <= pos.y <= alien_y(
                        self.ref_pos.y as int,
                        i as int,
                    ) + 7
                },
                Option::None => forall|i: int|
                    0 <= i < 55 && self.live@[i] ==> !(alien_x(self.ref_pos.x as int, i)
                        <= pos.x < alien_x(self.ref_pos.x as int, i) + 12 && alien_y(
                        self.ref_pos.y as int,
                        i,
                    ) - 3 <= pos.y <= alien_y(self.ref_pos.y as int, i) + 7),
            },
    {
        let mut i: usize = 0;
        while i < 55
            invariant
                i <= 55,
                self.wf(),
                forall|j: int|
                    0 <= j < i && self.live@[j] ==> !(alien_x(self.ref_pos.x as int, j)
                        <= pos.x < alien_x(self.ref_pos.x as int, j) + 12 && alien_y(
                        self.ref_pos.y as int,
                        j,
                    ) - 3 <= pos.y <= alien_y(self.ref_pos.y as int, j) + 7),
            decreases 55 - i,
        {
            if self.live[i] {
                let x = self.ref_pos.x + 16 * ((i as i32) % 11);
                let y = self.ref_pos.y + 16 * ((i as i32) / 11);
                proof {
                    assert(x == alien_x(self.ref_pos.x as int, i as int));
                    assert(y == alien_y(self.ref_pos.y as int, i as int));
                }
                if x <= pos.x && pos.x < x + 12 && y - 3 <= pos.y && pos.y <= y + 7 {
                    return Some(i);
                }
            }
            i += 1;
        }
        None
    }

    /// A hit on slot `i`: the alien is erased, its slot cleared, the live
    /// count lowered by one, the explosion effect started in its place, and
    /// the slot's point value returned.
    pub fn hit_alien(&mut self, dot_map: &mut DotMap, i: usize, cues: &mut Vec<SoundCue>) -> (points:
        i32)
        requires
            old(self).wf(),
            old(dot_map).wf(),
            i < 55,
            old(self).live@[i as int],
        ensures
            final(self).wf(),
            final(dot_map).wf(),
            points == alien_points(i as int),
            final(self).live@ == old(self).live@.update(i as int, false),
            final(self).live_num == old(self).live_num - 1,
            final(self).ref_pos == old(self).ref_pos,
            final(self).pre_ref_pos == old(self).pre_ref_pos,
            final(self).move_dir == old(self).move_dir,
            final(self).anim_open == old(self).anim_open,
            final(self).pre_anim_open == old(self).pre_anim_open,
            final(self).explosion matches Some(e) && e.0.x == alien_x(
                old(self).ref_pos.x as int,
                i as int,
            ) && e.0.y == alien_y(old(self).ref_pos.y as int, i as int) && e.1 == 0,
            final(cues)@ == old(cues)@.push(SoundCue::AlienExplosion),
            forall|r: int, c: int|
                0 <= r < 26 && 0 <= c < 224 && r != alien_y(old(self).ref_pos.y as int, i as int)
                    / 8 && (old(self).explosion matches Some(e) ==> r != e.0.y / 8)
                    ==> #[trigger] final(dot_map).map@[r]@[c] == old(dot_map).map@[r]@[c],
    {
        let x = self.ref_pos.x + 16 * ((i as i32) % 11);
        let y = self.ref_pos.y + 16 * ((i as i32) / 11);
        proof {
            assert(x == alien_x(self.ref_pos.x as int, i as int));
            assert(y == alien_y(self.ref_pos.y as int, i as int));
        }
        let pos = Vec2::new(x, y);
        erase_sprite(&mut dot_map.map, pos, self.row_sprite(i, self.anim_open));
        if let Some((p, _c)) = self.explosion {
            erase_sprite(&mut dot_map.map, p, &self.sprite_explosion);
        }
        array_sprite(&mut dot_map.map, pos, &self.sprite_explosion);
        self.explosion = Some((pos, 0));
        proof {
            lemma_count_live_clear(self.live@, i as int);
            lemma_count_live_bounds(self.live@.update(i as int, false));
        }
        self.live.set(i, false);
        self.live_num = self.live_num - 1;
        cues.push(SoundCue::AlienExplosion);
        let row = i / 11;
        if row == 0 {
            30
        } else if row <= 2 {
            20
        } else {
            10
        }
    }
}

/// A fully populated grid of 55 live slots.
#[verifier::loop_isolation(false)]
fn full_grid() -> (v: Vec<bool>)
    ensures
        v@.len() == 55,
        forall|i: int| 0 <= i < 55 ==> v@[i],
{
    let mut v: Vec<bool> = Vec::new();
    let mut i: usize = 0;
    while i < 55
        invariant
            i <= 55,
            v@.len() == i,
            forall|j: int| 0 <= j < i ==> v@[j],
        decreases 55 - i,
    {
        v.push(true);
        i += 1;
    }
    v
}

/// An all-live grid of 55 slots counts 55.
proof fn lemma_count_full_grid(s: Seq<bool>)
    requires
        s.len() == 55,
        forall|i: int| 0 <= i < 55 ==> s[i],
    ensures
        count_live(s) == 55,
{
    lemma_count_all_true(s);
}

proof fn lemma_count_all_true(s: Seq<bool>)
    requires
        forall|i: int| 0 <= i < s.len() ==> s[i],
    ensures
        count_live(s) == s.len(),
    decreases s.len(),
{
    if s.len() > 0 {
        lemma_count_all_true(s.drop_last());
    }
}

/// An alien shot at `b` will strike the player on its next two-dot step:
/// it stays above the floor, reaches the player's band, and falls within
/// the player's 16-column span.
pub open spec fn shot_hits_player(b: AlienBullet, player: Player) -> bool {
    &&& b.live
    &&& b.pos.y + 2 < 196
    &&& b.pos.y + 2 + 3 >= 192
    &&& player.pos.x <= b.pos.x < player.pos.x + 16
}

/// No slot of column `c` of the grid is alive.
pub open spec fn col_empty(a: Alien, c: int) -> bool {
    &&& !a.live@[c]
    &&& !a.live@[11 + c]
    &&& !a.live@[22 + c]
    &&& !a.live@[33 + c]
    &&& !a.live@[44 + c]
}

/// Column `c` lies among the first `k` columns of a cyclic scan that
/// starts at `cursor` (11 columns in all).
pub open spec fn in_scan(cursor: int, k: int, c: int) -> bool {
    if cursor + k <= 11 {
        cursor <= c < cursor + k
    } else {
        cursor <= c < 11 || 0 <= c < cursor + k - 11
    }
}

/// One falling alien shot.
#[derive(Debug, Clone, Copy, PartialEq, Eq, Structural)]
pub struct AlienBullet {
    pub pos: Vec2,
    pub pre_pos: Vec2,
    pub live: bool,
}

/// The fixed-capacity pool of alien shots: spawned periodically from live
/// alien columns, falling a fixed step per frame, removed at the floor, on
/// hitting the player, or on hitting anything else lit (degrading it).
pub struct BulletManage {
    pub bullets: Vec<AlienBullet>,
    /// Frames since the last spawn attempt window opened.
    pub fire_timer: i32,
    /// The column the next spawn starts scanning from.
    pub col_cursor: usize,
}

impl BulletManage {
    pub open spec fn wf(self) -> bool {
        &&& self.bullets@.len() == 3
        &&& 0 <= self.fire_timer <= 60
        &&& self.col_cursor < 11
        &&& (forall|b: int|
            0 <= b < 3 && (#[trigger] self.bullets@[b]).live ==> {
                &&& 0 <= self.bullets@[b].pos.x < 224
                &&& 0 <= self.bullets@[b].pos.y <= 195
            })
    }

    pub fn new() -> (m: BulletManage)
        ensures
            m.wf(),
            forall|b: int| 0 <= b < 3 ==> !(#[trigger] m.bullets@[b]).live,
            m.fire_timer == 0,
    {
        let dead = AlienBullet { pos: Vec2::new(0, 0), pre_pos: Vec2::new(0, 0), live: false };
        let mut bullets: Vec<AlienBullet> = Vec::new();
        bullets.push(dead);
        bullets.push(dead);
        bullets.push(dead);
        BulletManage { bullets, fire_timer: 0, col_cursor: 0 }
    }

    /// Removes every shot and restarts the spawn timer (stage reset).
    pub fn reset(&mut self)
        ensures
            final(self).wf(),
            forall|b: int| 0 <= b < 3 ==> !(#[trigger] final(self).bullets@[b]).live,
            final(self).fire_timer == 0,
    {
        let dead = AlienBullet { pos: Vec2::new(0, 0), pre_pos: Vec2::new(0, 0), live: false };
        let mut bullets: Vec<AlienBullet> = Vec::new();
        bullets.push(dead);
        bullets.push(dead);
        bullets.push(dead);
        self.bullets = bullets;
        self.fire_timer = 0;
        self.col_cursor = 0;
    }

    /// One frame of the pool.  Every live shot falls two dots and is removed
    /// at the floor, on hitting the player (starting the player's explosion
    /// and costing one life), or on hitting anything else lit — degrading
    /// the hit pixels.  The spawn timer then runs, and once it reaches the
    /// score-dependent interval a new shot starts under a live alien column.
    #[verifier::loop_isolation(false)]
    pub fn update(
        &mut self,
        dot_map: &mut DotMap,
        player: &mut Player,
        alien: &Alien,
        score: i32,
        cues: &mut Vec<SoundCue>,
    )
        requires
            old(self).wf(),
            old(dot_map).wf(),
            old(player).wf(),
            alien.wf(),
        ensures
            final(self).wf(),
            final(dot_map).wf(),
            final(player).wf(),
            final(player).sprite@ == old(player).sprite@,
            final(player).pos == old(player).pos,
            forall|b: int|
                0 <= b < 3 && (#[trigger] old(self).bullets@[b]).live ==> {
                    ||| (old(self).bullets@[b].pos.y + 2 < 196 && final(self).bullets@[b].live
                        && final(self).bullets@[b].pos.x == old(self).bullets@[b].pos.x && final(self).bullets@[b].pos.y == old(self).bullets@[b].pos.y + 2 && final(self).bullets@[b].pre_pos == old(self).bullets@[b].pos)
                    ||| !final(self).bullets@[b].live
                    ||| (final(self).bullets@[b].live && final(self).bullets@[b].pre_pos == final(self).bullets@[b].pos && 0 <= final(self).bullets@[b].pos.y <= 192 && final(self).fire_timer == 0)
                },
            forall|b: int|
                0 <= b < 3 && (#[trigger] old(self).bullets@[b]).live && old(self).bullets@[b].pos.y + 2 >= 196 ==> (!final(self).bullets@[b].live || (final(self).bullets@[b].pre_pos == final(self).bullets@[b].pos && final(self).bullets@[b].pos.y <= 192)),
            forall|b: int|
                0 <= b < 3 && (#[trigger] final(self).bullets@[b]).live ==> {
                    ||| (old(self).bullets@[b].live && final(self).bullets@[b].pos.x == old(self).bullets@[b].pos.x && final(self).bullets@[b].pos.y == old(self).bullets@[b].pos.y + 2)
                    ||| 0 <= final(self).bullets@[b].pos.y <= 192
                },
            (final(player).life == old(player).life - 1) <==> (old(player).explosion_cnt is None
                && old(player).life >= 1 && exists|b: int|
            0 <= b < 3 && shot_hits_player(#[trigger] old(self).bullets@[b], *old(player))),
            ({
                ||| (final(player).life == old(player).life && final(player).explosion_cnt == old(player).explosion_cnt)
                ||| (final(player).life == old(player).life - 1 && final(player).explosion_cnt
                    == Option::<i32>::Some(0) && old(player).explosion_cnt is None && old(player).life >= 1)
            }),
            ({
                let bumped = if old(self).fire_timer < 60 {
                    old(self).fire_timer + 1
                } else {
                    60int
                };
                let interval = if score < 1000 {
                    60int
                } else {
                    30int
                };
                &&& (final(self).fire_timer == 0 || final(self).fire_timer == bumped)
                &&& ((bumped < interval || alien.live_num <= 0) ==> final(self).fire_timer
                    == bumped)
                &&& ((bumped >= interval && alien.live_num > 0 && (forall|i: int|
                    0 <= i < 55 && #[trigger] alien.live@[i] ==> alien_y(
                        alien.ref_pos.y as int,
                        i,
                    ) + 8 <= 192) && (exists|b: int|
                    0 <= b < 3 && !(#[trigger] old(self).bullets@[b]).live)) ==> final(self).fire_timer == 0)
            }),
    {
        let mut b: usize = 0;
        while b < 3
            invariant
                b <= 3,
                self.wf(),
                dot_map.wf(),
                player.wf(),
                player.sprite@ == old(player).sprite@,
                player.pos == old(player).pos,
                self.fire_timer == old(self).fire_timer,
                self.col_cursor == old(self).col_cursor,
                forall|b2: int|
                    b <= b2 < 3 ==> #[trigger] self.bullets@[b2] == old(self).bullets@[b2],
                forall|b2: int|
                    0 <= b2 < b && !(#[trigger] old(self).bullets@[b2]).live
                        ==> self.bullets@[b2] == old(self).bullets@[b2],
                forall|b2: int|
                    0 <= b2 < b && (#[trigger] old(self).bullets@[b2]).live ==> {
                        ||| (old(self).bullets@[b2].pos.y + 2 < 196 && self.bullets@[b2].live
                            && self.bullets@[b2].pos.x == old(self).bullets@[b2].pos.x
                            && self.bullets@[b2].pos.y == old(self).bullets@[b2].pos.y + 2
                            && self.bullets@[b2].pre_pos == old(self).bullets@[b2].pos)
                        ||| !self.bullets@[b2].live
                    },
                forall|b2: int|
                    0 <= b2 < b && (#[trigger] old(self).bullets@[b2]).live && old(self).bullets@[b2].pos.y + 2 >= 196 ==> !self.bullets@[b2].live,
                forall|b2: int|
                    0 <= b2 < b && (#[trigger] self.bullets@[b2]).live ==> (old(self).bullets@[b2].live && self.bullets@[b2].pos.x == old(self).bullets@[b2].pos.x
                        && self.bullets@[b2].pos.y == old(self).bullets@[b2].pos.y + 2),
                ({
                    ||| (player.life == old(player).life && player.explosion_cnt == old(player).explosion_cnt && ((old(player).explosion_cnt is None && old(player).life
                        >= 1) ==> forall|b2: int|
                        0 <= b2 < b ==> !shot_hits_player(
                            #[trigger] old(self).bullets@[b2],
                            *old(player),
                        )))
                    ||| (player.life == old(player).life - 1 && player.explosion_cnt
                        == Option::<i32>::Some(0) && old(player).explosion_cnt is None && old(player).life >= 1 && exists|b2: int|
                        0 <= b2 < b && shot_hits_player(
                            #[trigger] old(self).bullets@[b2],
                            *old(player),
                        ))
                }),
            decreases 3 - b,
        {
            let bl = self.bullets[b];
            if bl.live {
                erase_column_shifted(&mut dot_map.map, bl.pos, 15);
                let newy = bl.pos.y + 2;
                if newy >= 196 {
                    self.bullets.set(
                        b,
                        AlienBullet { pos: bl.pos, pre_pos: bl.pos, live: false },
                    );
                } else {
                    let npos = Vec2::new(bl.pos.x, newy);
                    if player.explosion_cnt.is_none() && player.life >= 1 && npos.y + 3 >= 192
                        && player.pos.x <= npos.x && npos.x < player.pos.x + 16 {
                        player.hit(dot_map, cues);
                        self.bullets.set(
                            b,
                            AlienBullet { pos: npos, pre_pos: bl.pos, live: false },
                        );
                    } else if test_overlap_column(&dot_map.map, npos, 15) {
                        erase_column_shifted(&mut dot_map.map, npos, 255);
                        self.bullets.set(
                            b,
                            AlienBullet { pos: npos, pre_pos: bl.pos, live: false },
                        );
                    } else {
                        draw_column_shifted(&mut dot_map.map, npos, 15);
                        self.bullets.set(
                            b,
                            AlienBullet { pos: npos, pre_pos: bl.pos, live: true },
                        );
                    }
                }
            }
            b += 1;
        }
        let interval: i32 = if score < 1000 {
            60
        } else {
            30
        };
        if self.fire_timer < 60 {
            self.fire_timer = self.fire_timer + 1;
        }
        let ghost move_end = self.bullets@;
        let ghost bumped_v = self.fire_timer as int;
        if self.fire_timer >= interval && alien.live_num > 0 {
            let chosen = self.pick_shooter(alien);
            if let Some(i) = chosen {
                let x = alien.ref_pos.x + 16 * ((i as i32) % 11) + 6;
                let y = alien.ref_pos.y + 16 * ((i as i32) / 11) + 8;
                proof {
                    assert(x == alien_x(alien.ref_pos.x as int, i as int) + 6);
                    assert(y == alien_y(alien.ref_pos.y as int, i as int) + 8);
                }
                if y <= 192 {
                    let mut slot: usize = 0;
                    let mut placed = false;
                    while slot < 3
                        invariant
                            slot <= 3,
                            self.wf(),
                            0 <= x < 224,
                            0 <= y <= 192,
                            self.col_cursor == old(self).col_cursor,
                            placed ==> self.fire_timer == 0,
                            !placed ==> self.fire_timer as int == bumped_v,
                            !placed ==> (forall|b2: int|
                                0 <= b2 < 3 ==> #[trigger] self.bullets@[b2] == move_end[b2]),
                            !placed ==> (forall|b2: int|
                                0 <= b2 < slot ==> (#[trigger] move_end[b2]).live),
                            forall|b2: int|
                                0 <= b2 < 3 ==> {
                                    ||| #[trigger] self.bullets@[b2] == move_end[b2]
                                    ||| (placed && self.bullets@[b2].live
                                        && self.bullets@[b2].pre_pos == self.bullets@[b2].pos
                                        && self.bullets@[b2].pos.y == y && !move_end[b2].live)
                                },
                        decreases 3 - slot,
                    {
                        if !placed && !self.bullets[slot].live {
                            let npos = Vec2::new(x, y);
                            self.bullets.set(
                                slot,
                                AlienBullet { pos: npos, pre_pos: npos, live: true },
                            );
                            placed = true;
                            self.fire_timer = 0;
                        }
                        slot += 1;
                    }
                    self.col_cursor = ((i % 11) + 1) % 11;
                }
            }
        }
    }

    /// The bottom-most live alien of the first live column at or after the
    /// column cursor, scanning cyclically; the next shot starts under it.
    fn pick_shooter(&self, alien: &Alien) -> (r: Option<usize>)
        requires
            self.wf(),
            alien.wf(),
        ensures
            r matches Some(i) ==> i < 55 && alien.live@[i as int],
            alien.live_num > 0 ==> r is Some,
    {
        let mut k: usize = 0;
        while k < 11
            invariant
                k <= 11,
                self.wf(),
                alien.wf(),
                forall|c2: int|
                    0 <= c2 < 11 && in_scan(self.col_cursor as int, k as int, c2)
                        ==> #[trigger] col_empty(*alien, c2),
            decreases 11 - k,
        {
            let c = (self.col_cursor + k) % 11;
            proof {
                assert(c as int == (if self.col_cursor + k < 11 {
                    (self.col_cursor + k) as int
                } else {
                    self.col_cursor + k - 11
                })) by (nonlinear_arith)
                    requires
                        self.col_cursor < 11,
                        k < 11,
                        c == (self.col_cursor + k) % 11,
                ;
            }
            let mut rr: usize = 0;
            while rr < 5
                invariant
                    rr <= 5,
                    c < 11,
                    alien.wf(),
                    forall|rr2: int|
                        0 <= rr2 < rr ==> !alien.live@[#[trigger] ((4 - rr2) * 11 + c)],
                decreases 5 - rr,
            {
                let row = 4 - rr;
                let i = row * 11 + c;
                if alien.live[i] {
                    return Some(i);
                }
                rr += 1;
            }
            proof {
                assert(col_empty(*alien, c as int)) by {
                    assert(!alien.live@[(4 - 0) * 11 + c]);
                    assert(!alien.live@[(4 - 1) * 11 + c]);
                    assert(!alien.live@[(4 - 2) * 11 + c]);
                    assert(!alien.live@[(4 - 3) * 11 + c]);
                    assert(!alien.live@[(4 - 4) * 11 + c]);
                }
            }
            k += 1;
        }
        proof {
            if alien.live_num > 0 {
                lemma_count_live_bounds(alien.live@);
                lemma_count_live_pos(alien.live@);
                let w = choose|i: int| 0 <= i < alien.live@.len() && alien.live@[i];
                let c2 = w % 11;
                let row2 = w / 11;
                lemma_fundamental_div_mod(w, 11);
                lemma_mod_bound(w, 11);
                assert(w == 11 * row2 + c2);
                assert(0 <= c2 < 11 && 0 <= row2 < 5);
                assert(in_scan(self.col_cursor as int, 11, c2));
                assert(col_empty(*alien, c2));
                assert(!alien.live@[w]);
                assert(false);
            }
        }
        None
    }
}

} // verus!
