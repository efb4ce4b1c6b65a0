//! The player and the player's single projectile.
//!
//! The player slides along a fixed row, clamped to the playfield bounds, and
//! runs a two-sprite explosion countdown when hit.  At most one player shot
//! is in flight at a time: a new shot is rejected while one flies; the shot
//! climbs a fixed step per frame and is removed at the top of the playfield,
//! on hitting the bonus flyer, an alien, or anything else lit in its path.

use vstd::prelude::*;

use crate::alien::{alien_points, alien_x, alien_y, Alien};
use crate::array_sprite::{
    array_sprite, draw_column_shifted, erase_column_shifted, erase_sprite, test_overlap_column,
};
use crate::dot_map::DotMap;
use crate::input::KeyDown;
use crate::math::Vec2;
use crate::sound::SoundCue;
use crate::ufo::{ufo_score_table, Ufo};

verus! {

/// The player's horizontal position after one tick of input, one dot per
/// tick, clamped to the playfield bounds.
pub open spec fn player_next_x(x: int, left: bool, right: bool) -> int {
    if left && !right {
        if x - 1 < 8 {
            8
        } else {
            x - 1
        }
    } else if right && !left {
        if x + 1 > 200 {
            200
        } else {
            x + 1
        }
    } else {
        x
    }
}

pub struct Player {
    pub width: i32,
    pub pos: Vec2,
    pub pre_pos: Vec2,
    pub life: i32,
    /// Frames the explosion has run; None while the player is intact.
    pub explosion_cnt: Option<i32>,
    /// Explosion duration in frames.
    pub const_max_explosion_cnt: i32,
    pub sprite: Vec<u8>,
    pub sprite_explosion_1: Vec<u8>,
    pub sprite_explosion_2: Vec<u8>,
}

impl Player {
    pub open spec fn wf(self) -> bool {
        &&& self.width == 16
        &&& self.sprite@.len() == 16
        &&& self.sprite_explosion_1@.len() == 16
        &&& self.sprite_explosion_2@.len() == 16
        &&& self.pos.y == 192
        &&& self.pre_pos.y == 192
        &&& 8 <= self.pos.x <= 200
        &&& 8 <= self.pre_pos.x <= 200
        &&& 0 <= self.life <= 9
        &&& self.const_max_explosion_cnt == 24
        &&& (self.explosion_cnt matches Some(c) ==> 0 <= c <= 24)
    }

    pub fn new(sprite: Vec<u8>, explosion_1: Vec<u8>, explosion_2: Vec<u8>) -> (p: Player)
        requires
            sprite@.len() == 16,
            explosion_1@.len() == 16,
            explosion_2@.len() == 16,
        ensures
            p.wf(),
            p.life == 3,
            p.pos.x == 8,
            p.explosion_cnt is None,
    {
        Player {
            width: 16,
            pos: Vec2::new(8, 192),
            pre_pos: Vec2::new(8, 192),
            life: 3,
            explosion_cnt: None,
            const_max_explosion_cnt: 24,
            sprite,
            sprite_explosion_1: explosion_1,
            sprite_explosion_2: explosion_2,
        }
    }

    /// Full reset for a new game: three lives, start position, intact.
    pub fn reset_all(&mut self)
        requires
            old(self).wf(),
        ensures
            final(self).wf(),
            final(self).life == 3,
            final(self).pos.x == 8,
            final(self).pos.y == 192,
            final(self).explosion_cnt is None,
            final(self).sprite@ == old(self).sprite@,
    {
        self.life = 3;
        self.pos = Vec2::new(8, 192);
        self.pre_pos = self.pos;
        self.explosion_cnt = None;
    }

    /// Stage-scoped reset: start position and intact state, life preserved.
    pub fn reset_stage(&mut self)
        requires
            old(self).wf(),
        ensures
            final(self).wf(),
            final(self).life == old(self).life,
            final(self).pos.x == 8,
            final(self).pos.y == 192,
            final(self).explosion_cnt is None,
            final(self).sprite@ == old(self).sprite@,
    {
        self.pos = Vec2::new(8, 192);
        self.pre_pos = self.pos;
        self.explosion_cnt = None;
    }

    /// One frame of the player.  While exploding, the two explosion sprites
    /// alternate until the countdown runs out; otherwise left/right input
    /// moves the player one dot, clamped to the playfield bounds.
    pub fn update(&mut self, dot_map: &mut DotMap, input: &KeyDown)
        requires
            old(self).wf(),
            old(dot_map).wf(),
        ensures
            final(self).wf(),
            final(dot_map).wf(),
            final(self).life == old(self).life,
            final(self).sprite@ == old(self).sprite@,
            final(self).pos.y == 192,
            old(self).explosion_cnt is None ==> {
                &&& final(self).explosion_cnt is None
                &&& final(self).pos.x == player_next_x(
                    old(self).pos.x as int,
                    input.left,
                    input.right,
                )
                &&& final(self).pre_pos == old(self).pos
            },
            old(self).explosion_cnt matches Some(c) ==> {
                &&& final(self).pos == old(self).pos
                &&& (c >= 24 ==> final(self).explosion_cnt is None)
                &&& (c < 24 ==> final(self).explosion_cnt == Some((c + 1) as i32))
            },
            forall|r: int, c: int|
                0 <= r < 26 && 0 <= c < 224 && r != 24
                    ==> #[trigger] final(dot_map).map@[r]@[c] == old(dot_map).map@[r]@[c],
            old(self).explosion_cnt is None ==> forall|c: int|
                0 <= c < 224 ==> #[trigger] final(dot_map).map@[24]@[c] == ({
                    let e = if old(self).pos.x <= c < old(self).pos.x + 16 {
                        old(dot_map).map@[24]@[c] & !old(self).sprite@[c - old(self).pos.x]
                    } else {
                        old(dot_map).map@[24]@[c]
                    };
                    let nx = player_next_x(old(self).pos.x as int, input.left, input.right);
                    if nx <= c < nx + 16 {
                        e | old(self).sprite@[c - nx]
                    } else {
                        e
                    }
                }),
            old(self).explosion_cnt matches Some(cc) ==> forall|c: int|
                0 <= c < 224 ==> #[trigger] final(dot_map).map@[24]@[c] == ({
                    let e = if old(self).pos.x <= c < old(self).pos.x + 16 {
                        old(dot_map).map@[24]@[c] & !old(self).sprite_explosion_1@[c - old(self).pos.x] & !old(self).sprite_explosion_2@[c - old(self).pos.x]
                    } else {
                        old(dot_map).map@[24]@[c]
                    };
                    if cc < 24 && old(self).pos.x <= c < old(self).pos.x + 16 {
                        e | (if (cc / 4) % 2 == 0 {
                            old(self).sprite_explosion_1@[c - old(self).pos.x]
                        } else {
                            old(self).sprite_explosion_2@[c - old(self).pos.x]
                        })
                    } else {
                        e
                    }
                }),
    {
        if let Some(cnt) = self.explosion_cnt {
            erase_sprite(&mut dot_map.map, self.pos, &self.sprite_explosion_1);
            erase_sprite(&mut dot_map.map, self.pos, &self.sprite_explosion_2);
            if cnt >= 24 {
                self.explosion_cnt = None;
            } else {
                if (cnt / 4) % 2 == 0 {
                    array_sprite(&mut dot_map.map, self.pos, &self.sprite_explosion_1);
                } else {
                    array_sprite(&mut dot_map.map, self.pos, &self.sprite_explosion_2);
                }
                self.explosion_cnt = Some(cnt + 1);
            }
        } else {
            self.pre_pos = self.pos;
            if input.left && !input.right {
                if self.pos.x - 1 < 8 {
                    self.pos.x = 8;
                } else {
                    self.pos.x = self.pos.x - 1;
                }
            } else if input.right && !input.left {
                if self.pos.x + 1 > 200 {
                    self.pos.x = 200;
                } else {
                    self.pos.x = self.pos.x + 1;
                }
            }
            erase_sprite(&mut dot_map.map, self.pre_pos, &self.sprite);
            array_sprite(&mut dot_map.map, self.pos, &self.sprite);
        }
    }

    /// Starts the player-removal explosion (used when the swarm invades):
    /// the sprite is erased and the explosion countdown begins.
    pub fn remove(&mut self, dot_map: &mut DotMap, cues: &mut Vec<SoundCue>)
        requires
            old(self).wf(),
            old(dot_map).wf(),
        ensures
            final(self).wf(),
            final(dot_map).wf(),
            final(self).life == old(self).life,
            final(self).pos == old(self).pos,
            final(self).explosion_cnt == Option::<i32>::Some(0),
            final(self).sprite@ == old(self).sprite@,
            final(cues)@ == old(cues)@.push(SoundCue::PlayerExplosion),
            forall|r: int, c: int|
                0 <= r < 26 && 0 <= c < 224 && r != 24
                    ==> #[trigger] final(dot_map).map@[r]@[c] == old(dot_map).map@[r]@[c],
            forall|c: int|
                0 <= c < 224 ==> #[trigger] final(dot_map).map@[24]@[c] == (if old(self).pos.x
                    <= c < old(self).pos.x + 16 {
                    old(dot_map).map@[24]@[c] & !old(self).sprite@[c - old(self).pos.x]
                } else {
                    old(dot_map).map@[24]@[c]
                }),
    {
        self.explosion_cnt = Some(0);
        erase_sprite(&mut dot_map.map, self.pos, &self.sprite);
        cues.push(SoundCue::PlayerExplosion);
    }

    /// An alien shot hit the player: one life is lost and the explosion
    /// countdown begins.
    pub fn hit(&mut self, dot_map: &mut DotMap, cues: &mut Vec<SoundCue>)
        requires
            old(self).wf(),
            old(dot_map).wf(),
            old(self).explosion_cnt is None,
            old(self).life >= 1,
        ensures
            final(self).wf(),
            final(dot_map).wf(),
            final(self).life == old(self).life - 1,
            final(self).pos == old(self).pos,
            final(self).explosion_cnt == Option::<i32>::Some(0),
            final(self).sprite@ == old(self).sprite@,
            final(cues)@ == old(cues)@.push(SoundCue::PlayerExplosion),
            forall|r: int, c: int|
                0 <= r < 26 && 0 <= c < 224 && r != 24
                    ==> #[trigger] final(dot_map).map@[r]@[c] == old(dot_map).map@[r]@[c],
            forall|c: int|
                0 <= c < 224 ==> #[trigger] final(dot_map).map@[24]@[c] == (if old(self).pos.x
                    <= c < old(self).pos.x + 16 {
                    old(dot_map).map@[24]@[c] & !old(self).sprite@[c - old(self).pos.x]
                } else {
                    old(dot_map).map@[24]@[c]
                }),
    {
        self.life = self.life - 1;
        self.explosion_cnt = Some(0);
        erase_sprite(&mut dot_map.map, self.pos, &self.sprite);
        cues.push(SoundCue::PlayerExplosion);
    }
}

/// What one tick of the player's shot did.
#[derive(Debug, Clone, Copy, PartialEq, Eq, Structural)]
pub enum BulletEvent {
    /// No shot in flight and none fired.
    Idle,
    /// A new shot left the muzzle.
    Fired,
    /// The shot advanced without hitting anything.
    Moved,
    /// The shot left the top of the playfield.
    LeftTop,
    /// The shot destroyed the bonus flyer, awarding the payload.
    HitUfo(i32),
    /// The shot destroyed an alien, awarding the payload.
    HitAlien(i32),
    /// The shot hit something else lit (a shield, an alien shot).
    Blocked,
}

/// Score accumulation, saturating near the display maximum.
pub open spec fn add_score_spec(score: int, pts: int) -> int {
    if score <= 999999000 {
        score + pts
    } else {
        score
    }
}

/// Byte of the shot's own column at char row `r` after the shot's pixels at
/// `pos` are erased (the first step of every in-flight tick).
pub open spec fn shot_erased_byte(m: Seq<Vec<u8>>, pos: Vec2, mask: u8, r: int) -> u8 {
    if r == pos.y / 8 {
        m[r]@[pos.x as int] & !(mask << ((pos.y % 8) as u8))
    } else if pos.y % 8 != 0 && r == pos.y / 8 + 1 {
        m[r]@[pos.x as int] & !(mask >> ((8 - pos.y % 8) as u8))
    } else {
        m[r]@[pos.x as int]
    }
}

/// After erasing itself at `pos`, does the shot overlap a lit dot at its
/// next position, 4 dots higher?  This decides the in-flight outcome.
pub open spec fn shot_path_blocked(m: Seq<Vec<u8>>, pos: Vec2, mask: u8) -> bool {
    ||| (shot_erased_byte(m, pos, mask, (pos.y - 4) / 8) & (mask << (((pos.y - 4) % 8) as u8)))
        != 0
    ||| ((pos.y - 4) % 8 != 0 && (shot_erased_byte(m, pos, mask, (pos.y - 4) / 8 + 1) & (mask
        >> ((8 - (pos.y - 4) % 8) as u8))) != 0)
}

/// Byte of the shot's column at char row `r` after an unobstructed tick:
/// erased at `pos`, redrawn 4 dots higher.
pub open spec fn shot_moved_byte(m: Seq<Vec<u8>>, pos: Vec2, mask: u8, r: int) -> u8 {
    let e = shot_erased_byte(m, pos, mask, r);
    if r == (pos.y - 4) / 8 {
        e | (mask << (((pos.y - 4) % 8) as u8))
    } else if (pos.y - 4) % 8 != 0 && r == (pos.y - 4) / 8 + 1 {
        e | (mask >> ((8 - (pos.y - 4) % 8) as u8))
    } else {
        e
    }
}

/// Byte of the shot's column at char row `r` after a blocked tick: erased at
/// `pos`, then the full byte band at the blocked position cleared (this is
/// what degrades a shield).
pub open spec fn shot_blocked_byte(m: Seq<Vec<u8>>, pos: Vec2, mask: u8, r: int) -> u8 {
    let e = shot_erased_byte(m, pos, mask, r);
    if r == (pos.y - 4) / 8 {
        e & !(255u8 << (((pos.y - 4) % 8) as u8))
    } else if (pos.y - 4) % 8 != 0 && r == (pos.y - 4) / 8 + 1 {
        e & !(255u8 >> ((8 - (pos.y - 4) % 8) as u8))
    } else {
        e
    }
}

/// The player's single-slot projectile, plus the score and shot counters it
/// owns.
pub struct Bullet {
    pub pos: Vec2,
    pub pre_pos: Vec2,
    pub live: bool,
    /// Cumulative shots fired; keys the flyer's score table and direction.
    /// Saturates at a count far beyond reach, purely to bound the arithmetic.
    pub fire_cnt: i32,
    /// The game score, owned by the shot that earns it.
    pub score: i32,
    /// One byte column: the shot's pixels.
    pub sprite: Vec<u8>,
}

impl Bullet {
    pub open spec fn wf(self) -> bool {
        &&& self.sprite@.len() == 1
        &&& 0 <= self.fire_cnt <= 2000000000
        &&& 0 <= self.score <= 999999300
        &&& (self.live ==> {
            &&& 16 <= self.pos.x <= 208
            &&& 8 <= self.pos.y <= 184
            &&& self.fire_cnt >= 1
        })
    }

    /// A shot is one byte-column wide; any other sprite is a configuration
    /// error, rejected at construction.
    pub fn new(sprite: Vec<u8>) -> (b: Bullet)
        requires
            sprite@.len() == 1,
        ensures
            b.wf(),
            !b.live,
            b.fire_cnt == 0,
            b.score == 0,
    {
        Bullet {
            pos: Vec2::new(0, 184),
            pre_pos: Vec2::new(0, 184),
            live: false,
            fire_cnt: 0,
            score: 0,
            sprite,
        }
    }

    /// Full reset for a new game: no shot, no score, no shot count.
    pub fn reset_all(&mut self)
        requires
            old(self).wf(),
        ensures
            final(self).wf(),
            !final(self).live,
            final(self).fire_cnt == 0,
            final(self).score == 0,
    {
        self.live = false;
        self.fire_cnt = 0;
        self.score = 0;
    }

    /// Stage-scoped reset: no shot in flight; score and counters carry over.
    pub fn reset_stage(&mut self)
        requires
            old(self).wf(),
        ensures
            final(self).wf(),
            !final(self).live,
            final(self).fire_cnt == old(self).fire_cnt,
            final(self).score == old(self).score,
    {
        self.live = false;
    }

    /// One frame of the shot.  A new shot fires from the player's muzzle
    /// when none is in flight; a flying shot climbs 4 dots, leaves at the
    /// top, or — on overlapping a lit dot — destroys the flyer or an alien
    /// (crediting the score) or just dies against whatever blocked it.
    pub fn update(
        &mut self,
        dot_map: &mut DotMap,
        player: &Player,
        ufo: &mut Ufo,
        alien: &mut Alien,
        input: &KeyDown,
        cues: &mut Vec<SoundCue>,
    ) -> (ev: BulletEvent)
        requires
            old(self).wf(),
            old(dot_map).wf(),
            player.wf(),
            old(ufo).wf(),
            old(alien).wf(),
        ensures
            final(self).wf(),
            final(dot_map).wf(),
            final(ufo).wf(),
            final(alien).wf(),
            final(self).sprite@ == old(self).sprite@,
            (!old(self).live && input.shot && player.explosion_cnt is None && old(self).fire_cnt
                < 2000000000) ==> {
                &&& ev == BulletEvent::Fired
                &&& final(self).live
                &&& final(self).pos.x == player.pos.x + 8
                &&& final(self).pos.y == 184
                &&& final(self).fire_cnt == old(self).fire_cnt + 1
                &&& final(self).score == old(self).score
                &&& final(cues)@ == old(cues)@.push(SoundCue::Shoot)
                &&& *final(ufo) == *old(ufo)
                &&& *final(alien) == *old(alien)
            },
            (!old(self).live && !(input.shot && player.explosion_cnt is None && old(self).fire_cnt < 2000000000)) ==> {
                &&& ev == BulletEvent::Idle
                &&& final(self).live == old(self).live
                &&& final(self).fire_cnt == old(self).fire_cnt
                &&& final(self).score == old(self).score
                &&& final(cues)@ == old(cues)@
                &&& *final(ufo) == *old(ufo)
                &&& *final(alien) == *old(alien)
                &&& final(dot_map).map@ == old(dot_map).map@
            },
            old(self).live ==> {
                &&& final(self).fire_cnt == old(self).fire_cnt
                &&& (ev == BulletEvent::LeftTop ==> !final(self).live && final(self).score == old(self).score && *final(ufo) == *old(ufo) && *final(alien) == *old(alien))
                &&& (ev == BulletEvent::Moved ==> final(self).live && final(self).pos.y == old(self).pos.y - 4 && final(self).pos.x == old(self).pos.x && final(self).score == old(self).score && *final(ufo) == *old(ufo) && *final(alien) == *old(alien))
                &&& (ev matches BulletEvent::HitUfo(s) ==> {
                    &&& !final(self).live
                    &&& s == ufo_score_table((old(self).fire_cnt - 1) as int % 15)
                    &&& final(self).score == add_score_spec(old(self).score as int, s as int)
                    &&& !final(ufo).live
                    &&& final(ufo).explosion.show_cnt == Option::<i32>::Some(0)
                    &&& *final(alien) == *old(alien)
                })
                &&& (ev matches BulletEvent::HitAlien(p) ==> {
                    &&& !final(self).live
                    &&& final(self).score == add_score_spec(old(self).score as int, p as int)
                    &&& *final(ufo) == *old(ufo)
                    &&& final(alien).live_num == old(alien).live_num - 1
                    &&& final(alien).ref_pos == old(alien).ref_pos
                    &&& final(alien).pre_ref_pos == old(alien).pre_ref_pos
                    &&& final(alien).move_dir == old(alien).move_dir
                    &&& final(alien).anim_open == old(alien).anim_open
                    &&& (exists|i: int|
                        0 <= i < 55 && old(alien).live@[i] && final(alien).live@ == old(alien).live@.update(i, false) && p == alien_points(i))
                })
                &&& (ev == BulletEvent::Blocked ==> !final(self).live && final(self).score == old(self).score && *final(ufo) == *old(ufo) && *final(alien) == *old(alien))
                &&& (ev matches BulletEvent::Idle ==> false)
                &&& (ev matches BulletEvent::Fired ==> false)
                &&& (ev == BulletEvent::LeftTop <==> old(self).pos.y - 4 < 8)
                &&& ((old(self).pos.y - 4 >= 8 && !shot_path_blocked(
                    old(dot_map).map@,
                    old(self).pos,
                    old(self).sprite@[0],
                )) ==> ev == BulletEvent::Moved)
                &&& ((old(self).pos.y - 4 >= 8 && shot_path_blocked(
                    old(dot_map).map@,
                    old(self).pos,
                    old(self).sprite@[0],
                )) ==> {
                    let bx = old(self).pos.x as int;
                    let by = old(self).pos.y - 4;
                    &&& ((ev matches BulletEvent::HitUfo(_)) <==> (old(ufo).live && by < 16
                        && old(ufo).pos.x <= bx < old(ufo).pos.x + 16))
                    &&& (!(old(ufo).live && by < 16 && old(ufo).pos.x <= bx < old(ufo).pos.x + 16)
                        ==> ((ev matches BulletEvent::HitAlien(_)) <==> (exists|i: int|
                        0 <= i < 55 && old(alien).live@[i] && alien_x(
                            old(alien).ref_pos.x as int,
                            i,
                        ) <= bx < alien_x(old(alien).ref_pos.x as int, i) + 12 && alien_y(
                            old(alien).ref_pos.y as int,
                            i,
                        ) - 3 <= by <= alien_y(old(alien).ref_pos.y as int, i) + 7)))
                    &&& (ev == BulletEvent::Moved ==> false)
                })
                &&& (ev == BulletEvent::Moved ==> {
                    &&& (forall|r: int, c: int|
                        0 <= r < 26 && 0 <= c < 224 && c != old(self).pos.x
                            ==> #[trigger] final(dot_map).map@[r]@[c] == old(dot_map).map@[r]@[c])
                    &&& (forall|r: int|
                        0 <= r < 26 ==> #[trigger] final(dot_map).map@[r]@[old(self).pos.x as int]
                            == shot_moved_byte(
                            old(dot_map).map@,
                            old(self).pos,
                            old(self).sprite@[0],
                            r,
                        ))
                })
                &&& (ev == BulletEvent::LeftTop ==> {
                    &&& (forall|r: int, c: int|
                        0 <= r < 26 && 0 <= c < 224 && c != old(self).pos.x
                            ==> #[trigger] final(dot_map).map@[r]@[c] == old(dot_map).map@[r]@[c])
                    &&& (forall|r: int|
                        0 <= r < 26 ==> #[trigger] final(dot_map).map@[r]@[old(self).pos.x as int]
                            == shot_erased_byte(
                            old(dot_map).map@,
                            old(self).pos,
                            old(self).sprite@[0],
                            r,
                        ))
                })
                &&& (ev == BulletEvent::Blocked ==> {
                    &&& (forall|r: int, c: int|
                        0 <= r < 26 && 0 <= c < 224 && c != old(self).pos.x
                            ==> #[trigger] final(dot_map).map@[r]@[c] == old(dot_map).map@[r]@[c])
                    &&& (forall|r: int|
                        0 <= r < 26 ==> #[trigger] final(dot_map).map@[r]@[old(self).pos.x as int]
                            == shot_blocked_byte(
                            old(dot_map).map@,
                            old(self).pos,
                            old(self).sprite@[0],
                            r,
                        ))
                })
            },
    {
        if !self.live {
            if input.shot && player.explosion_cnt.is_none() && self.fire_cnt < 2000000000 {
                self.live = true;
                self.pos = Vec2::new(player.pos.x + 8, 184);
                self.pre_pos = self.pos;
                self.fire_cnt = self.fire_cnt + 1;
                cues.push(SoundCue::Shoot);
                draw_column_shifted(&mut dot_map.map, self.pos, self.sprite[0]);
                return BulletEvent::Fired;
            }
            return BulletEvent::Idle;
        }
        erase_column_shifted(&mut dot_map.map, self.pos, self.sprite[0]);
        proof {
            assert forall|r: int| 0 <= r < 26 implies #[trigger] dot_map.map@[r]@[old(self).pos.x as int] == shot_erased_byte(
                old(dot_map).map@,
                old(self).pos,
                old(self).sprite@[0],
                r,
            ) by {}
        }
        if self.pos.y - 4 < 8 {
            self.live = false;
            return BulletEvent::LeftTop;
        }
        self.pre_pos = self.pos;
        self.pos.y = self.pos.y - 4;
        let blocked = test_overlap_column(&dot_map.map, self.pos, self.sprite[0]);
        proof {
            assert(blocked == shot_path_blocked(
                old(dot_map).map@,
                old(self).pos,
                old(self).sprite@[0],
            ));
        }
        if blocked {
            self.live = false;
            if ufo.live && self.pos.y < 16 && ufo.pos.x <= self.pos.x && self.pos.x < ufo.pos.x
                + 16 {
                let s = ufo.hit_player_bullet(dot_map, self.fire_cnt, cues);
                self.score = add_score(self.score, s);
                return BulletEvent::HitUfo(s);
            }
            let found = alien.find_alien_at(self.pos);
            if let Some(i) = found {
                let p = alien.hit_alien(dot_map, i, cues);
                self.score = add_score(self.score, p);
                proof {
                    assert((i as int) < 55 && old(alien).live@[i as int] && alien.live@
                        == old(alien).live@.update(i as int, false) && p == alien_points(
                        i as int,
                    ));
                    assert(old(alien).live@[i as int] && alien_x(
                        old(alien).ref_pos.x as int,
                        i as int,
                    ) <= old(self).pos.x < alien_x(old(alien).ref_pos.x as int, i as int) + 12
                        && alien_y(old(alien).ref_pos.y as int, i as int) - 3 <= old(self).pos.y
                        - 4 <= alien_y(old(alien).ref_pos.y as int, i as int) + 7);
                }
                return BulletEvent::HitAlien(p);
            }
            erase_column_shifted(&mut dot_map.map, self.pos, 255);
            proof {
                assert forall|r: int| 0 <= r < 26 implies #[trigger] dot_map.map@[r]@[old(self).pos.x as int] == shot_blocked_byte(
                    old(dot_map).map@,
                    old(self).pos,
                    old(self).sprite@[0],
                    r,
                ) by {}
            }
            return BulletEvent::Blocked;
        }
        draw_column_shifted(&mut dot_map.map, self.pos, self.sprite[0]);
        proof {
            assert forall|r: int| 0 <= r < 26 implies #[trigger] dot_map.map@[r]@[old(self).pos.x as int] == shot_moved_byte(
                old(dot_map).map@,
                old(self).pos,
                old(self).sprite@[0],
                r,
            ) by {}
        }
        BulletEvent::Moved
    }
}

/// Saturating score accumulation (exec counterpart of `add_score_spec`).
pub fn add_score(score: i32, pts: i32) -> (r: i32)
    requires
        0 <= score <= 999999300,
        0 <= pts <= 300,
    ensures
        r == add_score_spec(score as int, pts as int),
        0 <= r <= 999999300,
{
    if score <= 999999000 {
        score + pts
    } else {
        score
    }
}

} // verus!
