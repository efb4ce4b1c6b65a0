//! The bonus flyer ("UFO") and its embedded explosion effect.
//!
//! The flyer is dormant by default; it spawns only after a minimum wall-clock
//! time since its last despawn and while enough aliens are alive, picks its
//! direction from the parity of the player's shot count, and flies at one dot
//! per tick until it exits the playfield or is shot.  A hit awards a score
//! from a fixed 15-entry table indexed by the shot count, and the explosion
//! effect shows the flyer's explosion sprite, then the scored value as
//! digits, before erasing itself.

use vstd::prelude::*;

use crate::array_sprite::{array_sprite, array_sprite_replace, erase_sprite};
use crate::canvas::GAME_WIDTH;
use crate::dot_map::DotMap;
use crate::math::Vec2;
use crate::sound::SoundCue;
use crate::top_area::num_sprites_wf;

verus! {

#[verifier::external_type_specification]
#[verifier::external_body]
pub struct ExInstant(instant::Instant);

/// Relies on instant::Instant::now: an opaque reading of the wall clock.
#[verifier::external_body]
fn instant_now() -> (t: instant::Instant) {
    instant::Instant::now()
}

/// Relies on instant::Instant::elapsed and Duration::as_secs: the number of
/// whole seconds since `t`.  The value depends on the wall clock, so nothing
/// is promised of it.
#[verifier::external_body]
fn elapsed_whole_secs(t: &instant::Instant) -> (s: u64) {
    t.elapsed().as_secs()
}

/// The flyer's score table, keyed by `(shot count - 1) mod 15`.
pub open spec fn ufo_score_table(i: int) -> int {
    if i == 7 {
        300
    } else if i == 3 || i == 12 {
        150
    } else if i == 0 || i == 1 || i == 6 || i == 11 {
        50
    } else {
        100
    }
}

/// The digit sprites that display a flyer score, most significant first.
pub open spec fn ufo_score_digits(score: int) -> Seq<int> {
    if score == 50 {
        seq![5int, 0int]
    } else if score == 100 {
        seq![1int, 0int, 0int]
    } else if score == 150 {
        seq![1int, 5int, 0int]
    } else {
        seq![3int, 0int, 0int]
    }
}

/// One tick of the explosion's display countdown.
pub open spec fn step_show_cnt(c: Option<i32>) -> Option<i32> {
    match c {
        Option::None => Option::None,
        Option::Some(v) => if v > 120 {
            Option::None
        } else {
            Option::Some((v + 1) as i32)
        },
    }
}

/// The flyer's explosion effect: shows the explosion sprite for the first
/// frames, then the scored value as digit sprites, then erases itself.
pub struct Explosion {
    pub pos: Vec2,
    /// Frames the effect has been shown; None while inactive.
    pub show_cnt: Option<i32>,
    /// The score awarded by the hit that started the effect.
    pub score: i32,
    pub sprite: Vec<u8>,
    pub sprite_num: Vec<Vec<u8>>,
}

impl Explosion {
    pub open spec fn wf(self) -> bool {
        &&& self.sprite@.len() == 16
        &&& num_sprites_wf(self.sprite_num@)
        &&& self.pos.y == 8
        &&& 0 <= self.pos.x <= 200
        &&& (self.show_cnt is Some ==> (self.score == 50 || self.score == 100 || self.score == 150
            || self.score == 300))
        &&& (self.show_cnt is Some ==> 0 <= self.show_cnt->Some_0 <= 121)
    }

    /// Starts the effect at `pos` and draws the explosion sprite there.
    pub fn create_effect(&mut self, dot_map: &mut DotMap, pos: Vec2)
        requires
            old(self).wf(),
            old(dot_map).wf(),
            pos.y == 8,
            0 <= pos.x <= 200,
            old(self).score == 50 || old(self).score == 100 || old(self).score == 150 || old(self).score == 300,
        ensures
            final(self).wf(),
            final(self).pos == pos,
            final(self).show_cnt == Option::<i32>::Some(0),
            final(self).score == old(self).score,
            final(self).sprite@ == old(self).sprite@,
            final(self).sprite_num@ == old(self).sprite_num@,
            final(dot_map).wf(),
            forall|r: int, c: int|
                0 <= r < 26 && 0 <= c < 224 && !(r == 1 && pos.x <= c < pos.x + 16)
                    ==> #[trigger] final(dot_map).map@[r]@[c] == old(dot_map).map@[r]@[c],
            forall|dx: int|
                0 <= dx < 16 ==> final(dot_map).map@[1]@[pos.x + dx]
                    == (old(dot_map).map@[1]@[pos.x + dx] | #[trigger] old(self).sprite@[dx]),
    {
        self.pos = pos;
        self.show_cnt = Some(0);
        array_sprite(&mut dot_map.map, self.pos, &self.sprite);
    }

    /// Overwrites the scored value at the effect position as digit sprites.
    pub fn draw_score(&self, dot_map: &mut DotMap)
        requires
            self.wf(),
            old(dot_map).wf(),
            self.score == 50 || self.score == 100 || self.score == 150 || self.score == 300,
        ensures
            final(dot_map).wf(),
            forall|r: int, c: int|
                0 <= r < 26 && 0 <= c < 224 && !(r == 1 && self.pos.x <= c < self.pos.x + 8
                    * ufo_score_digits(self.score as int).len())
                    ==> #[trigger] final(dot_map).map@[r]@[c] == old(dot_map).map@[r]@[c],
            forall|j: int, dx: int|
                0 <= j < ufo_score_digits(self.score as int).len() && 0 <= dx < 8
                    ==> #[trigger] final(dot_map).map@[1]@[self.pos.x + 8 * j + dx]
                        == self.sprite_num@[ufo_score_digits(self.score as int)[j]]@[dx],
    {
        let p0 = self.pos;
        let p1 = Vec2::new(self.pos.x + 8, self.pos.y);
        let p2 = Vec2::new(self.pos.x + 16, self.pos.y);
        if self.score == 50 {
            Self::array_sprite_num(dot_map, &self.sprite_num[5], p0);
            Self::array_sprite_num(dot_map, &self.sprite_num[0], p1);
        } else if self.score == 100 {
            Self::array_sprite_num(dot_map, &self.sprite_num[1], p0);
            Self::array_sprite_num(dot_map, &self.sprite_num[0], p1);
            Self::array_sprite_num(dot_map, &self.sprite_num[0], p2);
        } else if self.score == 150 {
            Self::array_sprite_num(dot_map, &self.sprite_num[1], p0);
            Self::array_sprite_num(dot_map, &self.sprite_num[5], p1);
            Self::array_sprite_num(dot_map, &self.sprite_num[0], p2);
        } else {
            Self::array_sprite_num(dot_map, &self.sprite_num[3], p0);
            Self::array_sprite_num(dot_map, &self.sprite_num[0], p1);
            Self::array_sprite_num(dot_map, &self.sprite_num[0], p2);
        }
    }

    /// Opaque blit of a byte-row-aligned sprite into the playfield,
    /// overwriting whatever was there (digit rendering).
    pub fn array_sprite_num(dot_map: &mut DotMap, sprite: &Vec<u8>, pos: Vec2)
        requires
            old(dot_map).wf(),
            0 <= pos.y,
            pos.y % 8 == 0,
            pos.y / 8 < 26,
            0 <= pos.x,
            pos.x + sprite@.len() <= 224,
        ensures
            final(dot_map).wf(),
            forall|r: int, c: int|
                0 <= r < 26 && 0 <= c < 224 && !(r == pos.y / 8 && pos.x <= c < pos.x
                    + sprite@.len())
                    ==> #[trigger] final(dot_map).map@[r]@[c] == old(dot_map).map@[r]@[c],
            forall|dx: int|
                0 <= dx < sprite@.len()
                    ==> final(dot_map).map@[pos.y as int / 8]@[pos.x + dx] == #[trigger] sprite@[dx],
    {
        array_sprite_replace(&mut dot_map.map, pos, sprite);
    }

    /// Advances the effect one frame: the explosion sprite stays for the
    /// first frames, then the scored value is shown as digits, and past the
    /// display duration the effect erases itself and goes inactive.
    pub fn update_draw(&mut self, dot_map: &mut DotMap)
        requires
            old(self).wf(),
            old(dot_map).wf(),
        ensures
            final(self).wf(),
            final(self).pos == old(self).pos,
            final(self).score == old(self).score,
            final(self).sprite@ == old(self).sprite@,
            final(self).sprite_num@ == old(self).sprite_num@,
            final(self).show_cnt == step_show_cnt(old(self).show_cnt),
            final(dot_map).wf(),
            (old(self).show_cnt is None || old(self).show_cnt->Some_0 <= 20) ==> final(dot_map).map@ == old(dot_map).map@,
            forall|r: int, c: int|
                0 <= r < 26 && 0 <= c < 224 && r != 1
                    ==> #[trigger] final(dot_map).map@[r]@[c] == old(dot_map).map@[r]@[c],
            (old(self).show_cnt is Some && 20 < old(self).show_cnt->Some_0 <= 120) ==> {
                &&& forall|r: int, c: int|
                    0 <= r < 26 && 0 <= c < 224 && !(r == 1 && old(self).pos.x <= c < old(self).pos.x + 8 * ufo_score_digits(old(self).score as int).len())
                        ==> #[trigger] final(dot_map).map@[r]@[c] == old(dot_map).map@[r]@[c]
                &&& forall|j: int, dx: int|
                    0 <= j < ufo_score_digits(old(self).score as int).len() && 0 <= dx < 8
                        ==> #[trigger] final(dot_map).map@[1]@[old(self).pos.x + 8 * j + dx]
                            == old(self).sprite_num@[ufo_score_digits(old(self).score as int)[j]]@[dx]
            },
            (old(self).show_cnt is Some && 120 < old(self).show_cnt->Some_0) ==> {
                &&& forall|r: int, c: int|
                    0 <= r < 26 && 0 <= c < 224 && !(r == 1 && old(self).pos.x <= c < old(self).pos.x + 16)
                        ==> #[trigger] final(dot_map).map@[r]@[c] == old(dot_map).map@[r]@[c]
                &&& forall|dx: int|
                    0 <= dx < 16 ==> final(dot_map).map@[1]@[old(self).pos.x + dx]
                        == (old(dot_map).map@[1]@[old(self).pos.x + dx] & !(#[trigger] old(self).sprite@[dx]))
            },
    {
        if let Some(cnt) = self.show_cnt {
            if 120 < cnt {
                erase_sprite(&mut dot_map.map, self.pos, &self.sprite);
                self.show_cnt = None;
                return;
            } else if 20 < cnt {
                erase_sprite(&mut dot_map.map, self.pos, &self.sprite);
                self.draw_score(dot_map);
            }
            self.show_cnt = Some(cnt + 1);
        }
    }
}

/// The bonus flyer itself.
pub struct Ufo {
    pub width: i32,
    /// Top-left position; the flyer always flies in the second char row.
    pub pos: Vec2,
    /// Position at the previous draw, for exact erase-then-redraw.
    pub pre_pos: Vec2,
    pub live: bool,
    /// Horizontal flight direction, +1 or -1.
    pub move_dir: i32,
    /// When the flyer last despawned; gates respawn eligibility.
    pub lapse_time: instant::Instant,
    /// Score for a hit, keyed by `(shot count - 1) mod 15`.
    pub score_table: [i32; 15],
    pub sprite: Vec<u8>,
    pub explosion: Explosion,
}

impl Ufo {
    pub open spec fn wf(self) -> bool {
        &&& self.width == 16
        &&& self.sprite@.len() == 16
        &&& self.pos.y == 8
        &&& self.pre_pos.y == 8
        &&& 0 <= self.pos.x <= 200
        &&& 0 <= self.pre_pos.x <= 200
        &&& (self.move_dir == 1 || self.move_dir == -1)
        &&& (forall|i: int| 0 <= i < 15 ==> self.score_table@[i] == ufo_score_table(i))
        &&& self.explosion.wf()
    }

    pub fn new(sprite: Vec<u8>, explosion_sprite: Vec<u8>, num_list: Vec<Vec<u8>>) -> (u: Ufo)
        requires
            sprite@.len() == 16,
            explosion_sprite@.len() == 16,
            num_sprites_wf(num_list@),
        ensures
            u.wf(),
            !u.live,
            u.move_dir == 1,
            u.pos == (Vec2 { x: 0, y: 8 }),
            u.pre_pos == u.pos,
            u.explosion.show_cnt is None,
            u.explosion.score == 0,
            u.sprite@ == sprite@,
    {
        let table: [i32; 15] = [50, 50, 100, 150, 100, 100, 50, 300, 100, 100, 100, 50, 150, 100, 100];
        Ufo {
            width: 16,
            pos: Vec2::new(0, 8),
            pre_pos: Vec2::new(0, 8),
            live: false,
            move_dir: 1,
            score_table: table,
            lapse_time: instant_now(),
            sprite,
            explosion: Explosion {
                pos: Vec2::new(0, 8),
                show_cnt: None,
                sprite: explosion_sprite,
                sprite_num: num_list,
                score: 0,
            },
        }
    }

    /// Despawns the flyer and restarts the respawn timer.
    pub fn reset(&mut self)
        requires
            old(self).wf(),
        ensures
            final(self).wf(),
            !final(self).live,
            final(self).pos == old(self).pos,
            final(self).pre_pos == old(self).pre_pos,
            final(self).move_dir == old(self).move_dir,
            final(self).explosion == old(self).explosion,
            final(self).sprite@ == old(self).sprite@,
            final(self).width == old(self).width,
            final(self).score_table == old(self).score_table,
    {
        self.live = false;
        self.lapse_time = instant_now();
    }

    /// Removes the flyer from the playfield: erases its last drawn sprite,
    /// reverses the direction for the next spawn, restarts the respawn
    /// timer, and asks the host to stop the flight sound.
    fn remove(&mut self, dot_map: &mut DotMap, cues: &mut Vec<SoundCue>)
        requires
            old(self).wf(),
            old(dot_map).wf(),
        ensures
            final(self).wf(),
            !final(self).live,
            final(self).move_dir == -old(self).move_dir,
            final(self).pos == old(self).pos,
            final(self).pre_pos == old(self).pre_pos,
            final(self).explosion == old(self).explosion,
            final(self).sprite@ == old(self).sprite@,
            final(self).width == old(self).width,
            final(self).score_table == old(self).score_table,
            final(dot_map).wf(),
            forall|r: int, c: int|
                0 <= r < 26 && 0 <= c < 224 && !(r == 1 && old(self).pre_pos.x <= c < old(self).pre_pos.x + 16)
                    ==> #[trigger] final(dot_map).map@[r]@[c] == old(dot_map).map@[r]@[c],
            forall|dx: int|
                0 <= dx < 16 ==> final(dot_map).map@[1]@[old(self).pre_pos.x + dx]
                    == (old(dot_map).map@[1]@[old(self).pre_pos.x + dx] & !(#[trigger] old(self).sprite@[dx])),
            final(cues)@ == old(cues)@.push(SoundCue::UfoFlyingStop),
    {
        self.live = false;
        self.move_dir = -self.move_dir;
        self.lapse_time = instant_now();
        erase_sprite(&mut dot_map.map, self.pre_pos, &self.sprite);
        cues.push(SoundCue::UfoFlyingStop);
    }

    /// A hit by the player's shot: the flyer is removed, its explosion
    /// effect starts at the flyer's position, and the awarded score — the
    /// table entry for `(fire_cnt - 1) mod 15` — is returned.
    pub fn hit_player_bullet(
        &mut self,
        dot_map: &mut DotMap,
        fire_cnt: i32,
        cues: &mut Vec<SoundCue>,
    ) -> (score: i32)
        requires
            old(self).wf(),
            old(dot_map).wf(),
            fire_cnt >= 1,
        ensures
            final(self).wf(),
            final(dot_map).wf(),
            score == ufo_score_table((fire_cnt - 1) as int % 15),
            !final(self).live,
            final(self).move_dir == -old(self).move_dir,
            final(self).pos == old(self).pos,
            final(self).explosion.show_cnt == Option::<i32>::Some(0),
            final(self).explosion.score == score,
            final(self).explosion.pos == old(self).pos,
            final(self).sprite@ == old(self).sprite@,
            final(self).width == old(self).width,
            final(self).score_table == old(self).score_table,
            final(cues)@ == old(cues)@.push(SoundCue::UfoFlyingStop).push(SoundCue::UfoExplosion),
            forall|r: int, c: int|
                0 <= r < 26 && 0 <= c < 224 && r != 1
                    ==> #[trigger] final(dot_map).map@[r]@[c] == old(dot_map).map@[r]@[c],
            forall|c: int|
                0 <= c < 224 ==> #[trigger] final(dot_map).map@[1]@[c] == ({
                    let e = if old(self).pre_pos.x <= c < old(self).pre_pos.x + 16 {
                        old(dot_map).map@[1]@[c] & !old(self).sprite@[c - old(self).pre_pos.x]
                    } else {
                        old(dot_map).map@[1]@[c]
                    };
                    if old(self).pos.x <= c < old(self).pos.x + 16 {
                        e | old(self).explosion.sprite@[c - old(self).pos.x]
                    } else {
                        e
                    }
                }),
    {
        let idx: usize = ((fire_cnt - 1) % 15) as usize;
        proof {
            assert(0 <= (fire_cnt - 1) as int % 15 < 15);
            assert(idx as int == (fire_cnt - 1) as int % 15);
        }
        let score = self.score_table[idx];
        proof {
            assert(score == ufo_score_table(idx as int));
            assert(score == 50 || score == 100 || score == 150 || score == 300);
        }
        self.explosion.score = score;
        self.remove(dot_map, cues);
        self.explosion.create_effect(dot_map, self.pos);
        cues.push(SoundCue::UfoExplosion);
        score
    }

    /// One frame of the flyer: advance the explosion effect, despawn at the
    /// playfield edge, fly one dot while live, or — while dormant — spawn
    /// once enough wall-clock time has passed since the last despawn and
    /// more than 7 aliens are alive, entering from the side given by the
    /// parity of the player's shot count.
    pub fn update(
        &mut self,
        dot_map: &mut DotMap,
        fire_cnt: i32,
        alien_num: i32,
        cues: &mut Vec<SoundCue>,
    )
        requires
            old(self).wf(),
            old(dot_map).wf(),
            fire_cnt >= 0,
        ensures
            final(self).wf(),
            final(dot_map).wf(),
            final(self).sprite@ == old(self).sprite@,
            final(self).width == old(self).width,
            final(self).score_table == old(self).score_table,
            final(self).explosion.show_cnt == step_show_cnt(old(self).explosion.show_cnt),
            final(self).explosion.pos == old(self).explosion.pos,
            final(self).explosion.score == old(self).explosion.score,
            forall|r: int, c: int|
                0 <= r < 26 && 0 <= c < 224 && r != 1
                    ==> #[trigger] final(dot_map).map@[r]@[c] == old(dot_map).map@[r]@[c],
            ({
                let out_of_bounds = (old(self).move_dir < 0 && old(self).pos.x < 8) || (0 < old(self).move_dir && GAME_WIDTH - 8 <= old(self).pos.x + old(self).width);
                &&& out_of_bounds ==> {
                    &&& !final(self).live
                    &&& final(self).move_dir == -old(self).move_dir
                    &&& final(self).pos == old(self).pos
                    &&& final(cues)@ == old(cues)@.push(SoundCue::UfoFlyingStop)
                }
                &&& (!out_of_bounds && old(self).live) ==> {
                    &&& final(self).live
                    &&& final(self).move_dir == old(self).move_dir
                    &&& final(self).pos.x == old(self).pos.x + old(self).move_dir
                    &&& final(cues)@ == old(cues)@
                }
                &&& (!out_of_bounds && !old(self).live) ==> {
                    &&& (final(self).live ==> {
                        &&& alien_num > 7
                        &&& (fire_cnt % 2 == 0 ==> final(self).pos.x == GAME_WIDTH - 24
                            && final(self).move_dir == -1)
                        &&& (fire_cnt % 2 != 0 ==> final(self).pos.x == 8 && final(self).move_dir == 1)
                        &&& final(cues)@ == old(cues)@.push(SoundCue::UfoFlyingStart)
                    })
                    &&& (!final(self).live ==> {
                        &&& final(self).pos == old(self).pos
                        &&& final(self).move_dir == old(self).move_dir
                        &&& final(cues)@ == old(cues)@
                    })
                    &&& (alien_num <= 7 ==> !final(self).live)
                }
                &&& final(self).pre_pos == old(self).pos
            }),
            old(self).explosion.show_cnt is None ==> ({
                let u = *old(self);
                let off_edge = (u.move_dir < 0 && u.pos.x < 8) || (0 < u.move_dir && GAME_WIDTH
                    - 8 <= u.pos.x + u.width);
                &&& (off_edge ==> forall|c: int|
                    0 <= c < 224 ==> #[trigger] final(dot_map).map@[1]@[c] == (if u.pos.x <= c
                        < u.pos.x + 16 {
                        old(dot_map).map@[1]@[c] & !u.sprite@[c - u.pos.x]
                    } else {
                        old(dot_map).map@[1]@[c]
                    }))
                &&& ((!off_edge && u.live) ==> forall|c: int|
                    0 <= c < 224 ==> #[trigger] final(dot_map).map@[1]@[c] == ({
                        let e = if u.pos.x <= c < u.pos.x + 16 {
                            old(dot_map).map@[1]@[c] & !u.sprite@[c - u.pos.x]
                        } else {
                            old(dot_map).map@[1]@[c]
                        };
                        if u.pos.x + u.move_dir <= c < u.pos.x + u.move_dir + 16 {
                            e | u.sprite@[c - (u.pos.x + u.move_dir)]
                        } else {
                            e
                        }
                    }))
                &&& ((!off_edge && !u.live && !final(self).live) ==> forall|c: int|
                    0 <= c < 224 ==> #[trigger] final(dot_map).map@[1]@[c] == old(dot_map).map@[1]@[c])
                &&& ((!off_edge && !u.live && final(self).live) ==> forall|c: int|
                    0 <= c < 224 ==> #[trigger] final(dot_map).map@[1]@[c] == ({
                        let e = if u.pos.x <= c < u.pos.x + 16 {
                            old(dot_map).map@[1]@[c] & !u.sprite@[c - u.pos.x]
                        } else {
                            old(dot_map).map@[1]@[c]
                        };
                        if final(self).pos.x <= c < final(self).pos.x + 16 {
                            e | u.sprite@[c - final(self).pos.x]
                        } else {
                            e
                        }
                    }))
            }),
    {
        self.pre_pos = self.pos;
        self.explosion.update_draw(dot_map);
        if (self.move_dir < 0 && self.pos.x < 8) || (0 < self.move_dir && GAME_WIDTH - 8
            <= self.pos.x + self.width) {
            self.remove(dot_map, cues);
            return;
        }
        if self.live {
            self.pos.x += self.move_dir;
        } else {
            let elapsed = elapsed_whole_secs(&self.lapse_time);
            if 25 < elapsed && 7 < alien_num {
                self.live = true;
                if fire_cnt % 2 == 0 {
                    self.pos.x = GAME_WIDTH - self.width - 8;
                    self.move_dir = -1;
                } else {
                    self.pos.x = 8;
                    self.move_dir = 1;
                }
                cues.push(SoundCue::UfoFlyingStart);
            }
        }
        self.draw(dot_map);
    }

    /// Erase at the previous position, draw at the new one (while live).
    fn draw(&self, dot_map: &mut DotMap)
        requires
            self.wf(),
            old(dot_map).wf(),
        ensures
            final(dot_map).wf(),
            forall|r: int, c: int|
                0 <= r < 26 && 0 <= c < 224 && r != 1
                    ==> #[trigger] final(dot_map).map@[r]@[c] == old(dot_map).map@[r]@[c],
            !self.live ==> final(dot_map).map@ == old(dot_map).map@,
            self.live ==> forall|c: int|
                0 <= c < 224 ==> #[trigger] final(dot_map).map@[1]@[c] == ({
                    let e = if self.pre_pos.x <= c < self.pre_pos.x + 16 {
                        old(dot_map).map@[1]@[c] & !self.sprite@[c - self.pre_pos.x]
                    } else {
                        old(dot_map).map@[1]@[c]
                    };
                    if self.pos.x <= c < self.pos.x + 16 {
                        e | self.sprite@[c - self.pos.x]
                    } else {
                        e
                    }
                }),
    {
        if !self.live {
            return;
        }
        erase_sprite(&mut dot_map.map, self.pre_pos, &self.sprite);
        array_sprite(&mut dot_map.map, self.pos, &self.sprite);
    }
}

} // verus!
