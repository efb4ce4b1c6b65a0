//! The scene controller: the outermost state machine of the game.
//!
//! One call to `tick` performs exactly one scene-state transition and one
//! round of entity updates, redraws the status areas, and appends the sound
//! cues the host should play.  The host then renders the frame (see the
//! regions' `convert_to_color_bytes`) and schedules the next tick.

use vstd::prelude::*;

use crate::alien::{alien_y, Alien, BulletManage};
use crate::array_sprite::put_byte;
use crate::bottom_area::BottomArea;
use crate::canvas::{GAME_HEIGHT, GAME_WIDTH};
use crate::dot_map::DotMap;
use crate::input::KeyDown;
use crate::pause::Pause;
use crate::player::{player_next_x, Bullet, Player};
use crate::sound::SoundCue;
use crate::sprite::{clone_grid, clone_row, SpriteSet};
use crate::top_area::TopArea;
use crate::ufo::Ufo;

verus! {

/// The active scene.  Countdown variants carry the remaining frame count,
/// consumed one unit per tick.
#[derive(Debug, Clone, Copy, PartialEq, Eq, Structural)]
pub enum Scene {
    Title,
    Play,
    Pause,
    LaunchGame(i32),
    LaunchStage(i32),
    ResetStage,
    Gameover(i32),
}

/// Countdown payloads stay in the range the game itself produces.
pub open spec fn scene_payload_wf(s: Scene) -> bool {
    match s {
        Scene::LaunchGame(c) => -1 <= c <= 1000,
        Scene::LaunchStage(c) => -1 <= c <= 1000,
        Scene::Gameover(c) => -1 <= c <= 1000,
        _ => true,
    }
}

/// One tick of the scene machine for the states that advance on time alone
/// — with no input and no entity influence.  `Title` waits, countdowns run
/// down and hand over, and the one-frame `ResetStage` enters `Play`.
pub open spec fn timed_scene_step(s: Scene) -> Scene {
    match s {
        Scene::Title => Scene::Title,
        Scene::LaunchGame(c) => if c < 0 {
            Scene::ResetStage
        } else {
            Scene::LaunchGame((c - 1) as i32)
        },
        Scene::LaunchStage(c) => if c < 0 {
            Scene::ResetStage
        } else {
            Scene::LaunchStage((c - 1) as i32)
        },
        Scene::Gameover(c) => if c < 0 {
            Scene::Title
        } else {
            Scene::Gameover((c - 1) as i32)
        },
        Scene::ResetStage => Scene::Play,
        Scene::Play => Scene::Play,
        Scene::Pause => Scene::Pause,
    }
}

/// `n` ticks of `timed_scene_step`.
pub open spec fn run_timed(s: Scene, n: nat) -> Scene
    decreases n,
{
    if n == 0 {
        s
    } else {
        run_timed(timed_scene_step(s), (n - 1) as nat)
    }
}

/// Column `dx` of shield block `g`.
pub open spec fn shield_col(g: int, dx: int) -> int {
    33 + 45 * g + dx
}

pub struct Game {
    pub map: DotMap,
    pub top: TopArea,
    pub bottom: BottomArea,
    pub player: Player,
    pub player_bullet: Bullet,
    pub alien: Alien,
    pub alien_bullets: BulletManage,
    pub ufo: Ufo,
    /// The shield bitmap: two stacked 22-column strips.
    pub shield: Vec<u8>,
    pub stage: usize,
    /// While true the whole frame is rendered in the alert color.
    pub player_exploding: bool,
    pub pause: Pause,
    pub scene: Scene,
}

impl Game {
    pub open spec fn wf(self) -> bool {
        &&& self.map.wf()
        &&& self.top.wf()
        &&& self.bottom.wf()
        &&& self.player.wf()
        &&& self.player_bullet.wf()
        &&& self.alien.wf()
        &&& self.alien_bullets.wf()
        &&& self.ufo.wf()
        &&& self.shield@.len() == 44
        &&& 1 <= self.stage <= 10000
        &&& scene_payload_wf(self.scene)
        &&& ((self.scene == Scene::Play || self.scene == Scene::Pause)
            ==> !self.alien.spec_invaded())
    }

    pub fn new(sprites: SpriteSet) -> (g: Game)
        requires
            sprites.wf(),
        ensures
            g.wf(),
            g.scene == Scene::Title,
            g.stage == 1,
            g.map.all_zero(),
            g.top.all_zero(),
            g.bottom.all_zero(),
            g.player.life == 3,
            g.player_bullet.score == 0,
            g.player_bullet.fire_cnt == 0,
            !g.player_exploding,
            !g.pause.prev,
    {
        let num_top = clone_grid(&sprites.num);
        let num_bottom = clone_grid(&sprites.num);
        let num_ufo = clone_grid(&sprites.num);
        let player_for_bottom = clone_row(&sprites.player);
        Game {
            map: DotMap::new(),
            top: TopArea::new(num_top),
            bottom: BottomArea::new(num_bottom, player_for_bottom),
            player: Player::new(
                sprites.player,
                sprites.player_explosion_1,
                sprites.player_explosion_2,
            ),
            player_bullet: Bullet::new(sprites.player_bullet),
            alien: Alien::new(
                sprites.octopus_open,
                sprites.octopus_close,
                sprites.crab_banzai,
                sprites.crab_down,
                sprites.squid_open,
                sprites.squid_close,
                sprites.alien_explosion,
            ),
            alien_bullets: BulletManage::new(),
            ufo: Ufo::new(sprites.ufo, sprites.ufo_explosion, num_ufo),
            shield: sprites.shield,
            stage: 1,
            player_exploding: false,
            pause: Pause::new(),
            scene: Scene::Title,
        }
    }

    /// One tick: redraw the status areas, then run exactly one scene-state's
    /// logic, appending the frame's sound cues to `cues`.
    #[verifier::rlimit(100)]
    pub fn tick(&mut self, input: KeyDown, cues: &mut Vec<SoundCue>)
        requires
            old(self).wf(),
        ensures
            final(self).wf(),
            final(self).shield@ == old(self).shield@,
            (match old(self).scene {
                Scene::Title => !input.shot,
                Scene::LaunchGame(_) => true,
                Scene::LaunchStage(_) => true,
                Scene::Gameover(_) => true,
                Scene::ResetStage => true,
                _ => false,
            }) ==> final(self).scene == timed_scene_step(old(self).scene),
            old(self).scene == Scene::Title ==> {
                &&& final(self).scene == (if input.shot {
                    Scene::LaunchGame(10)
                } else {
                    Scene::Title
                })
                &&& final(self).stage == old(self).stage
                &&& final(self).player_bullet.score == old(self).player_bullet.score
                &&& (input.shot ==> final(self).map.all_zero() && final(self).top.all_zero()
                    && final(self).bottom.all_zero())
            },
            old(self).scene matches Scene::LaunchGame(c) ==> {
                &&& (c < 0 ==> {
                    &&& final(self).scene == Scene::ResetStage
                    &&& final(self).stage == 1
                    &&& final(self).player.life == 3
                    &&& final(self).player.pos.x == 8
                    &&& final(self).player.explosion_cnt is None
                    &&& !final(self).player_bullet.live
                    &&& final(self).player_bullet.score == 0
                    &&& final(self).player_bullet.fire_cnt == 0
                })
                &&& (c >= 0 ==> {
                    &&& final(self).scene == Scene::LaunchGame((c - 1) as i32)
                    &&& final(self).stage == old(self).stage
                    &&& final(self).player_bullet.score == old(self).player_bullet.score
                })
            },
            old(self).scene matches Scene::LaunchStage(c) ==> {
                &&& (c < 0 ==> {
                    &&& final(self).scene == Scene::ResetStage
                    &&& final(self).stage == (if old(self).stage < 10000 {
                        old(self).stage + 1
                    } else {
                        old(self).stage as int
                    })
                    &&& final(self).player.life == old(self).player.life
                    &&& final(self).player.pos.x == 8
                    &&& final(self).player.explosion_cnt is None
                    &&& !final(self).player_bullet.live
                    &&& final(self).player_bullet.score == old(self).player_bullet.score
                    &&& final(self).player_bullet.fire_cnt == old(self).player_bullet.fire_cnt
                })
                &&& (c >= 0 ==> {
                    &&& final(self).scene == Scene::LaunchStage((c - 1) as i32)
                    &&& final(self).stage == old(self).stage
                    &&& final(self).player_bullet.score == old(self).player_bullet.score
                })
            },
            old(self).scene matches Scene::Gameover(c) ==> {
                &&& (c < 0 ==> final(self).scene == Scene::Title && final(self).player_bullet.score == 0)
                &&& (c >= 0 ==> {
                    &&& final(self).scene == Scene::Gameover((c - 1) as i32)
                    &&& final(self).player_bullet.score == old(self).player_bullet.score
                    &&& final(self).player.life == old(self).player.life
                    &&& (old(self).player.explosion_cnt matches Some(e) ==> final(self).player.explosion_cnt == (if e >= 24 {
                        Option::<i32>::None
                    } else {
                        Option::<i32>::Some((e + 1) as i32)
                    }))
                    &&& (old(self).player.explosion_cnt is None ==> final(self).player.explosion_cnt is None)
                })
                &&& final(self).stage == old(self).stage
            },
            old(self).scene == Scene::ResetStage ==> {
                &&& final(self).scene == Scene::Play
                &&& final(self).stage == old(self).stage
                &&& final(self).player_bullet.score == old(self).player_bullet.score
                &&& final(self).player.life == old(self).player.life
                &&& final(self).alien.live_num == 55
                &&& (forall|i: int| 0 <= i < 55 ==> final(self).alien.live@[i])
                &&& final(self).alien.ref_pos.x == 8
                &&& final(self).alien.ref_pos.y == 48 + 8 * (if old(self).stage <= 9 {
                    (old(self).stage - 1) as int
                } else {
                    8
                })
                &&& !final(self).ufo.live
                &&& final(self).top.all_zero()
                &&& final(self).bottom.all_zero()
                &&& final(self).alien_bullets.fire_timer == 0
                &&& (forall|b: int|
                    0 <= b < 3 ==> !(#[trigger] final(self).alien_bullets.bullets@[b]).live)
                &&& (forall|c: int| 0 <= c < 224 ==> #[trigger] final(self).map.map@[25]@[c] == 128)
                &&& (forall|g: int, dx: int|
                    0 <= g < 4 && 0 <= dx < 22 ==> final(self).map.map@[20]@[#[trigger] shield_col(
                        g,
                        dx,
                    )] == old(self).shield@[dx] && final(self).map.map@[21]@[shield_col(g, dx)]
                        == old(self).shield@[22 + dx])
                &&& (forall|r: int, c: int|
                    0 <= r < 26 && 0 <= c < 224 && r != 20 && r != 21 && r != 25
                        ==> #[trigger] final(self).map.map@[r]@[c] == 0)
                &&& (forall|r: int, c: int|
                    (r == 20 || r == 21) && 0 <= c < 224 && (forall|g: int|
                        0 <= g < 4 ==> !(#[trigger] shield_col(g, 0) <= c < shield_col(g, 0)
                            + 22)) ==> #[trigger] final(self).map.map@[r]@[c] == 0)
            },
            old(self).scene == Scene::Play ==> {
                &&& final(self).scene == (if final(self).player.life <= 0 || final(self).alien.spec_invaded() {
                    Scene::Gameover(120)
                } else if final(self).alien.live_num <= 0 {
                    Scene::LaunchStage(120)
                } else if old(self).pause.prev && !input.pause {
                    Scene::Pause
                } else {
                    Scene::Play
                })
                &&& final(self).player_exploding == (final(self).player.explosion_cnt is Some)
                &&& ((!old(self).player_exploding && old(self).alien.live_num > 0 && !final(self).alien.spec_invaded()) ==> {
                    &&& final(self).alien.move_dir == old(self).alien.next_move_dir()
                    &&& final(self).alien.ref_pos.x == old(self).alien.next_ref_x()
                    &&& final(self).alien.ref_pos.y == old(self).alien.next_ref_y()
                })
                &&& (old(self).player_exploding ==> {
                    &&& final(self).alien.ref_pos == old(self).alien.ref_pos
                    &&& final(self).alien.move_dir == old(self).alien.move_dir
                    &&& final(self).alien.anim_open == old(self).alien.anim_open
                })
                &&& ((old(self).player.explosion_cnt is None && final(self).player.life == old(self).player.life && !final(self).alien.spec_invaded()) ==> {
                    &&& final(self).player.pos.x == player_next_x(
                        old(self).player.pos.x as int,
                        input.left,
                        input.right,
                    )
                    &&& final(self).player.explosion_cnt is None
                })
                &&& ((old(self).player.explosion_cnt is None && final(self).player.life == old(self).player.life - 1 && !final(self).alien.spec_invaded()) ==> final(self).player.explosion_cnt == Option::<i32>::Some(1))
                &&& (old(self).player.explosion_cnt matches Some(c) ==> (!final(self).alien.spec_invaded() ==> {
                    &&& final(self).player.pos == old(self).player.pos
                    &&& final(self).player.life == old(self).player.life
                    &&& final(self).player.explosion_cnt == (if c >= 24 {
                        Option::<i32>::None
                    } else {
                        Option::<i32>::Some((c + 1) as i32)
                    })
                }))
                &&& ({
                    let u = old(self).ufo;
                    let off_edge = (u.move_dir < 0 && u.pos.x < 8) || (0 < u.move_dir
                        && GAME_WIDTH - 8 <= u.pos.x + u.width);
                    &&& ((u.live && !off_edge && final(self).ufo.live) ==> {
                        &&& final(self).ufo.pos.x == u.pos.x + u.move_dir
                        &&& final(self).ufo.move_dir == u.move_dir
                    })
                    &&& ((u.live && off_edge) ==> !final(self).ufo.live)
                })
                &&& (forall|b: int|
                    0 <= b < 3 && (#[trigger] final(self).alien_bullets.bullets@[b]).live ==> {
                        ||| (old(self).alien_bullets.bullets@[b].live && final(self).alien_bullets.bullets@[b].pos.x == old(self).alien_bullets.bullets@[b].pos.x && final(self).alien_bullets.bullets@[b].pos.y == old(self).alien_bullets.bullets@[b].pos.y + 2)
                        ||| 0 <= final(self).alien_bullets.bullets@[b].pos.y <= 192
                    })
                &&& (old(self).player_bullet.live ==> final(self).player_bullet.fire_cnt == old(self).player_bullet.fire_cnt)
                &&& ((old(self).player_bullet.live && final(self).player_bullet.live) ==> {
                    &&& final(self).player_bullet.pos.y == old(self).player_bullet.pos.y - 4
                    &&& final(self).player_bullet.pos.x == old(self).player_bullet.pos.x
                })
                &&& ((!old(self).player_bullet.live && input.shot && final(self).player.explosion_cnt is None && !final(self).alien.spec_invaded() && old(self).player_bullet.fire_cnt < 2000000000) ==> {
                    &&& final(self).player_bullet.live
                    &&& final(self).player_bullet.fire_cnt == old(self).player_bullet.fire_cnt + 1
                })
                &&& ((!old(self).player_bullet.live && !input.shot) ==> {
                    &&& !final(self).player_bullet.live
                    &&& final(self).player_bullet.fire_cnt == old(self).player_bullet.fire_cnt
                })
                &&& ((final(self).player.life <= 0 || final(self).alien.spec_invaded())
                    ==> !final(self).ufo.live)
                &&& (final(self).alien.spec_invaded() ==> final(self).player.explosion_cnt
                    == Option::<i32>::Some(0))
                &&& final(self).stage == old(self).stage
                &&& final(self).player_bullet.score >= old(self).player_bullet.score
                &&& final(self).pause.prev == input.pause
            },
            old(self).scene == Scene::Pause ==> {
                &&& final(self).scene == (if old(self).pause.prev && !input.pause {
                    Scene::Play
                } else {
                    Scene::Pause
                })
                &&& final(self).stage == old(self).stage
                &&& final(self).player_bullet.score == old(self).player_bullet.score
                &&& final(self).player.life == old(self).player.life
                &&& final(self).player.pos == old(self).player.pos
                &&& final(self).player.explosion_cnt == old(self).player.explosion_cnt
                &&& final(self).player_bullet == old(self).player_bullet
                &&& final(self).alien == old(self).alien
                &&& final(self).alien_bullets == old(self).alien_bullets
                &&& final(self).ufo == old(self).ufo
                &&& final(self).map.map@ == old(self).map.map@
                &&& final(self).pause.prev == input.pause
            },
    {
        self.top.draw_score(self.player_bullet.score);
        self.bottom.draw(self.player.life);
        match self.scene {
            Scene::Title => {
                if input.shot {
                    self.scene = Scene::LaunchGame(10);
                    self.top.all_clear();
                    self.map.all_clear();
                    self.bottom.all_clear();
                }
            },
            Scene::Play => {
                if self.pause.toggle_pause(input.pause) {
                    self.scene = Scene::Pause;
                }
                self.ufo.update(
                    &mut self.map,
                    self.player_bullet.fire_cnt,
                    self.alien.live_num,
                    cues,
                );
                self.alien.update(&mut self.map, self.player_exploding, cues);
                let ghost alien_moved = self.alien;
                self.alien_bullets.update(
                    &mut self.map,
                    &mut self.player,
                    &self.alien,
                    self.player_bullet.score,
                    cues,
                );
                self.player.update(&mut self.map, &input);
                self.player_bullet.update(
                    &mut self.map,
                    &self.player,
                    &mut self.ufo,
                    &mut self.alien,
                    &input,
                    cues,
                );
                if self.alien.live_num <= 0 {
                    self.scene = Scene::LaunchStage(120);
                }
                if self.player.life <= 0 || self.alien.invaded() {
                    self.scene = Scene::Gameover(120);
                    self.ufo.reset();
                    if self.alien.invaded() {
                        proof {
                            assert forall|i: int|
                                0 <= i < 55 && self.alien.live@[i] implies alien_y(
                                self.alien.ref_pos.y as int,
                                i,
                            ) <= 192 by {
                                assert(alien_moved.live@[i]);
                                assert(old(self).alien.live@[i]);
                                assert(alien_y(old(self).alien.ref_pos.y as int, i) <= 183);
                                assert(alien_moved.ref_pos.y <= old(self).alien.ref_pos.y + 8);
                                assert(self.alien.ref_pos == alien_moved.ref_pos);
                            }
                        }
                        self.alien.update(&mut self.map, self.player_exploding, cues);
                        self.player.remove(&mut self.map, cues);
                    }
                }
                self.player_exploding = if self.player.explosion_cnt.is_none() {
                    false
                } else {
                    true
                };
            },
            Scene::ResetStage => {
                self.scene = Scene::Play;
                self.map.all_clear();
                self.top.all_clear();
                self.bottom.all_clear();
                self.map.draw_holizon_line(GAME_HEIGHT - 1);
                proof {
                    assert((207int % 8) == 7);
                    assert(0u8 | (1u8 << 7u8) == 128u8) by (bit_vector);
                }
                lay_shields(&mut self.map, &self.shield);
                self.alien.reset(self.stage);
                self.alien_bullets.reset();
                self.ufo.reset();
            },
            Scene::LaunchGame(cnt) => {
                if cnt < 0 {
                    self.scene = Scene::ResetStage;
                    self.stage = 1;
                    self.player.reset_all();
                    self.player_bullet.reset_all();
                } else {
                    self.scene = Scene::LaunchGame(cnt - 1);
                }
            },
            Scene::LaunchStage(cnt) => {
                if cnt < 0 {
                    self.scene = Scene::ResetStage;
                    // The stage cap is far beyond reachable play; it only
                    // bounds the arithmetic.
                    if self.stage < 10000 {
                        self.stage = self.stage + 1;
                    }
                    self.player.reset_stage();
                    self.player_bullet.reset_stage();
                } else {
                    self.scene = Scene::LaunchStage(cnt - 1);
                }
            },
            Scene::Gameover(cnt) => {
                if cnt < 0 {
                    self.scene = Scene::Title;
                    self.player_bullet.score = 0;
                } else {
                    self.scene = Scene::Gameover(cnt - 1);
                    if let Some(c) = self.player.explosion_cnt {
                        if c <= self.player.const_max_explosion_cnt {
                            self.player.update(&mut self.map, &input);
                        }
                    }
                }
            },
            Scene::Pause => {
                if self.pause.toggle_pause(input.pause) {
                    self.scene = Scene::Play;
                }
            },
        }
    }
}

/// Lays the four shield blocks out at their fixed offsets: block `g` covers
/// columns `33 + 45 g` to `33 + 45 g + 21` of char rows 20 and 21, the top
/// strip of the bitmap in row 20 and the bottom strip in row 21.
#[verifier::loop_isolation(false)]
fn lay_shields(map: &mut DotMap, shield: &Vec<u8>)
    requires
        old(map).wf(),
        shield@.len() == 44,
    ensures
        final(map).wf(),
        forall|r: int, c: int|
            0 <= r < 26 && 0 <= c < 224 && r != 20 && r != 21
                ==> #[trigger] final(map).map@[r]@[c] == old(map).map@[r]@[c],
        forall|g: int, dx: int|
            0 <= g < 4 && 0 <= dx < 22 ==> final(map).map@[20]@[#[trigger] shield_col(g, dx)]
                == shield@[dx] && final(map).map@[21]@[shield_col(g, dx)] == shield@[22 + dx],
        forall|r: int, c: int|
            0 <= r < 26 && 0 <= c < 224 && (forall|g: int|
                0 <= g < 4 ==> !(#[trigger] shield_col(g, 0) <= c < shield_col(g, 0) + 22))
                ==> #[trigger] final(map).map@[r]@[c] == old(map).map@[r]@[c],
{
    let mut g: usize = 0;
    while g < 4
        invariant
            g <= 4,
            map.wf(),
            forall|r: int, c: int|
                0 <= r < 26 && 0 <= c < 224 && r != 20 && r != 21
                    ==> #[trigger] map.map@[r]@[c] == old(map).map@[r]@[c],
            forall|g2: int, dx: int|
                0 <= g2 < g && 0 <= dx < 22 ==> map.map@[20]@[#[trigger] shield_col(g2, dx)]
                    == shield@[dx] && map.map@[21]@[shield_col(g2, dx)] == shield@[22 + dx],
            forall|r: int, c: int|
                0 <= r < 26 && 0 <= c < 224 && (forall|g2: int|
                    0 <= g2 < 4 ==> !(#[trigger] shield_col(g2, 0) <= c < shield_col(g2, 0) + 22))
                    ==> #[trigger] map.map@[r]@[c] == old(map).map@[r]@[c],
        decreases 4 - g,
    {
        let base = 33 + 45 * g;
        let mut dx: usize = 0;
        while dx < 22
            invariant
                dx <= 22,
                g < 4,
                base == 33 + 45 * g,
                map.wf(),
                forall|r: int, c: int|
                    0 <= r < 26 && 0 <= c < 224 && r != 20 && r != 21
                        ==> #[trigger] map.map@[r]@[c] == old(map).map@[r]@[c],
                forall|g2: int, dx2: int|
                    0 <= g2 < g && 0 <= dx2 < 22 ==> map.map@[20]@[#[trigger] shield_col(g2, dx2)]
                        == shield@[dx2] && map.map@[21]@[shield_col(g2, dx2)] == shield@[22 + dx2],
                forall|dx2: int|
                    0 <= dx2 < dx ==> map.map@[20]@[#[trigger] shield_col(g as int, dx2)]
                        == shield@[dx2] && map.map@[21]@[shield_col(g as int, dx2)] == shield@[22
                        + dx2],
                forall|r: int, c: int|
                    0 <= r < 26 && 0 <= c < 224 && (forall|g2: int|
                        0 <= g2 < 4 ==> !(#[trigger] shield_col(g2, 0) <= c < shield_col(g2, 0)
                            + 22)) ==> #[trigger] map.map@[r]@[c] == old(map).map@[r]@[c],
            decreases 22 - dx,
        {
            put_byte(&mut map.map, 20, base + dx, shield[dx]);
            put_byte(&mut map.map, 21, base + dx, shield[22 + dx]);
            proof {
                assert forall|r: int, c: int|
                    0 <= r < 26 && 0 <= c < 224 && (forall|g2: int|
                        0 <= g2 < 4 ==> !(#[trigger] shield_col(g2, 0) <= c < shield_col(g2, 0)
                            + 22)) implies #[trigger] map.map@[r]@[c] == old(map).map@[r]@[c] by {
                    assert(!(shield_col(g as int, 0) <= c < shield_col(g as int, 0) + 22));
                }
            }
            dx += 1;
        }
        g += 1;
    }
}

/// While a launch countdown runs, each timed tick only lowers the count:
/// after `n` ticks (`n <= c + 1`) the scene is still `LaunchGame`, never a
/// later state — the countdown is not skipped.
pub proof fn lemma_launch_countdown_runs(c: i32, n: nat)
    requires
        n <= c + 1,
    ensures
        run_timed(Scene::LaunchGame(c), n) == Scene::LaunchGame((c - n) as i32),
    decreases n,
{
    if n > 0 {
        lemma_launch_countdown_runs((c - 1) as i32, (n - 1) as nat);
    }
}

/// `run_timed` can be unrolled from the tail as well as from the head.
pub proof fn lemma_run_timed_snoc(s: Scene, n: nat)
    ensures
        run_timed(s, n + 1) == timed_scene_step(run_timed(s, n)),
    decreases n,
{
    reveal_with_fuel(run_timed, 3);
    if n > 0 {
        lemma_run_timed_snoc(timed_scene_step(s), (n - 1) as nat);
    }
}

/// A game launch runs its full countdown and then starts: from
/// `LaunchGame(c)`, timed ticks pass through every intermediate countdown
/// value, reach exactly `ResetStage` after `c + 2` ticks, and `Play` one
/// tick later — `LaunchGame` is never skipped on the way from the title
/// shot to the playfield.
pub proof fn lemma_launch_game_reaches_play(c: i32)
    requires
        c >= -1,
    ensures
        run_timed(Scene::LaunchGame(c), (c + 2) as nat) == Scene::ResetStage,
        run_timed(Scene::LaunchGame(c), (c + 3) as nat) == Scene::Play,
{
    lemma_launch_countdown_runs(c, (c + 1) as nat);
    lemma_run_timed_snoc(Scene::LaunchGame(c), (c + 1) as nat);
    lemma_run_timed_snoc(Scene::LaunchGame(c), (c + 2) as nat);
}

/// While the game-over countdown runs, each timed tick only lowers the
/// count: after `n` ticks (`n <= c + 1`) the scene is still `Gameover`.
pub proof fn lemma_gameover_countdown_runs(c: i32, n: nat)
    requires
        n <= c + 1,
    ensures
        run_timed(Scene::Gameover(c), n) == Scene::Gameover((c - n) as i32),
    decreases n,
{
    if n > 0 {
        lemma_gameover_countdown_runs((c - 1) as i32, (n - 1) as nat);
    }
}

/// After a game over, timed ticks run the whole countdown down and return
/// to the title: from `Gameover(c)` the scene is back at `Title` after
/// exactly `c + 2` ticks, and at no earlier tick.
pub proof fn lemma_gameover_returns_to_title(c: i32)
    requires
        c >= -1,
    ensures
        run_timed(Scene::Gameover(c), (c + 2) as nat) == Scene::Title,
        forall|n: nat|
            n <= c + 1 ==> run_timed(Scene::Gameover(c), n) == Scene::Gameover((c - n) as i32),
{
    lemma_gameover_countdown_runs(c, (c + 1) as nat);
    lemma_run_timed_snoc(Scene::Gameover(c), (c + 1) as nat);
    assert forall|n: nat| n <= c + 1 implies run_timed(Scene::Gameover(c), n) == Scene::Gameover(
        (c - n) as i32,
    ) by {
        lemma_gameover_countdown_runs(c, n);
    }
}

} // verus!
