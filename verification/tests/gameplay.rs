//! Entity and scene-machine behavior: the full game driven tick by tick.

use invader_core::alien::{Alien, BulletManage};
use invader_core::dot_map::DotMap;
use invader_core::game::{Game, Scene};
use invader_core::input::KeyDown;
use invader_core::math::Vec2;
use invader_core::player::{add_score, Bullet, BulletEvent, Player};
use invader_core::sound::SoundCue;
use invader_core::sprite::SpriteSet;
use invader_core::ufo::Ufo;

fn num_sprites() -> Vec<Vec<u8>> {
    let mut num: Vec<Vec<u8>> = Vec::new();
    for d in 0..10u8 {
        num.push(vec![d + 1; 8]);
    }
    num
}

fn sprite_set() -> SpriteSet {
    SpriteSet {
        player: vec![0xAA; 16],
        player_explosion_1: vec![0x55; 16],
        player_explosion_2: vec![0x99; 16],
        player_bullet: vec![0x0F],
        ufo: vec![0xFF; 16],
        ufo_explosion: vec![0x77; 16],
        shield: vec![0xEE; 44],
        octopus_open: vec![0xFF; 12],
        octopus_close: vec![0xFF; 12],
        crab_banzai: vec![0xFF; 12],
        crab_down: vec![0xFF; 12],
        squid_open: vec![0xFF; 12],
        squid_close: vec![0xFF; 12],
        alien_explosion: vec![0x3C; 12],
        num: num_sprites(),
    }
}

fn idle() -> KeyDown {
    KeyDown { left: false, right: false, shot: false, pause: false }
}

fn shot() -> KeyDown {
    KeyDown { left: false, right: false, shot: true, pause: false }
}

#[test]
fn title_shot_runs_the_full_launch_countdown() {
    let mut game = Game::new(sprite_set());
    let mut cues: Vec<SoundCue> = Vec::new();
    assert_eq!(game.scene, Scene::Title);
    game.tick(shot(), &mut cues);
    assert_eq!(game.scene, Scene::LaunchGame(10));
    // Eleven idle ticks count 10 down to -1, never leaving LaunchGame.
    for n in 0..11 {
        game.tick(idle(), &mut cues);
        assert_eq!(game.scene, Scene::LaunchGame(10 - 1 - n));
    }
    game.tick(idle(), &mut cues);
    assert_eq!(game.scene, Scene::ResetStage);
    game.tick(idle(), &mut cues);
    assert_eq!(game.scene, Scene::Play);
}

#[test]
fn reset_stage_lays_out_the_fresh_playfield() {
    let mut game = Game::new(sprite_set());
    let mut cues: Vec<SoundCue> = Vec::new();
    game.tick(shot(), &mut cues);
    for _ in 0..13 {
        game.tick(idle(), &mut cues);
    }
    assert_eq!(game.scene, Scene::Play);
    // Full initial swarm population.
    assert_eq!(game.alien.live_num, 55);
    // Floor line fully lit at the bottom dot row.
    for x in 0..224usize {
        assert_eq!(game.map.map[25][x], 128);
    }
    // Shields at the four fixed gap offsets with the exact bitmap.
    for g in 0..4usize {
        for dx in 0..22usize {
            assert_eq!(game.map.map[20][33 + 45 * g + dx], game.shield[dx]);
            assert_eq!(game.map.map[21][33 + 45 * g + dx], game.shield[22 + dx]);
        }
    }
    assert_eq!(game.stage, 1);
    assert_eq!(game.player.life, 3);
}

#[test]
fn gameover_counts_down_and_resets_the_score() {
    let mut game = Game::new(sprite_set());
    let mut cues: Vec<SoundCue> = Vec::new();
    game.scene = Scene::Play;
    game.player.life = 0;
    game.player_bullet.score = 500;
    game.tick(idle(), &mut cues);
    assert_eq!(game.scene, Scene::Gameover(120));
    assert_eq!(game.player_bullet.score, 500);
    for n in 0..121 {
        game.tick(idle(), &mut cues);
        assert_eq!(game.scene, Scene::Gameover(120 - 1 - n));
    }
    game.tick(idle(), &mut cues);
    assert_eq!(game.scene, Scene::Title);
    assert_eq!(game.player_bullet.score, 0);
}

#[test]
fn pause_edge_suspends_and_resumes_play() {
    let mut game = Game::new(sprite_set());
    let mut cues: Vec<SoundCue> = Vec::new();
    game.scene = Scene::Play;
    let pause_down = KeyDown { left: false, right: false, shot: false, pause: true };
    // Press: no transition yet (edge fires on release).
    game.tick(pause_down, &mut cues);
    assert_eq!(game.scene, Scene::Play);
    // Release: into Pause.
    game.tick(idle(), &mut cues);
    assert_eq!(game.scene, Scene::Pause);
    let live_before = game.alien.live_num;
    // While paused nothing advances.
    game.tick(pause_down, &mut cues);
    assert_eq!(game.scene, Scene::Pause);
    assert_eq!(game.alien.live_num, live_before);
    // Release again: back to Play.
    game.tick(idle(), &mut cues);
    assert_eq!(game.scene, Scene::Play);
}

#[test]
fn swarm_bounces_at_the_right_bound_and_drops_one_band() {
    let sprites = sprite_set();
    let mut alien = Alien::new(
        sprites.octopus_open,
        sprites.octopus_close,
        sprites.crab_banzai,
        sprites.crab_down,
        sprites.squid_open,
        sprites.squid_close,
        sprites.alien_explosion,
    );
    let mut map = DotMap::new();
    let mut cues: Vec<SoundCue> = Vec::new();
    // Rightmost live column sits exactly at the right bound.
    alien.ref_pos = Vec2::new(40, 48);
    alien.pre_ref_pos = alien.ref_pos;
    alien.move_dir = 1;
    alien.update(&mut map, false, &mut cues);
    assert_eq!(alien.move_dir, -1);
    assert_eq!(alien.ref_pos.y, 56);
    assert_eq!(alien.ref_pos.x, 40);
    // Movement never changes the live count.
    assert_eq!(alien.live_num, 55);
    // Away from the bound the swarm just steps, two dots per tick.
    alien.update(&mut map, false, &mut cues);
    assert_eq!(alien.ref_pos.x, 38);
    assert_eq!(alien.ref_pos.y, 56);
    assert_eq!(alien.live_num, 55);
}

#[test]
fn frozen_swarm_does_not_move_while_player_explodes() {
    let sprites = sprite_set();
    let mut alien = Alien::new(
        sprites.octopus_open,
        sprites.octopus_close,
        sprites.crab_banzai,
        sprites.crab_down,
        sprites.squid_open,
        sprites.squid_close,
        sprites.alien_explosion,
    );
    let mut map = DotMap::new();
    let mut cues: Vec<SoundCue> = Vec::new();
    let before = alien.ref_pos;
    alien.update(&mut map, true, &mut cues);
    assert_eq!(alien.ref_pos, before);
    assert!(cues.is_empty());
}

#[test]
fn flyer_hit_awards_the_table_value_for_the_shot_count() {
    let mut cues: Vec<SoundCue> = Vec::new();
    // Shot counts cycle through the 15-entry table; shot 8 is the jackpot.
    let expected = [
        (1, 50),
        (2, 50),
        (3, 100),
        (4, 150),
        (8, 300),
        (12, 50),
        (13, 150),
        (16, 50),
        (23, 300),
    ];
    for (fire_cnt, want) in expected {
        let mut ufo = Ufo::new(vec![0xFF; 16], vec![0x77; 16], num_sprites());
        let mut map = DotMap::new();
        let got = ufo.hit_player_bullet(&mut map, fire_cnt, &mut cues);
        assert_eq!(got, want);
        assert!(!ufo.live);
        assert_eq!(ufo.explosion.show_cnt, Some(0));
        assert_eq!(ufo.explosion.score, want);
    }
}

#[test]
fn dormant_flyer_needs_more_than_seven_live_aliens() {
    let mut ufo = Ufo::new(vec![0xFF; 16], vec![0x77; 16], num_sprites());
    let mut map = DotMap::new();
    let mut cues: Vec<SoundCue> = Vec::new();
    for _ in 0..5 {
        ufo.update(&mut map, 4, 5, &mut cues);
        assert!(!ufo.live);
    }
    assert!(cues.is_empty());
}

#[test]
fn flyer_explosion_effect_runs_out_and_deactivates() {
    let mut ufo = Ufo::new(vec![0xFF; 16], vec![0x77; 16], num_sprites());
    let mut map = DotMap::new();
    let mut cues: Vec<SoundCue> = Vec::new();
    ufo.hit_player_bullet(&mut map, 1, &mut cues);
    assert_eq!(ufo.explosion.show_cnt, Some(0));
    for n in 1..=121 {
        ufo.explosion.update_draw(&mut map);
        assert_eq!(ufo.explosion.show_cnt, Some(n));
    }
    ufo.explosion.update_draw(&mut map);
    assert_eq!(ufo.explosion.show_cnt, None);
}

#[test]
fn single_slot_shot_fires_flies_and_leaves_at_the_top() {
    let sprites = sprite_set();
    let player = Player::new(
        sprites.player,
        sprites.player_explosion_1,
        sprites.player_explosion_2,
    );
    let mut ufo = Ufo::new(sprites.ufo, sprites.ufo_explosion, num_sprites());
    let mut alien = Alien::new(
        sprites.octopus_open,
        sprites.octopus_close,
        sprites.crab_banzai,
        sprites.crab_down,
        sprites.squid_open,
        sprites.squid_close,
        sprites.alien_explosion,
    );
    let mut bullet = Bullet::new(sprites.player_bullet);
    let mut map = DotMap::new();
    let mut cues: Vec<SoundCue> = Vec::new();
    let ev = bullet.update(&mut map, &player, &mut ufo, &mut alien, &shot(), &mut cues);
    assert_eq!(ev, BulletEvent::Fired);
    assert!(bullet.live);
    assert_eq!(bullet.pos, Vec2::new(16, 184));
    assert_eq!(bullet.fire_cnt, 1);
    assert_eq!(cues, vec![SoundCue::Shoot]);
    // While one shot flies, another shot press is rejected.
    let ev = bullet.update(&mut map, &player, &mut ufo, &mut alien, &shot(), &mut cues);
    assert_eq!(ev, BulletEvent::Moved);
    assert_eq!(bullet.pos.y, 180);
    assert_eq!(bullet.fire_cnt, 1);
    // It climbs until it leaves the top of the playfield.
    let mut left = false;
    for _ in 0..60 {
        let ev = bullet.update(&mut map, &player, &mut ufo, &mut alien, &idle(), &mut cues);
        if ev == BulletEvent::LeftTop {
            left = true;
            break;
        }
        assert_eq!(ev, BulletEvent::Moved);
    }
    assert!(left);
    assert!(!bullet.live);
}

#[test]
fn shot_destroys_an_alien_and_credits_its_points() {
    let sprites = sprite_set();
    let player = Player::new(
        sprites.player,
        sprites.player_explosion_1,
        sprites.player_explosion_2,
    );
    let mut ufo = Ufo::new(sprites.ufo, sprites.ufo_explosion, num_sprites());
    let mut alien = Alien::new(
        sprites.octopus_open,
        sprites.octopus_close,
        sprites.crab_banzai,
        sprites.crab_down,
        sprites.squid_open,
        sprites.squid_close,
        sprites.alien_explosion,
    );
    let mut map = DotMap::new();
    let mut cues: Vec<SoundCue> = Vec::new();
    // Draw the swarm once (it steps from x=8 to x=10).
    alien.update(&mut map, false, &mut cues);
    assert_eq!(alien.ref_pos.x, 10);
    // A shot just below the bottom-left alien (cell at (10, 112)).
    let mut bullet = Bullet::new(sprites.player_bullet);
    bullet.live = true;
    bullet.fire_cnt = 1;
    bullet.pos = Vec2::new(16, 118);
    bullet.pre_pos = bullet.pos;
    let ev = bullet.update(&mut map, &player, &mut ufo, &mut alien, &idle(), &mut cues);
    assert_eq!(ev, BulletEvent::HitAlien(10));
    assert_eq!(bullet.score, 10);
    assert!(!bullet.live);
    assert_eq!(alien.live_num, 54);
    assert!(!alien.live[44]);
    assert!(cues.contains(&SoundCue::AlienExplosion));
}

#[test]
fn blocked_shot_degrades_what_it_hit() {
    let sprites = sprite_set();
    let player = Player::new(
        sprites.player,
        sprites.player_explosion_1,
        sprites.player_explosion_2,
    );
    let mut ufo = Ufo::new(sprites.ufo, sprites.ufo_explosion, num_sprites());
    let mut alien = Alien::new(
        sprites.octopus_open,
        sprites.octopus_close,
        sprites.crab_banzai,
        sprites.crab_down,
        sprites.squid_open,
        sprites.squid_close,
        sprites.alien_explosion,
    );
    let mut map = DotMap::new();
    let mut cues: Vec<SoundCue> = Vec::new();
    // Something lit in the shot's path that is neither flyer nor alien.
    map.draw_holizon_line(100);
    let mut bullet = Bullet::new(sprites.player_bullet);
    bullet.live = true;
    bullet.fire_cnt = 1;
    bullet.pos = Vec2::new(20, 102);
    bullet.pre_pos = bullet.pos;
    let ev = bullet.update(&mut map, &player, &mut ufo, &mut alien, &idle(), &mut cues);
    assert_eq!(ev, BulletEvent::Blocked);
    assert!(!bullet.live);
    // The blocked column of the line was cleared.
    assert_eq!(map.map[12][20] & 0x10, 0);
    assert_eq!(map.map[12][19] & 0x10, 0x10);
}

#[test]
fn alien_shots_spawn_fall_and_cost_the_player_a_life() {
    let sprites = sprite_set();
    let mut player = Player::new(
        sprites.player,
        sprites.player_explosion_1,
        sprites.player_explosion_2,
    );
    let alien = Alien::new(
        sprites.octopus_open,
        sprites.octopus_close,
        sprites.crab_banzai,
        sprites.crab_down,
        sprites.squid_open,
        sprites.squid_close,
        sprites.alien_explosion,
    );
    let mut pool = BulletManage::new();
    let mut map = DotMap::new();
    let mut cues: Vec<SoundCue> = Vec::new();
    assert_eq!(player.life, 3);
    for _ in 0..200 {
        pool.update(&mut map, &mut player, &alien, 0, &mut cues);
    }
    // The first spawned shot fell from the bottom-left alien into the player.
    assert_eq!(player.life, 2);
    assert_eq!(player.explosion_cnt, Some(0));
    assert!(cues.contains(&SoundCue::PlayerExplosion));
}

#[test]
fn player_moves_with_input_and_clamps_at_the_bounds() {
    let sprites = sprite_set();
    let mut player = Player::new(
        sprites.player,
        sprites.player_explosion_1,
        sprites.player_explosion_2,
    );
    let mut map = DotMap::new();
    let left = KeyDown { left: true, right: false, shot: false, pause: false };
    let right = KeyDown { left: false, right: true, shot: false, pause: false };
    player.update(&mut map, &left);
    assert_eq!(player.pos.x, 8);
    player.update(&mut map, &right);
    assert_eq!(player.pos.x, 9);
    for _ in 0..300 {
        player.update(&mut map, &right);
    }
    assert_eq!(player.pos.x, 200);
}

#[test]
fn score_accumulation_saturates_near_the_display_maximum() {
    assert_eq!(add_score(0, 300), 300);
    assert_eq!(add_score(999999000, 300), 999999300);
    assert_eq!(add_score(999999100, 300), 999999100);
}

#[test]
fn play_tick_fires_the_player_shot() {
    let mut game = Game::new(sprite_set());
    let mut cues: Vec<SoundCue> = Vec::new();
    game.tick(shot(), &mut cues);
    for _ in 0..13 {
        game.tick(idle(), &mut cues);
    }
    assert_eq!(game.scene, Scene::Play);
    cues.clear();
    game.tick(shot(), &mut cues);
    assert!(game.player_bullet.live);
    assert_eq!(game.player_bullet.fire_cnt, 1);
    assert!(cues.contains(&SoundCue::Shoot));
}

#[test]
fn alien_point_values_follow_the_row() {
    let sprites = sprite_set();
    let mut alien = Alien::new(
        sprites.octopus_open,
        sprites.octopus_close,
        sprites.crab_banzai,
        sprites.crab_down,
        sprites.squid_open,
        sprites.squid_close,
        sprites.alien_explosion,
    );
    let mut map = DotMap::new();
    let mut cues: Vec<SoundCue> = Vec::new();
    // Top (squid) row is worth 30, the middle rows 20, the bottom rows 10.
    assert_eq!(alien.hit_alien(&mut map, 0, &mut cues), 30);
    assert_eq!(alien.hit_alien(&mut map, 22, &mut cues), 20);
    assert_eq!(alien.hit_alien(&mut map, 54, &mut cues), 10);
    assert_eq!(alien.live_num, 52);
}
