use invaders_core::driver::TickSignal;
use invaders_core::geom::{collided, Pos};
use invaders_core::status::u32_to_string;
use invaders_core::timer::Timer;
use invaders_core::world::{GameStatus, PlayerIntent, Shot, World};

fn idle() -> PlayerIntent {
    PlayerIntent { move_axis: 0, fire: false, quit: false }
}

fn firing() -> PlayerIntent {
    PlayerIntent { move_axis: 0, fire: true, quit: false }
}

#[test]
fn setup_initial_state() {
    let w = World::setup();
    assert_eq!(w.enemies.len(), 55);
    assert_eq!(w.enemies[0], Pos { x: -350_000, y: 50_000 });
    assert_eq!(w.enemies[4], Pos { x: -350_000, y: 330_000 });
    assert_eq!(w.enemies[54], Pos { x: 350_000, y: 330_000 });
    let p = w.player.expect("player alive at setup");
    assert_eq!(p.pos, Pos { x: 0, y: -256_000 });
    assert_eq!(p.speed, 400);
    assert!(!p.weapon.fired);
    assert_eq!(p.weapon.offset, Pos { x: 0, y: 30_000 });
    assert_eq!(p.weapon.cooldown.duration, 500);
    assert_eq!(p.weapon.cooldown.elapsed, 0);
    assert_eq!(w.enemy_weapon.cooldown.duration, 1000);
    assert_eq!(w.fleet.speed, 1500);
    assert_eq!(w.fleet.dir, 1);
    assert_eq!(w.fleet.x, 0);
    assert_eq!(w.score, 0);
    assert_eq!(w.status, GameStatus::Ongoing);
    assert!(w.player_shots.is_empty());
    assert!(w.enemy_shots.is_empty());
}

#[test]
fn timer_finishes_and_stays_finished() {
    let mut t = Timer::from_millis(500);
    t.tick(499);
    assert!(!t.finished());
    t.tick(1);
    assert!(t.finished());
    t.tick(100);
    assert!(t.finished());
    t.reset();
    assert!(!t.finished());
    assert_eq!(t.elapsed, 0);
}

#[test]
fn timer_tick_saturates_without_panic() {
    let mut t = Timer::from_millis(10);
    t.tick(u32::MAX);
    t.tick(u32::MAX);
    assert!(t.finished());
}

#[test]
fn collided_boundary_is_inclusive() {
    // Player at (0, -256), enemy at (0, -256 + 35): exactly at distance 35.
    let player = Pos { x: 0, y: -256_000 };
    let on_edge = Pos { x: 0, y: -256_000 + 35_000 };
    let past_edge = Pos { x: 0, y: -256_000 + 36_000 };
    assert!(collided(&player, &on_edge, 35_000));
    assert!(!collided(&player, &past_edge, 35_000));
}

#[test]
fn collided_is_a_square_region() {
    let a = Pos { x: 0, y: 0 };
    assert!(collided(&a, &Pos { x: 25_000, y: 25_000 }, 25_000));
    assert!(!collided(&a, &Pos { x: 25_001, y: 0 }, 25_000));
    assert!(!collided(&a, &Pos { x: 0, y: -25_001 }, 25_000));
}

#[test]
fn player_moves_by_axis_and_speed() {
    let mut w = World::setup();
    let left = PlayerIntent { move_axis: -1, fire: false, quit: false };
    w.player_control(1000, &left);
    assert_eq!(w.player.unwrap().pos, Pos { x: -400_000, y: -256_000 });
    let right = PlayerIntent { move_axis: 1, fire: false, quit: false };
    w.player_control(500, &right);
    assert_eq!(w.player.unwrap().pos, Pos { x: -200_000, y: -256_000 });
}

#[test]
fn player_control_latches_fire_flag() {
    let mut w = World::setup();
    w.player_control(16, &firing());
    assert!(w.player.unwrap().weapon.fired);
    w.player_control(16, &idle());
    assert!(!w.player.unwrap().weapon.fired);
}

#[test]
fn weapon_fires_after_cooldown_and_spawns_above_player() {
    let mut w = World::setup();
    w.player_control(0, &firing());
    w.weapons(499);
    assert!(w.player_shots.is_empty());
    w.weapons(1);
    assert_eq!(w.player_shots.len(), 1);
    let s = &w.player_shots[0];
    assert_eq!(s.pos, Pos { x: 0, y: -226_000 });
    assert_eq!(s.speed, 500);
    let p = w.player.unwrap();
    assert!(!p.weapon.fired, "trigger clears at the moment of firing");
    assert_eq!(p.weapon.cooldown.elapsed, 0, "cooldown restarts at the moment of firing");
}

#[test]
fn finished_weapon_waits_ready_without_trigger() {
    let mut w = World::setup();
    w.weapons(700);
    assert!(w.player_shots.is_empty());
    assert_eq!(w.player.unwrap().weapon.cooldown.elapsed, 700, "no reset without a shot");
    // The moment the trigger is held the waiting weapon fires, even with no
    // further time elapsed.
    w.player_control(0, &firing());
    w.weapons(0);
    assert_eq!(w.player_shots.len(), 1);
}

#[test]
fn held_trigger_fires_floor_of_time_over_cooldown() {
    let mut w = World::setup();
    // 10 ticks of 100 ms with the trigger held: 1000 ms over a 500 ms
    // cooldown gives exactly 2 shots.
    for _ in 0..10 {
        w.player_control(0, &firing());
        w.weapons(100);
    }
    assert_eq!(w.player_shots.len(), 2);
}

#[test]
fn player_shots_move_up_and_despawn_past_top() {
    let mut w = World::setup();
    w.player_shots.push(Shot { pos: Pos { x: 0, y: 510_000 }, speed: 500 });
    w.player_shots.push(Shot { pos: Pos { x: 1000, y: 0 }, speed: 500 });
    w.player_lasers(1000);
    assert_eq!(w.player_shots.len(), 1);
    assert_eq!(w.player_shots[0].pos, Pos { x: 1000, y: 500_000 });
}

#[test]
fn enemy_shots_move_down_and_despawn_past_bottom() {
    let mut w = World::setup();
    w.enemy_shots.push(Shot { pos: Pos { x: 0, y: -510_000 }, speed: -300 });
    w.enemy_shots.push(Shot { pos: Pos { x: -2000, y: 0 }, speed: -300 });
    w.enemy_lasers(1000);
    assert_eq!(w.enemy_shots.len(), 1);
    assert_eq!(w.enemy_shots[0].pos, Pos { x: -2000, y: -300_000 });
}

#[test]
fn fleet_advances_without_turning_inside_threshold() {
    let mut w = World::setup();
    let before = w.enemies.clone();
    w.enemy_movement();
    assert_eq!(w.fleet.x, 1500);
    assert_eq!(w.fleet.dir, 1);
    for (a, b) in w.enemies.iter().zip(before.iter()) {
        assert_eq!(a.x, b.x + 1500);
        assert_eq!(a.y, b.y);
    }
}

#[test]
fn fleet_turns_and_descends_at_threshold() {
    let mut w = World::setup();
    w.fleet.x = 199_000;
    let before = w.enemies.clone();
    w.enemy_movement();
    assert_eq!(w.fleet.x, 200_500);
    assert_eq!(w.fleet.dir, -1, "direction reverses at the threshold");
    for (a, b) in w.enemies.iter().zip(before.iter()) {
        assert_eq!(a.x, b.x - 1500, "enemies move with the reversed direction");
        assert_eq!(a.y, b.y - 10_000, "every enemy steps down once on the turn tick");
    }
}

#[test]
fn enemy_weapon_resets_with_no_enemies_and_spawns_nothing() {
    let mut w = World::setup();
    w.enemies.clear();
    w.enemy_weapons(1000);
    assert!(w.enemy_shots.is_empty());
    assert_eq!(w.enemy_weapon.cooldown.elapsed, 0, "the timer still resets");
}

#[test]
fn enemy_weapon_fires_from_a_living_enemy() {
    let mut w = World::setup();
    w.enemies.clear();
    w.enemies.push(Pos { x: 5_000, y: 6_000 });
    w.enemy_weapons(1000);
    assert_eq!(w.enemy_shots.len(), 1);
    assert_eq!(w.enemy_shots[0].pos, Pos { x: 5_000, y: 6_000 });
    assert_eq!(w.enemy_shots[0].speed, -300);
    assert_eq!(w.enemy_weapon.cooldown.elapsed, 0);
}

#[test]
fn enemy_weapon_waits_for_cooldown() {
    let mut w = World::setup();
    w.enemy_weapons(500);
    assert!(w.enemy_shots.is_empty());
    assert_eq!(w.enemy_weapon.cooldown.elapsed, 500);
}

#[test]
fn enemy_weapon_picks_among_living_enemies() {
    let mut w = World::setup();
    w.enemy_weapons(1000);
    assert_eq!(w.enemy_shots.len(), 1);
    let spawn = w.enemy_shots[0].pos;
    assert!(
        w.enemies.iter().any(|e| *e == spawn),
        "the shot spawns at some living enemy's position"
    );
}

#[test]
fn shot_destroys_enemy_scores_and_speeds_fleet() {
    // A single enemy and a player shot at the same spot, hit radius 25.
    let mut w = World::setup();
    w.enemies.clear();
    w.enemies.push(Pos { x: 0, y: 0 });
    w.player_shots.push(Shot { pos: Pos { x: 0, y: 0 }, speed: 500 });
    w.laser_enemy_hit_detection();
    assert!(w.enemies.is_empty());
    assert!(w.player_shots.is_empty());
    assert_eq!(w.score, 1);
    assert_eq!(w.fleet.speed, 1700, "fleet speeds up by the fixed increment");
}

#[test]
fn destroyed_pair_is_excluded_from_rest_of_pass() {
    let mut w = World::setup();
    w.enemies.clear();
    w.enemies.push(Pos { x: 0, y: 0 });
    w.player_shots.push(Shot { pos: Pos { x: 0, y: 0 }, speed: 500 });
    w.player_shots.push(Shot { pos: Pos { x: 1, y: 1 }, speed: 500 });
    w.laser_enemy_hit_detection();
    // The enemy dies to the first shot only; the second survives.
    assert!(w.enemies.is_empty());
    assert_eq!(w.player_shots.len(), 1);
    assert_eq!(w.player_shots[0].pos, Pos { x: 1, y: 1 });
    assert_eq!(w.score, 1);
}

#[test]
fn one_shot_destroys_at_most_one_enemy() {
    let mut w = World::setup();
    w.enemies.clear();
    w.enemies.push(Pos { x: 0, y: 0 });
    w.enemies.push(Pos { x: 2, y: 2 });
    w.player_shots.push(Shot { pos: Pos { x: 0, y: 0 }, speed: 500 });
    w.laser_enemy_hit_detection();
    assert_eq!(w.enemies.len(), 1);
    assert_eq!(w.enemies[0], Pos { x: 2, y: 2 });
    assert_eq!(w.score, 1);
}

#[test]
fn score_rises_one_per_collision_resolved() {
    let mut w = World::setup();
    w.enemies.clear();
    w.enemies.push(Pos { x: 0, y: 0 });
    w.enemies.push(Pos { x: 100_000, y: 0 });
    w.player_shots.push(Shot { pos: Pos { x: 0, y: 0 }, speed: 500 });
    w.player_shots.push(Shot { pos: Pos { x: 100_000, y: 0 }, speed: 500 });
    w.laser_enemy_hit_detection();
    assert_eq!(w.score, 2);
    assert!(w.enemies.is_empty());
    assert!(w.player_shots.is_empty());
    assert_eq!(w.fleet.speed, 1500 + 2 * 200);
}

#[test]
fn missed_shot_changes_nothing() {
    let mut w = World::setup();
    w.enemies.clear();
    w.enemies.push(Pos { x: 0, y: 0 });
    w.player_shots.push(Shot { pos: Pos { x: 25_001, y: 0 }, speed: 500 });
    w.laser_enemy_hit_detection();
    assert_eq!(w.enemies.len(), 1);
    assert_eq!(w.player_shots.len(), 1);
    assert_eq!(w.score, 0);
    assert_eq!(w.fleet.speed, 1500);
}

#[test]
fn enemy_contact_destroys_player_and_loses_game() {
    let mut w = World::setup();
    w.enemies.clear();
    w.enemies.push(Pos { x: 0, y: -256_000 + 35_000 });
    w.player_enemy_hit_detection();
    assert!(w.player.is_none());
    assert_eq!(w.status, GameStatus::Lost);
    assert_eq!(w.enemies.len(), 1, "the enemy itself survives the contact");
}

#[test]
fn enemy_shot_contact_destroys_player_and_shot() {
    let mut w = World::setup();
    w.enemy_shots.push(Shot { pos: Pos { x: 20_000, y: -256_000 }, speed: -300 });
    w.player_enemy_hit_detection();
    assert!(w.player.is_none());
    assert_eq!(w.status, GameStatus::Lost);
    assert!(w.enemy_shots.is_empty(), "the shot that hit despawns with the player");
}

#[test]
fn distant_enemies_leave_player_alive() {
    let mut w = World::setup();
    w.enemy_shots.push(Shot { pos: Pos { x: 20_001, y: -256_000 }, speed: -300 });
    w.player_enemy_hit_detection();
    assert!(w.player.is_some());
    assert_eq!(w.status, GameStatus::Ongoing);
    assert_eq!(w.enemy_shots.len(), 1);
}

#[test]
fn win_requires_no_enemies_and_ongoing_game() {
    let mut w = World::setup();
    w.check_for_win();
    assert_eq!(w.status, GameStatus::Ongoing);
    w.enemies.clear();
    w.check_for_win();
    assert_eq!(w.status, GameStatus::Won);
}

#[test]
fn lost_game_is_not_overwritten_by_win_check() {
    let mut w = World::setup();
    w.enemies.clear();
    w.status = GameStatus::Lost;
    w.check_for_win();
    assert_eq!(w.status, GameStatus::Lost, "terminal states are one-way");
}

#[test]
fn destroying_all_enemies_wins_on_that_round_and_no_later() {
    let mut w = World::setup();
    for round in 0..55usize {
        assert_eq!(w.status, GameStatus::Ongoing, "round {round}: still ongoing");
        let target = w.enemies[0];
        w.player_shots.push(Shot { pos: target, speed: 500 });
        w.laser_enemy_hit_detection();
        w.check_for_win();
        assert_eq!(w.enemies.len(), 54 - round);
    }
    assert_eq!(w.status, GameStatus::Won, "won on the round the 55th enemy died");
    assert_eq!(w.score, 55);
    assert_eq!(w.fleet.speed, 1500 + 55 * 200);
}

#[test]
fn decimal_rendering_is_exact() {
    assert_eq!(u32_to_string(0), "0");
    assert_eq!(u32_to_string(7), "7");
    assert_eq!(u32_to_string(10), "10");
    assert_eq!(u32_to_string(42), "42");
    assert_eq!(u32_to_string(4_294_967_295), "4294967295");
}

#[test]
fn display_text_shows_score_then_outcome() {
    let mut w = World::setup();
    assert_eq!(w.display_text(), "0");
    w.score = 42;
    assert_eq!(w.display_text(), "42");
    w.status = GameStatus::Won;
    assert_eq!(w.display_text(), "you won!");
    w.status = GameStatus::Lost;
    assert_eq!(w.display_text(), "you lost!");
}

#[test]
fn systems_skip_cleanly_without_a_player() {
    // A destroyed player is a real state once the game is lost: the
    // player-bound subsystems must skip, not crash or corrupt state.
    let mut w = World::setup();
    w.player = None;
    w.player_control(16, &firing());
    w.weapons(16);
    w.player_enemy_hit_detection();
    assert!(w.player.is_none());
    assert!(w.player_shots.is_empty());
    assert_eq!(w.status, GameStatus::Ongoing);
}

#[test]
fn quit_intent_ends_tick_untouched() {
    let mut w = World::setup();
    let quit = PlayerIntent { move_axis: 1, fire: true, quit: true };
    let sig = w.tick(16, &quit);
    assert_eq!(sig, TickSignal::Quit);
    assert_eq!(w.enemies.len(), 55);
    assert_eq!(w.player.unwrap().pos, Pos { x: 0, y: -256_000 });
    assert!(w.player_shots.is_empty());
}

#[test]
fn finished_game_ticks_report_game_over_and_change_nothing() {
    let mut w = World::setup();
    w.status = GameStatus::Won;
    let sig = w.tick(16, &firing());
    assert_eq!(sig, TickSignal::GameOver);
    assert!(w.player_shots.is_empty());
    assert_eq!(w.fleet.x, 0, "a finished game does not advance");
}

#[test]
fn one_tick_runs_the_whole_pipeline_in_order() {
    let mut w = World::setup();
    let sig = w.tick(500, &firing());
    assert_eq!(sig, TickSignal::Continue);
    // The weapon fired (cooldown 500 elapsed) and the fresh shot was then
    // moved by the projectile pass: spawned at -226 and moved up by 250.
    assert_eq!(w.player_shots.len(), 1);
    assert_eq!(w.player_shots[0].pos, Pos { x: 0, y: 24_000 });
    // The fleet advanced by its speed.
    assert_eq!(w.fleet.x, 1500);
    assert_eq!(w.enemies[0].x, -350_000 + 1500);
    // The enemy weapon (cooldown 1000) has not fired yet.
    assert!(w.enemy_shots.is_empty());
    assert_eq!(w.score, 0);
    assert_eq!(w.status, GameStatus::Ongoing);
}

#[test]
fn enemy_weapon_fires_during_full_tick() {
    let mut w = World::setup();
    w.tick(1000, &idle());
    assert_eq!(w.enemy_shots.len(), 1);
    let spawn = w.enemy_shots[0].pos;
    // The shot was spawned at a (moved) enemy position and then not moved
    // again until the next tick's projectile pass.
    assert!(w.enemies.iter().any(|e| *e == spawn));
}
