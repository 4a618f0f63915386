//! The library's stated laws, proved over the tick pipeline's specification:
//! score accounting, enemy-count monotonicity, projectile culling, fleet
//! turn-and-descent behaviour and the weapon fire-rate bound.
use vstd::prelude::*;

use crate::combat::{
    first_hit_from, first_touch_from, lemma_first_touch_valid, lemma_mask_keep_elems, mask_keep,
    spec_any_touch, spec_laser_enemy_hits, spec_player_enemy_hits, spec_volley, spec_volley_at,
};
use crate::driver::{spec_tick, spec_tick_pre_fleet, spec_tick_pre_weapons, tick_choice_ok};
use crate::fleet::{spec_enemy_movement, spec_fleet_turns};
use crate::lasers::{lemma_move_cull_in_bounds, spec_enemy_lasers, spec_player_lasers};
use crate::num::{clamp_i64, clamp_u32};
use crate::timer::Timer;
use crate::weapons::{spec_enemy_weapons, spec_weapons};
use crate::control::spec_player_control;
use crate::geom::Pos;
use crate::world::{
    PlayerIntent, Shot, WorldView, DESCENT_STEP, FLEET_SPEED_INCREMENT, HALF_HEIGHT,
    PLAYER_ENEMY_HIT_DIST, PLAYER_SHOT_HIT_DIST,
};

verus! {

/// Accounting of the player-shot versus enemy pass, by induction over the
/// enemies from `i` on: every hit raises the score by exactly one and costs
/// one enemy, and nothing else moves score or enemy count.
pub proof fn lemma_volley_at_accounting(
    enemies: Seq<Pos>,
    shots: Seq<Shot>,
    i: int,
    alive: Seq<bool>,
    survivors: Seq<Pos>,
    score: u32,
    fleet_speed: i64,
    hits: int,
)
    requires
        0 <= i <= enemies.len(),
        score + (enemies.len() - i) <= u32::MAX,
    ensures
        ({
            let out = spec_volley_at(enemies, shots, i, alive, survivors, score, fleet_speed, hits);
            &&& out.hits >= hits
            &&& out.hits - hits <= enemies.len() - i
            &&& out.score == score + (out.hits - hits)
            &&& out.survivors.len() == survivors.len() + (enemies.len() - i) - (out.hits - hits)
        }),
    decreases enemies.len() - i,
{
    if i < enemies.len() {
        match first_hit_from(enemies[i], shots, alive, 0) {
            Some(j) => {
                assert(clamp_u32(score + 1) == score + 1);
                lemma_volley_at_accounting(
                    enemies,
                    shots,
                    i + 1,
                    alive.update(j, false),
                    survivors,
                    (score + 1) as u32,
                    clamp_i64(fleet_speed + FLEET_SPEED_INCREMENT) as i64,
                    hits + 1,
                );
            },
            None => {
                lemma_volley_at_accounting(
                    enemies,
                    shots,
                    i + 1,
                    alive,
                    survivors.push(enemies[i]),
                    score,
                    fleet_speed,
                    hits,
                );
            },
        }
    }
}

/// Accounting of the whole pass on a well-formed world: the score rises by
/// exactly the number of hits resolved, and each hit removes one enemy.
pub proof fn lemma_volley_accounting(w: WorldView)
    requires
        w.wf(),
    ensures
        ({
            let out = spec_volley(w);
            let w2 = spec_laser_enemy_hits(w);
            &&& out.hits >= 0
            &&& out.hits <= w.enemies.len()
            &&& w2.score == w.score + out.hits
            &&& w2.enemies.len() == w.enemies.len() - out.hits
            &&& w2.wf()
        }),
{
    lemma_volley_at_accounting(
        w.enemies,
        w.player_shots,
        0,
        Seq::new(w.player_shots.len(), |k: int| true),
        Seq::<Pos>::empty(),
        w.score,
        w.fleet.speed,
        0,
    );
}

/// The stages before the combat passes leave the score, the enemy count and
/// the fleet direction untouched, so a well-formed world is still
/// well-formed when combat is resolved.
pub proof fn lemma_pre_stages(w: WorldView, dt: u32, intent: PlayerIntent, c: int)
    requires
        w.wf(),
    ensures
        ({
            let s = spec_enemy_weapons(spec_tick_pre_weapons(w, dt, intent), dt, c);
            &&& s.wf()
            &&& s.score == w.score
            &&& s.enemies.len() == w.enemies.len()
            &&& s.fleet.dir == spec_tick_pre_weapons(w, dt, intent).fleet.dir
        }),
{
}

/// The number of player-shot hits resolved within one tick.
pub open spec fn tick_hits(w: WorldView, dt: u32, intent: PlayerIntent, c: int) -> int {
    spec_volley(spec_enemy_weapons(spec_tick_pre_weapons(w, dt, intent), dt, c)).hits
}

/// Over any tick of a well-formed world the score never decreases, and it
/// rises by exactly one per player-shot/enemy collision resolved that tick.
pub proof fn lemma_score_per_tick(w: WorldView, dt: u32, intent: PlayerIntent, c: int)
    requires
        w.wf(),
    ensures
        tick_hits(w, dt, intent, c) >= 0,
        spec_tick(w, dt, intent, c).score == w.score + tick_hits(w, dt, intent, c),
        spec_tick(w, dt, intent, c).score >= w.score,
        spec_tick(w, dt, intent, c).wf(),
{
    lemma_pre_stages(w, dt, intent, c);
    lemma_volley_accounting(spec_enemy_weapons(spec_tick_pre_weapons(w, dt, intent), dt, c));
}

/// Over any tick of a well-formed world the number of living enemies never
/// increases: it falls by exactly the hits resolved that tick.
pub proof fn lemma_enemy_count_per_tick(w: WorldView, dt: u32, intent: PlayerIntent, c: int)
    requires
        w.wf(),
    ensures
        spec_tick(w, dt, intent, c).enemies.len() == w.enemies.len() - tick_hits(
            w,
            dt,
            intent,
            c,
        ),
        spec_tick(w, dt, intent, c).enemies.len() <= w.enemies.len(),
{
    lemma_pre_stages(w, dt, intent, c);
    lemma_volley_accounting(spec_enemy_weapons(spec_tick_pre_weapons(w, dt, intent), dt, c));
}

/// No player shot survives a tick beyond the top of the field: a shot that
/// crosses the bound is removed within the tick that moved it there.
pub proof fn lemma_player_shots_culled(w: WorldView, dt: u32, intent: PlayerIntent, c: int)
    ensures
        forall|k: int|
            0 <= k < spec_tick(w, dt, intent, c).player_shots.len() ==> spec_tick(
                w,
                dt,
                intent,
                c,
            ).player_shots[k].pos.y <= HALF_HEIGHT,
{
    let moved = spec_player_lasers(spec_weapons(spec_player_control(w, dt, intent), dt), dt);
    lemma_move_cull_in_bounds(
        spec_weapons(spec_player_control(w, dt, intent), dt).player_shots,
        dt,
        true,
    );
    let stage = spec_enemy_weapons(spec_tick_pre_weapons(w, dt, intent), dt, c);
    assert(stage.player_shots == moved.player_shots);
    lemma_mask_keep_elems(
        stage.player_shots,
        spec_volley(stage).shot_alive,
        0,
        Seq::<Shot>::empty(),
    );
    let w2 = spec_tick(w, dt, intent, c);
    assert forall|k: int| 0 <= k < w2.player_shots.len() implies w2.player_shots[k].pos.y
        <= HALF_HEIGHT by {
        let s = w2.player_shots[k];
        assert(w2.player_shots.contains(s));
        assert(w2.player_shots == mask_keep(stage.player_shots, spec_volley(stage).shot_alive));
        assert(stage.player_shots.contains(s));
        let j = choose|j: int| 0 <= j < stage.player_shots.len() && stage.player_shots[j] == s;
        assert(moved.player_shots[j].pos.y <= HALF_HEIGHT);
    }
}

/// No enemy shot survives a tick below the bottom of the field, except one
/// spawned this very tick, which stands at the position some living enemy
/// had when the enemy weapon fired (and is removed by the next tick's
/// movement pass).
pub proof fn lemma_enemy_shots_culled(w: WorldView, dt: u32, intent: PlayerIntent, c: int)
    requires
        tick_choice_ok(w, dt, intent, c),
    ensures
        forall|s: Shot|
            spec_tick(w, dt, intent, c).enemy_shots.contains(s) ==> s.pos.y >= -HALF_HEIGHT || (
            exists|i: int|
                0 <= i < spec_tick_pre_weapons(w, dt, intent).enemies.len() && s.pos
                    == spec_tick_pre_weapons(w, dt, intent).enemies[i]),
{
    let before_cull = spec_player_lasers(
        spec_weapons(spec_player_control(w, dt, intent), dt),
        dt,
    );
    let pre = spec_enemy_lasers(before_cull, dt);
    lemma_move_cull_in_bounds(before_cull.enemy_shots, dt, false);
    let fleet_stage = spec_tick_pre_weapons(w, dt, intent);
    let armed = spec_enemy_weapons(fleet_stage, dt, c);
    let after_volley = spec_laser_enemy_hits(armed);
    let after_pass2 = spec_player_enemy_hits(after_volley);
    let w2 = spec_tick(w, dt, intent, c);
    assert(pre == spec_tick_pre_fleet(w, dt, intent));
    assert(fleet_stage.enemy_shots == pre.enemy_shots);
    assert(after_volley.enemy_shots == armed.enemy_shots);
    assert(w2.enemy_shots == after_pass2.enemy_shots);
    assert forall|s: Shot| w2.enemy_shots.contains(s) implies s.pos.y
        >= -HALF_HEIGHT || (exists|i: int|
        0 <= i < fleet_stage.enemies.len() && s.pos == fleet_stage.enemies[i]) by {
        let k = choose|k: int| 0 <= k < w2.enemy_shots.len() && w2.enemy_shots[k] == s;
        assert(armed.enemy_shots.contains(s)) by {
            match after_volley.player {
                None => {},
                Some(p) => {
                    if !spec_any_touch(
                        p.pos,
                        after_volley.enemies,
                        PLAYER_ENEMY_HIT_DIST,
                    ) {
                        match first_touch_from(
                            p.pos,
                            after_volley.enemy_shots,
                            PLAYER_SHOT_HIT_DIST,
                            0,
                        ) {
                            Some(j0) => {
                                lemma_first_touch_valid(
                                    p.pos,
                                    after_volley.enemy_shots,
                                    PLAYER_SHOT_HIT_DIST,
                                    0,
                                );
                                if k < j0 {
                                    assert(after_volley.enemy_shots[k] == s);
                                } else {
                                    assert(after_volley.enemy_shots[k + 1] == s);
                                }
                            },
                            None => {},
                        }
                    }
                },
            }
        }
        let k2 = choose|k2: int| 0 <= k2 < armed.enemy_shots.len() && armed.enemy_shots[k2] == s;
        if k2 < fleet_stage.enemy_shots.len() {
            assert(s == pre.enemy_shots[k2]);
            assert(s.pos.y >= -HALF_HEIGHT);
        } else {
            assert(s.pos == fleet_stage.enemies[c]);
        }
    }
}

/// The formation reverses direction exactly when its accumulated
/// displacement reaches the turn threshold, and on exactly those ticks every
/// living enemy steps down by one descent step (by nothing on other ticks).
pub proof fn lemma_fleet_turn(w: WorldView, dt: u32, intent: PlayerIntent)
    requires
        w.wf(),
    ensures
        ({
            let b = spec_tick_pre_fleet(w, dt, intent);
            let a = spec_enemy_movement(b);
            let x1 = clamp_i64(b.fleet.x + b.fleet.speed * b.fleet.dir) as i64;
            let turn = spec_fleet_turns(x1);
            &&& (a.fleet.dir != b.fleet.dir <==> turn)
            &&& a.fleet.x == x1
            &&& a.enemies.len() == b.enemies.len()
            &&& forall|i: int|
                0 <= i < b.enemies.len() ==> a.enemies[i].y == (if turn {
                    clamp_i64(b.enemies[i].y - DESCENT_STEP) as i64
                } else {
                    b.enemies[i].y
                })
            &&& forall|i: int|
                0 <= i < b.enemies.len() && turn && b.enemies[i].y - DESCENT_STEP >= i64::MIN
                    ==> a.enemies[i].y == b.enemies[i].y - DESCENT_STEP
        }),
{
    let b = spec_tick_pre_fleet(w, dt, intent);
    assert(b.fleet == w.fleet);
}

/// Milliseconds summed over a run of ticks.
pub open spec fn sum_dts(dts: Seq<u32>) -> int
    decreases dts.len(),
{
    if dts.len() == 0 {
        0
    } else {
        dts[0] + sum_dts(dts.drop_first())
    }
}

/// How often a held trigger fires over a run of ticks: each tick advances
/// the cooldown, and whenever it has elapsed the weapon fires once and the
/// cooldown restarts.
pub open spec fn spec_fires(t: Timer, dts: Seq<u32>) -> int
    decreases dts.len(),
{
    if dts.len() == 0 {
        0
    } else {
        let t1 = t.spec_tick(dts[0]);
        if t1.spec_finished() {
            1 + spec_fires(t1.spec_reset(), dts.drop_first())
        } else {
            spec_fires(t1, dts.drop_first())
        }
    }
}

/// One tick of the player-weapon pass with the trigger held behaves as one
/// step of `spec_fires`: exactly one shot spawns when the advanced cooldown
/// has elapsed (and the cooldown restarts), none otherwise (and the
/// advanced cooldown is kept).
pub proof fn lemma_weapons_step_is_fire_step(w: WorldView, dt: u32)
    ensures
        ({
            let w2 = spec_weapons(w, dt);
            let p = w.player->Some_0;
            let t1 = p.weapon.cooldown.spec_tick(dt);
            w.player is Some && p.weapon.fired ==> {
                &&& w2.player_shots.len() == w.player_shots.len() + (if t1.spec_finished() {
                    1int
                } else {
                    0int
                })
                &&& (w2.player matches Some(p2) && p2.weapon.cooldown == (
                if t1.spec_finished() {
                    t1.spec_reset()
                } else {
                    t1
                }))
            }
        }),
{
}

/// A weapon fires at most once per cooldown duration: over any run of ticks
/// the fires times the duration never exceed the time accumulated before the
/// run plus the time the run adds.
pub proof fn lemma_fire_rate(t: Timer, dts: Seq<u32>)
    requires
        t.duration > 0,
    ensures
        spec_fires(t, dts) >= 0,
        spec_fires(t, dts) * t.duration <= t.elapsed + sum_dts(dts),
    decreases dts.len(),
{
    if dts.len() > 0 {
        let t1 = t.spec_tick(dts[0]);
        let rest = dts.drop_first();
        if t1.spec_finished() {
            lemma_fire_rate(t1.spec_reset(), rest);
            let f = spec_fires(t1.spec_reset(), rest);
            assert((1 + f) * t.duration == t.duration + f * t.duration) by (nonlinear_arith);
        } else {
            lemma_fire_rate(t1, rest);
        }
    }
}

/// Starting from a fresh (reset) timer, the number of fires over total time
/// `T` is at most `T` divided by the cooldown duration, rounding down —
/// never more.
pub proof fn lemma_fire_rate_fresh(duration: u32, dts: Seq<u32>)
    requires
        duration > 0,
    ensures
        spec_fires(Timer { duration, elapsed: 0 }, dts) <= sum_dts(dts) / (duration as int),
{
    let t = Timer { duration, elapsed: 0 };
    lemma_fire_rate(t, dts);
    let f = spec_fires(t, dts);
    assert(f * duration <= sum_dts(dts) ==> f <= sum_dts(dts) / (duration as int))
        by (nonlinear_arith)
        requires
            duration > 0,
            f >= 0,
    ;
}

} // verus!
