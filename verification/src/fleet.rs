//! Fleet AI: the enemy formation translates in lock-step, reverses direction
//! once its accumulated displacement reaches the turn threshold, and steps
//! down once on the tick of each reversal.
use vstd::prelude::*;

use crate::geom::Pos;
use crate::num::{add_mul_i64, clamp_i64, sat_add_i64};
use crate::world::{Fleet, World, WorldView, DESCENT_STEP, FLEET_TURN_THRESHOLD};

verus! {

/// Direction after a reversal.  On the unit directions this is negation.
pub open spec fn spec_flip_dir(d: i64) -> i64 {
    if d == 1 {
        -1i64
    } else {
        1i64
    }
}

/// Whether the formation turns around this tick, judged on the fleet's
/// accumulated displacement after this tick's step (not on any individual
/// enemy's position).
pub open spec fn spec_fleet_turns(x1: i64) -> bool {
    x1 >= FLEET_TURN_THRESHOLD || x1 <= -FLEET_TURN_THRESHOLD
}

/// How one enemy moves this tick: sideways with the (possibly reversed)
/// direction, and one descent step down on a turn tick.
pub open spec fn enemy_step_fn(dir1: i64, speed: i64, turn: bool) -> spec_fn(Pos) -> Pos {
    |e: Pos|
        Pos {
            x: clamp_i64(e.x + dir1 * speed) as i64,
            y: if turn {
                clamp_i64(e.y - DESCENT_STEP) as i64
            } else {
                e.y
            },
        }
}

/// The world after the fleet AI pass.
pub open spec fn spec_enemy_movement(w: WorldView) -> WorldView {
    let x1 = clamp_i64(w.fleet.x + w.fleet.speed * w.fleet.dir) as i64;
    let turn = spec_fleet_turns(x1);
    let dir1 = if turn {
        spec_flip_dir(w.fleet.dir)
    } else {
        w.fleet.dir
    };
    WorldView {
        fleet: Fleet { speed: w.fleet.speed, dir: dir1, x: x1 },
        enemies: w.enemies.map_values(enemy_step_fn(dir1, w.fleet.speed, turn)),
        ..w
    }
}

impl World {
    /// Advance the enemy formation one tick: move the fleet's accumulated
    /// displacement, reverse direction at the turn threshold, and translate
    /// every living enemy (stepping down once on a turn tick).
    #[verifier::loop_isolation(false)]
    pub fn enemy_movement(&mut self)
        ensures
            final(self)@ == spec_enemy_movement(old(self)@),
    {
        let x1 = add_mul_i64(self.fleet.x, self.fleet.speed, self.fleet.dir);
        self.fleet.x = x1;
        let turn = x1 >= FLEET_TURN_THRESHOLD || x1 <= -FLEET_TURN_THRESHOLD;
        if turn {
            self.fleet.dir = if self.fleet.dir == 1 {
                -1
            } else {
                1
            };
        }
        let dir1 = self.fleet.dir;
        let speed = self.fleet.speed;
        let ghost enemies0 = self.enemies@;
        let ghost stepf = enemy_step_fn(dir1, speed, turn);
        let n = self.enemies.len();
        let mut i: usize = 0;
        while i < n
            invariant
                i <= n,
                n == self.enemies@.len(),
                self.enemies@.len() == enemies0.len(),
                stepf == enemy_step_fn(dir1, speed, turn),
                self.fleet == (Fleet { speed: speed, dir: dir1, x: x1 }),
                self.player == old(self).player,
                self.enemy_weapon == old(self).enemy_weapon,
                self.player_shots@ == old(self).player_shots@,
                self.enemy_shots@ == old(self).enemy_shots@,
                self.score == old(self).score,
                self.status == old(self).status,
                forall|j: int| 0 <= j < i ==> self.enemies@[j] == stepf(enemies0[j]),
                forall|j: int| i <= j < n ==> self.enemies@[j] == enemies0[j],
            decreases n - i,
        {
            let e = self.enemies[i];
            let x2 = add_mul_i64(e.x, dir1, speed);
            let y2 = if turn {
                sat_add_i64(e.y, -DESCENT_STEP)
            } else {
                e.y
            };
            self.enemies.set(i, Pos { x: x2, y: y2 });
            proof {
                assert(stepf(enemies0[i as int]) == (Pos { x: x2, y: y2 }));
            }
            i = i + 1;
        }
        proof {
            assert(self.enemies@ =~= enemies0.map_values(stepf));
            assert(self@ =~= spec_enemy_movement(old(self)@));
        }
    }
}

} // verus!
