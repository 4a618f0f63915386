//! Projectile movement: every shot advances by its own vertical speed, and a
//! shot that leaves the vertical extent of the playfield is removed within
//! the same pass.
use vstd::prelude::*;

use crate::geom::Pos;
use crate::num::{add_mul_i64, clamp_i64};
use crate::seq_util::lemma_filter_push;
use crate::world::{Shot, World, WorldView, HALF_HEIGHT};

verus! {

/// `s` after `dt` milliseconds of flight: the vertical position advances by
/// `speed * dt` (speed in units per second, so the step is in milli-units).
pub open spec fn spec_moved_shot(s: Shot, dt: u32) -> Shot {
    Shot { pos: Pos { x: s.pos.x, y: clamp_i64(s.pos.y + s.speed * dt) as i64 }, speed: s.speed }
}

/// The movement map as a function value, shared between specification and
/// proof so every use names the same closure.
pub open spec fn move_fn(dt: u32) -> spec_fn(Shot) -> Shot {
    |s: Shot| spec_moved_shot(s, dt)
}

/// Whether a moved shot stays on the field.  A shot travelling up despawns
/// above the top edge, one travelling down despawns below the bottom edge.
pub open spec fn keep_fn(upward: bool) -> spec_fn(Shot) -> bool {
    if upward {
        |s: Shot| s.pos.y <= HALF_HEIGHT
    } else {
        |s: Shot| s.pos.y >= -HALF_HEIGHT
    }
}

/// One movement pass over a projectile list: every shot advances, and the
/// shots past their bound are dropped, in order.
pub open spec fn spec_move_cull(shots: Seq<Shot>, dt: u32, upward: bool) -> Seq<Shot> {
    shots.map_values(move_fn(dt)).filter(keep_fn(upward))
}

/// Advance every shot by `dt` milliseconds and drop the ones past their
/// vertical bound.
fn move_cull(shots: &mut Vec<Shot>, dt: u32, upward: bool)
    ensures
        final(shots)@ == spec_move_cull(old(shots)@, dt, upward),
{
    let ghost shots0 = shots@;
    let n = shots.len();
    let mut moved: Vec<Shot> = Vec::new();
    let mut i: usize = 0;
    while i < n
        invariant
            i <= n,
            n == shots@.len(),
            shots@ == shots0,
            moved@ == shots0.take(i as int).map_values(move_fn(dt)).filter(keep_fn(upward)),
        decreases n - i,
    {
        let s = shots[i];
        let y2 = add_mul_i64(s.pos.y, s.speed, dt as i64);
        let s2 = Shot { pos: Pos { x: s.pos.x, y: y2 }, speed: s.speed };
        let keep = if upward {
            y2 <= HALF_HEIGHT
        } else {
            y2 >= -HALF_HEIGHT
        };
        if keep {
            moved.push(s2);
        }
        proof {
            shots0.lemma_map_take_succ(move_fn(dt), i as int);
            assert(move_fn(dt)(shots0[i as int]) == s2);
            assert(keep == keep_fn(upward)(s2));
            lemma_filter_push(
                shots0.take(i as int).map_values(move_fn(dt)),
                s2,
                keep_fn(upward),
            );
        }
        i = i + 1;
    }
    proof {
        assert(shots0.take(n as int) =~= shots0);
    }
    *shots = moved;
}

/// Every shot a movement pass keeps is within its vertical bound: a shot that
/// crosses the bound is removed in the very pass that moved it.
pub proof fn lemma_move_cull_in_bounds(shots: Seq<Shot>, dt: u32, upward: bool)
    ensures
        forall|i: int|
            0 <= i < spec_move_cull(shots, dt, upward).len() ==> (if upward {
                spec_move_cull(shots, dt, upward)[i].pos.y <= HALF_HEIGHT
            } else {
                spec_move_cull(shots, dt, upward)[i].pos.y >= -HALF_HEIGHT
            }),
{
    let mapped = shots.map_values(move_fn(dt));
    assert forall|i: int| 0 <= i < spec_move_cull(shots, dt, upward).len() implies keep_fn(
        upward,
    )(spec_move_cull(shots, dt, upward)[i]) by {
        mapped.lemma_filter_pred(keep_fn(upward), i);
    }
}

/// The world after the player-shot movement pass.
pub open spec fn spec_player_lasers(w: WorldView, dt: u32) -> WorldView {
    WorldView { player_shots: spec_move_cull(w.player_shots, dt, true), ..w }
}

/// The world after the enemy-shot movement pass.
pub open spec fn spec_enemy_lasers(w: WorldView, dt: u32) -> WorldView {
    WorldView { enemy_shots: spec_move_cull(w.enemy_shots, dt, false), ..w }
}

impl World {
    /// Move every player shot up by its speed and despawn the ones that left
    /// the top of the field.
    pub fn player_lasers(&mut self, dt: u32)
        ensures
            final(self)@ == spec_player_lasers(old(self)@, dt),
    {
        move_cull(&mut self.player_shots, dt, true);
        proof {
            assert(self@ =~= spec_player_lasers(old(self)@, dt));
        }
    }

    /// Move every enemy shot down by its speed and despawn the ones that left
    /// the bottom of the field.
    pub fn enemy_lasers(&mut self, dt: u32)
        ensures
            final(self)@ == spec_enemy_lasers(old(self)@, dt),
    {
        move_cull(&mut self.enemy_shots, dt, false);
        proof {
            assert(self@ =~= spec_enemy_lasers(old(self)@, dt));
        }
    }
}

} // verus!
