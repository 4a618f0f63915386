//! Weapon subsystem: cooldown-gated spawning of projectiles.
//!
//! The player's weapon fires when its cooldown has elapsed and the trigger is
//! held; the cooldown restarts only at the moment of firing, so a finished
//! timer waits ready.  The enemies' shared weapon fires on its own cooldown
//! from a randomly chosen living enemy's position, and restarts its cooldown
//! on finish whether or not an enemy was left to fire from.
use vstd::prelude::*;

use rand::Rng;

use crate::geom::{pos_add, spec_pos_add};
use crate::world::{
    EnemyWeapon, Player, Shot, Weapon, World, WorldView, ENEMY_SHOT_SPEED, PLAYER_SHOT_SPEED,
};

verus! {

/// The world after the player-weapon pass: the cooldown advances by `dt`;
/// if it has elapsed and the trigger is held, a shot spawns at the player's
/// position plus the muzzle offset, the trigger clears and the cooldown
/// restarts.  Otherwise only the advanced cooldown is kept (ready to fire the
/// moment the trigger is next held).
pub open spec fn spec_weapons(w: WorldView, dt: u32) -> WorldView {
    match w.player {
        None => w,
        Some(p) => {
            let cd = p.weapon.cooldown.spec_tick(dt);
            if cd.spec_finished() && p.weapon.fired {
                WorldView {
                    player: Some(
                        Player {
                            weapon: Weapon {
                                fired: false,
                                cooldown: cd.spec_reset(),
                                ..p.weapon
                            },
                            ..p
                        },
                    ),
                    player_shots: w.player_shots.push(
                        Shot { pos: spec_pos_add(p.pos, p.weapon.offset), speed: PLAYER_SHOT_SPEED },
                    ),
                    ..w
                }
            } else {
                WorldView {
                    player: Some(Player { weapon: Weapon { cooldown: cd, ..p.weapon }, ..p }),
                    ..w
                }
            }
        },
    }
}

/// The world after the enemy-weapon pass, `choice` naming which living enemy
/// was picked to fire from.  The cooldown advances by `dt`; once it has
/// elapsed it restarts either way, and if any enemy is alive a shot spawns at
/// the chosen enemy's position, travelling down.  With no enemy left, no shot
/// spawns and only the timer restarts.
pub open spec fn spec_enemy_weapons(w: WorldView, dt: u32, choice: int) -> WorldView {
    let cd = w.enemy_weapon.cooldown.spec_tick(dt);
    if cd.spec_finished() {
        if w.enemies.len() > 0 {
            WorldView {
                enemy_weapon: EnemyWeapon { cooldown: cd.spec_reset(), ..w.enemy_weapon },
                enemy_shots: w.enemy_shots.push(
                    Shot { pos: w.enemies[choice], speed: ENEMY_SHOT_SPEED },
                ),
                ..w
            }
        } else {
            WorldView { enemy_weapon: EnemyWeapon { cooldown: cd.spec_reset(), ..w.enemy_weapon }, ..w }
        }
    } else {
        WorldView { enemy_weapon: EnemyWeapon { cooldown: cd, ..w.enemy_weapon }, ..w }
    }
}

/// Which values of `choice` the enemy-weapon pass can pick: an index of a
/// living enemy when a shot spawns, and the unused value zero otherwise.
pub open spec fn enemy_choice_ok(w: WorldView, dt: u32, choice: int) -> bool {
    if w.enemy_weapon.cooldown.spec_tick(dt).spec_finished() && w.enemies.len() > 0 {
        0 <= choice < w.enemies.len()
    } else {
        choice == 0
    }
}

/// Relies on rand::Rng::gen_range over the range `0..n` with the
/// thread-local generator: it panics only on an empty range (ruled out
/// here), and every value it returns lies in the range.  Which index comes
/// back depends on the generator's state, so nothing more is stated.
#[verifier::external_body]
fn random_index(n: usize) -> (r: usize)
    requires
        n > 0,
    ensures
        r < n,
{
    rand::thread_rng().gen_range(0..n)
}

impl World {
    /// One tick of the player's weapon: advance the cooldown and spawn a shot
    /// above the player if the cooldown has elapsed with the trigger held.
    pub fn weapons(&mut self, dt: u32)
        ensures
            final(self)@ == spec_weapons(old(self)@, dt),
    {
        if let Some(p) = self.player {
            let mut w = p.weapon;
            w.cooldown.tick(dt);
            if w.cooldown.finished() && w.fired {
                let spawn = pos_add(&p.pos, &w.offset);
                w.fired = false;
                w.cooldown.reset();
                self.player = Some(Player { weapon: w, ..p });
                self.player_shots.push(Shot { pos: spawn, speed: PLAYER_SHOT_SPEED });
            } else {
                self.player = Some(Player { weapon: w, ..p });
            }
        }
        proof {
            assert(self@ =~= spec_weapons(old(self)@, dt));
        }
    }

    /// One tick of the enemies' weapon: advance the cooldown; once elapsed,
    /// restart it and, if any enemy is alive, spawn a downward shot from a
    /// randomly chosen enemy's position.
    pub fn enemy_weapons(&mut self, dt: u32)
        ensures
            exists|c: int|
                enemy_choice_ok(old(self)@, dt, c) && final(self)@ == spec_enemy_weapons(
                    old(self)@,
                    dt,
                    c,
                ),
    {
        let ghost mut picked: int = 0;
        self.enemy_weapon.cooldown.tick(dt);
        if self.enemy_weapon.cooldown.finished() {
            if self.enemies.len() > 0 {
                let idx = random_index(self.enemies.len());
                let target = self.enemies[idx];
                self.enemy_shots.push(Shot { pos: target, speed: ENEMY_SHOT_SPEED });
                proof {
                    picked = idx as int;
                }
            }
            self.enemy_weapon.cooldown.reset();
        }
        proof {
            assert(enemy_choice_ok(old(self)@, dt, picked) && self@ =~= spec_enemy_weapons(
                old(self)@,
                dt,
                picked,
            ));
        }
    }
}

} // verus!
