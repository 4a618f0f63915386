//! Frame driver: one tick runs the subsystems in a fixed order on the world
//! and reports back to the host whether to keep going, present a finished
//! game, or close on the player's quit intent.
use vstd::prelude::*;

use crate::combat::{spec_laser_enemy_hits, spec_player_enemy_hits};
use crate::control::spec_player_control;
use crate::fleet::spec_enemy_movement;
use crate::lasers::{spec_enemy_lasers, spec_player_lasers};
use crate::status::spec_check_for_win;
use crate::weapons::{enemy_choice_ok, spec_enemy_weapons, spec_weapons};
use crate::world::{GameStatus, PlayerIntent, World, WorldView};

verus! {

/// What the host should do after a tick: keep simulating, keep presenting a
/// finished game, or close because the player asked to quit.
#[derive(Clone, Copy, PartialEq, Eq, Structural, Debug)]
pub enum TickSignal {
    Continue,
    GameOver,
    Quit,
}

/// The pipeline prefix before the fleet moves: player control, player
/// weapon, then projectile movement.
pub open spec fn spec_tick_pre_fleet(w: WorldView, dt: u32, intent: PlayerIntent) -> WorldView {
    spec_enemy_lasers(spec_player_lasers(spec_weapons(spec_player_control(w, dt, intent), dt), dt), dt)
}

/// The pipeline prefix before the enemy weapon fires: player control, player
/// weapon, projectile movement, then fleet movement.
pub open spec fn spec_tick_pre_weapons(w: WorldView, dt: u32, intent: PlayerIntent) -> WorldView {
    spec_enemy_movement(spec_tick_pre_fleet(w, dt, intent))
}

/// Which values `choice` can take for a whole tick: a living enemy's index at
/// the moment the enemy weapon fires, and zero when it does not.
pub open spec fn tick_choice_ok(w: WorldView, dt: u32, intent: PlayerIntent, choice: int) -> bool {
    enemy_choice_ok(spec_tick_pre_weapons(w, dt, intent), dt, choice)
}

/// One whole tick of an ongoing game, `choice` naming the enemy picked to
/// fire if the enemy weapon fires this tick: input and movement, weapon
/// cooldowns and spawns, fleet steering, both collision passes, then the win
/// check.
pub open spec fn spec_tick(w: WorldView, dt: u32, intent: PlayerIntent, choice: int) -> WorldView {
    spec_check_for_win(
        spec_player_enemy_hits(
            spec_laser_enemy_hits(
                spec_enemy_weapons(spec_tick_pre_weapons(w, dt, intent), dt, choice),
            ),
        ),
    )
}

impl World {
    /// Drive the simulation one frame, given the elapsed milliseconds and the
    /// decoded player intent.  A quit intent closes the game untouched; a
    /// game already ended stays untouched and keeps reporting `GameOver`;
    /// otherwise the full pipeline runs and the signal reflects the status
    /// the tick ended with.
    pub fn tick(&mut self, dt: u32, intent: &PlayerIntent) -> (sig: TickSignal)
        requires
            old(self)@.wf(),
            intent.wf(),
        ensures
            final(self)@.wf(),
            intent.quit ==> final(self)@ == old(self)@ && sig is Quit,
            !intent.quit && !(old(self)@.status is Ongoing) ==> final(self)@ == old(self)@
                && sig is GameOver,
            !intent.quit && old(self)@.status is Ongoing ==> exists|c: int|
                tick_choice_ok(old(self)@, dt, *intent, c) && final(self)@ == spec_tick(
                    old(self)@,
                    dt,
                    *intent,
                    c,
                ),
            sig is Quit <==> intent.quit,
            !intent.quit ==> (sig is GameOver <==> !(final(self)@.status is Ongoing)),
            !intent.quit ==> (sig is Continue <==> final(self)@.status is Ongoing),
    {
        if intent.quit {
            return TickSignal::Quit;
        }
        let ongoing = match self.status {
            GameStatus::Ongoing => true,
            _ => false,
        };
        if !ongoing {
            return TickSignal::GameOver;
        }
        self.player_control(dt, intent);
        self.weapons(dt);
        self.player_lasers(dt);
        self.enemy_lasers(dt);
        self.enemy_movement();
        proof {
            assert(self@.wf());
        }
        self.enemy_weapons(dt);
        let ghost mid = spec_tick_pre_weapons(old(self)@, dt, *intent);
        let ghost c = choose|c: int|
            enemy_choice_ok(mid, dt, c) && self@ == spec_enemy_weapons(mid, dt, c);
        proof {
            assert(self@.wf());
        }
        self.laser_enemy_hit_detection();
        self.player_enemy_hit_detection();
        self.check_for_win();
        proof {
            assert(tick_choice_ok(old(self)@, dt, *intent, c) && self@ == spec_tick(
                old(self)@,
                dt,
                *intent,
                c,
            ));
        }
        match self.status {
            GameStatus::Ongoing => TickSignal::Continue,
            _ => TickSignal::GameOver,
        }
    }
}

} // verus!
