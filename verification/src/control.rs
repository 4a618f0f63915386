//! Player control: applies the decoded movement intent to the player's
//! position and latches the fire flag into the weapon.
use vstd::prelude::*;

use crate::geom::Pos;
use crate::num::{add_mul_scaled_i64, clamp_i64};
use crate::world::{Player, PlayerIntent, Weapon, World, WorldView};

verus! {

/// The world after player control: the player (if alive) slides horizontally
/// by `move_axis * speed * dt` and its weapon's `fired` flag takes the
/// intent's fire flag.  Without a player nothing changes.
pub open spec fn spec_player_control(w: WorldView, dt: u32, intent: PlayerIntent) -> WorldView {
    match w.player {
        None => w,
        Some(p) => WorldView {
            player: Some(
                Player {
                    pos: Pos {
                        x: clamp_i64(p.pos.x + intent.move_axis * p.speed * dt) as i64,
                        y: p.pos.y,
                    },
                    speed: p.speed,
                    weapon: Weapon { fired: intent.fire, ..p.weapon },
                },
            ),
            ..w
        },
    }
}

impl World {
    /// Apply one tick of player input: horizontal movement scaled by the
    /// player's own speed and the elapsed time, and the weapon trigger.
    pub fn player_control(&mut self, dt: u32, intent: &PlayerIntent)
        requires
            intent.wf(),
        ensures
            final(self)@ == spec_player_control(old(self)@, dt, *intent),
    {
        if let Some(p) = self.player {
            let x2 = add_mul_scaled_i64(p.pos.x, intent.move_axis, p.speed, dt as i64);
            self.player = Some(
                Player {
                    pos: Pos { x: x2, y: p.pos.y },
                    speed: p.speed,
                    weapon: Weapon { fired: intent.fire, ..p.weapon },
                },
            );
        }
        proof {
            assert(self@ =~= spec_player_control(old(self)@, dt, *intent));
        }
    }
}

} // verus!
