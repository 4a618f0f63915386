//! Entity model and fixed configuration of the simulation: the player and its
//! weapon, the enemy formation and its shared fleet state, projectiles, score
//! and game status, all gathered in one `World` owned by the frame driver.
use vstd::prelude::*;

use crate::geom::Pos;
use crate::timer::Timer;

verus! {

// --- Fixed configuration (positions in milli-units, time in milliseconds) ---

/// Half the vertical extent of the playfield; projectiles despawn past it.
pub const HALF_HEIGHT: i64 = 512_000;

/// Player horizontal speed, in units per second.
pub const PLAYER_SPEED: i64 = 400;

/// Player shot vertical speed, in units per second (upward).
pub const PLAYER_SHOT_SPEED: i64 = 500;

/// Enemy shot vertical speed, in units per second (negative: downward).
pub const ENEMY_SHOT_SPEED: i64 = -300;

/// Muzzle offset of the player's weapon above the player.
pub const WEAPON_OFFSET_Y: i64 = 30_000;

/// Minimum delay between two player shots.
pub const PLAYER_COOLDOWN_MS: u32 = 500;

/// Delay between two enemy volleys.
pub const ENEMY_COOLDOWN_MS: u32 = 1000;

/// Horizontal formation speed at setup, in milli-units per tick.
pub const FLEET_START_SPEED: i64 = 1_500;

/// Formation speedup per destroyed enemy, in milli-units per tick.
pub const FLEET_SPEED_INCREMENT: i64 = 200;

/// The formation reverses direction once its accumulated displacement
/// reaches this many milli-units.
pub const FLEET_TURN_THRESHOLD: i64 = 200_000;

/// How far every enemy steps down on a direction flip.
pub const DESCENT_STEP: i64 = 10_000;

/// Proximity distance of a player shot and an enemy.
pub const ENEMY_HIT_DIST: i64 = 25_000;

/// Proximity distance of the player and an enemy.
pub const PLAYER_ENEMY_HIT_DIST: i64 = 35_000;

/// Proximity distance of the player and an enemy shot.
pub const PLAYER_SHOT_HIT_DIST: i64 = 20_000;

/// Vertical start position of the player.
pub const PLAYER_START_Y: i64 = -256_000;

/// Columns and rows of the enemy grid at setup.
pub const GRID_COLS: usize = 11;

/// Rows of the enemy grid at setup.
pub const GRID_ROWS: usize = 5;

/// Enemies alive at setup.
pub const ENEMY_COUNT: usize = 55;

/// Position of the grid's first column.
pub const GRID_X_OFFSET: i64 = -350_000;

/// Position of the grid's first row.
pub const GRID_Y_OFFSET: i64 = 50_000;

/// Distance between neighbouring grid columns and rows.
pub const GRID_SPACING: i64 = 70_000;

// --- Entities ---

/// The two sprite/speed profiles a weapon can spawn.
#[derive(Clone, Copy, PartialEq, Eq, Structural, Debug)]
pub enum ShotKind {
    PlayerShot,
    EnemyShot,
}

/// Overall game status; `Won` and `Lost` are terminal.
#[derive(Clone, Copy, PartialEq, Eq, Structural, Debug)]
pub enum GameStatus {
    Ongoing,
    Won,
    Lost,
}

/// The player's weapon: a manual trigger gated by a cooldown.
#[derive(Clone, Copy, PartialEq, Eq, Structural, Debug)]
pub struct Weapon {
    /// Set by input each tick; cleared at the moment a shot spawns.
    pub fired: bool,
    /// Muzzle offset from the owner's position.
    pub offset: Pos,
    pub cooldown: Timer,
    /// What the weapon spawns.
    pub kind: ShotKind,
}

/// The player ship.  Exactly one exists while the game is ongoing; it is
/// destroyed on loss.
#[derive(Clone, Copy, PartialEq, Eq, Structural, Debug)]
pub struct Player {
    pub pos: Pos,
    /// Horizontal speed, in units per second.
    pub speed: i64,
    pub weapon: Weapon,
}

/// The enemies' shared weapon: fires on its own cooldown from a randomly
/// chosen living enemy's position.
#[derive(Clone, Copy, PartialEq, Eq, Structural, Debug)]
pub struct EnemyWeapon {
    pub cooldown: Timer,
    pub kind: ShotKind,
}

/// A projectile in flight.  Player shots and enemy shots are kept in separate
/// lists, which stand for the owner kind; `speed` is signed by travel
/// direction (positive up).
#[derive(Clone, Copy, PartialEq, Eq, Structural, Debug)]
pub struct Shot {
    pub pos: Pos,
    /// Vertical speed, in units per second.
    pub speed: i64,
}

/// Shared state of the enemy formation: every living enemy translates in
/// lock-step by `speed * dir`, and `x` accumulates the displacement since
/// setup so the turn-around check is centralized.
#[derive(Clone, Copy, PartialEq, Eq, Structural, Debug)]
pub struct Fleet {
    /// Horizontal step per tick, in milli-units.
    pub speed: i64,
    /// Direction of travel: `1` or `-1`.
    pub dir: i64,
    /// Accumulated horizontal displacement, in milli-units.
    pub x: i64,
}

/// Decoded input for one tick.
#[derive(Clone, Copy, PartialEq, Eq, Structural, Debug)]
pub struct PlayerIntent {
    /// Horizontal movement axis: `-1`, `0` or `1`.
    pub move_axis: i8,
    pub fire: bool,
    pub quit: bool,
}

impl PlayerIntent {
    /// The movement axis is one of `-1`, `0`, `1`.
    pub open spec fn wf(self) -> bool {
        -1 <= self.move_axis <= 1
    }
}

// --- The world ---

/// All live simulation state for one game.
pub struct World {
    /// The player, or `None` once destroyed.
    pub player: Option<Player>,
    pub enemy_weapon: EnemyWeapon,
    /// Positions of the living enemies (enemies carry no other state).
    pub enemies: Vec<Pos>,
    pub player_shots: Vec<Shot>,
    pub enemy_shots: Vec<Shot>,
    pub fleet: Fleet,
    pub score: u32,
    pub status: GameStatus,
}

/// Mathematical image of a `World`: entity lists become sequences.
#[verifier::ext_equal]
pub struct WorldView {
    pub player: Option<Player>,
    pub enemy_weapon: EnemyWeapon,
    pub enemies: Seq<Pos>,
    pub player_shots: Seq<Shot>,
    pub enemy_shots: Seq<Shot>,
    pub fleet: Fleet,
    pub score: u32,
    pub status: GameStatus,
}

impl View for World {
    type V = WorldView;

    open spec fn view(&self) -> WorldView {
        WorldView {
            player: self.player,
            enemy_weapon: self.enemy_weapon,
            enemies: self.enemies@,
            player_shots: self.player_shots@,
            enemy_shots: self.enemy_shots@,
            fleet: self.fleet,
            score: self.score,
            status: self.status,
        }
    }
}

impl WorldView {
    /// Well-formedness: the fleet direction is a unit step, and the score
    /// together with the enemies still to destroy fits its counter (the score
    /// counts destroyed enemies, and enemies never respawn).
    pub open spec fn wf(self) -> bool {
        &&& (self.fleet.dir == 1 || self.fleet.dir == -1)
        &&& self.score + self.enemies.len() <= u32::MAX
    }
}

/// Setup position of enemy `k`: the grid is filled column by column,
/// bottom row first.
pub open spec fn grid_pos(k: int) -> Pos {
    Pos {
        x: (GRID_X_OFFSET + (k / (GRID_ROWS as int)) * GRID_SPACING) as i64,
        y: (GRID_Y_OFFSET + (k % (GRID_ROWS as int)) * GRID_SPACING) as i64,
    }
}

impl World {
    /// Build the initial world: the player at the bottom center with a cold
    /// weapon, an 11 by 5 grid of enemies, no projectiles, the formation
    /// moving right, score zero, game ongoing.
    pub fn setup() -> (w: World)
        ensures
            w@.wf(),
            w@.player == Some(
                Player {
                    pos: Pos { x: 0, y: PLAYER_START_Y },
                    speed: PLAYER_SPEED,
                    weapon: Weapon {
                        fired: false,
                        offset: Pos { x: 0, y: WEAPON_OFFSET_Y },
                        cooldown: Timer { duration: PLAYER_COOLDOWN_MS, elapsed: 0 },
                        kind: ShotKind::PlayerShot,
                    },
                },
            ),
            w@.enemy_weapon == (EnemyWeapon {
                cooldown: Timer { duration: ENEMY_COOLDOWN_MS, elapsed: 0 },
                kind: ShotKind::EnemyShot,
            }),
            w@.enemies.len() == ENEMY_COUNT,
            forall|k: int| 0 <= k < ENEMY_COUNT ==> w@.enemies[k] == grid_pos(k),
            w@.player_shots.len() == 0,
            w@.enemy_shots.len() == 0,
            w@.fleet == (Fleet { speed: FLEET_START_SPEED, dir: 1, x: 0 }),
            w@.score == 0,
            w@.status is Ongoing,
    {
        let mut enemies: Vec<Pos> = Vec::new();
        let mut k: usize = 0;
        while k < ENEMY_COUNT
            invariant
                k <= ENEMY_COUNT,
                enemies@.len() == k,
                forall|j: int| 0 <= j < k ==> enemies@[j] == grid_pos(j),
            decreases ENEMY_COUNT - k,
        {
            let col: usize = k / GRID_ROWS;
            let row: usize = k % GRID_ROWS;
            enemies.push(
                Pos {
                    x: GRID_X_OFFSET + (col as i64) * GRID_SPACING,
                    y: GRID_Y_OFFSET + (row as i64) * GRID_SPACING,
                },
            );
            k = k + 1;
        }
        World {
            player: Some(
                Player {
                    pos: Pos { x: 0, y: PLAYER_START_Y },
                    speed: PLAYER_SPEED,
                    weapon: Weapon {
                        fired: false,
                        offset: Pos { x: 0, y: WEAPON_OFFSET_Y },
                        cooldown: Timer::from_millis(PLAYER_COOLDOWN_MS),
                        kind: ShotKind::PlayerShot,
                    },
                },
            ),
            enemy_weapon: EnemyWeapon {
                cooldown: Timer::from_millis(ENEMY_COOLDOWN_MS),
                kind: ShotKind::EnemyShot,
            },
            enemies,
            player_shots: Vec::new(),
            enemy_shots: Vec::new(),
            fleet: Fleet { speed: FLEET_START_SPEED, dir: 1, x: 0 },
            score: 0,
            status: GameStatus::Ongoing,
        }
    }
}

} // verus!
