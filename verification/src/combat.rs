//! Collision and combat resolution: the player-shot versus enemy pass, and
//! the player versus enemy / enemy-shot pass.
//!
//! Both passes walk their pairs in list order.  An entity destroyed by an
//! earlier pair is excluded from every later comparison of the same pass, so
//! each shot destroys at most one enemy and each enemy is destroyed at most
//! once.
use vstd::prelude::*;

use crate::geom::{collided, spec_collided, Pos};
use crate::num::{clamp_i64, clamp_u32, sat_add_i64};
use crate::world::{
    Fleet, GameStatus, Shot, World, WorldView, ENEMY_HIT_DIST, FLEET_SPEED_INCREMENT,
    PLAYER_ENEMY_HIT_DIST, PLAYER_SHOT_HIT_DIST,
};

verus! {

/// The smallest index at or after `j` of a still-alive shot within hit
/// distance of the enemy at `e`, if any.
pub open spec fn first_hit_from(e: Pos, shots: Seq<Shot>, alive: Seq<bool>, j: int) -> Option<int>
    decreases shots.len() - j,
{
    if j < 0 || j >= shots.len() {
        None
    } else if alive[j] && spec_collided(e, shots[j].pos, ENEMY_HIT_DIST) {
        Some(j)
    } else {
        first_hit_from(e, shots, alive, j + 1)
    }
}

/// Outcome of the player-shot versus enemy pass: the surviving enemies in
/// order, which shots are still alive, and the updated score, fleet speed
/// and number of hits resolved.
#[verifier::ext_equal]
pub struct VolleyOutcome {
    pub survivors: Seq<Pos>,
    pub shot_alive: Seq<bool>,
    pub score: u32,
    pub fleet_speed: i64,
    pub hits: int,
}

/// The pass from enemy `i` on, with the state accumulated so far: each enemy
/// in turn is matched against the first still-alive shot within hit
/// distance; on a hit both die, the score rises by one and the fleet speeds
/// up by the fixed increment, otherwise the enemy survives.
pub open spec fn spec_volley_at(
    enemies: Seq<Pos>,
    shots: Seq<Shot>,
    i: int,
    alive: Seq<bool>,
    survivors: Seq<Pos>,
    score: u32,
    fleet_speed: i64,
    hits: int,
) -> VolleyOutcome
    decreases enemies.len() - i,
{
    if i < 0 || i >= enemies.len() {
        VolleyOutcome { survivors, shot_alive: alive, score, fleet_speed, hits }
    } else {
        match first_hit_from(enemies[i], shots, alive, 0) {
            Some(j) => spec_volley_at(
                enemies,
                shots,
                i + 1,
                alive.update(j, false),
                survivors,
                clamp_u32(score + 1) as u32,
                clamp_i64(fleet_speed + FLEET_SPEED_INCREMENT) as i64,
                hits + 1,
            ),
            None => spec_volley_at(
                enemies,
                shots,
                i + 1,
                alive,
                survivors.push(enemies[i]),
                score,
                fleet_speed,
                hits,
            ),
        }
    }
}

/// The whole player-shot versus enemy pass on a world.
pub open spec fn spec_volley(w: WorldView) -> VolleyOutcome {
    spec_volley_at(
        w.enemies,
        w.player_shots,
        0,
        Seq::new(w.player_shots.len(), |k: int| true),
        Seq::<Pos>::empty(),
        w.score,
        w.fleet.speed,
        0,
    )
}

/// The shots at the indices still marked alive, in order, appended to `acc`.
pub open spec fn mask_keep_from(shots: Seq<Shot>, alive: Seq<bool>, j: int, acc: Seq<Shot>) -> Seq<
    Shot,
>
    decreases shots.len() - j,
{
    if j < 0 || j >= shots.len() {
        acc
    } else {
        mask_keep_from(
            shots,
            alive,
            j + 1,
            if alive[j] {
                acc.push(shots[j])
            } else {
                acc
            },
        )
    }
}

/// The shots at the indices still marked alive, in order.
pub open spec fn mask_keep(shots: Seq<Shot>, alive: Seq<bool>) -> Seq<Shot> {
    mask_keep_from(shots, alive, 0, Seq::<Shot>::empty())
}

/// Every shot the mask keeps was already among the accumulated or the
/// original shots: the pass never invents a projectile.
pub proof fn lemma_mask_keep_elems(shots: Seq<Shot>, alive: Seq<bool>, j: int, acc: Seq<Shot>)
    ensures
        forall|s: Shot|
            mask_keep_from(shots, alive, j, acc).contains(s) ==> acc.contains(s)
                || shots.contains(s),
    decreases shots.len() - j,
{
    if 0 <= j < shots.len() {
        let acc2 = if alive[j] {
            acc.push(shots[j])
        } else {
            acc
        };
        lemma_mask_keep_elems(shots, alive, j + 1, acc2);
        assert forall|s: Shot| acc2.contains(s) implies acc.contains(s) || shots.contains(s) by {
            let k = choose|k: int| 0 <= k < acc2.len() && acc2[k] == s;
            if alive[j] && k == acc.len() {
                assert(shots[j] == s);
                assert(shots.contains(s));
            } else {
                assert(acc[k] == s);
            }
        }
    }
}

/// The world after the player-shot versus enemy pass.
pub open spec fn spec_laser_enemy_hits(w: WorldView) -> WorldView {
    let out = spec_volley(w);
    WorldView {
        enemies: out.survivors,
        player_shots: mask_keep(w.player_shots, out.shot_alive),
        score: out.score,
        fleet: Fleet { speed: out.fleet_speed, ..w.fleet },
        ..w
    }
}

/// Whether any enemy is within `dist` of position `p`.
pub open spec fn spec_any_touch(p: Pos, enemies: Seq<Pos>, dist: i64) -> bool {
    exists|i: int| 0 <= i < enemies.len() && spec_collided(enemies[i], p, dist)
}

/// The smallest index at or after `j` of a shot within `dist` of position
/// `p`, if any.
pub open spec fn first_touch_from(p: Pos, shots: Seq<Shot>, dist: i64, j: int) -> Option<int>
    decreases shots.len() - j,
{
    if j < 0 || j >= shots.len() {
        None
    } else if spec_collided(shots[j].pos, p, dist) {
        Some(j)
    } else {
        first_touch_from(p, shots, dist, j + 1)
    }
}

/// A found first touch is a valid index of a shot actually within distance.
pub proof fn lemma_first_touch_valid(p: Pos, shots: Seq<Shot>, dist: i64, j: int)
    ensures
        match first_touch_from(p, shots, dist, j) {
            Some(j0) => j <= j0 < shots.len() && spec_collided(shots[j0].pos, p, dist),
            None => true,
        },
    decreases shots.len() - j,
{
    if 0 <= j < shots.len() && !spec_collided(shots[j].pos, p, dist) {
        lemma_first_touch_valid(p, shots, dist, j + 1);
    }
}

/// The world after the player versus enemy / enemy-shot pass: while the
/// player is alive, any enemy within hit distance destroys it and loses the
/// game; failing that, the first enemy shot within hit distance destroys the
/// player, loses the game and is itself removed.  Once the player is
/// destroyed no further pair is tested.
pub open spec fn spec_player_enemy_hits(w: WorldView) -> WorldView {
    match w.player {
        None => w,
        Some(p) => {
            if spec_any_touch(p.pos, w.enemies, PLAYER_ENEMY_HIT_DIST) {
                WorldView { player: None, status: GameStatus::Lost, ..w }
            } else {
                match first_touch_from(p.pos, w.enemy_shots, PLAYER_SHOT_HIT_DIST, 0) {
                    Some(j) => WorldView {
                        player: None,
                        status: GameStatus::Lost,
                        enemy_shots: w.enemy_shots.remove(j),
                        ..w
                    },
                    None => w,
                }
            }
        },
    }
}

/// Scan for the first still-alive shot within hit distance of enemy `e`.
#[verifier::loop_isolation(false)]
fn find_hit(e: &Pos, shots: &Vec<Shot>, alive: &Vec<bool>) -> (r: Option<usize>)
    requires
        alive@.len() == shots@.len(),
    ensures
        match r {
            Some(j) => j < shots@.len() && first_hit_from(*e, shots@, alive@, 0) == Some(j as int),
            None => first_hit_from(*e, shots@, alive@, 0) is None,
        },
{
    let mut j: usize = 0;
    while j < shots.len()
        invariant
            j <= shots@.len(),
            first_hit_from(*e, shots@, alive@, 0) == first_hit_from(*e, shots@, alive@, j as int),
        decreases shots@.len() - j,
    {
        if alive[j] && collided(e, &shots[j].pos, ENEMY_HIT_DIST) {
            return Some(j);
        }
        j = j + 1;
    }
    None
}

/// Scan whether any enemy is within `dist` of position `p`.
#[verifier::loop_isolation(false)]
fn any_touch(p: &Pos, enemies: &Vec<Pos>, dist: i64) -> (r: bool)
    ensures
        r == spec_any_touch(*p, enemies@, dist),
{
    let mut i: usize = 0;
    while i < enemies.len()
        invariant
            i <= enemies@.len(),
            forall|k: int| 0 <= k < i ==> !spec_collided(enemies@[k], *p, dist),
        decreases enemies@.len() - i,
    {
        if collided(&enemies[i], p, dist) {
            return true;
        }
        i = i + 1;
    }
    false
}

/// Scan for the first shot within `dist` of position `p`.
#[verifier::loop_isolation(false)]
fn find_touch(p: &Pos, shots: &Vec<Shot>, dist: i64) -> (r: Option<usize>)
    ensures
        match r {
            Some(j) => j < shots@.len() && first_touch_from(*p, shots@, dist, 0) == Some(j as int),
            None => first_touch_from(*p, shots@, dist, 0) is None,
        },
{
    let mut j: usize = 0;
    while j < shots.len()
        invariant
            j <= shots@.len(),
            first_touch_from(*p, shots@, dist, 0) == first_touch_from(*p, shots@, dist, j as int),
        decreases shots@.len() - j,
    {
        if collided(&shots[j].pos, p, dist) {
            return Some(j);
        }
        j = j + 1;
    }
    None
}

impl World {
    /// Resolve every (enemy, player shot) pair in order: on a hit, despawn
    /// both, raise the score by one and speed the formation up by the fixed
    /// increment.  A shot or enemy destroyed earlier in the pass matches no
    /// later pair.
    #[verifier::loop_isolation(false)]
    pub fn laser_enemy_hit_detection(&mut self)
        requires
            old(self)@.wf(),
        ensures
            final(self)@ == spec_laser_enemy_hits(old(self)@),
            final(self)@.wf(),
    {
        let ghost w0 = self@;
        let n = self.enemies.len();
        let m = self.player_shots.len();
        let mut alive: Vec<bool> = Vec::new();
        while alive.len() < m
            invariant
                alive@.len() <= m,
                forall|k: int| 0 <= k < alive@.len() ==> alive@[k] == true,
            decreases m - alive@.len(),
        {
            alive.push(true);
        }
        let ghost all_true = Seq::new(w0.player_shots.len(), |k: int| true);
        proof {
            assert(alive@ =~= all_true);
        }
        let mut survivors: Vec<Pos> = Vec::new();
        let ghost mut hits_g: int = 0;
        let mut i: usize = 0;
        while i < n
            invariant
                i <= n,
                alive@.len() == m,
                self.enemies@ == w0.enemies,
                self.player_shots@ == w0.player_shots,
                self.enemy_shots@ == w0.enemy_shots,
                self.player == w0.player,
                self.enemy_weapon == w0.enemy_weapon,
                self.status == w0.status,
                self.fleet.dir == w0.fleet.dir,
                self.fleet.x == w0.fleet.x,
                self.score + survivors@.len() + (n - i) <= u32::MAX,
                spec_volley(w0) == spec_volley_at(
                    w0.enemies,
                    w0.player_shots,
                    i as int,
                    alive@,
                    survivors@,
                    self.score,
                    self.fleet.speed,
                    hits_g,
                ),
            decreases n - i,
        {
            let ghost alive_b = alive@;
            let ghost surv_b = survivors@;
            let ghost score_b = self.score;
            let ghost fs_b = self.fleet.speed;
            let ghost hits_b = hits_g;
            let e = self.enemies[i];
            match find_hit(&e, &self.player_shots, &alive) {
                Some(j) => {
                    alive.set(j, false);
                    self.score = self.score + 1;
                    self.fleet.speed = sat_add_i64(self.fleet.speed, FLEET_SPEED_INCREMENT);
                    proof {
                        hits_g = hits_g + 1;
                    }
                },
                None => {
                    survivors.push(e);
                },
            }
            proof {
                assert(spec_volley_at(
                    w0.enemies,
                    w0.player_shots,
                    i as int,
                    alive_b,
                    surv_b,
                    score_b,
                    fs_b,
                    hits_b,
                ) == spec_volley_at(
                    w0.enemies,
                    w0.player_shots,
                    i + 1,
                    alive@,
                    survivors@,
                    self.score,
                    self.fleet.speed,
                    hits_g,
                ));
            }
            i = i + 1;
        }
        self.enemies = survivors;
        let mut kept: Vec<Shot> = Vec::new();
        let ghost alive_f = alive@;
        let mut j: usize = 0;
        while j < m
            invariant
                j <= m,
                alive@ == alive_f,
                alive@.len() == m,
                self.player_shots@ == w0.player_shots,
                mask_keep(w0.player_shots, alive_f) == mask_keep_from(
                    w0.player_shots,
                    alive_f,
                    j as int,
                    kept@,
                ),
            decreases m - j,
        {
            if alive[j] {
                kept.push(self.player_shots[j]);
            }
            j = j + 1;
        }
        self.player_shots = kept;
        proof {
            assert(self@ =~= spec_laser_enemy_hits(w0));
        }
    }

    /// Test the living player against every living enemy and enemy shot: any
    /// contact destroys the player and loses the game, and a shot that hit
    /// is despawned with it.  Once the player is destroyed no further pair
    /// is tested.
    pub fn player_enemy_hit_detection(&mut self)
        ensures
            final(self)@ == spec_player_enemy_hits(old(self)@),
    {
        if let Some(p) = self.player {
            if any_touch(&p.pos, &self.enemies, PLAYER_ENEMY_HIT_DIST) {
                self.status = GameStatus::Lost;
                self.player = None;
            } else {
                match find_touch(&p.pos, &self.enemy_shots, PLAYER_SHOT_HIT_DIST) {
                    Some(j) => {
                        self.status = GameStatus::Lost;
                        self.player = None;
                        self.enemy_shots.remove(j);
                    },
                    None => {},
                }
            }
        }
        proof {
            assert(self@ =~= spec_player_enemy_hits(old(self)@));
        }
    }
}

} // verus!
