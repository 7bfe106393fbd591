use vstd::prelude::*;
use crate::living::GameLayer;
use crate::living::components::Team;

verus! {

/// The collision layers a projectile is on (`membership`) and collides with
/// (`filters`).
#[derive(Debug, PartialEq, Eq)]
pub struct ProjectileLayers {
    pub membership: GameLayer,
    pub filters: Vec<GameLayer>,
}

/// Whether a wielder on `team` fights on the enemies' side; the player's side,
/// neutral wielders and wielders with no team fire friendly projectiles.
pub open spec fn fires_enemy_projectiles(team: Option<Team>) -> bool {
    team == Some(Team::Enemy)
}

/// The layer a projectile of a wielder on `team` is on.
pub open spec fn spec_projectile_layer(team: Option<Team>) -> GameLayer {
    if fires_enemy_projectiles(team) {
        GameLayer::EnemyProjectile
    } else {
        GameLayer::FriendlyProjectile
    }
}

/// The layers a freshly fired projectile collides with: the world and the
/// other side's units and projectiles.
pub open spec fn spec_spawn_filters(team: Option<Team>) -> Seq<GameLayer> {
    if fires_enemy_projectiles(team) {
        seq![GameLayer::World, GameLayer::FriendlyUnit, GameLayer::FriendlyProjectile]
    } else {
        seq![GameLayer::World, GameLayer::EnemyUnit, GameLayer::EnemyProjectile]
    }
}

/// The layers a projectile collides with once it is clear of its wielder: as
/// when fired, and its own side's projectiles as well.
pub open spec fn spec_released_filters(team: Option<Team>) -> Seq<GameLayer> {
    spec_spawn_filters(team).push(spec_projectile_layer(team))
}

/// The collision layers of a projectile that a wielder on `team` fires.
pub fn projectile_spawn_layers(team: Option<Team>) -> (layers: ProjectileLayers)
    ensures
        layers.membership == spec_projectile_layer(team),
        layers.filters@ == spec_spawn_filters(team),
{
    match team {
        Some(Team::Enemy) => ProjectileLayers {
            membership: GameLayer::EnemyProjectile,
            filters: vec![GameLayer::World, GameLayer::FriendlyUnit, GameLayer::FriendlyProjectile],
        },
        _ => ProjectileLayers {
            membership: GameLayer::FriendlyProjectile,
            filters: vec![GameLayer::World, GameLayer::EnemyUnit, GameLayer::EnemyProjectile],
        },
    }
}

/// The collision layers of a projectile of a wielder on `team` once it has
/// flown clear of its wielder.
pub fn released_projectile_layers(team: Option<Team>) -> (layers: ProjectileLayers)
    ensures
        layers.membership == spec_projectile_layer(team),
        layers.filters@ == spec_released_filters(team),
{
    match team {
        Some(Team::Enemy) => ProjectileLayers {
            membership: GameLayer::EnemyProjectile,
            filters: vec![
                GameLayer::World,
                GameLayer::FriendlyUnit,
                GameLayer::FriendlyProjectile,
                GameLayer::EnemyProjectile,
            ],
        },
        _ => ProjectileLayers {
            membership: GameLayer::FriendlyProjectile,
            filters: vec![
                GameLayer::World,
                GameLayer::EnemyUnit,
                GameLayer::EnemyProjectile,
                GameLayer::FriendlyProjectile,
            ],
        },
    }
}

/// The number of projectiles in `fired_by` (the firer of each live projectile)
/// that `wielder` fired.
pub open spec fn spec_count_fired_by(fired_by: Seq<u64>, wielder: u64) -> nat
    decreases fired_by.len(),
{
    if fired_by.len() == 0 {
        0
    } else {
        spec_count_fired_by(fired_by.drop_last(), wielder) + if fired_by.last() == wielder {
            1nat
        } else {
            0nat
        }
    }
}

/// Counts the live projectiles that `wielder` fired.
pub fn count_fired_by(fired_by: &Vec<u64>, wielder: u64) -> (count: usize)
    ensures
        count == spec_count_fired_by(fired_by@, wielder),
{
    let mut count: usize = 0;
    let mut i: usize = 0;
    while i < fired_by.len()
        invariant
            i <= fired_by@.len(),
            count == spec_count_fired_by(fired_by@.take(i as int), wielder),
            count <= i,
        decreases fired_by@.len() - i,
    {
        assert(fired_by@.take(i + 1).drop_last() =~= fired_by@.take(i as int));
        if fired_by[i] == wielder {
            count = count + 1;
        }
        i = i + 1;
    }
    assert(fired_by@.take(fired_by@.len() as int) =~= fired_by@);
    count
}

/// What firing a projectile weapon does.
#[derive(Debug, PartialEq, Eq)]
pub struct ProjectileFirePlan {
    /// Restart the wielder's fire-rate limiter.
    pub reset_fire_rate: bool,
    /// Spawn a projectile on these layers; `None` when the wielder already has
    /// as many projectiles in flight as its weapon allows.
    pub spawn: Option<ProjectileLayers>,
}

/// Decides one fire request for a projectile weapon: the limiter, if the
/// wielder has one, restarts whether or not a projectile leaves; a projectile
/// leaves when fewer than `max_simultaneous` of the wielder's projectiles are
/// in flight.
pub fn fire_projectile_weapon(
    wielder: u64,
    wielder_team: Option<Team>,
    has_fire_rate: bool,
    max_simultaneous: usize,
    fired_by: &Vec<u64>,
) -> (plan: ProjectileFirePlan)
    ensures
        plan.reset_fire_rate == has_fire_rate,
        plan.spawn is Some <==> spec_count_fired_by(fired_by@, wielder) < max_simultaneous,
        plan.spawn matches Some(layers) ==> layers.membership == spec_projectile_layer(wielder_team)
            && layers.filters@ == spec_spawn_filters(wielder_team),
{
    let active = count_fired_by(fired_by, wielder);
    if active >= max_simultaneous {
        return ProjectileFirePlan { reset_fire_rate: has_fire_rate, spawn: None };
    }
    ProjectileFirePlan {
        reset_fire_rate: has_fire_rate,
        spawn: Some(projectile_spawn_layers(wielder_team)),
    }
}

/// A projectile never collides with the units of its own side, neither when
/// fired nor once released.
pub proof fn projectiles_spare_own_units(team: Option<Team>)
    ensures
        fires_enemy_projectiles(team) ==> !spec_released_filters(team).contains(
            GameLayer::EnemyUnit,
        ),
        !fires_enemy_projectiles(team) ==> !spec_released_filters(team).contains(
            GameLayer::FriendlyUnit,
        ),
        forall|l: GameLayer| #[trigger]
            spec_spawn_filters(team).contains(l) ==> spec_released_filters(team).contains(l),
{
    let s = spec_spawn_filters(team);
    let r = spec_released_filters(team);
    assert(r[0] == s[0] && r[1] == s[1] && r[2] == s[2]);
    assert forall|l: GameLayer| #[trigger] s.contains(l) implies r.contains(l) by {
        let k = choose|k: int| 0 <= k < s.len() && s[k] == l;
        assert(r[k] == l);
    }
}

/// Releasing a projectile only widens what it collides with: it keeps its
/// layer and every layer it collided with, and gains exactly its own side's
/// projectiles, which it did not collide with before.
pub proof fn release_adds_own_projectiles(team: Option<Team>)
    ensures
        spec_released_filters(team).len() == spec_spawn_filters(team).len() + 1,
        spec_released_filters(team).last() == spec_projectile_layer(team),
        !spec_spawn_filters(team).contains(spec_projectile_layer(team)),
{
    let s = spec_spawn_filters(team);
    let p = spec_projectile_layer(team);
    if s.contains(p) {
        let k = choose|k: int| 0 <= k < s.len() && s[k] == p;
        assert(s[k] != p);
    }
}

/// The count is the number of live projectiles whose firer is the wielder: an
/// empty list counts none, a projectile of the wielder adds one, and any other
/// projectile adds nothing.
pub proof fn count_fired_by_counts_each(fired_by: Seq<u64>, wielder: u64, other: u64)
    requires
        other != wielder,
    ensures
        spec_count_fired_by(Seq::empty(), wielder) == 0,
        spec_count_fired_by(fired_by.push(wielder), wielder) == spec_count_fired_by(fired_by, wielder)
            + 1,
        spec_count_fired_by(fired_by.push(other), wielder) == spec_count_fired_by(fired_by, wielder),
{
    assert(fired_by.push(wielder).drop_last() =~= fired_by);
    assert(fired_by.push(other).drop_last() =~= fired_by);
}

/// `n` projectiles all fired by the wielder count `n`.
pub proof fn count_fired_by_all_own(n: nat, wielder: u64)
    ensures
        spec_count_fired_by(Seq::new(n, |i: int| wielder), wielder) == n,
    decreases n,
{
    if n > 0 {
        count_fired_by_all_own((n - 1) as nat, wielder);
        assert(Seq::new(n, |i: int| wielder).drop_last() =~= Seq::new(
            (n - 1) as nat,
            |i: int| wielder,
        ));
    }
}

/// Freshly fired projectiles collide with the world and the other side's
/// units and projectiles, in that order; friendly projectiles are fired by the
/// player's side, neutral wielders and wielders with no team.
pub proof fn spawn_layers_by_team()
    ensures
        spec_projectile_layer(Some(Team::Enemy)) == GameLayer::EnemyProjectile,
        spec_projectile_layer(Some(Team::Player)) == GameLayer::FriendlyProjectile,
        spec_projectile_layer(Some(Team::Neutral)) == GameLayer::FriendlyProjectile,
        spec_projectile_layer(None) == GameLayer::FriendlyProjectile,
        spec_spawn_filters(Some(Team::Enemy)) == seq![
            GameLayer::World,
            GameLayer::FriendlyUnit,
            GameLayer::FriendlyProjectile,
        ],
        spec_spawn_filters(Some(Team::Player)) == seq![
            GameLayer::World,
            GameLayer::EnemyUnit,
            GameLayer::EnemyProjectile,
        ],
        spec_spawn_filters(Some(Team::Neutral)) == spec_spawn_filters(Some(Team::Player)),
        spec_spawn_filters(None) == spec_spawn_filters(Some(Team::Player)),
{
}

} // verus!
