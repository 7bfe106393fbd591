use platformer::living::components::Team;
use platformer::living::player::{starting_inventory, starting_weapon};
use platformer::living::weapon_shooting::beam::{handle_fire_beam_message, BeamAction};
use platformer::living::weapon_shooting::components::{WeaponInventory, WeaponKind};
use platformer::living::weapon_shooting::equip::{apply_active_weapon, weapon_bundle, weapon_sprite_name};
use platformer::living::weapon_shooting::events::WeaponIntent;
use platformer::living::weapon_shooting::melee::{fire_melee_weapon, melee_may_hit};
use platformer::living::weapon_shooting::projectiles::{
    count_fired_by, fire_projectile_weapon, projectile_spawn_layers, released_projectile_layers,
};
use platformer::living::GameLayer;

fn inventory(active: usize) -> WeaponInventory {
    WeaponInventory {
        slots: vec![WeaponKind::Bow, WeaponKind::Sword, WeaponKind::HeavyBow, WeaponKind::Beam],
        active,
    }
}

#[test]
fn current_reports_selected_weapon() {
    assert_eq!(inventory(0).current(), Some(WeaponKind::Bow));
    assert_eq!(inventory(3).current(), Some(WeaponKind::Beam));
    assert_eq!(inventory(4).current(), None);
    let empty = WeaponInventory { slots: vec![], active: 0 };
    assert_eq!(empty.current(), None);
}

#[test]
fn cycle_forward_wraps_to_first() {
    let mut inv = inventory(3);
    inv.cycle(true);
    assert_eq!(inv.active, 0);
    inv.cycle(true);
    assert_eq!(inv.active, 1);
}

#[test]
fn cycle_backward_wraps_to_last() {
    let mut inv = inventory(0);
    inv.cycle(false);
    assert_eq!(inv.active, 3);
    inv.cycle(false);
    assert_eq!(inv.active, 2);
}

#[test]
fn cycle_forward_then_back_restores_selection() {
    for start in 0..4 {
        let mut inv = inventory(start);
        inv.cycle(true);
        inv.cycle(false);
        assert_eq!(inv.active, start);
        inv.cycle(false);
        inv.cycle(true);
        assert_eq!(inv.active, start);
    }
}

#[test]
fn cycle_through_all_slots_returns_to_start() {
    let mut inv = inventory(2);
    for _ in 0..4 {
        inv.cycle(true);
    }
    assert_eq!(inv.active, 2);
}

#[test]
fn cycle_backward_through_all_slots_returns_to_start() {
    let mut inv = inventory(1);
    for _ in 0..4 {
        inv.cycle(false);
    }
    assert_eq!(inv.active, 1);
}

#[test]
fn cycle_on_empty_inventory_does_nothing() {
    let mut inv = WeaponInventory { slots: vec![], active: 7 };
    inv.cycle(true);
    assert_eq!(inv.active, 7);
    inv.cycle(false);
    assert_eq!(inv.active, 7);
}

#[test]
fn cycle_from_out_of_range_selection_lands_in_range() {
    let mut inv = inventory(9);
    inv.cycle(true);
    assert_eq!(inv.active, 2);
    let mut inv = inventory(9);
    inv.cycle(false);
    assert_eq!(inv.active, 0);
}

#[test]
fn player_starts_with_four_weapons_and_beam_selected() {
    let inv = starting_inventory();
    assert_eq!(
        inv.slots,
        vec![WeaponKind::Bow, WeaponKind::Sword, WeaponKind::HeavyBow, WeaponKind::Beam]
    );
    assert_eq!(inv.active, 3);
    assert_eq!(inv.current(), Some(WeaponKind::Beam));
    assert_eq!(starting_weapon(), WeaponKind::Bow);
}

#[test]
fn weapon_profiles_match_their_kinds() {
    let bow = weapon_bundle(WeaponKind::Bow);
    assert_eq!(bow.kind, WeaponKind::Bow);
    assert_eq!(bow.texture_path, "weapons/bow/Bow Pack.png");
    assert_eq!(bow.tile_size, (24, 24));
    assert_eq!((bow.columns, bow.rows, bow.initial_frame_index), (6, 6, 25));
    let p = bow.projectile.unwrap();
    assert_eq!((p.projectile_name, p.max_simultaneous_projectiles), ("Arrow", 12));
    assert!(bow.fire_rate && !bow.melee && !bow.beam);

    let sword = weapon_bundle(WeaponKind::Sword);
    assert_eq!(sword.texture_path, "weapons/Swords/sword_icons.png");
    assert_eq!(sword.tile_size, (16, 16));
    assert_eq!((sword.columns, sword.rows, sword.initial_frame_index), (6, 4, 12));
    assert!(sword.projectile.is_none() && sword.melee && !sword.fire_rate && !sword.beam);

    let heavy = weapon_bundle(WeaponKind::HeavyBow);
    assert_eq!(heavy.initial_frame_index, 31);
    let p = heavy.projectile.unwrap();
    assert_eq!((p.projectile_name, p.max_simultaneous_projectiles), ("Heavy Arrow", 3));
    assert!(heavy.fire_rate);

    let beam = weapon_bundle(WeaponKind::Beam);
    assert_eq!(beam.texture_path, "weapons/beam_circle_2.png");
    assert_eq!((beam.columns, beam.rows, beam.initial_frame_index), (1, 1, 0));
    assert!(beam.beam && beam.projectile.is_none() && !beam.melee && !beam.fire_rate);
}

#[test]
fn each_weapon_attacks_in_one_way() {
    for kind in [WeaponKind::Bow, WeaponKind::Sword, WeaponKind::HeavyBow, WeaponKind::Beam] {
        let p = weapon_bundle(kind);
        let ways = p.projectile.is_some() as u8 + p.melee as u8 + p.beam as u8;
        assert_eq!(ways, 1);
        assert_eq!(p.fire_rate, p.projectile.is_some());
    }
}

#[test]
fn reequip_when_selection_differs() {
    let inv = inventory(1);
    let plan = apply_active_weapon(&inv, WeaponKind::Bow, &vec![(10, false), (11, true), (12, true)]);
    let plan = plan.unwrap();
    assert_eq!(plan.profile.kind, WeaponKind::Sword);
    assert_eq!(plan.despawn, vec![11, 12]);
}

#[test]
fn reequip_when_sprite_missing() {
    let inv = inventory(0);
    let plan = apply_active_weapon(&inv, WeaponKind::Bow, &vec![(10, false)]).unwrap();
    assert_eq!(plan.profile.kind, WeaponKind::Bow);
    assert!(plan.despawn.is_empty());
}

#[test]
fn no_reequip_when_settled_or_nothing_selected() {
    assert!(apply_active_weapon(&inventory(0), WeaponKind::Bow, &vec![(5, true)]).is_none());
    assert!(apply_active_weapon(&inventory(8), WeaponKind::Bow, &vec![]).is_none());
}

#[test]
fn reequip_then_next_frame_settled() {
    let inv = inventory(2);
    let plan = apply_active_weapon(&inv, WeaponKind::Bow, &vec![(3, true)]).unwrap();
    assert_eq!(plan.despawn, vec![3]);
    let after = apply_active_weapon(&inv, plan.profile.kind, &vec![(4, true)]);
    assert!(after.is_none());
}

#[test]
fn weapon_sprite_is_named_after_wielder() {
    assert_eq!(weapon_sprite_name("Ambrosia"), "Ambrosia Weapon");
}

#[test]
fn beam_follows_hold_and_release() {
    assert_eq!(handle_fire_beam_message(WeaponIntent::BeginHold), BeamAction::Activate);
    assert_eq!(handle_fire_beam_message(WeaponIntent::ContinueHold), BeamAction::Activate);
    assert_eq!(handle_fire_beam_message(WeaponIntent::ReleaseHold), BeamAction::Deactivate);
}

#[test]
fn counts_only_the_wielders_projectiles() {
    assert_eq!(count_fired_by(&vec![1, 2, 1, 3, 1], 1), 3);
    assert_eq!(count_fired_by(&vec![1, 2, 1, 3, 1], 4), 0);
    assert_eq!(count_fired_by(&vec![], 1), 0);
}

#[test]
fn projectile_cap_stops_spawning_but_limiter_restarts() {
    let in_flight = vec![7, 7, 8];
    let plan = fire_projectile_weapon(7, Some(Team::Player), true, 3, &in_flight);
    assert!(plan.reset_fire_rate);
    assert!(plan.spawn.is_some());
    let plan = fire_projectile_weapon(7, Some(Team::Player), true, 2, &in_flight);
    assert!(plan.reset_fire_rate);
    assert!(plan.spawn.is_none());
    let plan = fire_projectile_weapon(7, None, false, 0, &vec![]);
    assert!(!plan.reset_fire_rate);
    assert!(plan.spawn.is_none());
}

#[test]
fn projectile_layers_follow_team() {
    let friendly = projectile_spawn_layers(Some(Team::Player));
    assert_eq!(friendly.membership, GameLayer::FriendlyProjectile);
    assert_eq!(
        friendly.filters,
        vec![GameLayer::World, GameLayer::EnemyUnit, GameLayer::EnemyProjectile]
    );
    assert_eq!(projectile_spawn_layers(Some(Team::Neutral)), friendly);
    assert_eq!(projectile_spawn_layers(None), friendly);
    let enemy = projectile_spawn_layers(Some(Team::Enemy));
    assert_eq!(enemy.membership, GameLayer::EnemyProjectile);
    assert_eq!(
        enemy.filters,
        vec![GameLayer::World, GameLayer::FriendlyUnit, GameLayer::FriendlyProjectile]
    );
    let spawned = fire_projectile_weapon(1, Some(Team::Enemy), false, 1, &vec![]).spawn.unwrap();
    assert_eq!(spawned, enemy);
}

#[test]
fn released_projectiles_also_hit_own_side_projectiles() {
    let friendly = released_projectile_layers(None);
    assert_eq!(friendly.membership, GameLayer::FriendlyProjectile);
    assert_eq!(
        friendly.filters,
        vec![
            GameLayer::World,
            GameLayer::EnemyUnit,
            GameLayer::EnemyProjectile,
            GameLayer::FriendlyProjectile
        ]
    );
    let enemy = released_projectile_layers(Some(Team::Enemy));
    assert_eq!(enemy.membership, GameLayer::EnemyProjectile);
    assert_eq!(
        enemy.filters,
        vec![
            GameLayer::World,
            GameLayer::FriendlyUnit,
            GameLayer::FriendlyProjectile,
            GameLayer::EnemyProjectile
        ]
    );
    assert!(!enemy.filters.contains(&GameLayer::EnemyUnit));
}

#[test]
fn melee_never_hits_self_or_teammates() {
    assert!(!melee_may_hit(1, Some(Team::Player), 1, Some(Team::Enemy)));
    assert!(!melee_may_hit(1, Some(Team::Player), 2, Some(Team::Player)));
    assert!(melee_may_hit(1, Some(Team::Player), 2, Some(Team::Enemy)));
    assert!(melee_may_hit(1, None, 2, Some(Team::Player)));
    assert!(melee_may_hit(1, Some(Team::Enemy), 2, None));
}

#[test]
fn melee_waits_for_cooldown() {
    let targets = vec![(2, Some(Team::Enemy))];
    assert!(fire_melee_weapon(1, Some(Team::Player), false, true, &targets).is_none());
}

#[test]
fn melee_swing_lists_candidates() {
    let targets = vec![
        (1, Some(Team::Player)),
        (2, Some(Team::Enemy)),
        (3, Some(Team::Player)),
        (4, None),
        (5, Some(Team::Neutral)),
    ];
    let swing = fire_melee_weapon(1, Some(Team::Player), true, false, &targets).unwrap();
    assert!(!swing.reset_fire_rate);
    assert_eq!(swing.candidates, vec![2, 4, 5]);
    let swing = fire_melee_weapon(4, None, true, true, &targets).unwrap();
    assert!(swing.reset_fire_rate);
    assert_eq!(swing.candidates, vec![1, 2, 3, 5]);
}
