use vstd::prelude::*;
use crate::living::weapon_shooting::components::{WeaponInventory, WeaponKind};

verus! {

/// The projectile a projectile weapon fires.
#[derive(Debug, Clone, Copy, PartialEq, Eq)]
pub struct ProjectileProfile {
    /// The name given to each projectile.
    pub projectile_name: &'static str,
    /// How many of the wielder's projectiles may be in flight at once.
    pub max_simultaneous_projectiles: usize,
}

/// The make-up of a weapon: its sprite sheet and which components it carries.
/// Its tuning values (damage, speeds, lifetimes, timer lengths, sizes and the
/// sprite's angle) stand beside it in the engine.
#[derive(Debug, Clone, Copy, PartialEq, Eq)]
pub struct WeaponProfile {
    pub kind: WeaponKind,
    pub texture_path: &'static str,
    /// Width and height of one sprite cell, in pixels.
    pub tile_size: (u32, u32),
    pub columns: u32,
    pub rows: u32,
    pub initial_frame_index: usize,
    /// Set when the weapon fires projectiles.
    pub projectile: Option<ProjectileProfile>,
    /// Set when the weapon strikes in melee.
    pub melee: bool,
    /// Set when the weapon has a fire-rate limiter.
    pub fire_rate: bool,
    /// Set when the weapon is a beam.
    pub beam: bool,
}

/// The make-up of each kind of weapon.
pub open spec fn spec_weapon_profile(kind: WeaponKind) -> (Seq<char>, (u32, u32), u32, u32, usize, Option<(Seq<char>, usize)>, bool, bool, bool) {
    match kind {
        WeaponKind::Bow => (
            "weapons/bow/Bow Pack.png"@,
            (24u32, 24u32),
            6u32,
            6u32,
            25usize,
            Some(("Arrow"@, 12usize)),
            false,
            true,
            false,
        ),
        WeaponKind::Sword => (
            "weapons/Swords/sword_icons.png"@,
            (16u32, 16u32),
            6u32,
            4u32,
            12usize,
            None,
            true,
            false,
            false,
        ),
        WeaponKind::HeavyBow => (
            "weapons/bow/Bow Pack.png"@,
            (24u32, 24u32),
            6u32,
            6u32,
            31usize,
            Some(("Heavy Arrow"@, 3usize)),
            false,
            true,
            false,
        ),
        WeaponKind::Beam => (
            "weapons/beam_circle_2.png"@,
            (24u32, 24u32),
            1u32,
            1u32,
            0usize,
            None,
            false,
            false,
            true,
        ),
    }
}

impl WeaponProfile {
    /// This profile, read as plain values.
    pub open spec fn as_spec(&self) -> (Seq<char>, (u32, u32), u32, u32, usize, Option<(Seq<char>, usize)>, bool, bool, bool) {
        (
            self.texture_path@,
            self.tile_size,
            self.columns,
            self.rows,
            self.initial_frame_index,
            match self.projectile {
                Some(p) => Some((p.projectile_name@, p.max_simultaneous_projectiles)),
                None => None,
            },
            self.melee,
            self.fire_rate,
            self.beam,
        )
    }
}

/// The make-up of a weapon of `kind`: the one place that says what each kind
/// of weapon carries.
pub fn weapon_bundle(kind: WeaponKind) -> (profile: WeaponProfile)
    ensures
        profile.kind == kind,
        profile.as_spec() == spec_weapon_profile(kind),
        kind == WeaponKind::Bow ==> profile.texture_path@ == "weapons/bow/Bow Pack.png"@
            && profile.tile_size == (24u32, 24u32) && profile.columns == 6 && profile.rows == 6
            && profile.initial_frame_index == 25 && (profile.projectile matches Some(p)
            && p.projectile_name@ == "Arrow"@ && p.max_simultaneous_projectiles == 12)
            && !profile.melee && profile.fire_rate && !profile.beam,
        kind == WeaponKind::Sword ==> profile.texture_path@ == "weapons/Swords/sword_icons.png"@
            && profile.tile_size == (16u32, 16u32) && profile.columns == 6 && profile.rows == 4
            && profile.initial_frame_index == 12 && profile.projectile is None && profile.melee
            && !profile.fire_rate && !profile.beam,
        kind == WeaponKind::HeavyBow ==> profile.texture_path@ == "weapons/bow/Bow Pack.png"@
            && profile.tile_size == (24u32, 24u32) && profile.columns == 6 && profile.rows == 6
            && profile.initial_frame_index == 31 && (profile.projectile matches Some(p)
            && p.projectile_name@ == "Heavy Arrow"@ && p.max_simultaneous_projectiles == 3)
            && !profile.melee && profile.fire_rate && !profile.beam,
        kind == WeaponKind::Beam ==> profile.texture_path@ == "weapons/beam_circle_2.png"@
            && profile.tile_size == (24u32, 24u32) && profile.columns == 1 && profile.rows == 1
            && profile.initial_frame_index == 0 && profile.projectile is None && !profile.melee
            && !profile.fire_rate && profile.beam,
{
    match kind {
        WeaponKind::Bow => WeaponProfile {
            kind,
            texture_path: "weapons/bow/Bow Pack.png",
            tile_size: (24, 24),
            columns: 6,
            rows: 6,
            initial_frame_index: 25,
            projectile: Some(
                ProjectileProfile { projectile_name: "Arrow", max_simultaneous_projectiles: 12 },
            ),
            melee: false,
            fire_rate: true,
            beam: false,
        },
        WeaponKind::Sword => WeaponProfile {
            kind,
            texture_path: "weapons/Swords/sword_icons.png",
            tile_size: (16, 16),
            columns: 6,
            rows: 4,
            initial_frame_index: 12,
            projectile: None,
            melee: true,
            fire_rate: false,
            beam: false,
        },
        WeaponKind::HeavyBow => WeaponProfile {
            kind,
            texture_path: "weapons/bow/Bow Pack.png",
            tile_size: (24, 24),
            columns: 6,
            rows: 6,
            initial_frame_index: 31,
            projectile: Some(
                ProjectileProfile {
                    projectile_name: "Heavy Arrow",
                    max_simultaneous_projectiles: 3,
                },
            ),
            melee: false,
            fire_rate: true,
            beam: false,
        },
        WeaponKind::Beam => WeaponProfile {
            kind,
            texture_path: "weapons/beam_circle_2.png",
            tile_size: (24, 24),
            columns: 1,
            rows: 1,
            initial_frame_index: 0,
            projectile: None,
            melee: false,
            fire_rate: false,
            beam: true,
        },
    }
}

/// The make-up of each kind of weapon: the bow and the heavy bow share the
/// bow pack (frames 25 and 31) and fire arrows capped at 12 and 3, the sword
/// comes from the sword sheet and strikes in melee, the beam has a sheet of its
/// own; only the two bows have a fire-rate limiter.
pub proof fn weapon_profiles()
    ensures
        spec_weapon_profile(WeaponKind::Bow) == (
            "weapons/bow/Bow Pack.png"@,
            (24u32, 24u32),
            6u32,
            6u32,
            25usize,
            Some(("Arrow"@, 12usize)),
            false,
            true,
            false,
        ),
        spec_weapon_profile(WeaponKind::Sword) == (
            "weapons/Swords/sword_icons.png"@,
            (16u32, 16u32),
            6u32,
            4u32,
            12usize,
            None::<(Seq<char>, usize)>,
            true,
            false,
            false,
        ),
        spec_weapon_profile(WeaponKind::HeavyBow) == (
            "weapons/bow/Bow Pack.png"@,
            (24u32, 24u32),
            6u32,
            6u32,
            31usize,
            Some(("Heavy Arrow"@, 3usize)),
            false,
            true,
            false,
        ),
        spec_weapon_profile(WeaponKind::Beam) == (
            "weapons/beam_circle_2.png"@,
            (24u32, 24u32),
            1u32,
            1u32,
            0usize,
            None::<(Seq<char>, usize)>,
            false,
            false,
            true,
        ),
        spec_weapon_profile(WeaponKind::HeavyBow).0 == spec_weapon_profile(WeaponKind::Bow).0,
{
}

/// Every kind of weapon attacks in exactly one way (projectiles, melee or
/// beam), and the weapons with a fire-rate limiter are exactly the projectile
/// weapons.
pub proof fn each_weapon_attacks_one_way(kind: WeaponKind)
    ensures
        ({
            let p = spec_weapon_profile(kind);
            &&& (p.5 is Some) as int + p.6 as int + p.8 as int == 1
            &&& p.7 == p.5 is Some
        }),
{
}

/// The weapon to re-equip, if any: when the inventory selects a weapon, it is
/// re-equipped unless it is the equipped kind and its sprite is already shown.
pub open spec fn spec_needs_reequip(
    selected: Option<WeaponKind>,
    equipped: WeaponKind,
    has_weapon_sprite: bool,
) -> Option<WeaponKind> {
    match selected {
        Some(kind) => if kind == equipped && has_weapon_sprite {
            None
        } else {
            Some(kind)
        },
        None => None,
    }
}

/// Whether any child (entity id, whether it is a weapon sprite) is a weapon
/// sprite.
pub open spec fn spec_has_weapon_sprite(children: Seq<(u64, bool)>) -> bool {
    exists|k: int| 0 <= k < children.len() && #[trigger] children[k].1
}

/// The children, in order, that are weapon sprites.
pub open spec fn spec_weapon_sprites(children: Seq<(u64, bool)>) -> Seq<u64>
    decreases children.len(),
{
    if children.len() == 0 {
        Seq::empty()
    } else {
        let rest = spec_weapon_sprites(children.drop_last());
        if children.last().1 {
            rest.push(children.last().0)
        } else {
            rest
        }
    }
}

/// The weapon a wielder with this inventory, equipped kind and children
/// (entity id, whether it is a weapon sprite) is re-equipped with, if any.
pub open spec fn spec_reequip_kind(
    inventory: &WeaponInventory,
    equipped: WeaponKind,
    children: Seq<(u64, bool)>,
) -> Option<WeaponKind> {
    let selected = if inventory.selects_a_slot() {
        Some(inventory.slots@[inventory.active as int])
    } else {
        None
    };
    spec_needs_reequip(selected, equipped, spec_has_weapon_sprite(children))
}

/// How to re-equip a wielder.
#[derive(Debug, PartialEq, Eq)]
pub struct Reequip {
    /// The weapon to equip; its components replace every weapon component the
    /// wielder has, and a new weapon sprite child shows it.
    pub profile: WeaponProfile,
    /// The weapon sprite children to despawn.
    pub despawn: Vec<u64>,
}

/// Decides whether a wielder's equipped weapon must follow its inventory.
/// `children` lists each child of the wielder with whether it is a weapon
/// sprite.
pub fn apply_active_weapon(
    inventory: &WeaponInventory,
    equipped: WeaponKind,
    children: &Vec<(u64, bool)>,
) -> (reequip: Option<Reequip>)
    ensures
        inventory.selects_a_slot() && inventory.slots@[inventory.active as int] != equipped
            ==> (reequip matches Some(r) && r.profile.kind == inventory.slots@[inventory.active as int]),
        !inventory.selects_a_slot() ==> reequip is None,
        inventory.selects_a_slot() && inventory.slots@[inventory.active as int] == equipped ==> (
        reequip is None <==> exists|k: int| 0 <= k < children@.len() && #[trigger] children@[k].1),
        match spec_reequip_kind(inventory, equipped, children@) {
            Some(kind) => reequip matches Some(r) && r.profile.kind == kind
                && r.profile.as_spec() == spec_weapon_profile(kind) && r.despawn@
                == spec_weapon_sprites(children@),
            None => reequip is None,
        },
{
    let selected = match inventory.current() {
        Some(kind) => kind,
        None => return None,
    };
    let mut has_weapon_sprite = false;
    let mut despawn: Vec<u64> = Vec::new();
    let mut i: usize = 0;
    while i < children.len()
        invariant
            i <= children@.len(),
            has_weapon_sprite == exists|k: int| 0 <= k < i && #[trigger] children@[k].1,
            despawn@ == spec_weapon_sprites(children@.take(i as int)),
        decreases children@.len() - i,
    {
        assert(children@.take(i + 1).drop_last() =~= children@.take(i as int));
        let (child, is_weapon_sprite) = children[i];
        if is_weapon_sprite {
            has_weapon_sprite = true;
            despawn.push(child);
        }
        i = i + 1;
    }
    assert(children@.take(children@.len() as int) =~= children@);
    if selected == equipped && has_weapon_sprite {
        return None;
    }
    Some(Reequip { profile: weapon_bundle(selected), despawn })
}

/// The re-equip decision: a selection that differs from the equipped kind is
/// equipped whatever the children; the equipped kind is equipped again exactly
/// when no weapon sprite shows it; with no selection nothing happens.
pub proof fn reequip_follows_selection(
    selected: WeaponKind,
    equipped: WeaponKind,
    has_weapon_sprite: bool,
)
    ensures
        selected != equipped ==> spec_needs_reequip(Some(selected), equipped, has_weapon_sprite)
            == Some(selected),
        spec_needs_reequip(Some(equipped), equipped, has_weapon_sprite) is None
            <==> has_weapon_sprite,
        !has_weapon_sprite ==> spec_needs_reequip(Some(equipped), equipped, has_weapon_sprite)
            == Some(equipped),
        spec_needs_reequip(None, equipped, has_weapon_sprite) is None,
{
}

/// Whether `id` is the id of a weapon-sprite child among `children`.
pub open spec fn is_weapon_sprite_child(children: Seq<(u64, bool)>, id: u64) -> bool {
    exists|j: int| 0 <= j < children.len() && #[trigger] children[j].0 == id && children[j].1
}

/// The sprites to despawn are exactly the weapon-sprite children: each of them
/// is listed, and nothing else is.
pub proof fn despawns_exactly_weapon_sprites(children: Seq<(u64, bool)>)
    ensures
        forall|k: int|
            0 <= k < spec_weapon_sprites(children).len() ==> is_weapon_sprite_child(
                children,
                #[trigger] spec_weapon_sprites(children)[k],
            ),
        forall|j: int|
            0 <= j < children.len() && #[trigger] children[j].1 ==> spec_weapon_sprites(
                children,
            ).contains(children[j].0),
    decreases children.len(),
{
    if children.len() > 0 {
        let init = children.drop_last();
        despawns_exactly_weapon_sprites(init);
        let w = spec_weapon_sprites(children);
        let wi = spec_weapon_sprites(init);
        assert forall|k: int| 0 <= k < w.len() implies is_weapon_sprite_child(
            children,
            #[trigger] w[k],
        ) by {
            if k < wi.len() {
                assert(w[k] == wi[k]);
                assert(is_weapon_sprite_child(init, wi[k]));
                let j = choose|j: int|
                    0 <= j < init.len() && #[trigger] init[j].0 == wi[k] && init[j].1;
                assert(children[j] == init[j]);
            } else {
                assert(children[children.len() - 1].0 == w[k]);
            }
        }
        assert forall|j: int| 0 <= j < children.len() && #[trigger] children[j].1 implies w.contains(
            children[j].0,
        ) by {
            if j < children.len() - 1 {
                assert(init[j] == children[j]);
                let k = choose|k: int| 0 <= k < wi.len() && wi[k] == init[j].0;
                assert(w[k] == wi[k]);
            } else {
                assert(w[w.len() - 1] == children[j].0);
            }
        }
    }
}

/// Re-equipping settles: once a wielder has been re-equipped with the weapon
/// the decision chose, and a weapon sprite child shows it, a second decision
/// with the same inventory leaves the wielder alone, whatever its other
/// children.
pub proof fn reequip_is_settled(
    inventory: &WeaponInventory,
    equipped: WeaponKind,
    children: Seq<(u64, bool)>,
    children_after: Seq<(u64, bool)>,
)
    requires
        spec_has_weapon_sprite(children_after),
    ensures
        spec_reequip_kind(inventory, equipped, children) matches Some(kind) ==> spec_reequip_kind(
            inventory,
            kind,
            children_after,
        ) is None,
{
}

/// The name of the weapon sprite child of a wielder named `name`.
pub fn weapon_sprite_name(name: &str) -> (sprite_name: String)
    ensures
        sprite_name@ == name@ + " Weapon"@,
{
    let mut sprite_name = String::from_str(name);
    sprite_name.append(" Weapon");
    sprite_name
}

} // verus!
