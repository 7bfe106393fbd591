use vstd::prelude::*;
use crate::living::weapon_shooting::components::{cycled_index, WeaponInventory, WeaponKind};
use crate::living::weapon_shooting::events::WeaponIntent;

verus! {

/// The actions a player binds to input.
#[derive(Debug, Clone, Copy, PartialEq, Eq, Structural)]
pub enum PlayerAction {
    Fire,
    CycleNext,
    CyclePrev,
}

/// The intent read off the fire button: a press begins a hold, a release ends
/// it, a held button continues it; an idle button asks nothing.
pub open spec fn spec_fire_intent(just_pressed: bool, just_released: bool, pressed: bool) -> Option<
    WeaponIntent,
> {
    if just_pressed {
        Some(WeaponIntent::BeginHold)
    } else if just_released {
        Some(WeaponIntent::ReleaseHold)
    } else if pressed {
        Some(WeaponIntent::ContinueHold)
    } else {
        None
    }
}

/// Whether a fire request with this intent gets past the fire-rate limiter.
/// A release always does, so that a held weapon is never left on; otherwise a
/// limiter that has not run out holds the request back.
pub open spec fn spec_passes_fire_rate(intent: WeaponIntent, fire_rate_finished: Option<bool>) -> bool {
    intent == WeaponIntent::ReleaseHold || fire_rate_finished != Some(false)
}

/// The intent of the fire request a player's input makes this frame, if any:
/// none while the UI holds the pointer, none for an idle button, and none while
/// the fire-rate limiter holds the request back.
pub open spec fn spec_player_fire_request(
    ui_wants_pointer: bool,
    just_pressed: bool,
    just_released: bool,
    pressed: bool,
    fire_rate_finished: Option<bool>,
) -> Option<WeaponIntent> {
    if ui_wants_pointer {
        None
    } else {
        match spec_fire_intent(just_pressed, just_released, pressed) {
            Some(intent) => if spec_passes_fire_rate(intent, fire_rate_finished) {
                Some(intent)
            } else {
                None
            },
            None => None,
        }
    }
}

/// The intent read off the state of the fire button.
pub fn fire_intent(just_pressed: bool, just_released: bool, pressed: bool) -> (intent: Option<
    WeaponIntent,
>)
    ensures
        intent == spec_fire_intent(just_pressed, just_released, pressed),
        just_pressed ==> intent == Some(WeaponIntent::BeginHold),
        !just_pressed && just_released ==> intent == Some(WeaponIntent::ReleaseHold),
        !just_pressed && !just_released && pressed ==> intent == Some(WeaponIntent::ContinueHold),
        !just_pressed && !just_released && !pressed ==> intent is None,
{
    if just_pressed {
        Some(WeaponIntent::BeginHold)
    } else if just_released {
        Some(WeaponIntent::ReleaseHold)
    } else if pressed {
        Some(WeaponIntent::ContinueHold)
    } else {
        None
    }
}

/// Whether a request with `intent` passes a fire-rate limiter whose state is
/// `fire_rate_finished` (`None`: the weapon has no limiter).
pub fn passes_fire_rate(intent: WeaponIntent, fire_rate_finished: Option<bool>) -> (passes: bool)
    ensures
        passes == spec_passes_fire_rate(intent, fire_rate_finished),
        fire_rate_finished is None ==> passes,
        fire_rate_finished == Some(true) ==> passes,
        fire_rate_finished == Some(false) ==> (passes <==> intent == WeaponIntent::ReleaseHold),
{
    match intent {
        WeaponIntent::ReleaseHold => true,
        _ => match fire_rate_finished {
            Some(finished) => finished,
            None => true,
        },
    }
}

/// Decides the fire request of one player for this frame from the state of
/// the fire button and of the weapon's fire-rate limiter. The caller aims the
/// request and sends it when the aim direction is not zero.
pub fn player_fire_input(
    ui_wants_pointer: bool,
    just_pressed: bool,
    just_released: bool,
    pressed: bool,
    fire_rate_finished: Option<bool>,
) -> (request: Option<WeaponIntent>)
    ensures
        request == spec_player_fire_request(
            ui_wants_pointer,
            just_pressed,
            just_released,
            pressed,
            fire_rate_finished,
        ),
{
    if ui_wants_pointer {
        return None;
    }
    match fire_intent(just_pressed, just_released, pressed) {
        Some(intent) => if passes_fire_rate(intent, fire_rate_finished) {
            Some(intent)
        } else {
            None
        },
        None => None,
    }
}

/// Applies the weapon-cycling input of one frame to the player's inventory:
/// nothing while the UI holds the pointer; otherwise "next" selects the next
/// weapon, then "previous" selects the previous one.
pub fn player_cycle_weapon(
    inventory: &mut WeaponInventory,
    ui_wants_pointer: bool,
    next_pressed: bool,
    prev_pressed: bool,
)
    requires
        old(inventory).slots@.len() > 0 && !ui_wants_pointer && next_pressed ==> old(
            inventory,
        ).active < usize::MAX,
        old(inventory).slots@.len() > 0 && !ui_wants_pointer && prev_pressed && !next_pressed
            ==> old(inventory).active + old(inventory).slots@.len() <= usize::MAX,
        old(inventory).slots@.len() + old(inventory).slots@.len() <= usize::MAX,
    ensures
        final(inventory).slots@ == old(inventory).slots@,
        ({
            let len = old(inventory).slots@.len() as int;
            let start = old(inventory).active as int;
            let after_next = if next_pressed {
                cycled_index(start, len, true)
            } else {
                start
            };
            let after_prev = if prev_pressed {
                cycled_index(after_next, len, false)
            } else {
                after_next
            };
            final(inventory).active == if ui_wants_pointer || len == 0 {
                start
            } else {
                after_prev
            }
        }),
{
    if ui_wants_pointer {
        return;
    }
    if next_pressed {
        inventory.cycle(true);
    }
    if prev_pressed {
        inventory.cycle(false);
    }
}

/// The fire-rate gate holds back exactly the requests that are not releases
/// while a limiter runs: a weapon without a limiter, or whose limiter has
/// finished, lets every request through, and a running limiter lets only a
/// release through.
pub proof fn fire_rate_gate_holds_back_only_while_running(intent: WeaponIntent)
    ensures
        spec_passes_fire_rate(intent, None),
        spec_passes_fire_rate(intent, Some(true)),
        spec_passes_fire_rate(intent, Some(false)) <==> intent == WeaponIntent::ReleaseHold,
{
}

/// The fire button's state maps to intents by priority: a press begins a
/// hold, otherwise a release ends it, otherwise a held button continues it,
/// and an idle button asks nothing.
pub proof fn fire_intent_by_priority(just_pressed: bool, just_released: bool, pressed: bool)
    ensures
        just_pressed ==> spec_fire_intent(just_pressed, just_released, pressed) == Some(
            WeaponIntent::BeginHold,
        ),
        !just_pressed && just_released ==> spec_fire_intent(just_pressed, just_released, pressed)
            == Some(WeaponIntent::ReleaseHold),
        !just_pressed && !just_released && pressed ==> spec_fire_intent(
            just_pressed,
            just_released,
            pressed,
        ) == Some(WeaponIntent::ContinueHold),
        !just_pressed && !just_released && !pressed ==> spec_fire_intent(
            just_pressed,
            just_released,
            pressed,
        ) is None,
{
}

/// Holding the fire button with a weapon whose limiter has finished (or that
/// has none) fires again; with the UI free, any intent that the button asks
/// for reaches the weapon unless a running limiter holds a non-release back.
pub proof fn held_button_fires_again(fire_rate_finished: Option<bool>)
    requires
        fire_rate_finished != Some(false),
    ensures
        spec_player_fire_request(false, false, false, true, fire_rate_finished) == Some(
            WeaponIntent::ContinueHold,
        ),
        spec_player_fire_request(false, true, false, true, fire_rate_finished) == Some(
            WeaponIntent::BeginHold,
        ),
{
}

/// While a limiter runs, only a release reaches the weapon.
pub proof fn running_limiter_holds_back(just_pressed: bool, just_released: bool, pressed: bool)
    ensures
        spec_player_fire_request(false, just_pressed, just_released, pressed, Some(false)) is Some
            ==> spec_player_fire_request(false, just_pressed, just_released, pressed, Some(false))
            == Some(WeaponIntent::ReleaseHold),
        !just_pressed && just_released ==> spec_player_fire_request(
            false,
            just_pressed,
            just_released,
            pressed,
            Some(false),
        ) == Some(WeaponIntent::ReleaseHold),
{
}

/// The names a weapon kind is shown under are its variant names.
pub proof fn weapon_kind_names()
    ensures
        weapon_kind_name(WeaponKind::Bow) == "Bow"@,
        weapon_kind_name(WeaponKind::Sword) == "Sword"@,
        weapon_kind_name(WeaponKind::HeavyBow) == "HeavyBow"@,
        weapon_kind_name(WeaponKind::Beam) == "Beam"@,
{
}

/// A release of the fire button is never held back: it reaches the weapon
/// whatever the state of the fire-rate limiter, unless the UI holds the
/// pointer.
pub proof fn release_always_reaches_weapon(fire_rate_finished: Option<bool>, pressed: bool)
    ensures
        spec_player_fire_request(false, false, true, pressed, fire_rate_finished) == Some(
            WeaponIntent::ReleaseHold,
        ),
{
}

/// While the UI holds the pointer, no input fires.
pub proof fn ui_pointer_blocks_fire(
    just_pressed: bool,
    just_released: bool,
    pressed: bool,
    fire_rate_finished: Option<bool>,
)
    ensures
        spec_player_fire_request(true, just_pressed, just_released, pressed, fire_rate_finished)
            is None,
{
}

/// The name a weapon kind is shown under.
pub open spec fn weapon_kind_name(kind: WeaponKind) -> Seq<char> {
    match kind {
        WeaponKind::Bow => "Bow"@,
        WeaponKind::Sword => "Sword"@,
        WeaponKind::HeavyBow => "HeavyBow"@,
        WeaponKind::Beam => "Beam"@,
    }
}

/// The status line that tells which weapon the player holds.
pub fn weapon_selection_text(kind: Option<WeaponKind>) -> (text: String)
    ensures
        text@ == "Weapon Equipped: "@ + match kind {
            Some(k) => weapon_kind_name(k),
            None => "None"@,
        },
        kind == Some(WeaponKind::Bow) ==> text@ == "Weapon Equipped: Bow"@,
        kind == Some(WeaponKind::Sword) ==> text@ == "Weapon Equipped: Sword"@,
        kind == Some(WeaponKind::HeavyBow) ==> text@ == "Weapon Equipped: HeavyBow"@,
        kind == Some(WeaponKind::Beam) ==> text@ == "Weapon Equipped: Beam"@,
        kind is None ==> text@ == "Weapon Equipped: None"@,
{
    let mut text = String::from_str("Weapon Equipped: ");
    let name = match kind {
        Some(WeaponKind::Bow) => "Bow",
        Some(WeaponKind::Sword) => "Sword",
        Some(WeaponKind::HeavyBow) => "HeavyBow",
        Some(WeaponKind::Beam) => "Beam",
        None => "None",
    };
    text.append(name);
    proof {
        reveal_strlit("Weapon Equipped: ");
        reveal_strlit("Bow");
        reveal_strlit("Sword");
        reveal_strlit("HeavyBow");
        reveal_strlit("Beam");
        reveal_strlit("None");
        reveal_strlit("Weapon Equipped: Bow");
        reveal_strlit("Weapon Equipped: Sword");
        reveal_strlit("Weapon Equipped: HeavyBow");
        reveal_strlit("Weapon Equipped: Beam");
        reveal_strlit("Weapon Equipped: None");
        assert("Weapon Equipped: "@ + "Bow"@ =~= "Weapon Equipped: Bow"@);
        assert("Weapon Equipped: "@ + "Sword"@ =~= "Weapon Equipped: Sword"@);
        assert("Weapon Equipped: "@ + "HeavyBow"@ =~= "Weapon Equipped: HeavyBow"@);
        assert("Weapon Equipped: "@ + "Beam"@ =~= "Weapon Equipped: Beam"@);
        assert("Weapon Equipped: "@ + "None"@ =~= "Weapon Equipped: None"@);
    }
    text
}

} // verus!
