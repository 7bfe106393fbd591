use platformer::character_control_systems::player_input::{
    fire_intent, passes_fire_rate, player_cycle_weapon, player_fire_input, weapon_selection_text,
};
use platformer::is_playing;
use platformer::living::weapon_shooting::components::{WeaponInventory, WeaponKind};
use platformer::living::weapon_shooting::events::WeaponIntent;
use platformer::util::controls_other::{handle_non_player_controls, OtherControls};
use platformer::util::game_states::{toggle_pause, GameState};

#[test]
fn fire_intent_follows_button_state() {
    assert_eq!(fire_intent(true, false, true), Some(WeaponIntent::BeginHold));
    assert_eq!(fire_intent(true, true, false), Some(WeaponIntent::BeginHold));
    assert_eq!(fire_intent(false, true, false), Some(WeaponIntent::ReleaseHold));
    assert_eq!(fire_intent(false, false, true), Some(WeaponIntent::ContinueHold));
    assert_eq!(fire_intent(false, false, false), None);
}

#[test]
fn fire_rate_holds_back_all_but_release() {
    assert!(!passes_fire_rate(WeaponIntent::BeginHold, Some(false)));
    assert!(!passes_fire_rate(WeaponIntent::ContinueHold, Some(false)));
    assert!(passes_fire_rate(WeaponIntent::ReleaseHold, Some(false)));
    assert!(passes_fire_rate(WeaponIntent::BeginHold, Some(true)));
    assert!(passes_fire_rate(WeaponIntent::ContinueHold, None));
}

#[test]
fn player_fire_input_decides_request() {
    assert_eq!(player_fire_input(false, true, false, true, Some(true)), Some(WeaponIntent::BeginHold));
    assert_eq!(player_fire_input(true, true, false, true, Some(true)), None);
    assert_eq!(player_fire_input(false, false, false, true, Some(false)), None);
    assert_eq!(
        player_fire_input(false, false, true, false, Some(false)),
        Some(WeaponIntent::ReleaseHold)
    );
    assert_eq!(player_fire_input(false, false, false, false, None), None);
}

fn inventory(active: usize) -> WeaponInventory {
    WeaponInventory {
        slots: vec![WeaponKind::Bow, WeaponKind::Sword, WeaponKind::HeavyBow, WeaponKind::Beam],
        active,
    }
}

#[test]
fn cycling_input_moves_selection() {
    let mut inv = inventory(0);
    player_cycle_weapon(&mut inv, false, true, false);
    assert_eq!(inv.active, 1);
    player_cycle_weapon(&mut inv, false, false, true);
    assert_eq!(inv.active, 0);
    player_cycle_weapon(&mut inv, false, false, true);
    assert_eq!(inv.active, 3);
    player_cycle_weapon(&mut inv, false, true, true);
    assert_eq!(inv.active, 3);
    player_cycle_weapon(&mut inv, true, true, false);
    assert_eq!(inv.active, 3);
}

#[test]
fn cycling_input_from_high_selection() {
    let mut inv = inventory(usize::MAX - 1);
    player_cycle_weapon(&mut inv, false, true, false);
    assert_eq!(inv.active, 3);
    let mut inv = inventory(usize::MAX);
    player_cycle_weapon(&mut inv, true, true, true);
    assert_eq!(inv.active, usize::MAX);
    player_cycle_weapon(&mut inv, false, false, false);
    assert_eq!(inv.active, usize::MAX);
}

#[test]
fn selection_text_names_weapon() {
    assert_eq!(weapon_selection_text(Some(WeaponKind::HeavyBow)), "Weapon Equipped: HeavyBow");
    assert_eq!(weapon_selection_text(Some(WeaponKind::Bow)), "Weapon Equipped: Bow");
    assert_eq!(weapon_selection_text(Some(WeaponKind::Sword)), "Weapon Equipped: Sword");
    assert_eq!(weapon_selection_text(Some(WeaponKind::Beam)), "Weapon Equipped: Beam");
    assert_eq!(weapon_selection_text(None), "Weapon Equipped: None");
}

#[test]
fn pause_toggles_and_back() {
    assert_eq!(toggle_pause(GameState::Running), GameState::Paused);
    assert_eq!(toggle_pause(GameState::Paused), GameState::Running);
    assert_eq!(toggle_pause(toggle_pause(GameState::Running)), GameState::Running);
    assert_eq!(GameState::default(), GameState::Running);
}

#[test]
fn egui_visibility_controls() {
    let mut c = OtherControls::default();
    assert!(c.is_egui_visible());
    c.toggle_egui();
    assert!(!c.is_egui_visible());
    c.toggle_egui();
    assert!(c.is_egui_visible());
    c.hide_egui();
    assert!(!c.is_egui_visible());
    c.show_egui();
    assert!(c.is_egui_visible());
}

#[test]
fn non_player_keys_decide_outcome() {
    let mut c = OtherControls::default();
    let out = handle_non_player_controls(&mut c, GameState::Running, true, false, true);
    assert!(!c.is_egui_visible());
    assert!(!out.exit);
    assert_eq!(out.next_state, Some(GameState::Paused));
    let out = handle_non_player_controls(&mut c, GameState::Paused, false, true, true);
    assert!(!c.is_egui_visible());
    assert!(out.exit);
    assert_eq!(out.next_state, Some(GameState::Running));
    let out = handle_non_player_controls(&mut c, GameState::Paused, false, false, false);
    assert_eq!(out.next_state, None);
}

#[test]
fn game_is_always_in_play() {
    assert!(is_playing());
}
