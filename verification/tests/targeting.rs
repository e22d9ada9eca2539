use rpg_engine::combat::SpellId;
use rpg_engine::targeting::{after_hotkeys, confirm_cast, right_click, CastDecision, TargetingState};

#[test]
fn hotkeys_prime_spells_and_the_last_key_wins() {
    assert_eq!(after_hotkeys(TargetingState::Idle, true, false, false, false), TargetingState::Aoe(SpellId::Q));
    assert_eq!(after_hotkeys(TargetingState::Idle, false, true, false, false), TargetingState::UnitTarget(SpellId::W));
    assert_eq!(after_hotkeys(TargetingState::Idle, true, false, true, false), TargetingState::UnitTarget(SpellId::E));
    assert_eq!(after_hotkeys(TargetingState::Aoe(SpellId::Q), true, true, true, true), TargetingState::UnitTarget(SpellId::R));
    assert_eq!(after_hotkeys(TargetingState::UnitTarget(SpellId::W), false, false, false, false), TargetingState::UnitTarget(SpellId::W));
}

#[test]
fn left_click_casts_only_a_ready_primed_spell_with_a_target() {
    let primed = TargetingState::UnitTarget(SpellId::E);
    assert_eq!(confirm_cast(primed, true, true), CastDecision { next: TargetingState::Idle, cast: Some(SpellId::E) });
    assert_eq!(confirm_cast(primed, true, false), CastDecision { next: primed, cast: None });
    assert_eq!(confirm_cast(primed, false, true), CastDecision { next: TargetingState::Idle, cast: None });
    assert_eq!(confirm_cast(TargetingState::Idle, true, true), CastDecision { next: TargetingState::Idle, cast: None });
    let aoe = TargetingState::Aoe(SpellId::Q);
    assert_eq!(confirm_cast(aoe, true, true).cast, Some(SpellId::Q));
}

#[test]
fn right_click_cancels_or_moves() {
    assert_eq!(right_click(TargetingState::Aoe(SpellId::Q), false), (TargetingState::Idle, false));
    assert_eq!(right_click(TargetingState::Idle, false), (TargetingState::Idle, true));
    assert_eq!(right_click(TargetingState::Idle, true), (TargetingState::Idle, false));
}

#[test]
fn spell_cooldowns() {
    assert_eq!(SpellId::Q.get_max_cooldown(), 3);
    assert_eq!(SpellId::W.get_max_cooldown(), 1);
    assert_eq!(SpellId::E.get_max_cooldown(), 2);
    assert_eq!(SpellId::R.get_max_cooldown(), 5);
}
