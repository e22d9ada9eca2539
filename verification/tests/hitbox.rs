use rpg_engine::hitbox::{
    gate_mask_key, hitbox_calibration_config_key, hitbox_calibration_template_key, is_gate_model,
};

#[test]
fn calibration_keys_for_gates() {
    assert_eq!(hitbox_calibration_config_key("gate_closed"), "gate");
    assert_eq!(hitbox_calibration_config_key("gate_open"), "gate_open");
    assert_eq!(hitbox_calibration_config_key("tree_a"), "tree_a");
    assert_eq!(hitbox_calibration_template_key("gate_closed"), "gate");
    assert_eq!(hitbox_calibration_template_key("gate_open"), "gate");
    assert_eq!(hitbox_calibration_template_key("rock_b"), "rock_b");
}

#[test]
fn gate_models_and_masks() {
    assert!(is_gate_model("gate"));
    assert!(!is_gate_model("gate_open"));
    assert_eq!(gate_mask_key(true), "gate_open");
    assert_eq!(gate_mask_key(false), "gate");
}
