use rpg_engine::enemy::{EnemyRace, RACE_COUNT};
use rpg_engine::environment::{builtin_template_defs, BIOMES};
use rpg_engine::combat::{fallback_appearance_net, new_character_summary};

#[test]
fn races_are_numbered_in_preload_order() {
    let order = [
        EnemyRace::HumanBandit,
        EnemyRace::OrcWarrior,
        EnemyRace::SkeletonGrunt,
        EnemyRace::DemonLord,
        EnemyRace::NightElfHunter,
        EnemyRace::Cyclops,
    ];
    assert_eq!(RACE_COUNT, 6);
    for (i, r) in order.iter().enumerate() {
        assert_eq!(EnemyRace::from_index(i), Some(*r));
        assert_eq!(r.index(), i);
    }
    assert_eq!(EnemyRace::from_index(6), None);
}

#[test]
fn race_looks_and_stats() {
    let bandit = EnemyRace::HumanBandit.appearance();
    assert_eq!(bandit.skin, "Human1");
    assert_eq!(bandit.shoes.as_deref(), Some("Shoes"));
    assert_eq!(bandit.clothes.as_deref(), Some("Shirt"));
    assert_eq!(bandit.hairstyle.as_deref(), Some("Hair1"));
    let orc = EnemyRace::OrcWarrior.appearance();
    assert_eq!(orc.skin, "Orc1");
    assert!(orc.shoes.is_none() && orc.clothes.is_none());
    assert_eq!(EnemyRace::Cyclops.appearance().skin, "Cyclops1");
    let s = EnemyRace::DemonLord.base_stats();
    assert_eq!((s.strength, s.agility, s.intelligence, s.max_hp, s.max_mp), (20, 10, 5, 200, 50));
    let n = EnemyRace::NightElfHunter.base_stats();
    assert_eq!((n.strength, n.agility, n.intelligence), (6, 12, 5));
}

#[test]
fn builtin_models_and_biomes() {
    let defs = builtin_template_defs();
    assert_eq!(defs.len(), 17);
    assert_eq!(defs[0], ("grass", "ground_grass.glb"));
    assert_eq!(defs[6], ("rock_b", "rock_tallA.glb"));
    assert_eq!(defs[16], ("stump", "stump_round.glb"));
    assert_eq!(BIOMES, ["grassland", "forest", "wetland", "rocky", "camp"]);
}

#[test]
fn new_characters_start_full() {
    let app = fallback_appearance_net();
    assert_eq!(app.skin, "human");
    assert!(app.shoes.is_none() && app.addon.is_none());
    let s = new_character_summary(42, "Hero".to_string(), app);
    assert_eq!((s.id, s.current_hp, s.max_hp, s.current_mp, s.max_mp), (42, 100, 100, 50, 50));
    assert_eq!(s.name, "Hero");
}
