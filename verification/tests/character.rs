use rpg_engine::character::{
    appearance_from_selection, reset_selection, sync_selection, CharacterAppearance, LayerCatalog,
    LayerCategory, LayerOption,
};

fn opt(name: &str) -> LayerOption {
    LayerOption { name: name.to_string(), path: format!("assets/{}.png", name) }
}

fn catalog() -> LayerCatalog {
    LayerCatalog {
        skins: vec![opt("Human1"), opt("Orc1"), opt("Human1")],
        shoes: vec![opt("Shoes"), opt("Boots")],
        clothes: vec![opt("Shirt")],
        gloves: vec![],
        hairstyles: vec![opt("Hair1"), opt("Hair2")],
        facial_hair: vec![opt("Beard")],
        eye_colors: vec![opt("Blue")],
        eyelashes: vec![opt("Lashes")],
        headgears: vec![opt("Helm")],
        addons: vec![opt("Cape")],
    }
}

#[test]
fn default_human_look() {
    let a = CharacterAppearance::default_human();
    assert_eq!(a.skin, "Human1");
    assert!(a.shoes.is_none() && a.clothes.is_none() && a.headgear.is_none() && a.addon.is_none());
}

#[test]
fn category_labels_and_order() {
    let labels: Vec<&str> = LayerCategory::ALL.iter().map(|c| c.label()).collect();
    assert_eq!(
        labels,
        vec!["Skin", "Shoes", "Clothes", "Gloves", "Hairstyle", "Facial Hair", "Eye Color", "Eyelashes", "Headgear", "Add-on"]
    );
    for (i, c) in LayerCategory::ALL.iter().enumerate() {
        assert_eq!(c.index(), i);
    }
}

#[test]
fn find_path_takes_first_option_of_that_name() {
    let c = catalog();
    assert_eq!(c.find_path(LayerCategory::Shoes, "Boots"), Some("assets/Boots.png".to_string()));
    assert_eq!(c.find_path(LayerCategory::Skin, "Human1"), Some("assets/Human1.png".to_string()));
    assert_eq!(c.find_path(LayerCategory::Gloves, "Boots"), None);
    assert_eq!(c.find_path(LayerCategory::Addon, "Helm"), None);
}

#[test]
fn selection_to_appearance() {
    let c = catalog();
    let mut sel = reset_selection();
    assert_eq!(sel, [Some(0), None, None, None, None, None, None, None, None, None]);
    sel[0] = Some(1);
    sel[1] = Some(1);
    sel[3] = Some(0);
    sel[9] = Some(0);
    let a = appearance_from_selection(&c, &sel);
    assert_eq!(a.skin, "Orc1");
    assert_eq!(a.shoes.as_deref(), Some("Boots"));
    assert_eq!(a.gloves, None, "index past the end selects nothing");
    assert_eq!(a.addon.as_deref(), Some("Cape"));
    sel[0] = Some(7);
    assert_eq!(appearance_from_selection(&c, &sel).skin, "Human1");
}

#[test]
fn appearance_to_selection_and_back() {
    let c = catalog();
    let saved = CharacterAppearance {
        skin: "Orc1".to_string(),
        shoes: Some("Boots".to_string()),
        clothes: None,
        gloves: Some("Mittens".to_string()),
        hairstyle: Some("Hair2".to_string()),
        facial_hair: None,
        eye_color: Some("Blue".to_string()),
        eyelashes: None,
        headgear: Some("Helm".to_string()),
        addon: None,
    };
    let mut sel = [None, None, None, None, None, None, None, None, Some(5), Some(6)];
    sync_selection(&mut sel, &c, &saved);
    assert_eq!(sel, [Some(1), Some(1), None, None, Some(1), None, Some(0), None, Some(0), None]);
    let back = appearance_from_selection(&c, &sel);
    assert_eq!(back.skin, "Orc1");
    assert_eq!(back.shoes.as_deref(), Some("Boots"));
    assert_eq!(back.hairstyle.as_deref(), Some("Hair2"));
    assert_eq!(back.eye_color.as_deref(), Some("Blue"));
    assert_eq!(back.gloves, None, "a name the catalog lacks is not kept");

    let unknown_skin = CharacterAppearance { skin: "Elf9".to_string(), ..saved };
    sync_selection(&mut sel, &c, &unknown_skin);
    assert_eq!(sel[0], Some(0));
}

#[test]
fn random_selection_stays_inside_the_catalog() {
    let c = catalog();
    let sizes = [3usize, 2, 1, 0, 2, 1, 1, 1, 1, 1];
    let mut saw_empty_optional = false;
    let mut saw_worn_optional = false;
    for _ in 0..200 {
        let mut sel = [Some(99); 10];
        rpg_engine::character::randomize_selection(&mut sel, &c);
        assert!(sel[0].is_some());
        assert!(sel[3].is_none(), "no gloves to choose from");
        for (k, s) in sel.iter().enumerate() {
            if let Some(i) = s {
                assert!(*i < sizes[k]);
            }
        }
        for s in &sel[1..] {
            if s.is_some() {
                saw_worn_optional = true;
            } else {
                saw_empty_optional = true;
            }
        }
    }
    assert!(saw_empty_optional && saw_worn_optional);
}

#[test]
fn optional_layers_kept_from_thirty_up() {
    assert!(!rpg_engine::character::keeps_optional_layer(0));
    assert!(!rpg_engine::character::keeps_optional_layer(29));
    assert!(rpg_engine::character::keeps_optional_layer(30));
    assert!(rpg_engine::character::keeps_optional_layer(99));
}

#[test]
fn selection_follows_the_draws() {
    let c = catalog();
    // shoes kept (roll 30), clothes dropped (roll 29), gloves empty category,
    // hairstyle kept, the rest dropped except add-on.
    let rolls = [30, 29, 99, 75, 0, 10, 20, 5, 64];
    let picks = [1, 0, 7, 1, 0, 0, 0, 0, 0];
    let s = rpg_engine::character::selection_from_draws(&c, 2, rolls, picks);
    assert_eq!(s, [Some(2), Some(1), None, None, Some(1), None, None, None, None, Some(0)]);
    let empty = LayerCatalog {
        skins: vec![],
        shoes: vec![],
        clothes: vec![],
        gloves: vec![],
        hairstyles: vec![],
        facial_hair: vec![],
        eye_colors: vec![],
        eyelashes: vec![],
        headgears: vec![],
        addons: vec![],
    };
    assert_eq!(rpg_engine::character::selection_from_draws(&empty, 0, [99; 9], [0; 9]), [None; 10]);
}
