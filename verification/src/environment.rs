use vstd::prelude::*;

verus! {

/// The biomes the map editor offers, in its order.
pub const BIOMES: [&'static str; 5] = ["grassland", "forest", "wetland", "rocky", "camp"];

/// The built-in world models: the key placements use and the file it loads.
pub open spec fn spec_builtin_template_defs() -> Seq<(Seq<char>, Seq<char>)> {
    seq![
        ("grass"@, "ground_grass.glb"@),
        ("path"@, "ground_pathStraight.glb"@),
        ("tree_a"@, "tree_default.glb"@),
        ("tree_b"@, "tree_simple.glb"@),
        ("tree_c"@, "tree_oak.glb"@),
        ("rock_a"@, "rock_largeA.glb"@),
        ("rock_b"@, "rock_tallA.glb"@),
        ("rock_c"@, "stone_largeA.glb"@),
        ("flower_a"@, "flower_purpleA.glb"@),
        ("flower_b"@, "flower_redA.glb"@),
        ("flower_c"@, "flower_yellowA.glb"@),
        ("mushroom"@, "mushroom_red.glb"@),
        ("shroom2"@, "mushroom_tan.glb"@),
        ("plant"@, "plant_bush.glb"@),
        ("tent"@, "tent_detailedOpen.glb"@),
        ("campfire"@, "campfire_bricks.glb"@),
        ("stump"@, "stump_round.glb"@),
    ]
}

/// The built-in world models that are loaded before any chunk is generated.
pub fn builtin_template_defs() -> (defs: Vec<(&'static str, &'static str)>)
    ensures
        defs@.map_values(|d: (&'static str, &'static str)| (d.0@, d.1@)) == spec_builtin_template_defs(),
{
    let v = vec![
        ("grass", "ground_grass.glb"),
        ("path", "ground_pathStraight.glb"),
        ("tree_a", "tree_default.glb"),
        ("tree_b", "tree_simple.glb"),
        ("tree_c", "tree_oak.glb"),
        ("rock_a", "rock_largeA.glb"),
        ("rock_b", "rock_tallA.glb"),
        ("rock_c", "stone_largeA.glb"),
        ("flower_a", "flower_purpleA.glb"),
        ("flower_b", "flower_redA.glb"),
        ("flower_c", "flower_yellowA.glb"),
        ("mushroom", "mushroom_red.glb"),
        ("shroom2", "mushroom_tan.glb"),
        ("plant", "plant_bush.glb"),
        ("tent", "tent_detailedOpen.glb"),
        ("campfire", "campfire_bricks.glb"),
        ("stump", "stump_round.glb"),
    ];
    assert(v@.map_values(|d: (&'static str, &'static str)| (d.0@, d.1@)) =~= spec_builtin_template_defs());
    v
}

} // verus!
