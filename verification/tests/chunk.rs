use rand::{Rng, SeedableRng};
use rpg_engine::chunk::{
    cell_walkable_or, chunk_seed, chunks_around, decoration_density, get_biome_at, is_path_tile,
    keep_chunk, kept_after_reload, next_gate_state, pathfinding_padding, BiomeType, ChunkCoord, GateState, GRID_WIDTH,
    TILES_PER_CHUNK,
};

#[test]
fn chunk_seed_known_values() {
    assert_eq!(chunk_seed(12345, ChunkCoord::new(0, 0)), 11613906214716018861);
    assert_eq!(chunk_seed(12345, ChunkCoord::new(1, 0)), 12448920825157291060);
    assert_eq!(chunk_seed(12345, ChunkCoord::new(-1, 2)), 15152817773178109812);
    assert_eq!(chunk_seed(0, ChunkCoord::new(3, -4)), 7956153662577172495);
}

#[test]
fn origin_chunk_is_town() {
    for seed in [0u64, 1, 12345, u64::MAX] {
        assert_eq!(get_biome_at(seed, ChunkCoord::new(0, 0)), BiomeType::Town);
    }
}

fn biome_from_generator(world_seed: u64, coord: ChunkCoord) -> BiomeType {
    let mut rng = rand_pcg::Pcg64::seed_from_u64(chunk_seed(world_seed, coord));
    let roll: i32 = rng.gen_range(0..100);
    if roll < 40 {
        BiomeType::Grassland
    } else if roll < 70 {
        BiomeType::Forest
    } else if roll < 85 {
        BiomeType::Rocky
    } else {
        BiomeType::Wetland
    }
}

#[test]
fn other_chunks_follow_their_seeded_roll() {
    let mut seen_other_than_first = false;
    let first = get_biome_at(12345, ChunkCoord::new(1, 0));
    for x in -6..=6 {
        for z in -6..=6 {
            if x == 0 && z == 0 {
                continue;
            }
            let c = ChunkCoord::new(x, z);
            let b = get_biome_at(12345, c);
            assert_eq!(b, biome_from_generator(12345, c));
            assert_ne!(b, BiomeType::Town);
            if b != first {
                seen_other_than_first = true;
            }
        }
    }
    assert!(seen_other_than_first, "biomes vary between chunks");
}

#[test]
fn biome_names() {
    assert_eq!(BiomeType::Grassland.to_string(), "grassland");
    assert_eq!(BiomeType::Forest.to_string(), "forest");
    assert_eq!(BiomeType::Town.to_string(), "town");
    assert_eq!(BiomeType::Rocky.to_string(), "rocky");
    assert_eq!(BiomeType::Wetland.to_string(), "wetland");
}

#[test]
fn town_roads_and_densities() {
    assert!(is_path_tile(BiomeType::Town, 0, 7));
    assert!(is_path_tile(BiomeType::Town, 11, 5));
    assert!(is_path_tile(BiomeType::Town, 4, 19 - 8));
    assert!(!is_path_tile(BiomeType::Town, 2, 9));
    assert!(!is_path_tile(BiomeType::Forest, 0, 0));
    assert_eq!(decoration_density(BiomeType::Forest), 120);
    assert_eq!(decoration_density(BiomeType::Grassland), 40);
    assert_eq!(decoration_density(BiomeType::Rocky), 20);
    assert_eq!(decoration_density(BiomeType::Wetland), 20);
    assert_eq!(decoration_density(BiomeType::Town), 0);
    assert_eq!(TILES_PER_CHUNK, 20);
    assert_eq!(GRID_WIDTH, 80);
}

#[test]
fn padding_blocks_neighbours_of_blocked_cells() {
    let mut w = vec![vec![true; 5]; 4];
    w[2][2] = false;
    w[0][4] = false;
    let p = pathfinding_padding(&w);
    let mut expected = vec![vec![true; 5]; 4];
    for x in 1..=3 {
        for z in 1..=3 {
            expected[x][z] = false;
        }
    }
    expected[0][3] = false;
    expected[0][4] = false;
    expected[1][3] = false;
    expected[1][4] = false;
    assert_eq!(p, expected);
}

#[test]
fn padding_of_open_grid_changes_nothing() {
    let w = vec![vec![true; 3]; 3];
    assert_eq!(pathfinding_padding(&w), w);
}

#[test]
fn cell_lookup_answers_default_off_grid() {
    let mut w = vec![vec![true; 2]; 2];
    w[1][0] = false;
    assert!(!cell_walkable_or(&w, 1, 0, true));
    assert!(cell_walkable_or(&w, 0, 1, false));
    assert!(cell_walkable_or(&w, -1, 0, true));
    assert!(!cell_walkable_or(&w, 0, 2, false));
}

#[test]
fn chunks_around_in_generation_order() {
    let c = chunks_around(ChunkCoord::new(5, -2), 1);
    let expected: Vec<ChunkCoord> = [(4, -3), (4, -2), (4, -1), (5, -3), (5, -2), (5, -1), (6, -3), (6, -2), (6, -1)]
        .iter()
        .map(|&(x, z)| ChunkCoord::new(x, z))
        .collect();
    assert_eq!(c, expected);
    assert_eq!(chunks_around(ChunkCoord::new(0, 0), 0), vec![ChunkCoord::new(0, 0)]);
    assert_eq!(chunks_around(ChunkCoord::new(0, 0), 2).len(), 25);
}

#[test]
fn chunks_are_kept_one_ring_beyond_the_load_radius() {
    let center = ChunkCoord::new(10, 10);
    assert!(keep_chunk(ChunkCoord::new(13, 7), center, 2));
    assert!(!keep_chunk(ChunkCoord::new(14, 10), center, 2));
    assert!(!keep_chunk(ChunkCoord::new(10, 6), center, 2));
    for c in chunks_around(center, 2) {
        assert!(keep_chunk(c, center, 2));
    }
}

#[test]
fn chunk_range_check() {
    let c = ChunkCoord::new(1, -1);
    assert!(c.within(&ChunkCoord::new(0, -1), &ChunkCoord::new(1, 0)));
    assert!(!c.within(&ChunkCoord::new(2, -1), &ChunkCoord::new(3, 0)));
}

#[test]
fn gates_follow_players_unless_locked() {
    assert_eq!(next_gate_state(GateState::Closed, true), GateState::Open);
    assert_eq!(next_gate_state(GateState::Open, false), GateState::Closed);
    assert_eq!(next_gate_state(GateState::Open, true), GateState::Open);
    assert_eq!(next_gate_state(GateState::Locked, true), GateState::Locked);
}

#[test]
fn reloads_drop_the_chunks_they_affect() {
    let town = ChunkCoord::new(0, 0);
    let other = ChunkCoord::new(1, 0);
    assert!(!kept_after_reload(town, true, false));
    assert!(kept_after_reload(other, true, false));
    assert!(!kept_after_reload(other, false, true));
    assert!(!kept_after_reload(town, false, true));
    assert!(kept_after_reload(town, false, false));
}
