use vstd::prelude::*;
use rand::Rng;
use rand::SeedableRng;

verus! {

/// Ground tiles along each side of a chunk.
pub const TILES_PER_CHUNK: i32 = 20;

/// Walkability cells along each side of a chunk (40 m at 0.5 m per cell).
pub const GRID_WIDTH: i32 = 80;

/// Position of a chunk in the chunk grid.
#[derive(Clone, Copy, Debug, PartialEq, Eq, Hash, Structural)]
pub struct ChunkCoord {
    pub x: i32,
    pub z: i32,
}

impl ChunkCoord {
    pub fn new(x: i32, z: i32) -> (c: Self)
        ensures
            c.x == x,
            c.z == z,
    {
        ChunkCoord { x, z }
    }

    /// Whether this chunk lies in the rectangle of chunks from `lo` to `hi`, both included.
    pub fn within(&self, lo: &ChunkCoord, hi: &ChunkCoord) -> (b: bool)
        ensures
            b == (lo.x <= self.x <= hi.x && lo.z <= self.z <= hi.z),
    {
        self.x >= lo.x && self.x <= hi.x && self.z >= lo.z && self.z <= hi.z
    }
}

/// The kind of terrain a chunk is generated as.
#[derive(Clone, Copy, Debug, PartialEq, Eq, Structural)]
pub enum BiomeType {
    Grassland,
    Forest,
    Town,
    Rocky,
    Wetland,
}

pub open spec fn biome_name(b: BiomeType) -> Seq<char> {
    match b {
        BiomeType::Grassland => "grassland"@,
        BiomeType::Forest => "forest"@,
        BiomeType::Town => "town"@,
        BiomeType::Rocky => "rocky"@,
        BiomeType::Wetland => "wetland"@,
    }
}

impl BiomeType {
    /// The biome's lower-case name, as sent to clients.
    pub fn to_string(&self) -> (s: String)
        ensures
            s@ == biome_name(*self),
    {
        match self {
            BiomeType::Grassland => "grassland".to_owned(),
            BiomeType::Forest => "forest".to_owned(),
            BiomeType::Town => "town".to_owned(),
            BiomeType::Rocky => "rocky".to_owned(),
            BiomeType::Wetland => "wetland".to_owned(),
        }
    }
}

/// Whether a gate is shut, open, or kept shut regardless of players.
#[derive(Clone, Copy, Debug, PartialEq, Eq, Structural)]
pub enum GateState {
    Closed,
    Open,
    Locked,
}

/// A gate's state for the next tick: a locked gate stays locked; any other
/// gate is open exactly when a player is near it.
pub fn next_gate_state(state: GateState, player_nearby: bool) -> (s: GateState)
    ensures
        s == (if state == GateState::Locked {
            GateState::Locked
        } else if player_nearby {
            GateState::Open
        } else {
            GateState::Closed
        }),
{
    match state {
        GateState::Locked => GateState::Locked,
        _ => if player_nearby {
            GateState::Open
        } else {
            GateState::Closed
        },
    }
}

pub open spec fn wrap64(v: int) -> u64 {
    (v % 0x1_0000_0000_0000_0000) as u64
}

/// The seed of a chunk's generator: the coordinates, each reinterpreted as
/// 64 bits and multiplied by its own prime, xor-ed with the world seed, all
/// times a golden-ratio constant, in wrapping 64-bit arithmetic.
pub open spec fn spec_chunk_seed(world_seed: u64, coord: ChunkCoord) -> u64 {
    let hx = wrap64((coord.x as u64) * 73856093);
    let hz = wrap64((coord.z as u64) * 19349663);
    wrap64(((hx ^ hz) ^ world_seed) * 11400714819323198485)
}

/// Seed for the random generator of the chunk at `coord`.
pub fn chunk_seed(world_seed: u64, coord: ChunkCoord) -> (h: u64)
    ensures
        h == spec_chunk_seed(world_seed, coord),
{
    let hx = (coord.x as u64).wrapping_mul(73856093);
    let hz = (coord.z as u64).wrapping_mul(19349663);
    let h = (hx ^ hz) ^ world_seed;
    h.wrapping_mul(11400714819323198485)
}

/// The first value in `0..100` drawn from a `rand_pcg::Pcg64` seeded with
/// `seed` through `SeedableRng::seed_from_u64`.
pub uninterp spec fn pcg64_first_percent(seed: u64) -> int;

/// Seeds `rand_pcg::Pcg64` with `SeedableRng::seed_from_u64` and draws
/// `Rng::gen_range(0..100)` once. Trusted: the draw lies in `0..100` (as
/// `gen_range` documents) and is a function of the seed alone (rand_core
/// documents `seed_from_u64` as reproducible), named `pcg64_first_percent`.
#[verifier::external_body]
fn first_percent_roll(seed: u64) -> (r: i32)
    ensures
        r == pcg64_first_percent(seed),
        0 <= r < 100,
{
    rand_pcg::Pcg64::seed_from_u64(seed).gen_range(0..100)
}

/// The biome of a non-origin chunk for a roll in `0..100`: 40% grassland,
/// 30% forest, 15% rocky, 15% wetland.
pub open spec fn spec_biome_for_roll(roll: int) -> BiomeType {
    if roll < 40 {
        BiomeType::Grassland
    } else if roll < 70 {
        BiomeType::Forest
    } else if roll < 85 {
        BiomeType::Rocky
    } else {
        BiomeType::Wetland
    }
}

/// The biome chosen by a roll in `0..100`.
pub fn biome_for_roll(roll: i32) -> (b: BiomeType)
    ensures
        b == spec_biome_for_roll(roll as int),
{
    if roll < 40 {
        BiomeType::Grassland
    } else if roll < 70 {
        BiomeType::Forest
    } else if roll < 85 {
        BiomeType::Rocky
    } else {
        BiomeType::Wetland
    }
}

pub open spec fn spec_biome_at(world_seed: u64, coord: ChunkCoord) -> BiomeType {
    if coord.x == 0 && coord.z == 0 {
        BiomeType::Town
    } else {
        spec_biome_for_roll(pcg64_first_percent(spec_chunk_seed(world_seed, coord)))
    }
}

/// The biome of a chunk: the town at the origin; elsewhere the biome for
/// the first roll of the chunk's seeded generator.
pub fn get_biome_at(world_seed: u64, coord: ChunkCoord) -> (b: BiomeType)
    ensures
        b == spec_biome_at(world_seed, coord),
{
    if coord.x == 0 && coord.z == 0 {
        return BiomeType::Town;
    }
    let roll = first_percent_roll(chunk_seed(world_seed, coord));
    biome_for_roll(roll)
}

/// The town is the origin chunk and only that chunk, for every world seed.
pub proof fn lemma_town_only_at_origin(world_seed: u64, coord: ChunkCoord)
    ensures
        (spec_biome_at(world_seed, coord) == BiomeType::Town) <==> (coord.x == 0 && coord.z == 0),
{
}

/// Whether ground tile `(x, z)` of a chunk is a path tile: in the town the
/// first two tiles of every ten, in each direction, form a road grid.
pub fn is_path_tile(biome: BiomeType, x: i32, z: i32) -> (b: bool)
    requires
        0 <= x,
        0 <= z,
    ensures
        b == (biome == BiomeType::Town && (x % 10 < 2 || z % 10 < 2)),
{
    match biome {
        BiomeType::Town => x % 10 < 2 || z % 10 < 2,
        _ => false,
    }
}

/// How many decorations a chunk of this biome receives; the town gets its
/// authored cluster instead.
pub fn decoration_density(biome: BiomeType) -> (n: u32)
    ensures
        n == (match biome {
            BiomeType::Town => 0u32,
            BiomeType::Forest => 120,
            BiomeType::Grassland => 40,
            _ => 20,
        }),
{
    match biome {
        BiomeType::Town => 0,
        BiomeType::Forest => 120,
        BiomeType::Grassland => 40,
        _ => 20,
    }
}

/// A rectangular grid of `width >= 1` rows of equal length, indexed `[x][z]`.
pub open spec fn rectangular(g: Seq<Seq<bool>>) -> bool {
    &&& g.len() >= 1
    &&& forall|i: int| 0 <= i < g.len() ==> #[trigger] g[i].len() == g[0].len()
}

pub open spec fn view_rows(g: Seq<Vec<bool>>) -> Seq<Seq<bool>> {
    g.map_values(|r: Vec<bool>| r@)
}

/// Cell `(x, z)` lies inside the grid.
pub open spec fn in_grid(g: Seq<Seq<bool>>, x: int, z: int) -> bool {
    0 <= x < g.len() && 0 <= z < g[0].len()
}

/// Cell `(x, z)` of the padded grid: walkable exactly when every cell of
/// the grid within one step of it, diagonals included, is walkable.
pub open spec fn padded_cell(g: Seq<Seq<bool>>, x: int, z: int) -> bool {
    forall|nx: int, nz: int|
        x - 1 <= nx <= x + 1 && z - 1 <= nz <= z + 1 && #[trigger] in_grid(g, nx, nz) ==> g[nx][nz]
}

fn blocked_at(g: &Vec<Vec<bool>>, x: i64, z: i64) -> (b: bool)
    requires
        rectangular(view_rows(g@)),
    ensures
        b == (in_grid(view_rows(g@), x as int, z as int) && !view_rows(g@)[x as int][z as int]),
{
    if x < 0 || z < 0 || x as u64 >= g.len() as u64 || z as u64 >= g[0].len() as u64 {
        return false;
    }
    assert(view_rows(g@)[x as int] == g@[x as int]@);
    assert(g@[x as int]@.len() == g@[0]@.len()) by {
        assert(view_rows(g@)[x as int].len() == view_rows(g@)[0].len());
    }
    !g[x as usize][z as usize]
}

/// The grid used for pathfinding: every cell next to (or on) a blocked
/// cell is blocked too, keeping paths half a cell away from obstacles.
pub fn pathfinding_padding(walkability: &Vec<Vec<bool>>) -> (padded: Vec<Vec<bool>>)
    requires
        rectangular(view_rows(walkability@)),
        walkability.len() < 0x7fff_ffff_ffff_ffff,
        walkability[0].len() < 0x7fff_ffff_ffff_ffff,
    ensures
        padded.len() == walkability.len(),
        forall|x: int| 0 <= x < padded.len() ==> #[trigger] padded[x].len() == walkability[0].len(),
        forall|x: int, z: int|
            #![trigger padded[x][z]]
            in_grid(view_rows(walkability@), x, z) ==> padded[x][z] == padded_cell(
                view_rows(walkability@),
                x,
                z,
            ),
{
    let ghost g = view_rows(walkability@);
    let width = walkability.len();
    let height = walkability[0].len();
    assert(g[0].len() == height);
    let mut padded: Vec<Vec<bool>> = Vec::new();
    let mut x: usize = 0;
    while x < width
        invariant
            g == view_rows(walkability@),
            rectangular(g),
            width == g.len(),
            height == g[0].len(),
            width < 0x7fff_ffff_ffff_ffff,
            height < 0x7fff_ffff_ffff_ffff,
            x <= width,
            padded.len() == x,
            forall|i: int| 0 <= i < x ==> #[trigger] padded[i].len() == height,
            forall|i: int, z: int|
                #![trigger padded[i][z]]
                0 <= i < x && 0 <= z < height ==> padded[i][z] == padded_cell(g, i, z),
        decreases width - x,
    {
        let mut row: Vec<bool> = Vec::new();
        let mut z: usize = 0;
        while z < height
            invariant
                g == view_rows(walkability@),
                rectangular(g),
                width == g.len(),
                height == g[0].len(),
                width < 0x7fff_ffff_ffff_ffff,
                height < 0x7fff_ffff_ffff_ffff,
                x < width,
                z <= height,
                row.len() == z,
                forall|j: int| 0 <= j < z ==> #[trigger] row[j] == padded_cell(g, x as int, j),
            decreases height - z,
        {
            let xi = x as i64;
            let zi = z as i64;
            let mut blocked = false;
            let mut dx: i64 = -1;
            while dx <= 1
                invariant
                    g == view_rows(walkability@),
                    rectangular(g),
                    -1 <= dx <= 2,
                    0 <= xi < 0x7fff_ffff_ffff_ffff,
                    0 <= zi < 0x7fff_ffff_ffff_ffff,
                    blocked == exists|nx: int, nz: int|
                        xi - 1 <= nx < xi + dx && zi - 1 <= nz <= zi + 1 && #[trigger] in_grid(g, nx, nz)
                            && !g[nx][nz],
                decreases 2 - dx,
            {
                let mut dz: i64 = -1;
                while dz <= 1
                    invariant
                        g == view_rows(walkability@),
                        rectangular(g),
                        -1 <= dx <= 1,
                        -1 <= dz <= 2,
                        0 <= xi < 0x7fff_ffff_ffff_ffff,
                        0 <= zi < 0x7fff_ffff_ffff_ffff,
                        blocked == ((exists|nx: int, nz: int|
                            xi - 1 <= nx < xi + dx && zi - 1 <= nz <= zi + 1 && #[trigger] in_grid(
                                g,
                                nx,
                                nz,
                            ) && !g[nx][nz]) || (exists|nz: int|
                            zi - 1 <= nz < zi + dz && #[trigger] in_grid(g, xi + dx, nz) && !g[xi
                                + dx][nz])),
                    decreases 2 - dz,
                {
                    if blocked_at(walkability, xi + dx, zi + dz) {
                        assert(in_grid(g, xi + dx, zi + dz) && !g[xi + dx][zi + dz]);
                        blocked = true;
                    }
                    dz = dz + 1;
                }
                assert forall|nx: int, nz: int|
                    xi - 1 <= nx < xi + dx + 1 && zi - 1 <= nz <= zi + 1 && #[trigger] in_grid(g, nx, nz)
                        && !g[nx][nz] implies blocked by {
                    if nx == xi + dx {
                        assert(zi - 1 <= nz < zi + dz && in_grid(g, xi + dx, nz) && !g[xi + dx][nz]);
                    }
                }
                dx = dx + 1;
            }
            let cell = !blocked;
            assert(cell == padded_cell(g, x as int, z as int));
            row.push(cell);
            z = z + 1;
        }
        padded.push(row);
        assert forall|i: int, j: int|
            #![trigger padded[i][j]]
            0 <= i < x + 1 && 0 <= j < height implies padded[i][j] == padded_cell(g, i, j) by {
            if i == x {
                assert(padded[i] == row);
            }
        }
        x = x + 1;
    }
    padded
}

/// Padding only removes walkable cells, and every cell next to a blocked
/// cell is blocked in the padded grid.
pub proof fn lemma_padding_shrinks(g: Seq<Seq<bool>>, x: int, z: int)
    requires
        rectangular(g),
        in_grid(g, x, z),
    ensures
        padded_cell(g, x, z) ==> g[x][z],
        forall|nx: int, nz: int|
            #![trigger g[nx][nz]]
            x - 1 <= nx <= x + 1 && z - 1 <= nz <= z + 1 && in_grid(g, nx, nz) && !g[nx][nz] ==> !padded_cell(g, x, z),
{
    if padded_cell(g, x, z) {
        assert(in_grid(g, x, z));
    }
    assert forall|nx: int, nz: int|
        #![trigger g[nx][nz]]
        x - 1 <= nx <= x + 1 && z - 1 <= nz <= z + 1 && in_grid(g, nx, nz) && !g[nx][nz] implies !padded_cell(g, x, z) by {
        assert(in_grid(g, nx, nz));
    }
}

/// Looks up cell `(gx, gz)` of a grid indexed `[x][z]`, answering
/// `outside` for cells off the grid.
pub fn cell_walkable_or(grid: &[Vec<bool>], gx: i32, gz: i32, outside: bool) -> (b: bool)
    ensures
        b == (if 0 <= gx < grid@.len() && 0 <= gz < grid@[gx as int]@.len() {
            grid@[gx as int]@[gz as int]
        } else {
            outside
        }),
{
    if gx < 0 || gz < 0 || gx as u64 >= grid.len() as u64 {
        return outside;
    }
    let row = &grid[gx as usize];
    if gz as u64 >= row.len() as u64 {
        return outside;
    }
    row[gz as usize]
}

/// Every chunk within `radius` of `center` has coordinates that fit in
/// `i32`.
pub open spec fn streams_around(center: ChunkCoord, radius: int) -> bool {
    &&& 0 <= radius
    &&& i32::MIN <= center.x - radius && center.x + radius <= i32::MAX
    &&& i32::MIN <= center.z - radius && center.z + radius <= i32::MAX
}

/// The chunks of the square of side `2 * radius + 1` around `center`, row
/// by row: `dx` from `-radius` to `radius`, and for each `dx`, `dz` the same way.
pub open spec fn square_around(center: ChunkCoord, radius: int) -> Seq<ChunkCoord> {
    let side = 2 * radius + 1;
    Seq::new(
        (side * side) as nat,
        |k: int| ChunkCoord { x: (center.x - radius + k / side) as i32, z: (center.z - radius + k % side) as i32 },
    )
}

/// The chunks to load around `center`, in the order they are generated.
pub fn chunks_around(center: ChunkCoord, radius: i32) -> (coords: Vec<ChunkCoord>)
    requires
        streams_around(center, radius as int),
    ensures
        coords@ == square_around(center, radius as int),
{
    let ghost side: int = 2 * radius + 1;
    let r = radius as i64;
    let mut coords: Vec<ChunkCoord> = Vec::new();
    let mut dx: i64 = -r;
    assert((dx + r) * side == 0) by (nonlinear_arith)
        requires
            dx + r == 0,
    ;
    while dx <= r
        invariant
            streams_around(center, radius as int),
            r == radius,
            side == 2 * radius + 1,
            -r <= dx <= r + 1,
            coords.len() == (dx + r) * side,
            forall|k: int| 0 <= k < coords.len() ==> #[trigger] coords[k] == square_around(center, radius as int)[k],
        decreases r + 1 - dx,
    {
        let mut dz: i64 = -r;
        while dz <= r
            invariant
                streams_around(center, radius as int),
                r == radius,
                side == 2 * radius + 1,
                -r <= dx <= r,
                -r <= dz <= r + 1,
                coords.len() == (dx + r) * side + (dz + r),
                forall|k: int| 0 <= k < coords.len() ==> #[trigger] coords[k] == square_around(center, radius as int)[k],
            decreases r + 1 - dz,
        {
            let ghost k = coords.len() as int;
            proof {
                let i = (dx + r) as int;
                let j = (dz + r) as int;
                assert(k == i * side + j);
                vstd::arithmetic::div_mod::lemma_fundamental_div_mod_converse(k, side, i, j);
                assert(side * side >= k + 1) by (nonlinear_arith)
                    requires
                        k == i * side + j,
                        0 <= i < side,
                        0 <= j < side,
                ;
            }
            coords.push(ChunkCoord::new((center.x as i64 + dx) as i32, (center.z as i64 + dz) as i32));
            dz = dz + 1;
        }
        proof {
            assert((dx + r) * side + (r + 1 + r) == (dx + 1 + r) * side) by (nonlinear_arith)
                requires
                    side == 2 * r + 1,
            ;
        }
        dx = dx + 1;
    }
    proof {
        assert((r + 1 + r) * side == side * side) by (nonlinear_arith)
            requires
                side == 2 * r + 1,
        ;
    }
    assert(coords@ =~= square_around(center, radius as int));
    coords
}

/// Whether a loaded chunk is kept around `center`: within one chunk more
/// than the load radius, in each direction.
pub fn keep_chunk(coord: ChunkCoord, center: ChunkCoord, load_radius: i32) -> (b: bool)
    ensures
        b == (abs_i(coord.x - center.x) <= load_radius + 1 && abs_i(coord.z - center.z) <= load_radius + 1),
{
    let dx = coord.x as i64 - center.x as i64;
    let dz = coord.z as i64 - center.z as i64;
    let ax = if dx < 0 {
        -dx
    } else {
        dx
    };
    let az = if dz < 0 {
        -dz
    } else {
        dz
    };
    ax <= load_radius as i64 + 1 && az <= load_radius as i64 + 1
}

/// Whether a generated chunk (and the gates registered in it) survives a
/// reload of world data: a new hitbox configuration drops every chunk, a
/// new town cluster drops the town chunk at the origin only.
pub fn kept_after_reload(coord: ChunkCoord, town_reloaded: bool, hitbox_reloaded: bool) -> (b: bool)
    ensures
        b == !(hitbox_reloaded || (town_reloaded && coord.x == 0 && coord.z == 0)),
{
    if hitbox_reloaded {
        false
    } else {
        !(town_reloaded && coord.x == 0 && coord.z == 0)
    }
}

pub open spec fn abs_i(v: int) -> int {
    if v < 0 {
        -v
    } else {
        v
    }
}

/// Every chunk that streaming loads around a center is also kept there.
pub proof fn lemma_loaded_chunks_are_kept(center: ChunkCoord, radius: int, k: int)
    requires
        streams_around(center, radius),
        0 <= k < (2 * radius + 1) * (2 * radius + 1),
    ensures
        abs_i(square_around(center, radius)[k].x - center.x) <= radius + 1,
        abs_i(square_around(center, radius)[k].z - center.z) <= radius + 1,
{
    let side = 2 * radius + 1;
    vstd::arithmetic::div_mod::lemma_div_pos_is_pos(k, side);
    vstd::arithmetic::div_mod::lemma_mod_bound(k, side);
    vstd::arithmetic::div_mod::lemma_fundamental_div_mod(k, side);
    let q = k / side;
    let r = k % side;
    assert(q < side) by (nonlinear_arith)
        requires
            k == side * q + r,
            0 <= r,
            k < side * side,
            side > 0,
            q >= 0,
    ;
}

} // verus!
