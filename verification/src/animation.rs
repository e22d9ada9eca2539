use vstd::prelude::*;

verus! {

/// The eight facings of a character sprite, clockwise from South; each is
/// a row of the sprite sheet.
#[derive(Clone, Copy, Debug, PartialEq, Eq, Structural)]
pub enum Direction {
    South,
    SouthEast,
    East,
    NorthEast,
    North,
    NorthWest,
    West,
    SouthWest,
}

pub open spec fn spec_direction_index(d: Direction) -> u32 {
    match d {
        Direction::South => 0,
        Direction::SouthEast => 1,
        Direction::East => 2,
        Direction::NorthEast => 3,
        Direction::North => 4,
        Direction::NorthWest => 5,
        Direction::West => 6,
        Direction::SouthWest => 7,
    }
}

pub open spec fn spec_direction_from_index(i: int) -> Direction {
    if i == 1 {
        Direction::SouthEast
    } else if i == 2 {
        Direction::East
    } else if i == 3 {
        Direction::NorthEast
    } else if i == 4 {
        Direction::North
    } else if i == 5 {
        Direction::NorthWest
    } else if i == 6 {
        Direction::West
    } else if i == 7 {
        Direction::SouthWest
    } else {
        Direction::South
    }
}

impl Direction {
    /// The sprite-sheet row, and the number sent on the wire (0 to 7).
    pub fn index(&self) -> (i: u32)
        ensures
            i == spec_direction_index(*self),
            i < 8,
    {
        match self {
            Direction::South => 0,
            Direction::SouthEast => 1,
            Direction::East => 2,
            Direction::NorthEast => 3,
            Direction::North => 4,
            Direction::NorthWest => 5,
            Direction::West => 6,
            Direction::SouthWest => 7,
        }
    }

    /// The facing for an octant number: octant `k` of the circle, counted
    /// clockwise from South, taken modulo 8; South for a negative number,
    /// whose remainder is never a valid row.
    pub fn from_octant(octant: i32) -> (d: Direction)
        ensures
            d == (if octant >= 0 {
                spec_direction_from_index((octant as int) % 8)
            } else {
                Direction::South
            }),
    {
        let r = octant % 8;
        match r {
            1 => Direction::SouthEast,
            2 => Direction::East,
            3 => Direction::NorthEast,
            4 => Direction::North,
            5 => Direction::NorthWest,
            6 => Direction::West,
            7 => Direction::SouthWest,
            _ => Direction::South,
        }
    }
}

/// Reading back the index of a facing gives the facing.
pub proof fn lemma_direction_index_roundtrip(d: Direction)
    ensures
        spec_direction_from_index(spec_direction_index(d) as int) == d,
{
}

/// The animations of the character sprite sheet.
#[derive(Clone, Copy, Debug, PartialEq, Eq, Structural)]
pub enum AnimationState {
    Idle,
    Walk,
    Sword,
    Bow,
    Staff,
    Punch,
    Hurt,
    Death,
    CarryIdle,
    CarryWalk,
    Jump,
}

/// Layout of a sprite sheet.
#[derive(Clone, Copy, Debug, PartialEq, Eq, Structural)]
pub struct SpriteSheetConfig {
    pub columns: u32,
    pub rows: u32,
}

/// The sprite-sheet columns an animation plays, in order.
pub open spec fn spec_frame_indices(state: AnimationState) -> Seq<u32> {
    match state {
        AnimationState::Idle => seq![0u32, 1],
        AnimationState::Walk => seq![2u32, 3, 4],
        AnimationState::Sword => seq![5u32, 6, 7, 8],
        AnimationState::Bow => seq![9u32, 10, 11, 12],
        AnimationState::Staff => seq![13u32, 14, 15],
        AnimationState::Punch => seq![16u32, 17, 18],
        AnimationState::Hurt => seq![19u32, 20, 21],
        AnimationState::Death => seq![22u32, 23, 24],
        AnimationState::CarryIdle => seq![25u32],
        AnimationState::CarryWalk => seq![26u32, 25, 27, 25, 26],
        AnimationState::Jump => seq![28u32],
    }
}

/// The sprite-sheet columns an animation plays, in order.
pub fn get_frame_indices(state: AnimationState) -> (frames: Vec<u32>)
    ensures
        frames@ == spec_frame_indices(state),
{
    let v = match state {
        AnimationState::Idle => vec![0, 1],
        AnimationState::Walk => vec![2, 3, 4],
        AnimationState::Sword => vec![5, 6, 7, 8],
        AnimationState::Bow => vec![9, 10, 11, 12],
        AnimationState::Staff => vec![13, 14, 15],
        AnimationState::Punch => vec![16, 17, 18],
        AnimationState::Hurt => vec![19, 20, 21],
        AnimationState::Death => vec![22, 23, 24],
        AnimationState::CarryIdle => vec![25],
        AnimationState::CarryWalk => vec![26, 25, 27, 25, 26],
        AnimationState::Jump => vec![28],
    };
    assert(v@ =~= spec_frame_indices(state));
    v
}

/// Every animation has at least one frame, and all its columns lie on the
/// 29-column sheet.
pub proof fn lemma_frames_fit_sheet(state: AnimationState)
    ensures
        spec_frame_indices(state).len() >= 1,
        forall|i: int| 0 <= i < spec_frame_indices(state).len() ==> #[trigger] spec_frame_indices(state)[i] < 29,
{
}

/// The column shown at frame position `pos`, holding on the last frame
/// past the end.
pub fn frame_column(state: AnimationState, pos: usize) -> (col: u32)
    ensures
        ({
            let f = spec_frame_indices(state);
            col == f[if pos < f.len() { pos as int } else { f.len() - 1 }]
        }),
{
    let frames = get_frame_indices(state);
    proof {
        lemma_frames_fit_sheet(state);
    }
    let last = frames.len() - 1;
    let i = if pos < last {
        pos
    } else {
        last
    };
    frames[i]
}

/// Whether an animation stops on its last frame instead of looping.
pub fn holds_last_frame(state: AnimationState) -> (b: bool)
    ensures
        b == (state == AnimationState::Death || state == AnimationState::Sword || state
            == AnimationState::Bow || state == AnimationState::Staff || state == AnimationState::Punch
            || state == AnimationState::Hurt),
{
    match state {
        AnimationState::Death | AnimationState::Sword | AnimationState::Bow | AnimationState::Staff
        | AnimationState::Punch | AnimationState::Hurt => true,
        _ => false,
    }
}

} // verus!
