use vstd::prelude::*;

verus! {

/// A grid coordinate. Coordinates are signed so that offsets and
/// out-of-bounds neighbours can be represented.
#[derive(Copy, Clone, Debug, PartialEq, Eq, Hash, Structural)]
pub struct Position {
    pub x: i16,
    pub y: i16,
}

impl Position {
    pub fn new(x: i16, y: i16) -> (p: Position)
        ensures
            p.x == x,
            p.y == y,
    {
        Position { x, y }
    }
}

/// An opaque handle naming one entity of the game world.
/// Handles order by index first, then by generation.
#[derive(Copy, Clone, Debug, PartialEq, Eq, Hash, PartialOrd, Ord, Structural)]
pub struct Entity {
    pub index: u32,
    pub generation: u32,
}

impl Entity {
    /// The sentinel handle that names no entity.
    pub fn invalid() -> (e: Entity)
        ensures
            e.index == u32::MAX,
            e.generation == 0,
    {
        Entity { index: u32::MAX, generation: 0 }
    }

    pub fn is_invalid(&self) -> (r: bool)
        ensures
            r == (self.index == u32::MAX && self.generation == 0),
    {
        self.index == u32::MAX && self.generation == 0
    }

    /// Strict "comes before" in the handle order (index, then generation).
    pub fn precedes(&self, other: &Entity) -> (r: bool)
        ensures
            r == entity_lt(*self, *other),
    {
        self.index < other.index || (self.index == other.index && self.generation < other.generation)
    }
}

/// Strict order on entity handles: by index, then by generation.
pub open spec fn entity_lt(a: Entity, b: Entity) -> bool {
    a.index < b.index || (a.index == b.index && a.generation < b.generation)
}

/// The four cardinal directions.
#[derive(Copy, Clone, Debug, PartialEq, Eq, Hash, Structural)]
pub enum Direction {
    North,
    South,
    East,
    West,
}

pub open spec fn abs_int(v: int) -> int {
    if v < 0 { -v } else { v }
}

/// Manhattan (taxicab) distance between two grid points.
pub open spec fn manhattan(a: Position, b: Position) -> int {
    abs_int(a.x - b.x) + abs_int(a.y - b.y)
}

/// Manhattan distance, computed without any risk of overflow.
pub fn manhattan_distance(a: Position, b: Position) -> (d: i32)
    ensures
        d == manhattan(a, b),
        0 <= d <= 131070,
{
    let dx: i32 = a.x as i32 - b.x as i32;
    let dy: i32 = a.y as i32 - b.y as i32;
    let ax: i32 = if dx < 0 { -dx } else { dx };
    let ay: i32 = if dy < 0 { -dy } else { dy };
    ax + ay
}

/// The four orthogonal offsets in the order north, south, west, east.
pub open spec fn cardinal_offset(k: int) -> (int, int) {
    if k == 0 {
        (0, -1)
    } else if k == 1 {
        (0, 1)
    } else if k == 2 {
        (-1, 0)
    } else {
        (1, 0)
    }
}

/// The neighbour of `p` in the `k`-th cardinal direction (north, south, west, east).
pub open spec fn cardinal_neighbor(p: Position, k: int) -> Position {
    Position { x: (p.x + cardinal_offset(k).0) as i16, y: (p.y + cardinal_offset(k).1) as i16 }
}

/// A point whose four orthogonal neighbours are all representable.
pub open spec fn interior_point(p: Position) -> bool {
    i16::MIN < p.x < i16::MAX && i16::MIN < p.y < i16::MAX
}

pub fn cardinal_step(p: Position, k: usize) -> (q: Position)
    requires
        interior_point(p),
        k < 4,
    ensures
        q == cardinal_neighbor(p, k as int),
        q.x == p.x + cardinal_offset(k as int).0,
        q.y == p.y + cardinal_offset(k as int).1,
{
    if k == 0 {
        Position::new(p.x, p.y - 1)
    } else if k == 1 {
        Position::new(p.x, p.y + 1)
    } else if k == 2 {
        Position::new(p.x - 1, p.y)
    } else {
        Position::new(p.x + 1, p.y)
    }
}

/// Whether `p` occurs in the list.
pub fn contains_position(s: &Vec<Position>, p: Position) -> (r: bool)
    ensures
        r == s@.contains(p),
{
    let n = s.len();
    let mut i: usize = 0;
    while i < n
        invariant
            i <= n,
            n == s@.len(),
            forall|j: int| 0 <= j < i ==> s@[j] != p,
        decreases n - i,
    {
        if s[i] == p {
            return true;
        }
        i = i + 1;
    }
    false
}

} // verus!
