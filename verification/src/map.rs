use vstd::prelude::*;

use crate::token::chars_of;

use crate::components::WeatherType;
use crate::geometry::Position;

verus! {

/// Terrain of one map cell.
#[derive(Copy, Clone, Debug, PartialEq, Eq, Hash, Structural)]
pub enum Tile {
    Grass,
    Wall,
    Water,
    Lava,
    Ice,
    Stairs,
    Mud,
    SpikeTrap,
    PoisonCloud,
    HealingSpring,
    CrackedFloor,
    PressurePlate,
    ThornBush,
    SteamVent,
    ExplodingBarrel,
}

/// Why a map could not be used.
#[derive(Copy, Clone, Debug, PartialEq, Eq, Structural)]
pub enum MapError {
    Empty,
}

impl MapError {
    /// The text that describes the error.
    pub fn message(&self) -> (r: &'static str)
        ensures
            r@ == "map is empty"@,
    {
        match self {
            MapError::Empty => "map is empty",
        }
    }
}

/// The battle map: `height` rows of `width` tiles, stored row by row.
#[derive(Clone, Debug)]
pub struct TacticalMap {
    pub width: u16,
    pub height: u16,
    pub tiles: Vec<Tile>,
}

pub open spec fn in_bounds(width: int, height: int, x: int, y: int) -> bool {
    0 <= x < width && 0 <= y < height
}

pub(crate) proof fn lemma_cell_index(width: int, height: int, x: int, y: int)
    requires
        in_bounds(width, height, x, y),
    ensures
        0 <= y * width + x < width * height,
{
    assert(0 <= y * width) by (nonlinear_arith)
        requires
            0 <= y,
            0 <= width,
    ;
    assert(y * width + x < width * height) by (nonlinear_arith)
        requires
            0 <= x < width,
            0 <= y < height,
    ;
}

/// Terrain a map character stands for.
pub open spec fn tile_of_char(c: char) -> Tile {
    if c == '#' {
        Tile::Wall
    } else if c == '~' {
        Tile::Water
    } else if c == '^' {
        Tile::Lava
    } else if c == '*' {
        Tile::Ice
    } else if c == '>' {
        Tile::Stairs
    } else if c == ',' {
        Tile::Mud
    } else {
        Tile::Grass
    }
}

/// Movement cost of entering a tile under the given weather.
pub open spec fn tile_cost(t: Tile, w: WeatherType) -> int {
    if t == Tile::Water && w == WeatherType::Rainy {
        1
    } else if t == Tile::Ice && w == WeatherType::Snowing {
        0
    } else if t == Tile::Water || t == Tile::Lava {
        2
    } else if t == Tile::Mud {
        3
    } else {
        1
    }
}

/// Only snow makes a step free, and only onto ice: every other step costs
/// at least one action point. In any other weather ice costs what grass
/// costs, one point; rain makes water as cheap as grass. Mud costs more than
/// lava, which costs more than grass; outside rain water costs what lava
/// costs. (Walls are never entered; their cost is grass's.)
pub proof fn lemma_free_steps_only_on_snowy_ice(t: Tile, w: WeatherType)
    ensures
        tile_cost(t, w) == 0 <==> (t == Tile::Ice && w == WeatherType::Snowing),
        tile_cost(t, w) >= 0,
        tile_cost(Tile::Grass, w) == 1,
        w != WeatherType::Snowing ==> tile_cost(Tile::Ice, w) == tile_cost(Tile::Grass, w),
        tile_cost(Tile::Water, WeatherType::Rainy) == tile_cost(Tile::Grass, WeatherType::Rainy),
        w != WeatherType::Rainy ==> tile_cost(Tile::Water, w) == tile_cost(Tile::Lava, w),
        tile_cost(Tile::Mud, w) > tile_cost(Tile::Lava, w) > tile_cost(Tile::Grass, w),
        tile_cost(Tile::Wall, w) == tile_cost(Tile::Grass, w),
{
}

fn char_tile(c: char) -> (t: Tile)
    ensures
        t == tile_of_char(c),
{
    if c == '#' {
        Tile::Wall
    } else if c == '~' {
        Tile::Water
    } else if c == '^' {
        Tile::Lava
    } else if c == '*' {
        Tile::Ice
    } else if c == '>' {
        Tile::Stairs
    } else if c == ',' {
        Tile::Mud
    } else {
        Tile::Grass
    }
}

/// Index of the first newline of `s` at or after `i`, or the length of `s`.
pub open spec fn line_end(s: Seq<char>, i: int) -> int
    decreases s.len() - i,
{
    if i < 0 || i >= s.len() {
        s.len() as int
    } else if s[i] == '\n' {
        i
    } else {
        line_end(s, i + 1)
    }
}

/// Where row `r` of a map text starts; rows are separated by newlines.
pub open spec fn row_start(s: Seq<char>, r: nat) -> int
    decreases r,
{
    if r == 0 {
        0
    } else {
        line_end(s, row_start(s, (r - 1) as nat)) + 1
    }
}

/// Row `r` of a map text exists (an empty text has no rows).
pub open spec fn row_exists(s: Seq<char>, r: nat) -> bool {
    s.len() > 0 && row_start(s, r) <= s.len()
}

/// The number of rows of a map text, counting from row `r`, at most 65535.
pub open spec fn rows_from(s: Seq<char>, r: nat) -> nat
    decreases 65535 - r,
{
    if r >= 65535 || !row_exists(s, r) {
        r
    } else {
        rows_from(s, r + 1)
    }
}

/// Height of the map a text describes.
pub open spec fn ascii_height(s: Seq<char>) -> nat {
    rows_from(s, 0)
}

/// Width of the map a text describes: the length of its first row, at most
/// 65535.
pub open spec fn ascii_width(s: Seq<char>) -> int {
    let w = line_end(s, 0);
    if w > 65535 {
        65535
    } else {
        w
    }
}

/// Terrain of cell (x, y) of a map text; missing characters are grass.
pub open spec fn ascii_tile(s: Seq<char>, x: int, y: nat) -> Tile {
    let st = row_start(s, y);
    if st + x < line_end(s, st) {
        tile_of_char(s[st + x])
    } else {
        Tile::Grass
    }
}

proof fn lemma_line_end(s: Seq<char>, i: int)
    requires
        0 <= i <= s.len(),
    ensures
        i <= line_end(s, i) <= s.len(),
        forall|k: int| i <= k < line_end(s, i) ==> s[k] != '\n',
        line_end(s, i) < s.len() ==> s[line_end(s, i)] == '\n',
        forall|k: int| i <= k <= line_end(s, i) ==> line_end(s, k) == line_end(s, i),
    decreases s.len() - i,
{
    if i < s.len() && s[i] != '\n' {
        lemma_line_end(s, i + 1);
    }
}

/// The abstract content of a map: its size and its tiles, row by row.
pub struct MapView {
    pub width: int,
    pub height: int,
    pub tiles: Seq<Tile>,
}

impl MapView {
    pub open spec fn in_map(self, x: int, y: int) -> bool {
        in_bounds(self.width, self.height, x, y)
    }

    /// Terrain at (x, y); everything outside the map counts as wall.
    pub open spec fn tile_at(self, x: int, y: int) -> Tile {
        if self.in_map(x, y) {
            self.tiles[y * self.width + x]
        } else {
            Tile::Wall
        }
    }

    pub open spec fn walkable_at(self, p: Position) -> bool {
        self.in_map(p.x as int, p.y as int) && self.tile_at(p.x as int, p.y as int) != Tile::Wall
    }

    /// The same map with the tile at `p` replaced (no change outside the map).
    pub open spec fn with_tile(self, p: Position, t: Tile) -> MapView {
        if self.in_map(p.x as int, p.y as int) {
            MapView { tiles: self.tiles.update(p.y * self.width + p.x, t), ..self }
        } else {
            self
        }
    }
}

impl View for TacticalMap {
    type V = MapView;

    open spec fn view(&self) -> MapView {
        MapView { width: self.width as int, height: self.height as int, tiles: self.tiles@ }
    }
}

/// Replacing a tile changes that cell and no other.
pub proof fn lemma_with_tile(m: MapView, p: Position, t: Tile, x: int, y: int)
    requires
        m.tiles.len() == m.width * m.height,
        m.width >= 0,
        m.height >= 0,
    ensures
        m.with_tile(p, t).tiles.len() == m.width * m.height,
        m.with_tile(p, t).width == m.width,
        m.with_tile(p, t).height == m.height,
        m.with_tile(p, t).tile_at(x, y) == if x == p.x && y == p.y && m.in_map(x, y) {
            t
        } else {
            m.tile_at(x, y)
        },
{
    if m.in_map(p.x as int, p.y as int) {
        lemma_cell_index(m.width, m.height, p.x as int, p.y as int);
        if m.in_map(x, y) {
            lemma_cell_index(m.width, m.height, x, y);
            if !(x == p.x && y == p.y) {
                lemma_distinct_cells(m.width, m.height, x, y, p.x as int, p.y as int);
            }
        }
    }
}

impl TacticalMap {
    /// The tile vector holds exactly one tile per cell.
    pub open spec fn wf(&self) -> bool {
        self.tiles@.len() == self.width as int * self.height as int
    }

    /// A map of the given size covered in grass.
    pub fn new(width: u16, height: u16) -> (m: TacticalMap)
        ensures
            m.wf(),
            m.width == width,
            m.height == height,
            forall|x: int, y: int| m@.in_map(x, y) ==> #[trigger] m@.tile_at(x, y) == Tile::Grass,
    {
        assert(width as int * height as int <= 65535 * 65535) by (nonlinear_arith)
            requires
                width <= 65535,
                height <= 65535,
        ;
        let total: usize = width as usize * height as usize;
        let mut tiles: Vec<Tile> = Vec::new();
        let mut i: usize = 0;
        while i < total
            invariant
                i <= total,
                total == width as int * height as int,
                tiles@.len() == i,
                forall|j: int| 0 <= j < i ==> tiles@[j] == Tile::Grass,
            decreases total - i,
        {
            tiles.push(Tile::Grass);
            i = i + 1;
        }
        let m = TacticalMap { width, height, tiles };
        assert forall|x: int, y: int| m@.in_map(x, y) implies #[trigger] m@.tile_at(x, y)
            == Tile::Grass by {
            lemma_cell_index(width as int, height as int, x, y);
        }
        m
    }

    /// Builds a map from rows of characters separated by newlines: `#` is wall,
    /// `~` water, `^` lava, `*` ice, `>` stairs, `,` mud, anything else grass.
    /// The first row fixes the width; shorter rows are padded with grass and
    /// longer rows are cut. At most 65535 rows and columns are read.
    pub fn from_ascii(text: &str) -> (m: TacticalMap)
        ensures
            m.wf(),
            m.width == ascii_width(text@),
            m.height == ascii_height(text@),
            forall|x: int, y: int|
                m@.in_map(x, y) ==> #[trigger] m@.tile_at(x, y) == ascii_tile(text@, x, y as nat),
    {
        let t = chars_of(text);
        let n = t.len();
        let ghost s = text@;
        proof {
            lemma_line_end(s, 0);
        }
        let mut first: usize = 0;
        while first < n && t[first] != '\n'
            invariant
                first <= n,
                n == s.len(),
                t@ == s,
                line_end(s, 0) == line_end(s, first as int),
            decreases n - first,
        {
            first = first + 1;
        }
        let width: usize = if first > 65535 {
            65535
        } else {
            first
        };
        let mut tiles: Vec<Tile> = Vec::new();
        let mut height: usize = 0;
        let mut pos: usize = 0;
        let mut more = n > 0;
        while more && height < 65535
            invariant
                n == s.len(),
                t@ == s,
                width == ascii_width(s),
                width <= 65535,
                height <= 65535,
                pos <= n,
                tiles@.len() == width * height,
                more ==> pos == row_start(s, height as nat) && row_exists(s, height as nat),
                !more ==> !row_exists(s, height as nat),
                rows_from(s, 0) == rows_from(s, height as nat),
                forall|x: int, y: int|
                    0 <= x < width && 0 <= y < height ==> #[trigger] tiles@[y * width + x]
                        == ascii_tile(s, x, y as nat),
            decreases n + 1 - pos + (if more {
                1int
            } else {
                0
            }),
        {
            let ghost st = pos as int;
            let ghost le = line_end(s, st);
            let ghost done = tiles@;
            proof {
                lemma_line_end(s, st);
                assert(height * width == width * height) by (nonlinear_arith);
            }
            let mut col: usize = 0;
            while col < width
                invariant
                    n == s.len(),
                    t@ == s,
                    width <= 65535,
                    height < 65535,
                    0 <= st <= n,
                    st == row_start(s, height as nat),
                    le == line_end(s, st),
                    st <= le <= n,
                    forall|k: int| st <= k < le ==> s[k] != '\n',
                    le < n ==> s[le] == '\n',
                    col <= width,
                    pos == (if st + col <= le {
                        st + col
                    } else {
                        le
                    }),
                    done.len() == width * height,
                    height * width == width * height,
                    tiles@.len() == width * height + col,
                    tiles@.subrange(0, done.len() as int) == done,
                    forall|x: int| 0 <= x < col ==> #[trigger] tiles@[height * width + x] == ascii_tile(
                        s,
                        x,
                        height as nat,
                    ),
                decreases width - col,
            {
                let mut tile = Tile::Grass;
                if pos < n && t[pos] != '\n' {
                    tile = char_tile(t[pos]);
                    pos = pos + 1;
                }
                tiles.push(tile);
                assert(tiles@.subrange(0, done.len() as int) =~= done);
                col = col + 1;
            }
            assert forall|x: int, y: int|
                0 <= x < width && 0 <= y < height + 1 implies #[trigger] tiles@[y * width + x]
                    == ascii_tile(s, x, y as nat) by {
                if y < height {
                    lemma_cell_index(width as int, height as int, x, y);
                    assert(tiles@[y * width + x] == done[y * width + x]);
                }
            }
            while pos < n && t[pos] != '\n'
                invariant
                    n == s.len(),
                    t@ == s,
                    st <= pos <= le <= n,
                    le == line_end(s, st),
                    forall|k: int| st <= k < le ==> s[k] != '\n',
                    le < n ==> s[le] == '\n',
                decreases n - pos,
            {
                pos = pos + 1;
            }
            assert(pos == le);
            assert(tiles@.len() == width * (height + 1)) by (nonlinear_arith)
                requires
                    tiles@.len() == width * height + width,
            ;
            height = height + 1;
            if pos < n {
                pos = pos + 1;
                more = true;
            } else {
                more = false;
            }
        }
        assert(height == ascii_height(s));
        let m = TacticalMap { width: width as u16, height: height as u16, tiles };
        assert forall|x: int, y: int| m@.in_map(x, y) implies #[trigger] m@.tile_at(x, y)
            == ascii_tile(s, x, y as nat) by {
            lemma_cell_index(width as int, height as int, x, y);
        }
        m
    }

    pub fn in_map_exec(&self, x: i16, y: i16) -> (r: bool)
        ensures
            r == self@.in_map(x as int, y as int),
    {
        x >= 0 && (x as i32) < (self.width as i32) && y >= 0 && (y as i32) < (self.height as i32)
    }

    pub(crate) fn cell_index(&self, x: i16, y: i16) -> (i: usize)
        requires
            self.wf(),
            self@.in_map(x as int, y as int),
        ensures
            i == y * self.width + x,
            i < self.tiles@.len(),
    {
        proof {
            lemma_cell_index(self.width as int, self.height as int, x as int, y as int);
            assert(0 <= y as int * self.width as int) by (nonlinear_arith)
                requires
                    0 <= y,
                    0 <= self.width,
            ;
        }
        let yy: usize = y as usize;
        let ww: usize = self.width as usize;
        let xx: usize = x as usize;
        let len: usize = self.tiles.len();
        assert(yy * ww + xx < len);
        assert(yy * ww <= yy * ww + xx);
        let row: usize = yy * ww;
        row + xx
    }

    /// Terrain at (x, y); everything outside the map counts as wall.
    pub fn tile(&self, x: i16, y: i16) -> (t: Tile)
        requires
            self.wf(),
        ensures
            t == self@.tile_at(x as int, y as int),
    {
        if self.in_map_exec(x, y) {
            let i = self.cell_index(x, y);
            self.tiles[i]
        } else {
            Tile::Wall
        }
    }

    /// Replaces the terrain at `p`; positions outside the map are left alone.
    pub fn set_tile(&mut self, p: Position, t: Tile)
        requires
            old(self).wf(),
        ensures
            final(self).wf(),
            final(self)@ == old(self)@.with_tile(p, t),
    {
        if self.in_map_exec(p.x, p.y) {
            let i = self.cell_index(p.x, p.y);
            self.tiles.set(i, t);
        }
    }

    /// A position is walkable when it lies on the map and is not a wall.
    pub fn is_walkable(&self, p: Position) -> (r: bool)
        requires
            self.wf(),
        ensures
            r == self@.walkable_at(p),
    {
        self.in_map_exec(p.x, p.y) && self.tile(p.x, p.y) != Tile::Wall
    }

    /// Movement cost of entering `p` in fair weather.
    pub fn movement_cost(&self, p: Position) -> (c: i32)
        requires
            self.wf(),
        ensures
            c == tile_cost(self@.tile_at(p.x as int, p.y as int), WeatherType::Sunny),
    {
        self.movement_cost_with_weather(p, WeatherType::Sunny)
    }

    /// Movement cost of entering `p` under the given weather.
    pub fn movement_cost_with_weather(&self, p: Position, w: WeatherType) -> (c: i32)
        requires
            self.wf(),
        ensures
            c == tile_cost(self@.tile_at(p.x as int, p.y as int), w),
    {
        let t = self.tile(p.x, p.y);
        if t == Tile::Water && w == WeatherType::Rainy {
            1
        } else if t == Tile::Ice && w == WeatherType::Snowing {
            0
        } else if t == Tile::Water || t == Tile::Lava {
            2
        } else if t == Tile::Mud {
            3
        } else {
            1
        }
    }
}

pub(crate) proof fn lemma_distinct_cells(w: int, h: int, x1: int, y1: int, x2: int, y2: int)
    requires
        in_bounds(w, h, x1, y1),
        in_bounds(w, h, x2, y2),
        !(x1 == x2 && y1 == y2),
    ensures
        y1 * w + x1 != y2 * w + x2,
{
    if y1 == y2 {
    } else if y1 < y2 {
        assert(y1 * w + w <= y2 * w) by (nonlinear_arith)
            requires
                y1 + 1 <= y2,
                0 <= w,
        ;
    } else {
        assert(y2 * w + w <= y1 * w) by (nonlinear_arith)
            requires
                y2 + 1 <= y1,
                0 <= w,
        ;
    }
}

} // verus!
