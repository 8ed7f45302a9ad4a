use vstd::prelude::*;

use crate::battle_preview::{UnitRecord, offset_position};
use crate::components::{CharacterClass, EchoAbility, EquippedEchoes, Stats, Team};
use crate::geometry::{Entity, Position, abs_int, manhattan, manhattan_distance};
use crate::text::{push_int, push_str};

verus! {

// ------------------------------------------------------------------
// Who stands where
// ------------------------------------------------------------------

/// A unit that blocks a cell: one with a team.
pub open spec fn blocks(u: UnitRecord, pos: Position) -> bool {
    u.position == Some(pos) && u.team is Some
}

/// Index of the first unit among the first `k` records that blocks `pos`.
pub open spec fn first_at(units: Seq<UnitRecord>, pos: Position, k: int) -> Option<int>
    decreases k,
{
    if k <= 0 {
        None
    } else {
        match first_at(units, pos, k - 1) {
            Some(i) => Some(i),
            None => if blocks(units[k - 1], pos) {
                Some(k - 1)
            } else {
                None
            },
        }
    }
}

/// The unit standing on `pos` with its team, stats and class: the first unit
/// there with a team, if that one has stats and a class.
pub open spec fn entity_at(units: Seq<UnitRecord>, pos: Position) -> Option<
    (Entity, Team, Stats, CharacterClass),
> {
    match first_at(units, pos, units.len() as int) {
        Some(i) => {
            let u = units[i];
            if u.stats is Some && u.class is Some {
                Some((u.entity, u.team->0, u.stats->0, u.class->0))
            } else {
                None
            }
        },
        None => None,
    }
}

pub(crate) proof fn lemma_first_at_stable(units: Seq<UnitRecord>, pos: Position, k: int, m: int)
    requires
        0 <= k <= m <= units.len(),
        first_at(units, pos, k) is Some,
    ensures
        first_at(units, pos, m) == first_at(units, pos, k),
        first_at(units, pos, k)->0 < k,
        blocks(units[first_at(units, pos, k)->0], pos),
    decreases m - k,
{
    if m > k {
        lemma_first_at_stable(units, pos, k, m - 1);
    } else {
        lemma_first_at_range(units, pos, k);
    }
}

pub(crate) proof fn lemma_first_at_range(units: Seq<UnitRecord>, pos: Position, k: int)
    requires
        0 <= k <= units.len(),
    ensures
        first_at(units, pos, k) matches Some(i) ==> 0 <= i < k && blocks(units[i], pos),
    decreases k,
{
    if k > 0 {
        lemma_first_at_range(units, pos, k - 1);
    }
}

/// The unit standing on `pos`, with its team, stats and class.
pub fn get_entity_at(units: &[UnitRecord], pos: Position) -> (r: Option<
    (Entity, Team, Stats, CharacterClass),
>)
    ensures
        r == entity_at(units@, pos),
{
    let n = units.len();
    let mut k: usize = 0;
    while k < n
        invariant
            k <= n,
            n == units@.len(),
            first_at(units@, pos, k as int) is None,
        decreases n - k,
    {
        let u = units[k];
        if u.position == Some(pos) && u.team.is_some() {
            assert(first_at(units@, pos, k + 1) == Some(k as int));
            proof {
                lemma_first_at_stable(units@, pos, k + 1, n as int);
            }
            return match (u.stats, u.class) {
                (Some(s), Some(c)) => Some((u.entity, u.team.unwrap(), s, c)),
                _ => None,
            };
        }
        k = k + 1;
    }
    None
}

/// Some unit other than `except` blocks `pos`.
pub open spec fn occupied_except(units: Seq<UnitRecord>, pos: Position, except: Entity) -> bool {
    exists|i: int| 0 <= i < units.len() && #[trigger] blocks(units[i], pos) && units[i].entity != except
}

/// Whether a unit other than `except` blocks `pos`.
pub fn is_occupied_except(units: &[UnitRecord], pos: Position, except: Entity) -> (r: bool)
    ensures
        r == occupied_except(units@, pos, except),
{
    let n = units.len();
    let mut k: usize = 0;
    while k < n
        invariant
            k <= n,
            n == units@.len(),
            forall|i: int| 0 <= i < k ==> !(#[trigger] blocks(units@[i], pos) && units@[i].entity != except),
        decreases n - k,
    {
        let u = units[k];
        if u.entity != except && u.position == Some(pos) && u.team.is_some() {
            assert(blocks(units@[k as int], pos));
            return true;
        }
        k = k + 1;
    }
    false
}

// ------------------------------------------------------------------
// Vanishing
// ------------------------------------------------------------------

/// The cell `d` = (dx, dy) away from `c` is a place to vanish to: on the map
/// (as the game reads its size), at least two steps away, and free.
pub open spec fn vanish_spot(
    units: Seq<UnitRecord>,
    c: Position,
    w: u16,
    h: u16,
    me: Entity,
    dx: int,
    dy: int,
) -> bool {
    let p = offset_position(c, dx, dy);
    &&& p.x >= 0 && p.x < (w as i16) && p.y >= 0 && p.y < (h as i16)
    &&& abs_int(dx) + abs_int(dy) >= 2
    &&& !occupied_except(units, p, me)
}

/// Places to vanish to in row `dy`, for the first `k` columns from -3.
pub open spec fn vanish_row(
    units: Seq<UnitRecord>,
    c: Position,
    w: u16,
    h: u16,
    me: Entity,
    dy: int,
    k: int,
) -> Seq<Position>
    decreases k,
{
    if k <= 0 {
        Seq::empty()
    } else {
        let prev = vanish_row(units, c, w, h, me, dy, k - 1);
        let dx = -3 + (k - 1);
        if vanish_spot(units, c, w, h, me, dx, dy) {
            prev.push(offset_position(c, dx, dy))
        } else {
            prev
        }
    }
}

/// Places to vanish to in the first `k` rows from -3, row by row.
pub open spec fn vanish_rows(
    units: Seq<UnitRecord>,
    c: Position,
    w: u16,
    h: u16,
    me: Entity,
    k: int,
) -> Seq<Position>
    decreases k,
{
    if k <= 0 {
        Seq::empty()
    } else {
        vanish_rows(units, c, w, h, me, k - 1) + vanish_row(units, c, w, h, me, -3 + (k - 1), 7)
    }
}

/// The cells within three steps on each axis, at least two steps away, on a
/// `width` by `height` map and free of other units, where a vanishing unit
/// may reappear; row by row, left to right.
pub fn vanish_candidates(
    units: &[UnitRecord],
    me: Entity,
    current: Position,
    width: u16,
    height: u16,
) -> (r: Vec<Position>)
    requires
        i16::MIN + 3 <= current.x <= i16::MAX - 3,
        i16::MIN + 3 <= current.y <= i16::MAX - 3,
    ensures
        r@ == vanish_rows(units@, current, width, height, me, 7),
{
    let w: i16 = width as i16;
    let h: i16 = height as i16;
    let mut out: Vec<Position> = Vec::new();
    let mut dy: i16 = -3;
    while dy <= 3
        invariant
            -3 <= dy <= 4,
            i16::MIN + 3 <= current.x <= i16::MAX - 3,
            i16::MIN + 3 <= current.y <= i16::MAX - 3,
            w == width as i16,
            h == height as i16,
            out@ == vanish_rows(units@, current, width, height, me, dy + 3),
        decreases 4 - dy,
    {
        let ghost row_start = out@;
        let mut dx: i16 = -3;
        while dx <= 3
            invariant
                -3 <= dy <= 3,
                -3 <= dx <= 4,
                i16::MIN + 3 <= current.x <= i16::MAX - 3,
                i16::MIN + 3 <= current.y <= i16::MAX - 3,
                w == width as i16,
                h == height as i16,
                row_start == vanish_rows(units@, current, width, height, me, dy + 3),
                out@ == row_start + vanish_row(units@, current, width, height, me, dy as int, dx + 3),
            decreases 4 - dx,
        {
            let tx = current.x + dx;
            let ty = current.y + dy;
            let p = Position::new(tx, ty);
            let ax: i16 = if dx < 0 {
                -dx
            } else {
                dx
            };
            let ay: i16 = if dy < 0 {
                -dy
            } else {
                dy
            };
            if tx >= 0 && tx < w && ty >= 0 && ty < h && ax + ay >= 2 && !is_occupied_except(
                units,
                p,
                me,
            ) {
                out.push(p);
            }
            assert(out@ =~= row_start + vanish_row(units@, current, width, height, me, dy as int, dx + 4));
            dx = dx + 1;
        }
        assert(out@ =~= vanish_rows(units@, current, width, height, me, dy + 4));
        dy = dy + 1;
    }
    out
}

// ------------------------------------------------------------------
// Echoes and the end of a floor
// ------------------------------------------------------------------

/// What absorbing a fallen enemy's echo grants: the boss's Lifesteal, the
/// Shadow Stalker's Frostbite, and Swift for any other kind.
pub open spec fn echo_ability(class: CharacterClass) -> EchoAbility {
    if class == CharacterClass::Boss {
        EchoAbility::Lifesteal
    } else if class == CharacterClass::ShadowStalker {
        EchoAbility::Frostbite
    } else {
        EchoAbility::Swift
    }
}

pub open spec fn echo_name(a: EchoAbility) -> Seq<char> {
    match a {
        EchoAbility::Frostbite => "Frostbite"@,
        _ => "Swift"@,
    }
}

/// The log lines of absorbing an echo of `class` when `had` tells whether its
/// ability was already held.
pub open spec fn absorb_log(class: CharacterClass, had: bool) -> Seq<Seq<char>> {
    if class == CharacterClass::Boss {
        if had {
            seq!["Absorbed Blight Sovereign Echo! Echo absorbed successfully."@]
        } else {
            seq![
                "Absorbed Blight Sovereign Echo! Echo absorbed successfully."@,
                "Granted Blight Sovereign's Lifesteal ability!"@,
            ]
        }
    } else if had {
        seq!["Absorbed "@ + echo_name(echo_ability(class)) + " Echo, but already have it."@]
    } else {
        seq!["Absorbed "@ + echo_name(echo_ability(class)) + " Echo! Ability granted."@]
    }
}

fn holds_ability(abilities: &Vec<EchoAbility>, a: EchoAbility) -> (r: bool)
    ensures
        r == abilities@.contains(a),
{
    let n = abilities.len();
    let mut i: usize = 0;
    while i < n
        invariant
            i <= n,
            n == abilities@.len(),
            forall|j: int| 0 <= j < i ==> abilities@[j] != a,
        decreases n - i,
    {
        if abilities[i] == a {
            return true;
        }
        i = i + 1;
    }
    false
}

/// Absorbs the echo of a fallen `class` enemy: its ability is granted unless
/// already held. Returns the log lines, and whether the boss's ability was
/// newly granted (which unlocks the echo lore).
pub fn absorb_echo(echoes: &mut EquippedEchoes, class: CharacterClass) -> (r: (Vec<String>, bool))
    ensures
        ({
            let a = echo_ability(class);
            let had = old(echoes).abilities@.contains(a);
            &&& final(echoes).abilities@ == if had {
                old(echoes).abilities@
            } else {
                old(echoes).abilities@.push(a)
            }
            &&& r.0@.len() == absorb_log(class, had).len()
            &&& forall|i: int| 0 <= i < r.0@.len() ==> #[trigger] r.0@[i]@ == absorb_log(class, had)[i]
            &&& r.1 == (class == CharacterClass::Boss && !had)
        }),
{
    let ability = if class == CharacterClass::Boss {
        EchoAbility::Lifesteal
    } else if class == CharacterClass::ShadowStalker {
        EchoAbility::Frostbite
    } else {
        EchoAbility::Swift
    };
    let had = holds_ability(&echoes.abilities, ability);
    if !had {
        echoes.abilities.push(ability);
    }
    let mut log: Vec<String> = Vec::new();
    if class == CharacterClass::Boss {
        log.push(String::from_str("Absorbed Blight Sovereign Echo! Echo absorbed successfully."));
        if !had {
            log.push(String::from_str("Granted Blight Sovereign's Lifesteal ability!"));
        }
    } else {
        let name = if ability == EchoAbility::Frostbite {
            "Frostbite"
        } else {
            "Swift"
        };
        let mut s = String::new();
        push_str(&mut s, "Absorbed ");
        push_str(&mut s, name);
        if had {
            push_str(&mut s, " Echo, but already have it.");
            assert(s@ =~= absorb_log(class, had)[0]);
        } else {
            push_str(&mut s, " Echo! Ability granted.");
            assert(s@ =~= absorb_log(class, had)[0]);
        }
        log.push(s);
    }
    (log, class == CharacterClass::Boss && !had)
}

/// Absorbing a second echo of the same kind grants nothing more.
pub proof fn lemma_absorb_once(abilities: Seq<EchoAbility>, class: CharacterClass)
    ensures
        ({
            let a = echo_ability(class);
            let after = if abilities.contains(a) {
                abilities
            } else {
                abilities.push(a)
            };
            after.contains(a)
        }),
{
    let a = echo_ability(class);
    if !abilities.contains(a) {
        assert(abilities.push(a)[abilities.len() as int] == a);
    }
}

/// How a floor ends: a staircase appears (on the first floor) or the run is
/// won (deeper down).
#[derive(Copy, Clone, Debug, PartialEq, Eq, Structural)]
pub enum FloorProgress {
    Stairs(Position),
    Victory,
}

pub open spec fn stairs_text(pos: Position) -> Seq<char> {
    "A staircase has appeared at "@ + crate::text::decimal(pos.x as int) + ","@
        + crate::text::decimal(pos.y as int)
        + ". Stand on it and press '>' or type 'stairs' to descend."@
}

/// The outcome of absorbing the boss's echo at `pos` on `floor`, with its log
/// line.
pub open spec fn boss_echo_outcome(floor: u32, pos: Position) -> (FloorProgress, Seq<char>) {
    if floor == 1 {
        (FloorProgress::Stairs(pos), stairs_text(pos))
    } else {
        (FloorProgress::Victory, "Victory! Blight Sovereign defeated and Floor 2 conquered!"@)
    }
}

/// The outcome once no enemy and no echo is left, the last one having fallen
/// or been absorbed at `pos`, with its log line.
pub open spec fn cleared_outcome(floor: u32, pos: Position) -> (FloorProgress, Seq<char>) {
    if floor == 1 {
        (FloorProgress::Stairs(pos), "All enemies defeated on Floor 1! "@ + stairs_text(pos))
    } else {
        (FloorProgress::Victory, "Victory! All enemies defeated and Floor 2 conquered!"@)
    }
}

fn push_stairs_text(s: &mut String, pos: Position)
    ensures
        final(s)@ == old(s)@ + stairs_text(pos),
{
    push_str(s, "A staircase has appeared at ");
    push_int(s, pos.x as i64);
    push_str(s, ",");
    push_int(s, pos.y as i64);
    push_str(s, ". Stand on it and press '>' or type 'stairs' to descend.");
    assert(final(s)@ =~= old(s)@ + stairs_text(pos));
}

/// What absorbing the boss's echo at `pos` on `floor` brings.
pub fn boss_echo_progress(floor: u32, pos: Position) -> (r: (FloorProgress, String))
    ensures
        r.0 == boss_echo_outcome(floor, pos).0,
        r.1@ == boss_echo_outcome(floor, pos).1,
{
    if floor == 1 {
        let mut s = String::new();
        push_stairs_text(&mut s, pos);
        assert(s@ =~= stairs_text(pos));
        (FloorProgress::Stairs(pos), s)
    } else {
        (FloorProgress::Victory, String::from_str("Victory! Blight Sovereign defeated and Floor 2 conquered!"))
    }
}

/// An enemy is still on the field.
pub open spec fn enemy_left(units: Seq<UnitRecord>) -> bool {
    exists|i: int| 0 <= i < units.len() && (#[trigger] units[i]).team == Some(Team::Enemy)
}

/// Whether the floor is cleared, no enemy and no echo being left, after the
/// last one fell or was absorbed at `pos`; and if so how it ends.
pub fn floor_cleared(units: &[UnitRecord], echoes_left: usize, floor: u32, pos: Position) -> (r: Option<
    (FloorProgress, String),
>)
    ensures
        (!enemy_left(units@) && echoes_left == 0) <==> r is Some,
        r matches Some(x) ==> x.0 == cleared_outcome(floor, pos).0 && x.1@ == cleared_outcome(
            floor,
            pos,
        ).1,
{
    let n = units.len();
    let mut k: usize = 0;
    while k < n
        invariant
            k <= n,
            n == units@.len(),
            forall|i: int| 0 <= i < k ==> (#[trigger] units@[i]).team != Some(Team::Enemy),
        decreases n - k,
    {
        if units[k].team == Some(Team::Enemy) {
            return None;
        }
        k = k + 1;
    }
    if echoes_left > 0 {
        return None;
    }
    if floor == 1 {
        let mut s = String::new();
        push_str(&mut s, "All enemies defeated on Floor 1! ");
        push_stairs_text(&mut s, pos);
        Some((FloorProgress::Stairs(pos), s))
    } else {
        Some((FloorProgress::Victory, String::from_str("Victory! All enemies defeated and Floor 2 conquered!")))
    }
}

// ------------------------------------------------------------------
// The battle running itself
// ------------------------------------------------------------------

/// A player unit that can still act.
pub open spec fn ready_to_act(u: UnitRecord) -> bool {
    u.team == Some(Team::Player) && (u.stats matches Some(s) && s.ap > 0)
}

/// A unit of the enemy team that stands on the map.
pub open spec fn placed_enemy(u: UnitRecord) -> bool {
    u.team == Some(Team::Enemy) && u.position is Some
}

/// How far a unit of the class strikes when the battle runs itself.
pub open spec fn auto_attack_range(class: CharacterClass) -> int {
    match class {
        CharacterClass::Warrior => 1,
        CharacterClass::Mage => 3,
        CharacterClass::Healer => 2,
        _ => 1,
    }
}

/// Index of the first unit ready to act among the first `k`.
pub open spec fn first_ready(units: Seq<UnitRecord>, k: int) -> Option<int>
    decreases k,
{
    if k <= 0 {
        None
    } else {
        match first_ready(units, k - 1) {
            Some(i) => Some(i),
            None => if ready_to_act(units[k - 1]) {
                Some(k - 1)
            } else {
                None
            },
        }
    }
}

/// Index of the first enemy within `range` of `p` among the first `k` units.
pub open spec fn first_enemy_within(units: Seq<UnitRecord>, p: Position, range: int, k: int) -> Option<int>
    decreases k,
{
    if k <= 0 {
        None
    } else {
        match first_enemy_within(units, p, range, k - 1) {
            Some(i) => Some(i),
            None => if placed_enemy(units[k - 1]) && manhattan(p, units[k - 1].position->0) <= range {
                Some(k - 1)
            } else {
                None
            },
        }
    }
}

/// Index of the first enemy nearest to `p` among the first `k` units.
pub open spec fn nearest_enemy(units: Seq<UnitRecord>, p: Position, k: int) -> Option<int>
    decreases k,
{
    if k <= 0 {
        None
    } else {
        let prev = nearest_enemy(units, p, k - 1);
        if placed_enemy(units[k - 1]) {
            match prev {
                None => Some(k - 1),
                Some(b) => if manhattan(p, units[k - 1].position->0) < manhattan(
                    p,
                    units[b].position->0,
                ) {
                    Some(k - 1)
                } else {
                    Some(b)
                },
            }
        } else {
            prev
        }
    }
}

/// What the battle does next when it runs itself.
#[derive(Copy, Clone, Debug, PartialEq, Eq, Structural)]
pub enum AutoBattleChoice {
    /// No player unit can act: the turn ends.
    EndTurn,
    /// The unit strikes the enemy standing on that cell.
    Attack(Entity, Position),
    /// The unit heads for the enemy standing on that cell.
    Approach(Entity, Position),
    /// No enemy is on the map: wait.
    Wait,
}

/// The first player unit with action points strikes the first enemy within
/// its class's reach; failing that it heads for the nearest enemy (the first
/// on ties); with no enemy about, the battle waits; with no player unit left
/// to act, the turn ends.
pub open spec fn auto_battle_plan(units: Seq<UnitRecord>) -> AutoBattleChoice {
    match first_ready(units, units.len() as int) {
        None => AutoBattleChoice::EndTurn,
        Some(i) => {
            let pos = units[i].position->0;
            let range = auto_attack_range(units[i].class->0);
            match first_enemy_within(units, pos, range, units.len() as int) {
                Some(j) => AutoBattleChoice::Attack(units[i].entity, units[j].position->0),
                None => match nearest_enemy(units, pos, units.len() as int) {
                    Some(j) => AutoBattleChoice::Approach(units[i].entity, units[j].position->0),
                    None => AutoBattleChoice::Wait,
                },
            }
        },
    }
}

proof fn lemma_first_ready_range(units: Seq<UnitRecord>, k: int)
    ensures
        first_ready(units, k) matches Some(i) ==> 0 <= i < k,
    decreases k,
{
    if k > 0 {
        lemma_first_ready_range(units, k - 1);
    }
}

proof fn lemma_first_enemy_within_range(units: Seq<UnitRecord>, p: Position, range: int, k: int)
    ensures
        first_enemy_within(units, p, range, k) matches Some(i) ==> 0 <= i < k && placed_enemy(units[i]),
    decreases k,
{
    if k > 0 {
        lemma_first_enemy_within_range(units, p, range, k - 1);
    }
}

proof fn lemma_nearest_enemy_range(units: Seq<UnitRecord>, p: Position, k: int)
    ensures
        nearest_enemy(units, p, k) matches Some(i) ==> 0 <= i < k && placed_enemy(units[i]),
    decreases k,
{
    if k > 0 {
        lemma_nearest_enemy_range(units, p, k - 1);
    }
}

fn attack_range_exec(class: CharacterClass) -> (r: i32)
    ensures
        r == auto_attack_range(class),
{
    match class {
        CharacterClass::Warrior => 1,
        CharacterClass::Mage => 3,
        CharacterClass::Healer => 2,
        _ => 1,
    }
}

/// What the battle does next when it runs itself; the first player unit
/// ready to act must stand on the map and have a class.
pub fn auto_battle_choice(units: &[UnitRecord]) -> (r: AutoBattleChoice)
    requires
        first_ready(units@, units@.len() as int) matches Some(i) ==> units@[i].position is Some
            && units@[i].class is Some,
    ensures
        r == auto_battle_plan(units@),
{
    let n = units.len();
    let mut ready: Option<usize> = None;
    let mut k: usize = 0;
    while k < n
        invariant
            k <= n,
            n == units@.len(),
            match ready {
                None => first_ready(units@, k as int) is None,
                Some(i) => first_ready(units@, k as int) == Some(i as int),
            },
        decreases n - k,
    {
        if ready.is_none() {
            let u = units[k];
            if u.team == Some(Team::Player) {
                match u.stats {
                    Some(s) => {
                        if s.ap > 0 {
                            ready = Some(k);
                        }
                    },
                    None => {},
                }
            }
        }
        k = k + 1;
    }
    proof {
        lemma_first_ready_range(units@, n as int);
    }
    let i = match ready {
        None => {
            return AutoBattleChoice::EndTurn;
        },
        Some(i) => i,
    };
    let me = units[i];
    let pos = me.position.unwrap();
    let range = attack_range_exec(me.class.unwrap());
    let mut within: Option<usize> = None;
    let mut nearest: Option<(usize, i32)> = None;
    let mut k: usize = 0;
    while k < n
        invariant
            k <= n,
            n == units@.len(),
            range == auto_attack_range(units@[i as int].class->0),
            pos == units@[i as int].position->0,
            match within {
                None => first_enemy_within(units@, pos, range as int, k as int) is None,
                Some(j) => first_enemy_within(units@, pos, range as int, k as int) == Some(j as int),
            },
            match nearest {
                None => nearest_enemy(units@, pos, k as int) is None,
                Some((j, d)) => nearest_enemy(units@, pos, k as int) == Some(j as int) && j < n
                    && units@[j as int].position is Some && d == manhattan(
                    pos,
                    units@[j as int].position->0,
                ),
            },
        decreases n - k,
    {
        let u = units[k];
        if u.team == Some(Team::Enemy) {
            match u.position {
                Some(ep) => {
                    let d = manhattan_distance(pos, ep);
                    if within.is_none() && d <= range {
                        within = Some(k);
                    }
                    match nearest {
                        None => {
                            nearest = Some((k, d));
                        },
                        Some((_, bd)) => {
                            if d < bd {
                                nearest = Some((k, d));
                            }
                        },
                    }
                },
                None => {},
            }
        }
        k = k + 1;
    }
    proof {
        lemma_first_enemy_within_range(units@, pos, range as int, n as int);
        lemma_nearest_enemy_range(units@, pos, n as int);
    }
    match within {
        Some(j) => AutoBattleChoice::Attack(me.entity, units[j].position.unwrap()),
        None => match nearest {
            Some((j, _)) => AutoBattleChoice::Approach(me.entity, units[j].position.unwrap()),
            None => AutoBattleChoice::Wait,
        },
    }
}

} // verus!
