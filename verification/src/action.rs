use vstd::prelude::*;

use crate::components::{ComboSkill, EquipmentSlot, SkillSlot, WeatherType};
use crate::geometry::{Direction, Position};
use crate::token::{
    chars_of, find_in_range, same_text, parse_i16_range, parse_signed, parse_unsigned, parse_unsigned_range,
    range_is, range_starts_with, split_once, strip_prefix, trim, trim_range,
};

verus! {

/// A player command.
#[derive(Copy, Clone, Debug, PartialEq, Eq, Hash, Structural)]
pub enum Action {
    MoveNorth,
    MoveSouth,
    MoveEast,
    MoveWest,
    Wait,
    Inspect(Position),
    ClearCursor,
    Confirm,
    Cancel,
    NextCharacter,
    PrevCharacter,
    SwapCharacter(usize),
    Skill1,
    Skill2,
    Skill3,
    Quit,
    EndTurn,
    ToggleInventory,
    UseItem(usize),
    Save,
    Load,
    TogglePerf,
    AutoBattle,
    StepToSafety,
    ToggleRecording,
    ToggleReplay,
    ToggleReplayAuto,
    StepReplay,
    ToggleMinimap,
    Undo,
    Redo,
    NextFloor,
    CraftItem(usize, usize),
    ChangeWeather(WeatherType),
    ToggleHelp,
    UpgradeSkill(SkillSlot, u8),
    ToggleSkillTree,
    RerollModifiers,
    ComboSkill(ComboSkill),
    ViewPrestige,
    Rest,
    ToggleBestiary,
    UpgradeEquipment(EquipmentSlot),
    PanCamera(Direction),
    ToggleCameraLock,
    ZoomIn,
    ZoomOut,
}

impl Action {
    /// The direction of a move command.
    pub fn direction(self) -> (d: Option<Direction>)
        ensures
            d == match self {
                Action::MoveNorth => Some(Direction::North),
                Action::MoveSouth => Some(Direction::South),
                Action::MoveEast => Some(Direction::East),
                Action::MoveWest => Some(Direction::West),
                _ => None,
            },
    {
        match self {
            Action::MoveNorth => Some(Direction::North),
            Action::MoveSouth => Some(Direction::South),
            Action::MoveEast => Some(Direction::East),
            Action::MoveWest => Some(Direction::West),
            _ => None,
        }
    }
}

// ------------------------------------------------------------------
// Command tokens
// ------------------------------------------------------------------

/// What `str::to_lowercase` gives for a text: its Unicode lowercase mapping.
pub uninterp spec fn lowercase(s: Seq<char>) -> Seq<char>;

/// Every character of `s` is ASCII.
pub open spec fn all_ascii(s: Seq<char>) -> bool {
    forall|i: int| 0 <= i < s.len() ==> (#[trigger] s[i]) as u32 <= 127
}

/// One character with `A`..`Z` turned into `a`..`z`.
pub open spec fn ascii_lower_char(c: char) -> char {
    if 'A' <= c && c <= 'Z' {
        ((c as u32) + 32) as char
    } else {
        c
    }
}

/// A text with `A`..`Z` turned into `a`..`z`, letter by letter.
pub open spec fn ascii_lower(s: Seq<char>) -> Seq<char> {
    Seq::new(s.len(), |i: int| ascii_lower_char(s[i]))
}

/// The lowercase form of a text: `A`..`Z` turned into `a`..`z` when the text
/// is all ASCII, otherwise what `str::to_lowercase` gives.
pub open spec fn lower_text(s: Seq<char>) -> Seq<char> {
    if all_ascii(s) {
        ascii_lower(s)
    } else {
        lowercase(s)
    }
}

/// Lowercases `s` with `str::to_lowercase`. The contract names the result,
/// and states it only for an all-ASCII text, where the Unicode lowercase
/// mapping turns `A`..`Z` into `a`..`z` and keeps every other character; the
/// mapping of other characters is not stated here.
#[verifier::external_body]
fn to_lowercase(s: &str) -> (r: String)
    ensures
        r@ == lowercase(s@),
        all_ascii(s@) ==> r@ == ascii_lower(s@),
{
    s.to_lowercase()
}

/// The first of two alternatives that is present.
pub open spec fn either(a: Option<Action>, b: Option<Action>) -> Option<Action> {
    if a is Some {
        a
    } else {
        b
    }
}

/// `n - 1`, but never below zero.
pub open spec fn one_based(n: int) -> usize {
    if n > 0 {
        (n - 1) as usize
    } else {
        0
    }
}

/// A cell written `x,y` (each part may carry surrounding white space).
pub open spec fn point_text(raw: Seq<char>) -> Option<Position> {
    match split_once(raw, ',') {
        Some((a, b)) => match (
            parse_signed(trim(a), i16::MIN as int, i16::MAX as int),
            parse_signed(trim(b), i16::MIN as int, i16::MAX as int),
        ) {
            (Some(x), Some(y)) => Some(Position { x: x as i16, y: y as i16 }),
            _ => None,
        },
        None => None,
    }
}

/// The text after `inspect:`, `look:` or `cursor:` (the first that fits).
pub open spec fn inspect_text(t: Seq<char>) -> Option<Seq<char>> {
    match strip_prefix(t, "inspect:"@) {
        Some(r) => Some(r),
        None => match strip_prefix(t, "look:"@) {
            Some(r) => Some(r),
            None => strip_prefix(t, "cursor:"@),
        },
    }
}

/// Commands spelled as a whole word.
pub open spec fn word_command(t: Seq<char>) -> Option<Action> {
    if t == "inventory"@ || t == "items"@ {
        Some(Action::ToggleInventory)
    } else if t == "minimap"@ || t == "map"@ {
        Some(Action::ToggleMinimap)
    } else if t == "help"@ {
        Some(Action::ToggleHelp)
    } else if t == "undo"@ {
        Some(Action::Undo)
    } else if t == "redo"@ {
        Some(Action::Redo)
    } else if t == "save"@ || t == "quicksave"@ {
        Some(Action::Save)
    } else if t == "load"@ || t == "quickload"@ {
        Some(Action::Load)
    } else if t == "record"@ || t == "recording"@ {
        Some(Action::ToggleRecording)
    } else if t == "replay"@ {
        Some(Action::ToggleReplay)
    } else if t == "replay_auto"@ || t == "auto_replay"@ {
        Some(Action::ToggleReplayAuto)
    } else if t == "step_replay"@ || t == "replay_step"@ {
        Some(Action::StepReplay)
    } else if t == "stairs"@ || t == "next_floor"@ {
        Some(Action::NextFloor)
    } else if t == "skill_tree"@ || t == "skilltree"@ || t == "upgrades"@ {
        Some(Action::ToggleSkillTree)
    } else if t == "reroll"@ {
        Some(Action::RerollModifiers)
    } else if t == "prestige"@ || t == "view_prestige"@ {
        Some(Action::ViewPrestige)
    } else if t == "rest"@ {
        Some(Action::Rest)
    } else if t == "bestiary"@ || t == "lore"@ {
        Some(Action::ToggleBestiary)
    } else {
        None
    }
}

/// Camera commands spelled as a whole word.
pub open spec fn camera_command(t: Seq<char>) -> Option<Action> {
    if t == "camera_lock"@ || t == "lock"@ {
        Some(Action::ToggleCameraLock)
    } else if t == "zoom_in"@ || t == "zoomin"@ || t == "+"@ {
        Some(Action::ZoomIn)
    } else if t == "zoom_out"@ || t == "zoomout"@ || t == "-"@ {
        Some(Action::ZoomOut)
    } else {
        None
    }
}

pub open spec fn skill_slot_named(s: Seq<char>) -> Option<SkillSlot> {
    if s == "s1"@ || s == "0"@ {
        Some(SkillSlot::Skill1)
    } else if s == "s2"@ || s == "1"@ {
        Some(SkillSlot::Skill2)
    } else if s == "s3"@ || s == "2"@ {
        Some(SkillSlot::Skill3)
    } else if s == "passive"@ || s == "3"@ {
        Some(SkillSlot::Passive)
    } else {
        None
    }
}

/// `upgrade:<slot>_<tier>`, with slot `s1`, `s2`, `s3` or `passive`, or the
/// slot's number `0` to `3` in that order.
pub open spec fn upgrade_command(t: Seq<char>) -> Option<Action> {
    match strip_prefix(t, "upgrade:"@) {
        Some(u) => match split_once(u, '_') {
            Some((a, b)) => match (parse_unsigned(b, u8::MAX as int), skill_slot_named(a)) {
                (Some(tier), Some(slot)) => Some(Action::UpgradeSkill(slot, tier as u8)),
                _ => None,
            },
            None => None,
        },
        None => None,
    }
}

/// `craft:<n>,<m>` with 1-based item numbers.
pub open spec fn craft_command(t: Seq<char>) -> Option<Action> {
    match strip_prefix(t, "craft:"@) {
        Some(u) => match split_once(u, ',') {
            Some((a, b)) => match (
                parse_unsigned(a, usize::MAX as int),
                parse_unsigned(b, usize::MAX as int),
            ) {
                (Some(i), Some(j)) => Some(Action::CraftItem(one_based(i), one_based(j))),
                _ => None,
            },
            None => None,
        },
        None => None,
    }
}

/// `use:<n>` with a 1-based item number.
pub open spec fn use_command(t: Seq<char>) -> Option<Action> {
    match strip_prefix(t, "use:"@) {
        Some(u) => match parse_unsigned(u, usize::MAX as int) {
            Some(i) => Some(Action::UseItem(one_based(i))),
            None => None,
        },
        None => None,
    }
}

pub open spec fn combo_named(s: Seq<char>) -> Option<ComboSkill> {
    if s == "bladestorm"@ {
        Some(ComboSkill::BladeStorm)
    } else if s == "holysmite"@ {
        Some(ComboSkill::HolySmite)
    } else if s == "arcanesanctuary"@ {
        Some(ComboSkill::ArcaneSanctuary)
    } else if s == "trinitystrike"@ {
        Some(ComboSkill::TrinityStrike)
    } else {
        None
    }
}

pub open spec fn equipment_slot_named(s: Seq<char>) -> Option<EquipmentSlot> {
    if s == "weapon"@ {
        Some(EquipmentSlot::Weapon)
    } else if s == "armor"@ {
        Some(EquipmentSlot::Armor)
    } else if s == "accessory"@ {
        Some(EquipmentSlot::Accessory)
    } else {
        None
    }
}

pub open spec fn direction_named(s: Seq<char>) -> Option<Direction> {
    if s == "n"@ || s == "north"@ || s == "up"@ {
        Some(Direction::North)
    } else if s == "s"@ || s == "south"@ || s == "down"@ {
        Some(Direction::South)
    } else if s == "e"@ || s == "east"@ || s == "right"@ {
        Some(Direction::East)
    } else if s == "w"@ || s == "west"@ || s == "left"@ {
        Some(Direction::West)
    } else {
        None
    }
}

pub open spec fn weather_named(s: Seq<char>) -> Option<WeatherType> {
    if s == "sunny"@ {
        Some(WeatherType::Sunny)
    } else if s == "rainy"@ {
        Some(WeatherType::Rainy)
    } else if s == "lightning"@ || s == "lightningstorm"@ || s == "storm"@ {
        Some(WeatherType::LightningStorm)
    } else if s == "snowing"@ || s == "snow"@ {
        Some(WeatherType::Snowing)
    } else {
        None
    }
}

/// `combo:<name>`, the name read in lowercase.
pub open spec fn combo_command(t: Seq<char>) -> Option<Action> {
    match strip_prefix(t, "combo:"@) {
        Some(u) => match combo_named(lower_text(u)) {
            Some(c) => Some(Action::ComboSkill(c)),
            None => None,
        },
        None => None,
    }
}

/// `equip_upgrade:<slot>`, the slot read in lowercase.
pub open spec fn equip_upgrade_command(t: Seq<char>) -> Option<Action> {
    match strip_prefix(t, "equip_upgrade:"@) {
        Some(u) => match equipment_slot_named(lower_text(u)) {
            Some(s) => Some(Action::UpgradeEquipment(s)),
            None => None,
        },
        None => None,
    }
}

/// `pan:<direction>`, the direction read in lowercase.
pub open spec fn pan_command(t: Seq<char>) -> Option<Action> {
    match strip_prefix(t, "pan:"@) {
        Some(u) => match direction_named(lower_text(u)) {
            Some(d) => Some(Action::PanCamera(d)),
            None => None,
        },
        None => None,
    }
}

/// `weather:<kind>`, the kind read in lowercase.
pub open spec fn weather_command(t: Seq<char>) -> Option<Action> {
    match strip_prefix(t, "weather:"@) {
        Some(u) => match weather_named(lower_text(u)) {
            Some(w) => Some(Action::ChangeWeather(w)),
            None => None,
        },
        None => None,
    }
}

/// The action a command token stands for, trying each form in turn.
pub open spec fn command_action(t: Seq<char>) -> Option<Action> {
    let inspect = match inspect_text(t) {
        Some(r) => point_text(r),
        None => None,
    };
    match inspect {
        Some(p) => Some(Action::Inspect(p)),
        None => either(
            word_command(t),
            either(
                upgrade_command(t),
                either(
                    craft_command(t),
                    either(
                        use_command(t),
                        either(
                            combo_command(t),
                            either(
                                equip_upgrade_command(t),
                                either(
                                    camera_command(t),
                                    either(pan_command(t), weather_command(t)),
                                ),
                            ),
                        ),
                    ),
                ),
            ),
        ),
    }
}

/// The combo skill with the given (lowercase) name.
pub fn combo_from_name(name: &str) -> (r: Option<ComboSkill>)
    ensures
        r == combo_named(name@),
{
    if same_text(name, "bladestorm") {
        Some(ComboSkill::BladeStorm)
    } else if same_text(name, "holysmite") {
        Some(ComboSkill::HolySmite)
    } else if same_text(name, "arcanesanctuary") {
        Some(ComboSkill::ArcaneSanctuary)
    } else if same_text(name, "trinitystrike") {
        Some(ComboSkill::TrinityStrike)
    } else {
        None
    }
}

/// The equipment slot with the given (lowercase) name.
pub fn equipment_slot_from_name(name: &str) -> (r: Option<EquipmentSlot>)
    ensures
        r == equipment_slot_named(name@),
{
    if same_text(name, "weapon") {
        Some(EquipmentSlot::Weapon)
    } else if same_text(name, "armor") {
        Some(EquipmentSlot::Armor)
    } else if same_text(name, "accessory") {
        Some(EquipmentSlot::Accessory)
    } else {
        None
    }
}

/// The panning direction with the given (lowercase) name.
pub fn direction_from_name(name: &str) -> (r: Option<Direction>)
    ensures
        r == direction_named(name@),
{
    if same_text(name, "n") || same_text(name, "north") || same_text(name, "up") {
        Some(Direction::North)
    } else if same_text(name, "s") || same_text(name, "south") || same_text(name, "down") {
        Some(Direction::South)
    } else if same_text(name, "e") || same_text(name, "east") || same_text(name, "right") {
        Some(Direction::East)
    } else if same_text(name, "w") || same_text(name, "west") || same_text(name, "left") {
        Some(Direction::West)
    } else {
        None
    }
}

/// The weather with the given (lowercase) name.
pub fn weather_from_name(name: &str) -> (r: Option<WeatherType>)
    ensures
        r == weather_named(name@),
{
    if same_text(name, "sunny") {
        Some(WeatherType::Sunny)
    } else if same_text(name, "rainy") {
        Some(WeatherType::Rainy)
    } else if same_text(name, "lightning") || same_text(name, "lightningstorm") || same_text(
        name,
        "storm",
    ) {
        Some(WeatherType::LightningStorm)
    } else if same_text(name, "snowing") || same_text(name, "snow") {
        Some(WeatherType::Snowing)
    } else {
        None
    }
}

/// The cell `x,y` written in the range `lo..hi` of `t`.
fn point_in_range(t: &Vec<char>, lo: usize, hi: usize) -> (r: Option<Position>)
    requires
        lo <= hi <= t@.len(),
    ensures
        r == point_text(t@.subrange(lo as int, hi as int)),
{
    let ghost s = t@.subrange(lo as int, hi as int);
    match find_in_range(t, lo, hi, ',') {
        Some(m) => {
            assert(s.take(m - lo) =~= t@.subrange(lo as int, m as int));
            assert(s.skip(m - lo + 1) =~= t@.subrange(m + 1, hi as int));
            let (xa, xb) = trim_range(t, lo, m);
            let (ya, yb) = trim_range(t, m + 1, hi);
            match (parse_i16_range(t, xa, xb), parse_i16_range(t, ya, yb)) {
                (Some(x), Some(y)) => Some(Position::new(x, y)),
                _ => None,
            }
        },
        None => None,
    }
}

/// The length of the prefix `p` when the range `lo..n` of `t` starts with it.
fn prefix_len(t: &Vec<char>, lo: usize, n: usize, p: &str) -> (r: Option<usize>)
    requires
        lo <= n <= t@.len(),
    ensures
        match r {
            Some(k) => lo <= k <= n && k == lo + p@.len() && strip_prefix(
                t@.subrange(lo as int, n as int),
                p@,
            ) == Some(t@.subrange(k as int, n as int)),
            None => strip_prefix(t@.subrange(lo as int, n as int), p@) is None,
        },
{
    if range_starts_with(t, lo, n, p) {
        let k = lo + p.unicode_len();
        assert(t@.subrange(lo as int, n as int).skip(p@.len() as int) =~= t@.subrange(
            k as int,
            n as int,
        ));
        Some(k)
    } else {
        None
    }
}

fn skill_slot_in_range(t: &Vec<char>, lo: usize, hi: usize) -> (r: Option<SkillSlot>)
    requires
        lo <= hi <= t@.len(),
    ensures
        r == skill_slot_named(t@.subrange(lo as int, hi as int)),
{
    if range_is(t, lo, hi, "s1") || range_is(t, lo, hi, "0") {
        Some(SkillSlot::Skill1)
    } else if range_is(t, lo, hi, "s2") || range_is(t, lo, hi, "1") {
        Some(SkillSlot::Skill2)
    } else if range_is(t, lo, hi, "s3") || range_is(t, lo, hi, "2") {
        Some(SkillSlot::Skill3)
    } else if range_is(t, lo, hi, "passive") || range_is(t, lo, hi, "3") {
        Some(SkillSlot::Passive)
    } else {
        None
    }
}

fn one_based_exec(v: u64) -> (r: usize)
    requires
        v <= usize::MAX,
    ensures
        r == one_based(v as int),
{
    if v > 0 {
        (v - 1) as usize
    } else {
        0
    }
}

fn word_command_exec(t: &Vec<char>) -> (r: Option<Action>)
    ensures
        r == word_command(t@),
{
    let n = t.len();
    assert(t@.subrange(0, n as int) =~= t@);
    if range_is(t, 0, n, "inventory") || range_is(t, 0, n, "items") {
        Some(Action::ToggleInventory)
    } else if range_is(t, 0, n, "minimap") || range_is(t, 0, n, "map") {
        Some(Action::ToggleMinimap)
    } else if range_is(t, 0, n, "help") {
        Some(Action::ToggleHelp)
    } else if range_is(t, 0, n, "undo") {
        Some(Action::Undo)
    } else if range_is(t, 0, n, "redo") {
        Some(Action::Redo)
    } else if range_is(t, 0, n, "save") || range_is(t, 0, n, "quicksave") {
        Some(Action::Save)
    } else if range_is(t, 0, n, "load") || range_is(t, 0, n, "quickload") {
        Some(Action::Load)
    } else if range_is(t, 0, n, "record") || range_is(t, 0, n, "recording") {
        Some(Action::ToggleRecording)
    } else if range_is(t, 0, n, "replay") {
        Some(Action::ToggleReplay)
    } else if range_is(t, 0, n, "replay_auto") || range_is(t, 0, n, "auto_replay") {
        Some(Action::ToggleReplayAuto)
    } else if range_is(t, 0, n, "step_replay") || range_is(t, 0, n, "replay_step") {
        Some(Action::StepReplay)
    } else if range_is(t, 0, n, "stairs") || range_is(t, 0, n, "next_floor") {
        Some(Action::NextFloor)
    } else if range_is(t, 0, n, "skill_tree") || range_is(t, 0, n, "skilltree")
        || range_is(t, 0, n, "upgrades") {
        Some(Action::ToggleSkillTree)
    } else if range_is(t, 0, n, "reroll") {
        Some(Action::RerollModifiers)
    } else if range_is(t, 0, n, "prestige") || range_is(t, 0, n, "view_prestige") {
        Some(Action::ViewPrestige)
    } else if range_is(t, 0, n, "rest") {
        Some(Action::Rest)
    } else if range_is(t, 0, n, "bestiary") || range_is(t, 0, n, "lore") {
        Some(Action::ToggleBestiary)
    } else {
        None
    }
}

fn camera_command_exec(t: &Vec<char>) -> (r: Option<Action>)
    ensures
        r == camera_command(t@),
{
    let n = t.len();
    assert(t@.subrange(0, n as int) =~= t@);
    if range_is(t, 0, n, "camera_lock") || range_is(t, 0, n, "lock") {
        Some(Action::ToggleCameraLock)
    } else if range_is(t, 0, n, "zoom_in") || range_is(t, 0, n, "zoomin") || range_is(
        t,
        0,
        n,
        "+",
    ) {
        Some(Action::ZoomIn)
    } else if range_is(t, 0, n, "zoom_out") || range_is(t, 0, n, "zoomout") || range_is(
        t,
        0,
        n,
        "-",
    ) {
        Some(Action::ZoomOut)
    } else {
        None
    }
}

fn upgrade_command_exec(t: &Vec<char>) -> (r: Option<Action>)
    ensures
        r == upgrade_command(t@),
{
    let n = t.len();
    assert(t@.subrange(0, n as int) =~= t@);
    match prefix_len(t, 0, n, "upgrade:") {
        Some(k) => {
            let ghost u = t@.subrange(k as int, n as int);
            match find_in_range(t, k, n, '_') {
                Some(m) => {
                    assert(u.take(m - k) =~= t@.subrange(k as int, m as int));
                    assert(u.skip(m - k + 1) =~= t@.subrange(m + 1, n as int));
                    match (parse_unsigned_range(t, m + 1, n, 255), skill_slot_in_range(t, k, m)) {
                        (Some(tier), Some(slot)) => Some(Action::UpgradeSkill(slot, tier as u8)),
                        _ => None,
                    }
                },
                None => None,
            }
        },
        None => None,
    }
}

fn craft_command_exec(t: &Vec<char>) -> (r: Option<Action>)
    ensures
        r == craft_command(t@),
{
    let n = t.len();
    assert(t@.subrange(0, n as int) =~= t@);
    match prefix_len(t, 0, n, "craft:") {
        Some(k) => {
            let ghost u = t@.subrange(k as int, n as int);
            match find_in_range(t, k, n, ',') {
                Some(m) => {
                    assert(u.take(m - k) =~= t@.subrange(k as int, m as int));
                    assert(u.skip(m - k + 1) =~= t@.subrange(m + 1, n as int));
                    let max: u64 = usize::MAX as u64;
                    match (parse_unsigned_range(t, k, m, max), parse_unsigned_range(t, m + 1, n, max)) {
                        (Some(i), Some(j)) => Some(
                            Action::CraftItem(one_based_exec(i), one_based_exec(j)),
                        ),
                        _ => None,
                    }
                },
                None => None,
            }
        },
        None => None,
    }
}

fn use_command_exec(t: &Vec<char>) -> (r: Option<Action>)
    ensures
        r == use_command(t@),
{
    let n = t.len();
    assert(t@.subrange(0, n as int) =~= t@);
    match prefix_len(t, 0, n, "use:") {
        Some(k) => match parse_unsigned_range(t, k, n, usize::MAX as u64) {
            Some(i) => Some(Action::UseItem(one_based_exec(i))),
            None => None,
        },
        None => None,
    }
}

/// Resolves a command token (as typed by a player, a script or an agent) to
/// the action it stands for, or `None` when it names none.
pub fn resolve_command_token(token: &str) -> (r: Option<Action>)
    ensures
        r == command_action(token@),
{
    let t = chars_of(token);
    let n = t.len();
    assert(t@.subrange(0, n as int) =~= t@);
    let inspect_at = match prefix_len(&t, 0, n, "inspect:") {
        Some(k) => Some(k),
        None => match prefix_len(&t, 0, n, "look:") {
            Some(k) => Some(k),
            None => prefix_len(&t, 0, n, "cursor:"),
        },
    };
    let inspect = match inspect_at {
        Some(k) => point_in_range(&t, k, n),
        None => None,
    };
    if let Some(p) = inspect {
        return Some(Action::Inspect(p));
    }
    if let Some(a) = word_command_exec(&t) {
        return Some(a);
    }
    if let Some(a) = upgrade_command_exec(&t) {
        return Some(a);
    }
    if let Some(a) = craft_command_exec(&t) {
        return Some(a);
    }
    if let Some(a) = use_command_exec(&t) {
        return Some(a);
    }
    if let Some(k) = prefix_len(&t, 0, n, "combo:") {
        let lowered = to_lowercase(token.substring_char(k, n));
        if let Some(c) = combo_from_name(lowered.as_str()) {
            return Some(Action::ComboSkill(c));
        }
    }
    if let Some(k) = prefix_len(&t, 0, n, "equip_upgrade:") {
        let lowered = to_lowercase(token.substring_char(k, n));
        if let Some(s) = equipment_slot_from_name(lowered.as_str()) {
            return Some(Action::UpgradeEquipment(s));
        }
    }
    if let Some(a) = camera_command_exec(&t) {
        return Some(a);
    }
    if let Some(k) = prefix_len(&t, 0, n, "pan:") {
        let lowered = to_lowercase(token.substring_char(k, n));
        if let Some(d) = direction_from_name(lowered.as_str()) {
            return Some(Action::PanCamera(d));
        }
    }
    if let Some(k) = prefix_len(&t, 0, n, "weather:") {
        let lowered = to_lowercase(token.substring_char(k, n));
        if let Some(w) = weather_from_name(lowered.as_str()) {
            return Some(Action::ChangeWeather(w));
        }
    }
    None
}

/// The lines of the command reference, in order.
pub open spec fn help_lines() -> Seq<Seq<char>> {
    seq![
        "n / north       - Move cursor north"@,
        "s / south       - Move cursor south"@,
        "e / east        - Move cursor east"@,
        "w / west        - Move cursor west"@,
        ". / wait        - Wait"@,
        "c / confirm     - Confirm action/selection"@,
        "x / cancel      - Cancel selection/targeting"@,
        "> / next        - Next character"@,
        "< / prev        - Previous character"@,
        "1               - Skill 1"@,
        "2               - Skill 2"@,
        "3               - Skill 3 / QTE Swap"@,
        "end             - End turn"@,
        "inspect:x,y     - Inspect coordinate (x,y)"@,
        "use:N           - Use inventory item N (1-indexed)"@,
        "craft:N,M       - Craft items N and M together"@,
        "inventory       - Toggle inventory"@,
        "minimap         - Toggle minimap"@,
        "stairs / >      - Descend stairs"@,
        "save            - Save game"@,
        "load            - Load game"@,
        "undo            - Undo last action"@,
        "redo            - Redo undone action"@,
        "skilltree       - Toggle skill tree"@,
        "upgrade:slot_t  - Upgrade skill (e.g. upgrade:0_1)"@,
        "bestiary        - Toggle bestiary"@,
        "prestige        - View prestige"@,
        "rest            - Rest to recover"@,
        "weather:type    - Change weather"@,
        "snapshot        - Show current game state (meta)"@,
        "diagnostics     - Show character diagnostics (meta)"@,
        "reset           - Reset game to initial state (meta)"@,
        "quit / q        - Exit (meta)"@,
    ]
}

/// The command reference shown to agents: one line per command token.
pub fn action_help() -> (r: Vec<&'static str>)
    ensures
        r@.map_values(|s: &str| s@) == help_lines(),
{
    let mut r: Vec<&'static str> = Vec::new();
    r.push("n / north       - Move cursor north");
    r.push("s / south       - Move cursor south");
    r.push("e / east        - Move cursor east");
    r.push("w / west        - Move cursor west");
    r.push(". / wait        - Wait");
    r.push("c / confirm     - Confirm action/selection");
    r.push("x / cancel      - Cancel selection/targeting");
    r.push("> / next        - Next character");
    r.push("< / prev        - Previous character");
    r.push("1               - Skill 1");
    r.push("2               - Skill 2");
    r.push("3               - Skill 3 / QTE Swap");
    r.push("end             - End turn");
    r.push("inspect:x,y     - Inspect coordinate (x,y)");
    r.push("use:N           - Use inventory item N (1-indexed)");
    r.push("craft:N,M       - Craft items N and M together");
    r.push("inventory       - Toggle inventory");
    r.push("minimap         - Toggle minimap");
    r.push("stairs / >      - Descend stairs");
    r.push("save            - Save game");
    r.push("load            - Load game");
    r.push("undo            - Undo last action");
    r.push("redo            - Redo undone action");
    r.push("skilltree       - Toggle skill tree");
    r.push("upgrade:slot_t  - Upgrade skill (e.g. upgrade:0_1)");
    r.push("bestiary        - Toggle bestiary");
    r.push("prestige        - View prestige");
    r.push("rest            - Rest to recover");
    r.push("weather:type    - Change weather");
    r.push("snapshot        - Show current game state (meta)");
    r.push("diagnostics     - Show character diagnostics (meta)");
    r.push("reset           - Reset game to initial state (meta)");
    r.push("quit / q        - Exit (meta)");
    assert(r@.map_values(|s: &str| s@) =~= help_lines());
    r
}

} // verus!
