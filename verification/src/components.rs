use vstd::prelude::*;

use crate::geometry::{Entity, Position};
use crate::map::Tile;

verus! {

#[derive(Copy, Clone, Debug, PartialEq, Eq, Structural)]
pub enum Team {
    Player,
    Enemy,
}

#[derive(Copy, Clone, Debug, PartialEq, Eq, Structural)]
pub enum CharacterClass {
    Warrior,
    Mage,
    Healer,
    Rogue,
    Boss,
    ShadowStalker,
    CorruptedSpore,
    CursedSentinel,
    PlagueWraith,
    GlacialGolem,
    EnemyCleric,
    VoidTerror,
    Berserker,
    Tactician,
    Summoner,
    Assassin,
    EliteBerserker,
    EliteTactician,
    EliteSummoner,
    EliteAssassin,
    DestructibleObject,
}

#[derive(Copy, Clone, Debug, PartialEq, Eq, Structural)]
pub struct Stats {
    pub hp: i32,
    pub max_hp: i32,
    pub atk: i32,
    pub def: i32,
    pub spd: i32,
    pub ap: i32,
    pub max_ap: i32,
    pub level: u32,
    pub xp: u32,
}

#[derive(Copy, Clone, Debug, PartialEq, Eq, Structural)]
pub enum Outcome {
    Playing,
    Victory,
    Defeat,
    Quit,
}

#[derive(Copy, Clone, Debug, PartialEq, Eq, Structural)]
pub enum TargetingMode {
    Inactive,
    Skill1,
    Skill2,
    Skill3,
}

#[derive(Copy, Clone, Debug, PartialEq, Eq, Structural)]
pub enum BossPhase {
    Phase1,
    Phase2,
}

#[derive(Copy, Clone, Debug, PartialEq, Eq, Structural)]
pub struct BossConfig {
    pub phase2_hp_threshold: i32,
    pub phase2_max_hp: i32,
    pub phase2_atk_bonus: i32,
    pub phase2_def_bonus: i32,
    pub phase2_spd_bonus: i32,
    pub phase2_max_ap: i32,
    pub telegraph_damage_phase1: i32,
    pub telegraph_damage_phase2: i32,
    pub telegraph_rate_phase1: u32,
    pub telegraph_rate_phase2: u32,
    /// Shield amount applied to the boss on entering phase 2.
    pub phase2_shield_amount: i32,
    /// Shield type applied to the boss on entering phase 2.
    pub phase2_shield_type: ShieldType,
}

impl Default for BossConfig {
    fn default() -> (r: Self)
        ensures
            r.phase2_hp_threshold == 250,
            r.phase2_max_hp == 500,
            r.phase2_atk_bonus == 10,
            r.phase2_def_bonus == 5,
            r.phase2_spd_bonus == 2,
            r.phase2_max_ap == 7,
            r.telegraph_damage_phase1 == 50,
            r.telegraph_damage_phase2 == 80,
            r.telegraph_rate_phase1 == 40,
            r.telegraph_rate_phase2 == 60,
            r.phase2_shield_amount == 100,
            r.phase2_shield_type == ShieldType::Physical,
    {
        BossConfig {
            phase2_hp_threshold: 250,
            phase2_max_hp: 500,
            phase2_atk_bonus: 10,
            phase2_def_bonus: 5,
            phase2_spd_bonus: 2,
            phase2_max_ap: 7,
            telegraph_damage_phase1: 50,
            telegraph_damage_phase2: 80,
            telegraph_rate_phase1: 40,
            telegraph_rate_phase2: 60,
            phase2_shield_amount: 100,
            phase2_shield_type: ShieldType::Physical,
        }
    }
}

#[derive(Copy, Clone, Debug, PartialEq, Eq, Structural)]
pub enum UIState {
    Normal,
    Inventory,
    Help,
    Bestiary,
}

#[derive(Clone, Debug)]
pub struct BestiaryEntry {
    pub class: CharacterClass,
    pub name: String,
    pub encountered: bool,
    pub defeated_count: u32,
    pub times_killed_by: u32,
    pub hits_taken: u32,
    pub known_weakness: Option<String>,
    pub known_resistance: Option<String>,
    pub lore_text: String,
    pub drop_table: Vec<String>,
}

#[derive(Clone, Debug, Default)]
pub struct Bestiary {
    pub entries: Vec<BestiaryEntry>,
}

#[derive(Clone, Debug)]
pub struct LoreEntry {
    pub id: String,
    pub title: String,
    pub text: String,
    pub category: LoreCategory,
    pub discovered: bool,
    pub turn_discovered: u32,
}

#[derive(Copy, Clone, Debug, PartialEq, Eq, Structural)]
pub enum LoreCategory {
    World,
    Character,
    Enemy,
    Item,
    Mechanic,
}

#[derive(Clone, Debug, Default)]
pub struct LoreJournal {
    pub entries: Vec<LoreEntry>,
}

#[derive(Copy, Clone, Debug, PartialEq, Eq, Structural)]
pub struct GameState {
    pub turn: u32,
    pub phase: TurnPhase,
    pub outcome: Outcome,
    pub cursor: Position,
    pub selected_entity: Option<Entity>,
    pub concert_energy: u32,
    pub targeting: TargetingMode,
    pub boss_phase: BossPhase,
    pub ui_state: UIState,
    pub show_perf: bool,
    pub auto_battle: bool,
    pub is_recording: bool,
    pub show_minimap: bool,
    pub combo_count: u32,
    pub floor: u32,
    pub log_scroll_offset: u32,
    pub selected_save_slot: u32,
    pub show_threat_map: bool,
}

/// The floor a saved game starts on when its save does not name one.
pub fn default_floor() -> (f: u32)
    ensures
        f == 1,
{
    1
}

/// The value a saved flag takes when its save does not name it.
pub fn default_true() -> (b: bool)
    ensures
        b,
{
    true
}

#[derive(Copy, Clone, Debug, PartialEq, Eq, Structural)]
pub enum TurnPhase {
    Player,
    Enemy,
}

#[derive(Clone, Debug, Default)]
pub struct TelegraphZone {
    pub tiles: Vec<Position>,
    pub damage: i32,
}

#[derive(Copy, Clone, Debug, PartialEq, Eq, Structural)]
pub enum ElementalStatus {
    Normal,
    Ice { duration: u32 },
    Lightning { duration: u32 },
    Nature { duration: u32 },
    Poison { duration: u32 },
    Regen { duration: u32 },
}

#[derive(Copy, Clone, Debug, PartialEq, Eq, Structural)]
pub struct Rooted {
    pub duration: u32,
}

#[derive(Copy, Clone, Debug, PartialEq, Eq, Structural)]
pub struct EchoItem {
    pub class: CharacterClass,
}

#[derive(Copy, Clone, Debug, PartialEq, Eq, Structural)]
pub enum EchoAbility {
    /// +1 max AP.
    Swift,
    /// Reflects damage.
    Thorns,
    /// Chance to apply Ice.
    Frostbite,
    /// Chance to stun the target.
    Stun,
    /// Heals for a share of damage dealt.
    Lifesteal,
}

#[derive(Copy, Clone, Debug, PartialEq, Eq, Structural)]
pub struct Stunned {
    pub duration: u32,
}

#[derive(Clone, Debug, Default)]
pub struct EquippedEchoes {
    pub abilities: Vec<EchoAbility>,
}

#[derive(Clone, Debug, PartialEq, Eq)]
pub enum GameEvent {
    Moved { entity: Entity, from: Position, to: Position },
    Attacked { attacker: Entity, target: Entity, damage: i32 },
    Healed { healer: Entity, target: Entity, amount: i32 },
    Defeated { entity: Entity },
    PhaseChanged(TurnPhase),
    TurnEnded,
    ApReplenished,
    ElementalApplied { entity: Entity, status: ElementalStatus },
    ReactionTriggered { entity: Entity, reaction: String, damage: i32, healing: i32 },
}

#[derive(Copy, Clone, Debug, PartialEq, Eq, Structural)]
pub enum ItemEffect {
    Heal(i32),
    ReplenishAp(i32),
    Cleanse,
    RestoreShield(ShieldType, i32),
    /// Heal amount, then AP amount.
    Combined(i32, i32),
    /// Cleanse, then heal by the amount.
    CleanseAndHeal(i32),
    /// Raises the level of a piece of equipment.
    UpgradeKit,
}

#[derive(Clone, Debug)]
pub struct Item {
    pub name: String,
    pub effect: ItemEffect,
    pub consumed: bool,
}

#[derive(Copy, Clone, Debug, Default, PartialEq, Eq, Structural)]
pub struct TurnTransition {
    pub request_end: bool,
}

#[derive(Clone, Debug, Default)]
pub struct Inventory {
    pub items: Vec<Entity>,
}

#[derive(Copy, Clone, Debug, PartialEq, Eq, Structural)]
pub enum ShieldType {
    Ice,
    Lightning,
    Nature,
    Physical,
}

#[derive(Copy, Clone, Debug, PartialEq, Eq, Structural)]
pub struct ElementalShield {
    pub shield_type: ShieldType,
    pub amount: i32,
    pub max_amount: i32,
}

#[derive(Copy, Clone, Debug, Default, PartialEq, Eq, Structural)]
pub struct BattleStats {
    pub total_damage_dealt: i32,
    pub total_damage_taken: i32,
    pub total_healing_done: i32,
    pub total_turns: u32,
    pub total_kills: u32,
    pub max_combo_reached: u32,
    pub total_swaps: u32,
}

#[derive(Clone, Debug, Default)]
pub struct UndoStack {
    pub states: Vec<String>,
}

#[derive(Clone, Debug, Default)]
pub struct RedoStack {
    pub states: Vec<String>,
}

#[derive(Copy, Clone, Debug, PartialEq, Eq, Structural)]
pub enum HazardType {
    SpikeTrap,
    PoisonCloud,
    HealingSpring,
    CrackedFloor,
    PressurePlate,
    ThornBush,
    FireTile,
    IceTile,
}

#[derive(Copy, Clone, Debug, PartialEq, Eq, Structural)]
pub struct HazardEffect {
    pub hazard_type: HazardType,
    pub damage: i32,
    pub healing: i32,
    pub status: Option<ElementalStatus>,
    pub duration: u32,
    /// Triggers left: a positive count, or -1 for a hazard that never wears out.
    pub trigger_count: i32,
}

#[derive(Clone, Debug, Default)]
pub struct ActiveHazards {
    pub hazards: Vec<(Position, HazardEffect)>,
}

#[derive(Copy, Clone, Debug, PartialEq, Eq, Structural)]
pub struct Destructible {
    pub hp: i32,
    pub max_hp: i32,
    pub destroyed: bool,
    pub replacement_tile: Tile,
}

#[derive(Copy, Clone, Debug, PartialEq, Eq, Structural)]
pub enum HeroTrait {
    /// Starts the turn with 3 AP instead of 2.
    SwiftFoot,
    /// Lightning reactions deal +10 damage.
    StormChaser,
    /// Chance to cleanse negative statuses when healing.
    PurifyingTouch,
    /// Prevents sliding on ice.
    IceWalker,
}

#[derive(Copy, Clone, Debug, PartialEq, Eq, Structural)]
pub struct CharacterTrait {
    pub trait_type: HeroTrait,
}

#[derive(Copy, Clone, Debug, Default, PartialEq, Eq, Hash, Structural)]
pub enum WeatherType {
    #[default]
    Sunny,
    Rainy,
    Snowing,
    LightningStorm,
}

#[derive(Clone, Debug, PartialEq, Eq)]
pub struct Weather {
    pub current: WeatherType,
    pub danger_zones: Vec<Position>,
}

impl Default for Weather {
    fn default() -> (w: Self)
        ensures
            w.current == WeatherType::Sunny,
            w.danger_zones@.len() == 0,
    {
        Weather { current: WeatherType::Sunny, danger_zones: Vec::new() }
    }
}

#[derive(Copy, Clone, Debug, Default, PartialEq, Eq, Structural)]
pub struct Threat {
    pub value: i32,
}

#[derive(Copy, Clone, Debug, PartialEq, Eq, Structural)]
pub enum AIArchetype {
    Chaser,
    Cleric,
    Coward,
    Berserker,
    Tactician,
    Summoner,
    Assassin,
    Defender,
}

#[derive(Copy, Clone, Debug, PartialEq, Eq, Structural)]
pub struct AIBehavior {
    pub archetype: AIArchetype,
    pub aggression: i32,
    pub caution: i32,
    pub coordination: i32,
    pub last_action: Option<AIAction>,
    pub target_priority: Option<Entity>,
}

/// The (aggression, caution, coordination) temperament of each archetype.
pub open spec fn archetype_temperament(a: AIArchetype) -> (int, int, int) {
    match a {
        AIArchetype::Chaser => (80, 20, 40),
        AIArchetype::Cleric => (40, 60, 80),
        AIArchetype::Coward => (20, 90, 30),
        AIArchetype::Berserker => (95, 5, 10),
        AIArchetype::Tactician => (70, 40, 85),
        AIArchetype::Summoner => (50, 30, 70),
        AIArchetype::Assassin => (85, 15, 50),
        AIArchetype::Defender => (30, 70, 60),
    }
}

impl AIBehavior {
    pub fn new(archetype: AIArchetype) -> (b: Self)
        ensures
            b.archetype == archetype,
            (b.aggression as int, b.caution as int, b.coordination as int)
                == archetype_temperament(archetype),
            b.last_action.is_none(),
            b.target_priority.is_none(),
    {
        let (aggression, caution, coordination): (i32, i32, i32) = match archetype {
            AIArchetype::Chaser => (80, 20, 40),
            AIArchetype::Cleric => (40, 60, 80),
            AIArchetype::Coward => (20, 90, 30),
            AIArchetype::Berserker => (95, 5, 10),
            AIArchetype::Tactician => (70, 40, 85),
            AIArchetype::Summoner => (50, 30, 70),
            AIArchetype::Assassin => (85, 15, 50),
            AIArchetype::Defender => (30, 70, 60),
        };
        AIBehavior {
            archetype,
            aggression,
            caution,
            coordination,
            last_action: None,
            target_priority: None,
        }
    }
}

#[derive(Copy, Clone, Debug, PartialEq, Eq, Structural)]
pub enum AIAction {
    Attack(Entity),
    MoveTo(Position),
    Retreat,
    Defend,
    HealAlly(Entity),
    UseCover,
    FlankAttack(Entity, Position),
}

#[derive(Clone, Debug, Default)]
pub struct TacticalAssessment {
    pub threat_map: Vec<(Position, i32)>,
    pub cover_positions: Vec<Position>,
    pub flank_positions: Vec<Position>,
    pub safe_positions: Vec<Position>,
}

#[derive(Copy, Clone, Debug, PartialEq, Eq, Hash, Structural)]
pub enum EquipmentSlot {
    Weapon,
    Armor,
    Accessory,
}

#[derive(Copy, Clone, Debug, PartialEq, Eq, Structural)]
pub enum Element {
    Ice,
    Lightning,
    Nature,
    Physical,
}

#[derive(Copy, Clone, Debug, PartialEq, Eq, Structural)]
pub enum EquipmentSpecial {
    LifestealPercent(u32),
    CritBoost(u32),
    ElementalDamage(Element, i32),
    HpRegen(i32),
}

/// The three equipment sets that award a bonus when worn together.
#[derive(Copy, Clone, Debug, PartialEq, Eq, Hash, Structural)]
pub enum EquipmentSet {
    ShadowKnight,
    ArcaneWeaver,
    DivineGuardian,
}

/// Stat multipliers of a set, as percentages (100 is a factor of one):
/// (attack, defense, hp, speed).
pub open spec fn set_multipliers(s: EquipmentSet) -> (int, int, int, int) {
    match s {
        EquipmentSet::ShadowKnight => (115, 105, 100, 100),
        EquipmentSet::ArcaneWeaver => (110, 100, 100, 110),
        EquipmentSet::DivineGuardian => (100, 115, 110, 100),
    }
}

pub open spec fn set_display_name(s: EquipmentSet) -> Seq<char> {
    match s {
        EquipmentSet::ShadowKnight => "Shadow Knight"@,
        EquipmentSet::ArcaneWeaver => "Arcane Weaver"@,
        EquipmentSet::DivineGuardian => "Divine Guardian"@,
    }
}

/// The names of the two pieces that make up a set: weapon first, then armor.
pub open spec fn set_required_names(s: EquipmentSet) -> (Seq<char>, Seq<char>) {
    match s {
        EquipmentSet::ShadowKnight => ("DarkBlade"@, "ShadowArmor"@),
        EquipmentSet::ArcaneWeaver => ("ArcaneStaff"@, "ArcaneRobe"@),
        EquipmentSet::DivineGuardian => ("DivineStaff"@, "DivineVestments"@),
    }
}

impl EquipmentSet {
    pub fn display_name(&self) -> (r: &'static str)
        ensures
            r@ == set_display_name(*self),
    {
        match self {
            EquipmentSet::ShadowKnight => "Shadow Knight",
            EquipmentSet::ArcaneWeaver => "Arcane Weaver",
            EquipmentSet::DivineGuardian => "Divine Guardian",
        }
    }

    /// The names of the pieces that must all be worn for the set bonus.
    pub fn required_items(&self) -> (r: Vec<&'static str>)
        ensures
            r@.len() == 2,
            r@[0]@ == set_required_names(*self).0,
            r@[1]@ == set_required_names(*self).1,
    {
        match self {
            EquipmentSet::ShadowKnight => vec!["DarkBlade", "ShadowArmor"],
            EquipmentSet::ArcaneWeaver => vec!["ArcaneStaff", "ArcaneRobe"],
            EquipmentSet::DivineGuardian => vec!["DivineStaff", "DivineVestments"],
        }
    }

    pub fn atk_multiplier(&self) -> (r: u32)
        ensures
            r == set_multipliers(*self).0,
    {
        match self {
            EquipmentSet::ShadowKnight => 115,
            EquipmentSet::ArcaneWeaver => 110,
            EquipmentSet::DivineGuardian => 100,
        }
    }

    pub fn def_multiplier(&self) -> (r: u32)
        ensures
            r == set_multipliers(*self).1,
    {
        match self {
            EquipmentSet::ShadowKnight => 105,
            EquipmentSet::ArcaneWeaver => 100,
            EquipmentSet::DivineGuardian => 115,
        }
    }

    pub fn hp_multiplier(&self) -> (r: u32)
        ensures
            r == set_multipliers(*self).2,
    {
        match self {
            EquipmentSet::ShadowKnight => 100,
            EquipmentSet::ArcaneWeaver => 100,
            EquipmentSet::DivineGuardian => 110,
        }
    }

    pub fn spd_multiplier(&self) -> (r: u32)
        ensures
            r == set_multipliers(*self).3,
    {
        match self {
            EquipmentSet::ShadowKnight => 100,
            EquipmentSet::ArcaneWeaver => 110,
            EquipmentSet::DivineGuardian => 100,
        }
    }
}

/// The bonus of the complete sets worn at once. Multipliers are percentages
/// (100 is a factor of one).
#[derive(Clone, Debug)]
pub struct SetBonusStats {
    pub atk_multiplier: u32,
    pub def_multiplier: u32,
    pub hp_multiplier: u32,
    pub spd_multiplier: u32,
    pub active_sets: Vec<EquipmentSet>,
}

impl Default for SetBonusStats {
    fn default() -> (r: Self)
        ensures
            r.atk_multiplier == 100,
            r.def_multiplier == 100,
            r.hp_multiplier == 100,
            r.spd_multiplier == 100,
            r.active_sets@.len() == 0,
    {
        SetBonusStats {
            atk_multiplier: 100,
            def_multiplier: 100,
            hp_multiplier: 100,
            spd_multiplier: 100,
            active_sets: Vec::new(),
        }
    }
}

#[derive(Clone, Debug)]
pub struct Equipment {
    pub name: String,
    pub slot: EquipmentSlot,
    pub atk_bonus: i32,
    pub def_bonus: i32,
    pub hp_bonus: i32,
    pub spd_bonus: i32,
    pub special: Option<EquipmentSpecial>,
    pub upgrade_level: u8,
    pub set_id: Option<EquipmentSet>,
    pub base_atk: i32,
    pub base_def: i32,
    pub base_hp: i32,
    pub base_spd: i32,
}

#[derive(Clone, Debug)]
pub struct EquippedItems {
    pub weapon: Option<Equipment>,
    pub armor: Option<Equipment>,
    pub accessory: Option<Equipment>,
}

impl Default for EquippedItems {
    fn default() -> (r: Self)
        ensures
            r.weapon.is_none(),
            r.armor.is_none(),
            r.accessory.is_none(),
    {
        EquippedItems { weapon: None, armor: None, accessory: None }
    }
}

/// Which stat of a piece of equipment a sum is about.
pub enum StatKind {
    Atk,
    Def,
    Hp,
    Spd,
}

pub open spec fn stat_of(e: Equipment, k: StatKind) -> int {
    match k {
        StatKind::Atk => e.atk_bonus as int,
        StatKind::Def => e.def_bonus as int,
        StatKind::Hp => e.hp_bonus as int,
        StatKind::Spd => e.spd_bonus as int,
    }
}

/// The bonus an optional slot contributes: nothing when empty.
pub open spec fn slot_stat(o: Option<Equipment>, k: StatKind) -> int {
    match o {
        Some(e) => stat_of(e, k),
        None => 0,
    }
}

/// Sum of one stat bonus over the three slots.
pub open spec fn total_stat(eq: EquippedItems, k: StatKind) -> int {
    slot_stat(eq.weapon, k) + slot_stat(eq.armor, k) + slot_stat(eq.accessory, k)
}

pub open spec fn slot_lifesteal(o: Option<Equipment>) -> int {
    match o {
        Some(e) => match e.special {
            Some(EquipmentSpecial::LifestealPercent(p)) => p as int,
            _ => 0,
        },
        None => 0,
    }
}

pub open spec fn slot_regen(o: Option<Equipment>) -> int {
    match o {
        Some(e) => match e.special {
            Some(EquipmentSpecial::HpRegen(h)) => h as int,
            _ => 0,
        },
        None => 0,
    }
}

pub open spec fn total_lifesteal(eq: EquippedItems) -> int {
    slot_lifesteal(eq.weapon) + slot_lifesteal(eq.armor) + slot_lifesteal(eq.accessory)
}

pub open spec fn total_regen(eq: EquippedItems) -> int {
    slot_regen(eq.weapon) + slot_regen(eq.armor) + slot_regen(eq.accessory)
}

/// The content of a slot.
pub open spec fn slot_content(eq: EquippedItems, slot: EquipmentSlot) -> Option<Equipment> {
    match slot {
        EquipmentSlot::Weapon => eq.weapon,
        EquipmentSlot::Armor => eq.armor,
        EquipmentSlot::Accessory => eq.accessory,
    }
}

/// `eq` with the content of `slot` replaced by `o`.
pub open spec fn with_slot(
    eq: EquippedItems,
    slot: EquipmentSlot,
    o: Option<Equipment>,
) -> EquippedItems {
    match slot {
        EquipmentSlot::Weapon => EquippedItems { weapon: o, ..eq },
        EquipmentSlot::Armor => EquippedItems { armor: o, ..eq },
        EquipmentSlot::Accessory => EquippedItems { accessory: o, ..eq },
    }
}

fn slot_atk(o: &Option<Equipment>) -> (r: i32)
    ensures
        r == slot_stat(*o, StatKind::Atk),
{
    match o {
        Some(e) => e.atk_bonus,
        None => 0,
    }
}

fn slot_def(o: &Option<Equipment>) -> (r: i32)
    ensures
        r == slot_stat(*o, StatKind::Def),
{
    match o {
        Some(e) => e.def_bonus,
        None => 0,
    }
}

fn slot_hp(o: &Option<Equipment>) -> (r: i32)
    ensures
        r == slot_stat(*o, StatKind::Hp),
{
    match o {
        Some(e) => e.hp_bonus,
        None => 0,
    }
}

fn slot_spd(o: &Option<Equipment>) -> (r: i32)
    ensures
        r == slot_stat(*o, StatKind::Spd),
{
    match o {
        Some(e) => e.spd_bonus,
        None => 0,
    }
}

impl EquippedItems {
    pub fn total_atk_bonus(&self) -> (r: i32)
        requires
            i32::MIN <= total_stat(*self, StatKind::Atk) <= i32::MAX,
            i32::MIN <= slot_stat(self.weapon, StatKind::Atk) + slot_stat(self.armor, StatKind::Atk)
                <= i32::MAX,
        ensures
            r == total_stat(*self, StatKind::Atk),
    {
        slot_atk(&self.weapon) + slot_atk(&self.armor) + slot_atk(&self.accessory)
    }

    pub fn total_def_bonus(&self) -> (r: i32)
        requires
            i32::MIN <= total_stat(*self, StatKind::Def) <= i32::MAX,
            i32::MIN <= slot_stat(self.weapon, StatKind::Def) + slot_stat(self.armor, StatKind::Def)
                <= i32::MAX,
        ensures
            r == total_stat(*self, StatKind::Def),
    {
        slot_def(&self.weapon) + slot_def(&self.armor) + slot_def(&self.accessory)
    }

    pub fn total_hp_bonus(&self) -> (r: i32)
        requires
            i32::MIN <= total_stat(*self, StatKind::Hp) <= i32::MAX,
            i32::MIN <= slot_stat(self.weapon, StatKind::Hp) + slot_stat(self.armor, StatKind::Hp)
                <= i32::MAX,
        ensures
            r == total_stat(*self, StatKind::Hp),
    {
        slot_hp(&self.weapon) + slot_hp(&self.armor) + slot_hp(&self.accessory)
    }

    pub fn total_spd_bonus(&self) -> (r: i32)
        requires
            i32::MIN <= total_stat(*self, StatKind::Spd) <= i32::MAX,
            i32::MIN <= slot_stat(self.weapon, StatKind::Spd) + slot_stat(self.armor, StatKind::Spd)
                <= i32::MAX,
        ensures
            r == total_stat(*self, StatKind::Spd),
    {
        slot_spd(&self.weapon) + slot_spd(&self.armor) + slot_spd(&self.accessory)
    }

    /// Sum of the lifesteal percentages that the worn pieces grant.
    pub fn total_lifesteal_percent(&self) -> (r: u32)
        requires
            total_lifesteal(*self) <= u32::MAX,
        ensures
            r == total_lifesteal(*self),
    {
        let mut total: u32 = 0;
        if let Some(e) = &self.weapon {
            if let Some(EquipmentSpecial::LifestealPercent(p)) = e.special {
                total = total + p;
            }
        }
        if let Some(e) = &self.armor {
            if let Some(EquipmentSpecial::LifestealPercent(p)) = e.special {
                total = total + p;
            }
        }
        if let Some(e) = &self.accessory {
            if let Some(EquipmentSpecial::LifestealPercent(p)) = e.special {
                total = total + p;
            }
        }
        total
    }

    /// Sum of the per-turn HP regeneration that the worn pieces grant.
    pub fn total_hp_regen(&self) -> (r: i32)
        requires
            i32::MIN <= total_regen(*self) <= i32::MAX,
            i32::MIN <= slot_regen(self.weapon) + slot_regen(self.armor) <= i32::MAX,
        ensures
            r == total_regen(*self),
    {
        let mut total: i32 = 0;
        if let Some(e) = &self.weapon {
            if let Some(EquipmentSpecial::HpRegen(h)) = e.special {
                total = total + h;
            }
        }
        if let Some(e) = &self.armor {
            if let Some(EquipmentSpecial::HpRegen(h)) = e.special {
                total = total + h;
            }
        }
        if let Some(e) = &self.accessory {
            if let Some(EquipmentSpecial::HpRegen(h)) = e.special {
                total = total + h;
            }
        }
        total
    }

    /// Puts `item` in the slot it is made for and hands back what that slot held.
    pub fn equip(&mut self, item: Equipment) -> (prev: Option<Equipment>)
        ensures
            prev == slot_content(*old(self), item.slot),
            *final(self) == with_slot(*old(self), item.slot, Some(item)),
    {
        match item.slot {
            EquipmentSlot::Weapon => {
                let prev = self.weapon.take();
                self.weapon = Some(item);
                prev
            },
            EquipmentSlot::Armor => {
                let prev = self.armor.take();
                self.armor = Some(item);
                prev
            },
            EquipmentSlot::Accessory => {
                let prev = self.accessory.take();
                self.accessory = Some(item);
                prev
            },
        }
    }

    /// Empties `slot` and hands back what it held.
    pub fn unequip(&mut self, slot: EquipmentSlot) -> (prev: Option<Equipment>)
        ensures
            prev == slot_content(*old(self), slot),
            *final(self) == with_slot(*old(self), slot, None),
    {
        match slot {
            EquipmentSlot::Weapon => self.weapon.take(),
            EquipmentSlot::Armor => self.armor.take(),
            EquipmentSlot::Accessory => self.accessory.take(),
        }
    }
}

/// Equipping an item and then emptying its slot hands the item back and leaves
/// the equipment as it was with that slot emptied.
pub proof fn lemma_equip_then_unequip(eq: EquippedItems, item: Equipment)
    ensures
        slot_content(with_slot(eq, item.slot, Some(item)), item.slot) == Some(item),
        with_slot(with_slot(eq, item.slot, Some(item)), item.slot, None) == with_slot(
            eq,
            item.slot,
            None,
        ),
{
}

/// Equipping an item leaves every other slot as it was.
pub proof fn lemma_equip_keeps_other_slots(eq: EquippedItems, item: Equipment, other: EquipmentSlot)
    requires
        other != item.slot,
    ensures
        slot_content(with_slot(eq, item.slot, Some(item)), other) == slot_content(eq, other),
{
}

/// Equipping an item replaces, in every stat total, the contribution of what
/// the slot held by that of the item.
pub proof fn lemma_equip_totals(eq: EquippedItems, item: Equipment, k: StatKind)
    ensures
        total_stat(with_slot(eq, item.slot, Some(item)), k) == total_stat(eq, k) - slot_stat(
            slot_content(eq, item.slot),
            k,
        ) + stat_of(item, k),
{
}

/// Emptying a slot removes its contribution from every stat total.
pub proof fn lemma_unequip_totals(eq: EquippedItems, slot: EquipmentSlot, k: StatKind)
    ensures
        total_stat(with_slot(eq, slot, None), k) == total_stat(eq, k) - slot_stat(
            slot_content(eq, slot),
            k,
        ),
{
}

#[derive(Clone, Debug, Default, PartialEq)]
pub struct DamagePreview {
    pub min_damage: i32,
    pub max_damage: i32,
    pub expected_damage: i32,
    pub hit_chance: u32,
    pub crit_chance: u32,
    pub element: Option<String>,
    pub can_kill: bool,
}

#[derive(Clone, Debug, Default)]
pub struct AoEPreview {
    pub center: Option<Position>,
    pub affected_tiles: Vec<Position>,
    pub affected_enemies: Vec<Entity>,
    pub affected_allies: Vec<Entity>,
    pub total_potential_damage: i32,
}

/// One line of the turn order. The remaining health is kept as `hp` out of
/// `max_hp`; displays derive their ratio from these.
#[derive(Clone, Debug)]
pub struct TurnOrderEntry {
    pub entity: Entity,
    pub name: String,
    pub team: Team,
    pub spd: i32,
    pub is_current: bool,
    pub hp: i32,
    pub max_hp: i32,
}

#[derive(Clone, Debug, Default)]
pub struct TurnOrderDisplay {
    pub entries: Vec<TurnOrderEntry>,
    pub current_index: usize,
}

#[derive(Clone, Debug)]
pub struct EnemyIntent {
    pub entity: Entity,
    pub intent_type: IntentType,
    pub target: Option<Position>,
    pub predicted_damage: i32,
    pub description: String,
}

#[derive(Copy, Clone, Debug, PartialEq, Eq, Structural)]
pub enum IntentType {
    Attack,
    Defend,
    Heal,
    Move,
    AoEAttack,
    Buff,
    Summon,
    Unknown,
}

#[derive(Clone, Debug, Default)]
pub struct EnemyIntentions {
    pub intents: Vec<EnemyIntent>,
}

#[derive(Copy, Clone, Debug, PartialEq, Eq, Hash, Structural)]
pub enum SkillSlot {
    Skill1,
    Skill2,
    Skill3,
    Passive,
}

#[derive(Copy, Clone, Debug, PartialEq, Eq, Structural)]
pub enum UpgradeEffect {
    DamageBoost(i32),
    CooldownReduction(u32),
    RangeBoost(i32),
    AoEBonus(i32),
    StatusChance(u32),
    HealBoost(i32),
    Lifesteal(u32),
    ExtraHit(u32),
    PierceResist(i32),
    Passive { atk: i32, def: i32, hp: i32, spd: i32 },
}

#[derive(Clone, Debug)]
pub struct SkillUpgrade {
    pub skill_slot: SkillSlot,
    pub upgrade_id: String,
    pub name: String,
    pub description: String,
    pub tier: u32,
    pub cost: u32,
    pub unlocked: bool,
    pub effect: UpgradeEffect,
    pub prerequisites: Vec<String>,
}

#[derive(Clone, Debug)]
pub struct SkillTree {
    pub skill_points: u32,
    pub upgrades: Vec<SkillUpgrade>,
}

#[derive(Copy, Clone, Debug, PartialEq, Eq, Structural)]
pub enum FloorModifier {
    Darkness,
    GravityWell,
    ElementalStorm,
    HealingSurge,
    Frenzy,
    FogOfWar,
    Reversal,
}

/// Every floor modifier, in declaration order.
pub open spec fn all_floor_modifiers() -> Seq<FloorModifier> {
    seq![
        FloorModifier::Darkness,
        FloorModifier::GravityWell,
        FloorModifier::ElementalStorm,
        FloorModifier::HealingSurge,
        FloorModifier::Frenzy,
        FloorModifier::FogOfWar,
        FloorModifier::Reversal,
    ]
}

pub open spec fn floor_modifier_name(m: FloorModifier) -> Seq<char> {
    match m {
        FloorModifier::Darkness => "Darkness"@,
        FloorModifier::GravityWell => "Gravity Well"@,
        FloorModifier::ElementalStorm => "Elemental Storm"@,
        FloorModifier::HealingSurge => "Healing Surge"@,
        FloorModifier::Frenzy => "Frenzy"@,
        FloorModifier::FogOfWar => "Fog of War"@,
        FloorModifier::Reversal => "Reversal"@,
    }
}

impl FloorModifier {
    pub fn all() -> (r: Vec<FloorModifier>)
        ensures
            r@ == all_floor_modifiers(),
    {
        let r = vec![
            FloorModifier::Darkness,
            FloorModifier::GravityWell,
            FloorModifier::ElementalStorm,
            FloorModifier::HealingSurge,
            FloorModifier::Frenzy,
            FloorModifier::FogOfWar,
            FloorModifier::Reversal,
        ];
        assert(r@ =~= all_floor_modifiers());
        r
    }

    pub fn display_name(&self) -> (r: &'static str)
        ensures
            r@ == floor_modifier_name(*self),
    {
        match self {
            FloorModifier::Darkness => "Darkness",
            FloorModifier::GravityWell => "Gravity Well",
            FloorModifier::ElementalStorm => "Elemental Storm",
            FloorModifier::HealingSurge => "Healing Surge",
            FloorModifier::Frenzy => "Frenzy",
            FloorModifier::FogOfWar => "Fog of War",
            FloorModifier::Reversal => "Reversal",
        }
    }
}

#[derive(Clone, Debug, Default)]
pub struct ActiveFloorModifiers {
    pub modifiers: Vec<FloorModifier>,
    pub turns_remaining: Vec<u32>,
}

#[derive(Copy, Clone, Debug, PartialEq, Eq, Hash, Structural)]
pub enum ComboSkill {
    BladeStorm,
    HolySmite,
    ArcaneSanctuary,
    TrinityStrike,
}

#[derive(Clone, Debug)]
pub struct ComboSkillDef {
    pub skill: ComboSkill,
    pub name: String,
    pub description: String,
    pub ap_cost: i32,
    pub base_damage: i32,
    pub base_healing: i32,
    pub range: i32,
}

/// Name, description, AP cost, base healing and range of each combo skill.
/// No combo skill has a base damage of its own.
pub open spec fn combo_table(s: ComboSkill) -> (Seq<char>, Seq<char>, int, int, int) {
    match s {
        ComboSkill::BladeStorm => (
            "Blade Storm"@,
            "Warrior+Mage AoE: lightning+slash around both"@,
            3,
            0,
            2,
        ),
        ComboSkill::HolySmite => (
            "Holy Smite"@,
            "Warrior+Healer: massive single target + self-heal"@,
            2,
            0,
            2,
        ),
        ComboSkill::ArcaneSanctuary => (
            "Arcane Sanctuary"@,
            "Mage+Healer: shield all allies + heal over time"@,
            3,
            15,
            0,
        ),
        ComboSkill::TrinityStrike => (
            "Trinity Strike"@,
            "All 3 adjacent: devastating nuke + stun"@,
            4,
            0,
            3,
        ),
    }
}

impl ComboSkillDef {
    pub fn for_skill(skill: &ComboSkill) -> (d: Self)
        ensures
            d.skill == *skill,
            d.name@ == combo_table(*skill).0,
            d.description@ == combo_table(*skill).1,
            d.ap_cost == combo_table(*skill).2,
            d.base_damage == 0,
            d.base_healing == combo_table(*skill).3,
            d.range == combo_table(*skill).4,
    {
        match skill {
            ComboSkill::BladeStorm => ComboSkillDef {
                skill: ComboSkill::BladeStorm,
                name: String::from_str("Blade Storm"),
                description: String::from_str("Warrior+Mage AoE: lightning+slash around both"),
                ap_cost: 3,
                base_damage: 0,
                base_healing: 0,
                range: 2,
            },
            ComboSkill::HolySmite => ComboSkillDef {
                skill: ComboSkill::HolySmite,
                name: String::from_str("Holy Smite"),
                description: String::from_str("Warrior+Healer: massive single target + self-heal"),
                ap_cost: 2,
                base_damage: 0,
                base_healing: 0,
                range: 2,
            },
            ComboSkill::ArcaneSanctuary => ComboSkillDef {
                skill: ComboSkill::ArcaneSanctuary,
                name: String::from_str("Arcane Sanctuary"),
                description: String::from_str("Mage+Healer: shield all allies + heal over time"),
                ap_cost: 3,
                base_damage: 0,
                base_healing: 15,
                range: 0,
            },
            ComboSkill::TrinityStrike => ComboSkillDef {
                skill: ComboSkill::TrinityStrike,
                name: String::from_str("Trinity Strike"),
                description: String::from_str("All 3 adjacent: devastating nuke + stun"),
                ap_cost: 4,
                base_damage: 0,
                base_healing: 0,
                range: 3,
            },
        }
    }
}

#[derive(Clone, Debug, Default)]
pub struct AvailableCombos {
    pub combos: Vec<(ComboSkill, Vec<Entity>)>,
}

#[derive(Copy, Clone, Debug, PartialEq, Eq, Structural)]
pub struct Morale {
    pub value: i32,
    pub max: i32,
}

impl Default for Morale {
    fn default() -> (m: Self)
        ensures
            m.value == 70,
            m.max == 100,
    {
        Morale { value: 70, max: 100 }
    }
}

#[derive(Copy, Clone, Debug, PartialEq, Eq, Structural)]
pub struct Fatigue {
    pub value: i32,
    pub max: i32,
    pub actions_taken: u32,
}

impl Default for Fatigue {
    fn default() -> (f: Self)
        ensures
            f.value == 0,
            f.max == 100,
            f.actions_taken == 0,
    {
        Fatigue { value: 0, max: 100, actions_taken: 0 }
    }
}

#[derive(Copy, Clone, Debug, PartialEq, Eq, Structural)]
pub enum MoraleState {
    Confident,
    Steady,
    Stressed,
    Breaking,
    Broken,
}

/// The band a morale value falls in.
pub open spec fn morale_band(morale: int) -> MoraleState {
    if morale >= 80 {
        MoraleState::Confident
    } else if morale >= 50 {
        MoraleState::Steady
    } else if morale >= 25 {
        MoraleState::Stressed
    } else if morale >= 1 {
        MoraleState::Breaking
    } else {
        MoraleState::Broken
    }
}

/// How good a morale state is: Broken 0 up to Confident 4.
pub open spec fn morale_rank(s: MoraleState) -> int {
    match s {
        MoraleState::Broken => 0,
        MoraleState::Breaking => 1,
        MoraleState::Stressed => 2,
        MoraleState::Steady => 3,
        MoraleState::Confident => 4,
    }
}

pub open spec fn morale_state_name(s: MoraleState) -> Seq<char> {
    match s {
        MoraleState::Confident => "Confident"@,
        MoraleState::Steady => "Steady"@,
        MoraleState::Stressed => "Stressed"@,
        MoraleState::Breaking => "Breaking"@,
        MoraleState::Broken => "Broken"@,
    }
}

impl MoraleState {
    pub fn from_morale(morale: i32) -> (s: Self)
        ensures
            s == morale_band(morale as int),
    {
        if morale >= 80 {
            MoraleState::Confident
        } else if morale >= 50 {
            MoraleState::Steady
        } else if morale >= 25 {
            MoraleState::Stressed
        } else if morale >= 1 {
            MoraleState::Breaking
        } else {
            MoraleState::Broken
        }
    }

    pub fn display_name(&self) -> (r: &'static str)
        ensures
            r@ == morale_state_name(*self),
    {
        match self {
            MoraleState::Confident => "Confident",
            MoraleState::Steady => "Steady",
            MoraleState::Stressed => "Stressed",
            MoraleState::Breaking => "Breaking",
            MoraleState::Broken => "Broken",
        }
    }
}

/// Higher morale never falls in a worse band.
pub proof fn lemma_morale_band_monotonic(a: int, b: int)
    requires
        a <= b,
    ensures
        morale_rank(morale_band(a)) <= morale_rank(morale_band(b)),
{
}

#[derive(Copy, Clone, Debug, Default, PartialEq, Eq, Structural)]
pub enum PrestigeClass {
    #[default]
    NoClass,
    BladeMaster,
    Archmage,
    DivineHealer,
}

pub open spec fn prestige_name(p: PrestigeClass) -> Seq<char> {
    match p {
        PrestigeClass::NoClass => "None"@,
        PrestigeClass::BladeMaster => "BladeMaster"@,
        PrestigeClass::Archmage => "Archmage"@,
        PrestigeClass::DivineHealer => "DivineHealer"@,
    }
}

impl PrestigeClass {
    pub fn display_name(&self) -> (r: &'static str)
        ensures
            r@ == prestige_name(*self),
    {
        match self {
            PrestigeClass::NoClass => "None",
            PrestigeClass::BladeMaster => "BladeMaster",
            PrestigeClass::Archmage => "Archmage",
            PrestigeClass::DivineHealer => "DivineHealer",
        }
    }
}

#[derive(Copy, Clone, Debug, Default, PartialEq, Eq, Structural)]
pub struct PrestigeProgress {
    pub class: PrestigeClass,
    pub kill_count: u32,
    pub total_damage_dealt: i32,
    pub total_healing_done: i32,
    pub promoted: bool,
}

pub open spec fn weather_name(w: WeatherType) -> Seq<char> {
    match w {
        WeatherType::Sunny => "Sunny"@,
        WeatherType::Rainy => "Rainy"@,
        WeatherType::LightningStorm => "Lightning Storm"@,
        WeatherType::Snowing => "Snowing"@,
    }
}

/// The name shown for a kind of weather.
pub fn weather_display_name(w: WeatherType) -> (r: &'static str)
    ensures
        r@ == weather_name(w),
{
    match w {
        WeatherType::Sunny => "Sunny",
        WeatherType::Rainy => "Rainy",
        WeatherType::LightningStorm => "Lightning Storm",
        WeatherType::Snowing => "Snowing",
    }
}

pub open spec fn class_name(c: CharacterClass) -> Seq<char> {
    match c {
        CharacterClass::Warrior => "Kael"@,
        CharacterClass::Mage => "Lyra"@,
        CharacterClass::Healer => "Mira"@,
        CharacterClass::Rogue => "Jax"@,
        CharacterClass::Boss => "Blight Sovereign"@,
        CharacterClass::ShadowStalker => "Shadow Stalker"@,
        CharacterClass::CorruptedSpore => "Corrupted Spore"@,
        CharacterClass::CursedSentinel => "Cursed Sentinel"@,
        CharacterClass::PlagueWraith => "Plague Wraith"@,
        CharacterClass::GlacialGolem => "Glacial Golem"@,
        CharacterClass::EnemyCleric => "Dark Cleric"@,
        CharacterClass::VoidTerror => "Void Terror"@,
        CharacterClass::Berserker => "Berserker"@,
        CharacterClass::Tactician => "Tactician"@,
        CharacterClass::Summoner => "Summoner"@,
        CharacterClass::Assassin => "Assassin"@,
        CharacterClass::EliteBerserker => "Elite Berserker"@,
        CharacterClass::EliteTactician => "Elite Tactician"@,
        CharacterClass::EliteSummoner => "Elite Summoner"@,
        CharacterClass::EliteAssassin => "Elite Assassin"@,
        CharacterClass::DestructibleObject => "Object"@,
    }
}

/// The name a character of the given class goes by.
pub fn get_class_name(class: CharacterClass) -> (r: &'static str)
    ensures
        r@ == class_name(class),
{
    match class {
        CharacterClass::Warrior => "Kael",
        CharacterClass::Mage => "Lyra",
        CharacterClass::Healer => "Mira",
        CharacterClass::Rogue => "Jax",
        CharacterClass::Boss => "Blight Sovereign",
        CharacterClass::ShadowStalker => "Shadow Stalker",
        CharacterClass::CorruptedSpore => "Corrupted Spore",
        CharacterClass::CursedSentinel => "Cursed Sentinel",
        CharacterClass::PlagueWraith => "Plague Wraith",
        CharacterClass::GlacialGolem => "Glacial Golem",
        CharacterClass::EnemyCleric => "Dark Cleric",
        CharacterClass::VoidTerror => "Void Terror",
        CharacterClass::Berserker => "Berserker",
        CharacterClass::Tactician => "Tactician",
        CharacterClass::Summoner => "Summoner",
        CharacterClass::Assassin => "Assassin",
        CharacterClass::EliteBerserker => "Elite Berserker",
        CharacterClass::EliteTactician => "Elite Tactician",
        CharacterClass::EliteSummoner => "Elite Summoner",
        CharacterClass::EliteAssassin => "Elite Assassin",
        CharacterClass::DestructibleObject => "Object",
    }
}

} // verus!
