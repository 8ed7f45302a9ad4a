use vstd::prelude::*;

use crate::components::{
    Bestiary, BestiaryEntry, CharacterClass, LoreCategory, LoreEntry, LoreJournal, class_name,
    get_class_name,
};
use crate::text::push_str;
use crate::token::same_text;

verus! {

// ------------------------------------------------------------------
// The bestiary
// ------------------------------------------------------------------

/// `b` is `a` with at most its counters and discoveries changed.
pub open spec fn same_card(a: BestiaryEntry, b: BestiaryEntry) -> bool {
    &&& b.class == a.class
    &&& b.name == a.name
    &&& b.lore_text == a.lore_text
    &&& b.drop_table == a.drop_table
}

/// The log line announcing that a kind of enemy was seen for the first time.
pub open spec fn encounter_message(class: CharacterClass) -> Seq<char> {
    "[fg:FFD700]New bestiary entry discovered: "@ + class_name(class) + "![/fg]"@
}

/// The weakness the bestiary learns after three defeats of an enemy kind.
pub open spec fn weakness_text(class: CharacterClass) -> Seq<char> {
    match class {
        CharacterClass::ShadowStalker => "Area attacks reveal its position"@,
        CharacterClass::CorruptedSpore => "Kill at range to avoid explosion"@,
        CharacterClass::CursedSentinel => "Close the gap quickly; weak in melee"@,
        CharacterClass::PlagueWraith => "Cleanse removes Nature status"@,
        CharacterClass::GlacialGolem => "Fire and Lightning deal extra damage"@,
        CharacterClass::EnemyCleric => "Focus fire first to stop healing"@,
        CharacterClass::Boss => "Parry telegraphed attacks to stun"@,
        _ => "Unknown"@,
    }
}

/// The resistance the bestiary learns after ten hits on an enemy kind.
pub open spec fn resistance_text(class: CharacterClass) -> Seq<char> {
    match class {
        CharacterClass::ShadowStalker => "Resists single-target (vanishes)"@,
        CharacterClass::CorruptedSpore => "Resists Nature damage"@,
        CharacterClass::CursedSentinel => "Resists ranged attacks"@,
        CharacterClass::PlagueWraith => "Resists Poison and Nature"@,
        CharacterClass::GlacialGolem => "Resists Ice damage"@,
        CharacterClass::EnemyCleric => "Resists Holy/Nature debuffs"@,
        CharacterClass::Boss => "Shield blocks physical in Phase 2"@,
        _ => "Unknown"@,
    }
}

pub open spec fn weakness_message(class: CharacterClass) -> Seq<char> {
    "[fg:FFD700]Bestiary: "@ + class_name(class) + " weakness -- "@ + weakness_text(class)
        + "![/fg]"@
}

pub open spec fn resistance_message(class: CharacterClass) -> Seq<char> {
    "[fg:FFD700]Bestiary: "@ + class_name(class) + " resistance -- "@ + resistance_text(class)
        + "![/fg]"@
}

/// The entry of `class` is seen for the first time.
pub open spec fn first_sighting(e: BestiaryEntry, class: CharacterClass) -> bool {
    e.class == class && !e.encountered
}

/// This defeat reveals the weakness recorded in `e`: the third defeat (or a
/// later one) of its kind while the weakness is still unknown.
pub open spec fn reveals_weakness(e: BestiaryEntry, class: CharacterClass) -> bool {
    e.class == class && e.defeated_count + 1 >= 3 && e.known_weakness is None
}

/// This hit reveals the resistance recorded in `e`: the tenth hit (or a later
/// one) on its kind while the resistance is still unknown.
pub open spec fn reveals_resistance(e: BestiaryEntry, class: CharacterClass) -> bool {
    e.class == class && e.hits_taken + 1 >= 10 && e.known_resistance is None
}

/// `new` is entry `old` after a defeat of a `class` enemy.
pub open spec fn after_defeat(old: BestiaryEntry, new: BestiaryEntry, class: CharacterClass) -> bool {
    &&& same_card(old, new)
    &&& new.encountered == old.encountered
    &&& new.times_killed_by == old.times_killed_by
    &&& new.hits_taken == old.hits_taken
    &&& new.known_resistance == old.known_resistance
    &&& new.defeated_count == if old.class == class {
        old.defeated_count + 1
    } else {
        old.defeated_count as int
    }
    &&& if reveals_weakness(old, class) {
        new.known_weakness matches Some(w) && w@ == weakness_text(class)
    } else {
        new.known_weakness == old.known_weakness
    }
}

/// `new` is entry `old` after a hit on a `class` enemy.
pub open spec fn after_hit(old: BestiaryEntry, new: BestiaryEntry, class: CharacterClass) -> bool {
    &&& same_card(old, new)
    &&& new.encountered == old.encountered
    &&& new.times_killed_by == old.times_killed_by
    &&& new.defeated_count == old.defeated_count
    &&& new.known_weakness == old.known_weakness
    &&& new.hits_taken == if old.class == class {
        old.hits_taken + 1
    } else {
        old.hits_taken as int
    }
    &&& if reveals_resistance(old, class) {
        new.known_resistance matches Some(r) && r@ == resistance_text(class)
    } else {
        new.known_resistance == old.known_resistance
    }
}

/// No counter of an entry of `class` is at its limit.
pub open spec fn counts_below_max(entries: Seq<BestiaryEntry>, class: CharacterClass) -> bool {
    forall|i: int|
        0 <= i < entries.len() && (#[trigger] entries[i]).class == class ==> {
            &&& entries[i].defeated_count < u32::MAX
            &&& entries[i].hits_taken < u32::MAX
            &&& entries[i].times_killed_by < u32::MAX
        }
}

fn weakness_str(class: CharacterClass) -> (s: &'static str)
    ensures
        s@ == weakness_text(class),
{
    match class {
        CharacterClass::ShadowStalker => "Area attacks reveal its position",
        CharacterClass::CorruptedSpore => "Kill at range to avoid explosion",
        CharacterClass::CursedSentinel => "Close the gap quickly; weak in melee",
        CharacterClass::PlagueWraith => "Cleanse removes Nature status",
        CharacterClass::GlacialGolem => "Fire and Lightning deal extra damage",
        CharacterClass::EnemyCleric => "Focus fire first to stop healing",
        CharacterClass::Boss => "Parry telegraphed attacks to stun",
        _ => "Unknown",
    }
}

fn resistance_str(class: CharacterClass) -> (s: &'static str)
    ensures
        s@ == resistance_text(class),
{
    match class {
        CharacterClass::ShadowStalker => "Resists single-target (vanishes)",
        CharacterClass::CorruptedSpore => "Resists Nature damage",
        CharacterClass::CursedSentinel => "Resists ranged attacks",
        CharacterClass::PlagueWraith => "Resists Poison and Nature",
        CharacterClass::GlacialGolem => "Resists Ice damage",
        CharacterClass::EnemyCleric => "Resists Holy/Nature debuffs",
        CharacterClass::Boss => "Shield blocks physical in Phase 2",
        _ => "Unknown",
    }
}

/// The text `a` + `b` + `c`.
fn joined3(a: &str, b: &str, c: &str) -> (s: String)
    ensures
        s@ == a@ + b@ + c@,
{
    let mut s = String::new();
    push_str(&mut s, a);
    push_str(&mut s, b);
    push_str(&mut s, c);
    assert(s@ =~= a@ + b@ + c@);
    s
}

/// The text `a` + `b` + `c` + `d` + `e`.
fn joined(a: &str, b: &str, c: &str, d: &str, e: &str) -> (s: String)
    ensures
        s@ == a@ + b@ + c@ + d@ + e@,
{
    let mut s = String::new();
    push_str(&mut s, a);
    push_str(&mut s, b);
    push_str(&mut s, c);
    push_str(&mut s, d);
    push_str(&mut s, e);
    assert(s@ =~= a@ + b@ + c@ + d@ + e@);
    s
}

/// Marks every entry of `class` as encountered. The log line announcing the
/// discovery is returned when some entry of that kind had not been seen yet.
pub fn record_enemy_encounter(bestiary: &mut Bestiary, class: CharacterClass) -> (msg: Option<
    String,
>)
    ensures
        final(bestiary).entries@.len() == old(bestiary).entries@.len(),
        forall|i: int|
            0 <= i < old(bestiary).entries@.len() ==> #[trigger] final(bestiary).entries@[i] == if old(
                bestiary,
            ).entries@[i].class == class {
                BestiaryEntry { encountered: true, ..old(bestiary).entries@[i] }
            } else {
                old(bestiary).entries@[i]
            },
        msg is Some <==> exists|i: int|
            0 <= i < old(bestiary).entries@.len() && #[trigger] first_sighting(
                old(bestiary).entries@[i],
                class,
            ),
        msg matches Some(m) ==> m@ == encounter_message(class),
{
    let ghost start = bestiary.entries@;
    let n = bestiary.entries.len();
    let mut discovered = false;
    let mut i: usize = 0;
    while i < n
        invariant
            n == start.len(),
            start == old(bestiary).entries@,
            bestiary.entries@.len() == n,
            i <= n,
            forall|j: int|
                0 <= j < i ==> #[trigger] bestiary.entries@[j] == if start[j].class == class {
                    BestiaryEntry { encountered: true, ..start[j] }
                } else {
                    start[j]
                },
            forall|j: int| i <= j < n ==> #[trigger] bestiary.entries@[j] == start[j],
            discovered <==> exists|j: int| 0 <= j < i && #[trigger] first_sighting(start[j], class),
        decreases n - i,
    {
        if bestiary.entries[i].class == class {
            if !bestiary.entries[i].encountered {
                assert(first_sighting(start[i as int], class));
                discovered = true;
            }
            let ghost before = bestiary.entries@;
            let mut e = bestiary.entries.remove(i);
            e.encountered = true;
            bestiary.entries.insert(i, e);
            assert(bestiary.entries@ =~= before.update(i as int, e));
        }
        i = i + 1;
    }
    if discovered {
        Some(joined3("[fg:FFD700]New bestiary entry discovered: ", get_class_name(class), "![/fg]"))
    } else {
        None
    }
}

/// Counts a defeat of a `class` enemy. The third defeat of a kind reveals its
/// weakness (when still unknown), and the reveal also unlocks the
/// `combat_insights` lore entry at `turn`. Returns the log lines: the weakness
/// reveal, then the lore unlock, when they happen.
pub fn record_enemy_defeat(
    bestiary: &mut Bestiary,
    journal: &mut LoreJournal,
    class: CharacterClass,
    turn: u32,
) -> (log: Vec<String>)
    requires
        counts_below_max(old(bestiary).entries@, class),
    ensures
        final(bestiary).entries@.len() == old(bestiary).entries@.len(),
        forall|i: int|
            0 <= i < old(bestiary).entries@.len() ==> after_defeat(
                old(bestiary).entries@[i],
                #[trigger] final(bestiary).entries@[i],
                class,
            ),
        (exists|i: int|
            0 <= i < old(bestiary).entries@.len() && #[trigger] reveals_weakness(
                old(bestiary).entries@[i],
                class,
            )) ==> {
            &&& lore_unlocked(old(journal).entries@, final(journal).entries@, "combat_insights"@, turn)
            &&& log@.len() >= 1
            &&& log@[0]@ == weakness_message(class)
            &&& match last_unlocked(
                old(journal).entries@,
                "combat_insights"@,
                old(journal).entries@.len() as int,
            ) {
                Some(k) => log@.len() == 2 && log@[1]@ == unlock_message(
                    old(journal).entries@[k].title@,
                ),
                None => log@.len() == 1,
            }
        },
        !(exists|i: int|
            0 <= i < old(bestiary).entries@.len() && #[trigger] reveals_weakness(
                old(bestiary).entries@[i],
                class,
            )) ==> log@.len() == 0 && final(journal).entries@ == old(journal).entries@,
{
    let ghost start = bestiary.entries@;
    let n = bestiary.entries.len();
    let mut revealed = false;
    let mut i: usize = 0;
    while i < n
        invariant
            n == start.len(),
            start == old(bestiary).entries@,
            counts_below_max(start, class),
            bestiary.entries@.len() == n,
            i <= n,
            forall|j: int| 0 <= j < i ==> after_defeat(start[j], #[trigger] bestiary.entries@[j], class),
            forall|j: int| i <= j < n ==> #[trigger] bestiary.entries@[j] == start[j],
            revealed <==> exists|j: int| 0 <= j < i && #[trigger] reveals_weakness(start[j], class),
        decreases n - i,
    {
        if bestiary.entries[i].class == class {
            assert(start[i as int].class == class);
            let ghost before = bestiary.entries@;
            let mut e = bestiary.entries.remove(i);
            e.defeated_count = e.defeated_count + 1;
            if e.defeated_count >= 3 && e.known_weakness.is_none() {
                assert(reveals_weakness(start[i as int], class));
                e.known_weakness = Some(String::from_str(weakness_str(class)));
                revealed = true;
            }
            bestiary.entries.insert(i, e);
            assert(bestiary.entries@ =~= before.update(i as int, e));
        }
        i = i + 1;
    }
    let mut log: Vec<String> = Vec::new();
    if revealed {
        log.push(
            joined(
                "[fg:FFD700]Bestiary: ",
                get_class_name(class),
                " weakness -- ",
                weakness_str(class),
                "![/fg]",
            ),
        );
        match unlock_lore(journal, "combat_insights", turn) {
            Some(m) => {
                log.push(m);
            },
            None => {},
        }
    }
    log
}

/// Counts a hit on a `class` enemy. The tenth hit on a kind reveals its
/// resistance (when still unknown); the log line of the reveal is returned.
pub fn record_enemy_hit_taken(bestiary: &mut Bestiary, class: CharacterClass) -> (msg: Option<
    String,
>)
    requires
        counts_below_max(old(bestiary).entries@, class),
    ensures
        final(bestiary).entries@.len() == old(bestiary).entries@.len(),
        forall|i: int|
            0 <= i < old(bestiary).entries@.len() ==> after_hit(
                old(bestiary).entries@[i],
                #[trigger] final(bestiary).entries@[i],
                class,
            ),
        msg is Some <==> exists|i: int|
            0 <= i < old(bestiary).entries@.len() && #[trigger] reveals_resistance(
                old(bestiary).entries@[i],
                class,
            ),
        msg matches Some(m) ==> m@ == resistance_message(class),
{
    let ghost start = bestiary.entries@;
    let n = bestiary.entries.len();
    let mut revealed = false;
    let mut i: usize = 0;
    while i < n
        invariant
            n == start.len(),
            start == old(bestiary).entries@,
            counts_below_max(start, class),
            bestiary.entries@.len() == n,
            i <= n,
            forall|j: int| 0 <= j < i ==> after_hit(start[j], #[trigger] bestiary.entries@[j], class),
            forall|j: int| i <= j < n ==> #[trigger] bestiary.entries@[j] == start[j],
            revealed <==> exists|j: int| 0 <= j < i && #[trigger] reveals_resistance(start[j], class),
        decreases n - i,
    {
        if bestiary.entries[i].class == class {
            assert(start[i as int].class == class);
            let ghost before = bestiary.entries@;
            let mut e = bestiary.entries.remove(i);
            e.hits_taken = e.hits_taken + 1;
            if e.hits_taken >= 10 && e.known_resistance.is_none() {
                assert(reveals_resistance(start[i as int], class));
                e.known_resistance = Some(String::from_str(resistance_str(class)));
                revealed = true;
            }
            bestiary.entries.insert(i, e);
            assert(bestiary.entries@ =~= before.update(i as int, e));
        }
        i = i + 1;
    }
    if revealed {
        Some(
            joined(
                "[fg:FFD700]Bestiary: ",
                get_class_name(class),
                " resistance -- ",
                resistance_str(class),
                "![/fg]",
            ),
        )
    } else {
        None
    }
}

/// Counts, on every entry of `class`, one more hero defeated by that kind.
pub fn record_player_defeat_by(bestiary: &mut Bestiary, attacker_class: CharacterClass)
    requires
        counts_below_max(old(bestiary).entries@, attacker_class),
    ensures
        final(bestiary).entries@.len() == old(bestiary).entries@.len(),
        forall|i: int|
            0 <= i < old(bestiary).entries@.len() ==> #[trigger] final(bestiary).entries@[i] == if old(
                bestiary,
            ).entries@[i].class == attacker_class {
                BestiaryEntry {
                    times_killed_by: (old(bestiary).entries@[i].times_killed_by + 1) as u32,
                    ..old(bestiary).entries@[i]
                }
            } else {
                old(bestiary).entries@[i]
            },
{
    let ghost start = bestiary.entries@;
    let n = bestiary.entries.len();
    let mut i: usize = 0;
    while i < n
        invariant
            n == start.len(),
            start == old(bestiary).entries@,
            counts_below_max(start, attacker_class),
            bestiary.entries@.len() == n,
            i <= n,
            forall|j: int|
                0 <= j < i ==> #[trigger] bestiary.entries@[j] == if start[j].class == attacker_class {
                    BestiaryEntry { times_killed_by: (start[j].times_killed_by + 1) as u32, ..start[j] }
                } else {
                    start[j]
                },
            forall|j: int| i <= j < n ==> #[trigger] bestiary.entries@[j] == start[j],
        decreases n - i,
    {
        if bestiary.entries[i].class == attacker_class {
            assert(start[i as int].class == attacker_class);
            let ghost before = bestiary.entries@;
            let mut e = bestiary.entries.remove(i);
            e.times_killed_by = e.times_killed_by + 1;
            bestiary.entries.insert(i, e);
            assert(bestiary.entries@ =~= before.update(i as int, e));
        }
        i = i + 1;
    }
}

// ------------------------------------------------------------------
// The lore journal
// ------------------------------------------------------------------

/// The entry is the still-hidden entry called `id`.
pub open spec fn unlocks(e: LoreEntry, id: Seq<char>) -> bool {
    e.id@ == id && !e.discovered
}

/// Entry `new` is entry `old` after unlocking `id` at `turn`.
pub open spec fn lore_after(old: LoreEntry, new: LoreEntry, id: Seq<char>, turn: u32) -> bool {
    new == if unlocks(old, id) {
        LoreEntry { discovered: true, turn_discovered: turn, ..old }
    } else {
        old
    }
}

/// `new` is the journal `old` after unlocking `id` at `turn`.
pub open spec fn lore_unlocked(old: Seq<LoreEntry>, new: Seq<LoreEntry>, id: Seq<char>, turn: u32) -> bool {
    &&& new.len() == old.len()
    &&& forall|i: int| 0 <= i < old.len() ==> lore_after(old[i], #[trigger] new[i], id, turn)
}

/// Index of the last entry among the first `k` that unlocking `id` opens.
pub open spec fn last_unlocked(entries: Seq<LoreEntry>, id: Seq<char>, k: int) -> Option<int>
    decreases k,
{
    if k <= 0 {
        None
    } else if unlocks(entries[k - 1], id) {
        Some(k - 1)
    } else {
        last_unlocked(entries, id, k - 1)
    }
}

/// The log line announcing a newly unlocked lore entry.
pub open spec fn unlock_message(title: Seq<char>) -> Seq<char> {
    "[fg:9933FF]Lore unlocked: '"@ + title + "'![/fg]"@
}

/// Unlocking the same lore twice changes nothing the second time.
pub proof fn lemma_unlock_idempotent(
    a: Seq<LoreEntry>,
    b: Seq<LoreEntry>,
    c: Seq<LoreEntry>,
    id: Seq<char>,
    t1: u32,
    t2: u32,
)
    requires
        lore_unlocked(a, b, id, t1),
        lore_unlocked(b, c, id, t2),
    ensures
        c == b,
        last_unlocked(b, id, b.len() as int) is None,
{
    assert forall|i: int| 0 <= i < b.len() implies #[trigger] c[i] == b[i] by {
        assert(lore_after(a[i], b[i], id, t1));
        assert(lore_after(b[i], c[i], id, t2));
    }
    assert(c =~= b);
    lemma_nothing_to_unlock(b, id, b.len() as int, a, t1);
}

proof fn lemma_nothing_to_unlock(b: Seq<LoreEntry>, id: Seq<char>, k: int, a: Seq<LoreEntry>, t: u32)
    requires
        lore_unlocked(a, b, id, t),
        0 <= k <= b.len(),
    ensures
        last_unlocked(b, id, k) is None,
    decreases k,
{
    if k > 0 {
        assert(lore_after(a[k - 1], b[k - 1], id, t));
        lemma_nothing_to_unlock(b, id, k - 1, a, t);
    }
}

/// Reveals the hidden lore entries called `lore_id`, noting `turn` as the turn
/// of discovery. The log line naming the (last) entry unlocked is returned.
pub fn unlock_lore(journal: &mut LoreJournal, lore_id: &str, turn: u32) -> (msg: Option<String>)
    ensures
        lore_unlocked(old(journal).entries@, final(journal).entries@, lore_id@, turn),
        match last_unlocked(old(journal).entries@, lore_id@, old(journal).entries@.len() as int) {
            Some(k) => msg matches Some(m) && m@ == unlock_message(old(journal).entries@[k].title@),
            None => msg is None,
        },
{
    let ghost start = journal.entries@;
    let n = journal.entries.len();
    let mut title: Option<String> = None;
    let mut i: usize = 0;
    while i < n
        invariant
            n == start.len(),
            start == old(journal).entries@,
            journal.entries@.len() == n,
            i <= n,
            forall|j: int| 0 <= j < i ==> lore_after(start[j], #[trigger] journal.entries@[j], lore_id@, turn),
            forall|j: int| i <= j < n ==> #[trigger] journal.entries@[j] == start[j],
            match last_unlocked(start, lore_id@, i as int) {
                Some(k) => title matches Some(t) && t@ == start[k].title@,
                None => title is None,
            },
        decreases n - i,
    {
        if !journal.entries[i].discovered && same_text(journal.entries[i].id.as_str(), lore_id) {
            let ghost before = journal.entries@;
            let mut e = journal.entries.remove(i);
            e.discovered = true;
            e.turn_discovered = turn;
            title = Some(e.title.clone());
            journal.entries.insert(i, e);
            assert(journal.entries@ =~= before.update(i as int, e));
        }
        i = i + 1;
    }
    match title {
        Some(t) => Some(joined3("[fg:9933FF]Lore unlocked: '", t.as_str(), "'![/fg]")),
        None => None,
    }
}

// ------------------------------------------------------------------
// The starting records
// ------------------------------------------------------------------

/// Class, name, lore text and drops of each enemy kind, as the bestiary starts.
pub open spec fn bestiary_cards() -> Seq<(CharacterClass, Seq<char>, Seq<char>, Seq<Seq<char>>)> {
    seq![
        (
            CharacterClass::ShadowStalker,
            "Shadow Stalker"@,
            "Created from the shadows of the Sovereign's domain, these silent hunters vanish when struck. Area attacks are the only reliable way to pin them down."@,
            seq!["Frostbite Echo"@, "Shadow Essence"@],
        ),
        (
            CharacterClass::CorruptedSpore,
            "Corrupted Spore"@,
            "Once benign forest spores, corrupted by the Blight into volatile living mines. They explode on proximity, dealing devastating area damage."@,
            seq!["Nature Essence"@],
        ),
        (
            CharacterClass::CursedSentinel,
            "Cursed Sentinel"@,
            "Ancient guardians turned to serve darkness. They prefer ranged attacks and retreat when approached."@,
            seq!["Sentinel Core"@],
        ),
        (
            CharacterClass::PlagueWraith,
            "Plague Wraith"@,
            "Spirits of plague victims, bound to spread decay. Their touch applies Nature status."@,
            seq!["Wraith Shard"@, "Plague Essence"@],
        ),
        (
            CharacterClass::GlacialGolem,
            "Glacial Golem"@,
            "Forged from eternal ice in the Sovereign's forge. Attacks apply Ice status, freezing victims in place."@,
            seq!["Frost Core"@, "Ice Walker Echo"@],
        ),
        (
            CharacterClass::EnemyCleric,
            "Dark Cleric"@,
            "Fallen healers who chose darkness over light. They prioritize healing wounded allies."@,
            seq!["Dark Blessing"@],
        ),
        (
            CharacterClass::Boss,
            "Blight Sovereign"@,
            "The source of all corruption. A multi-phase abomination. In Phase 2, it unleashes Celestial Ruin with telegraphed attacks that can be parried."@,
            seq!["Sovereign's Echo"@, "Blight Crystal"@],
        ),
    ]
}

/// The entry shows enemy kind `card`, with nothing learned about it yet.
pub open spec fn fresh_card(e: BestiaryEntry, card: (CharacterClass, Seq<char>, Seq<char>, Seq<Seq<char>>)) -> bool {
    &&& e.class == card.0
    &&& e.name@ == card.1
    &&& e.lore_text@ == card.2
    &&& e.drop_table@.len() == card.3.len()
    &&& forall|j: int| 0 <= j < card.3.len() ==> #[trigger] e.drop_table@[j]@ == card.3[j]
    &&& !e.encountered
    &&& e.defeated_count == 0
    &&& e.times_killed_by == 0
    &&& e.hits_taken == 0
    &&& e.known_weakness is None
    &&& e.known_resistance is None
}

/// Id, title, text, category and discovery of each lore entry, as the journal
/// starts.
pub open spec fn lore_cards() -> Seq<(Seq<char>, Seq<char>, Seq<char>, LoreCategory, bool)> {
    seq![
        ("the_blight"@, "The Blight"@, "A creeping corruption from the Sovereign's domain, twisting living things into servants of darkness."@, LoreCategory::World, true),
        ("concert_energy"@, "Concert Energy"@, "A mystical force that builds as heroes fight. At 100, enables QTE Swaps with devastating intro skills."@, LoreCategory::Mechanic, true),
        ("echo_absorption"@, "Echo Absorption"@, "Defeated enemies leave Echoes. Absorb to gain Swift, Thorns, Frostbite, Stun, or Lifesteal."@, LoreCategory::Mechanic, true),
        ("kael_origins"@, "Kael's Origins"@, "A sellsword whose homeland fell to the Blight. Swift Foot grants bonus AP each turn."@, LoreCategory::Character, true),
        ("lyra_studies"@, "Lyra's Studies"@, "Arcane Academy prodigy pursuing the Blight's source. Storm Chaser amplifies lightning damage."@, LoreCategory::Character, true),
        ("mira_calling"@, "Mira's Calling"@, "Temple healer who answered the cries of the afflicted. Purifying Touch cleanses on heal."@, LoreCategory::Character, true),
        ("combat_insights"@, "Combat Insights"@, "Ice+Lightning=Shatter, Lightning+Nature=Overgrowth, Nature+Ice=Bloom. Combos amplify damage by 5% per chain."@, LoreCategory::Mechanic, false),
        ("sovereigns_rage"@, "The Sovereign's Rage"@, "Below half health, the Sovereign enters frenzy. Power doubles, shield manifests, Celestial Ruin begins."@, LoreCategory::Enemy, false),
        ("descent_into_darkness"@, "Descent into Darkness"@, "Floor 2 is a procedurally generated dungeon warped by the Blight. The Sovereign awaits in the deepest chamber."@, LoreCategory::World, false),
        ("echo_lore"@, "Echo Lore"@, "Echoes are the crystallized will of the fallen. Each absorbed Echo reshapes the hero's soul."@, LoreCategory::Mechanic, false),
    ]
}

/// The journal entry is lore `card`, discovered at turn 0 when it is known from
/// the start.
pub open spec fn starting_lore(e: LoreEntry, card: (Seq<char>, Seq<char>, Seq<char>, LoreCategory, bool)) -> bool {
    &&& e.id@ == card.0
    &&& e.title@ == card.1
    &&& e.text@ == card.2
    &&& e.category == card.3
    &&& e.discovered == card.4
    &&& e.turn_discovered == 0
}

fn fresh_entry(class: CharacterClass, name: &str, lore_text: &str, drops: Vec<String>) -> (e: BestiaryEntry)
    ensures
        e.class == class,
        e.name@ == name@,
        e.lore_text@ == lore_text@,
        e.drop_table == drops,
        !e.encountered,
        e.defeated_count == 0,
        e.times_killed_by == 0,
        e.hits_taken == 0,
        e.known_weakness is None,
        e.known_resistance is None,
{
    BestiaryEntry {
        class,
        name: String::from_str(name),
        encountered: false,
        defeated_count: 0,
        times_killed_by: 0,
        hits_taken: 0,
        known_weakness: None,
        known_resistance: None,
        lore_text: String::from_str(lore_text),
        drop_table: drops,
    }
}

fn one_drop(a: &str) -> (v: Vec<String>)
    ensures
        v@.len() == 1,
        v@[0]@ == a@,
{
    let mut v: Vec<String> = Vec::new();
    v.push(String::from_str(a));
    v
}

fn two_drops(a: &str, b: &str) -> (v: Vec<String>)
    ensures
        v@.len() == 2,
        v@[0]@ == a@,
        v@[1]@ == b@,
{
    let mut v: Vec<String> = Vec::new();
    v.push(String::from_str(a));
    v.push(String::from_str(b));
    v
}

fn lore_entry(id: &str, title: &str, text: &str, category: LoreCategory, discovered: bool) -> (e: LoreEntry)
    ensures
        e.id@ == id@,
        e.title@ == title@,
        e.text@ == text@,
        e.category == category,
        e.discovered == discovered,
        e.turn_discovered == 0,
{
    LoreEntry {
        id: String::from_str(id),
        title: String::from_str(title),
        text: String::from_str(text),
        category,
        discovered,
        turn_discovered: 0,
    }
}

/// The bestiary at the start of a run: every enemy kind, nothing learned yet.
pub fn create_initial_bestiary() -> (b: Bestiary)
    ensures
        b.entries@.len() == bestiary_cards().len(),
        forall|i: int| 0 <= i < b.entries@.len() ==> fresh_card(#[trigger] b.entries@[i], bestiary_cards()[i]),
{
    let mut entries: Vec<BestiaryEntry> = Vec::new();
    entries.push(fresh_entry(CharacterClass::ShadowStalker, "Shadow Stalker", "Created from the shadows of the Sovereign's domain, these silent hunters vanish when struck. Area attacks are the only reliable way to pin them down.", two_drops("Frostbite Echo", "Shadow Essence")));
    assert(fresh_card(entries@[0], bestiary_cards()[0]));
    entries.push(fresh_entry(CharacterClass::CorruptedSpore, "Corrupted Spore", "Once benign forest spores, corrupted by the Blight into volatile living mines. They explode on proximity, dealing devastating area damage.", one_drop("Nature Essence")));
    assert(fresh_card(entries@[1], bestiary_cards()[1]));
    entries.push(fresh_entry(CharacterClass::CursedSentinel, "Cursed Sentinel", "Ancient guardians turned to serve darkness. They prefer ranged attacks and retreat when approached.", one_drop("Sentinel Core")));
    assert(fresh_card(entries@[2], bestiary_cards()[2]));
    entries.push(fresh_entry(CharacterClass::PlagueWraith, "Plague Wraith", "Spirits of plague victims, bound to spread decay. Their touch applies Nature status.", two_drops("Wraith Shard", "Plague Essence")));
    assert(fresh_card(entries@[3], bestiary_cards()[3]));
    entries.push(fresh_entry(CharacterClass::GlacialGolem, "Glacial Golem", "Forged from eternal ice in the Sovereign's forge. Attacks apply Ice status, freezing victims in place.", two_drops("Frost Core", "Ice Walker Echo")));
    assert(fresh_card(entries@[4], bestiary_cards()[4]));
    entries.push(fresh_entry(CharacterClass::EnemyCleric, "Dark Cleric", "Fallen healers who chose darkness over light. They prioritize healing wounded allies.", one_drop("Dark Blessing")));
    assert(fresh_card(entries@[5], bestiary_cards()[5]));
    entries.push(fresh_entry(CharacterClass::Boss, "Blight Sovereign", "The source of all corruption. A multi-phase abomination. In Phase 2, it unleashes Celestial Ruin with telegraphed attacks that can be parried.", two_drops("Sovereign's Echo", "Blight Crystal")));
    assert(fresh_card(entries@[6], bestiary_cards()[6]));
    Bestiary { entries }
}

/// The lore journal at the start of a run: the basics are known, the rest is
/// still hidden.
pub fn create_initial_lore_journal() -> (j: LoreJournal)
    ensures
        j.entries@.len() == lore_cards().len(),
        forall|i: int| 0 <= i < j.entries@.len() ==> starting_lore(#[trigger] j.entries@[i], lore_cards()[i]),
{
    let mut entries: Vec<LoreEntry> = Vec::new();
    entries.push(lore_entry("the_blight", "The Blight", "A creeping corruption from the Sovereign's domain, twisting living things into servants of darkness.", LoreCategory::World, true));
    assert(starting_lore(entries@[0], lore_cards()[0]));
    entries.push(lore_entry("concert_energy", "Concert Energy", "A mystical force that builds as heroes fight. At 100, enables QTE Swaps with devastating intro skills.", LoreCategory::Mechanic, true));
    assert(starting_lore(entries@[1], lore_cards()[1]));
    entries.push(lore_entry("echo_absorption", "Echo Absorption", "Defeated enemies leave Echoes. Absorb to gain Swift, Thorns, Frostbite, Stun, or Lifesteal.", LoreCategory::Mechanic, true));
    assert(starting_lore(entries@[2], lore_cards()[2]));
    entries.push(lore_entry("kael_origins", "Kael's Origins", "A sellsword whose homeland fell to the Blight. Swift Foot grants bonus AP each turn.", LoreCategory::Character, true));
    assert(starting_lore(entries@[3], lore_cards()[3]));
    entries.push(lore_entry("lyra_studies", "Lyra's Studies", "Arcane Academy prodigy pursuing the Blight's source. Storm Chaser amplifies lightning damage.", LoreCategory::Character, true));
    assert(starting_lore(entries@[4], lore_cards()[4]));
    entries.push(lore_entry("mira_calling", "Mira's Calling", "Temple healer who answered the cries of the afflicted. Purifying Touch cleanses on heal.", LoreCategory::Character, true));
    assert(starting_lore(entries@[5], lore_cards()[5]));
    entries.push(lore_entry("combat_insights", "Combat Insights", "Ice+Lightning=Shatter, Lightning+Nature=Overgrowth, Nature+Ice=Bloom. Combos amplify damage by 5% per chain.", LoreCategory::Mechanic, false));
    assert(starting_lore(entries@[6], lore_cards()[6]));
    entries.push(lore_entry("sovereigns_rage", "The Sovereign's Rage", "Below half health, the Sovereign enters frenzy. Power doubles, shield manifests, Celestial Ruin begins.", LoreCategory::Enemy, false));
    assert(starting_lore(entries@[7], lore_cards()[7]));
    entries.push(lore_entry("descent_into_darkness", "Descent into Darkness", "Floor 2 is a procedurally generated dungeon warped by the Blight. The Sovereign awaits in the deepest chamber.", LoreCategory::World, false));
    assert(starting_lore(entries@[8], lore_cards()[8]));
    entries.push(lore_entry("echo_lore", "Echo Lore", "Echoes are the crystallized will of the fallen. Each absorbed Echo reshapes the hero's soul.", LoreCategory::Mechanic, false));
    assert(starting_lore(entries@[9], lore_cards()[9]));
    LoreJournal { entries }
}

} // verus!
