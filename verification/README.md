# wuthering-terminal rules, verified

Rules of Wuthering Terminal, a turn-based tactical RPG played in a terminal,
written in Verus: every function in `src/` carries a contract that Verus proves.

- `src/` — the verified library
  - `geometry`, `map`, `components`: grid positions and entity handles, the
    battle map and its terrain, and the game's data types.
  - `equipment`: gear, stat totals, set bonuses and upgrades.
  - `hazards`: hazard tiles, triggers, countdowns and random placement.
  - `ai`: threat maps, safe cells, flanking, and each enemy archetype's choice.
  - `movement`: the cells a unit can reach with its action points (proved to be
    exactly the ends of walks within budget), and stepping out of danger.
  - `battle_preview`, `turn_order`, `intents`: damage text, areas of effect,
    the turn order and the enemies' announced intents.
  - `combat`, `combos`, `skills`: boss phases, elemental statuses applied to a
    unit with their reactions, events, roots and Bloom heals, parries, how a
    strike lands and what a hit does to both sides (HP, defeat, the combo
    counter and its heals, equipment lifesteal), what a defeat comes to (the
    boss rising in its second phase, echo and kit drops, set rewards), the
    BladeMaster's counter-attack, combo-skill power,
    payment, targets and Arcane Sanctuary, skill targets and the elements
    skills leave.
  - `units`, `swap`, `floors`, `bestiary`: echoes, the end of a floor, the
    battle running itself, team swaps and the incoming hero's entrance skill,
    taking the stairs and the descent to the next floor, the bestiary and
    lore journal.
  - `battle`, `confirm`, `steps`, `crafting`: one player step over the game
    state, the units and their inventories (the checks every action passes,
    closing overlays, the view steps, resting, item use, crafting, paying for
    a modifier reroll and upgrading equipment with a kit, with actions on the
    world handed back), the Confirm key (selecting, targeting, skill and
    attack range, AP costs and base damage), and the parts of a step: cursor
    movement, item effects, resting, the undo and redo history, battle
    statistics, and alchemy.
  - `selection`: picking a hero by its place in handle order, cycling through
    the heroes that can still act (and back again), and the third skill key.
  - `replay`: the recording switch and the replay cursor (starting, stepping,
    auto-play, the end of a trace).
  - `outcome`: the structured outcome a step reports to scripts and agents,
    decided from the action, the state before and after, the outcome the
    step recorded, its new log lines (refusals, crafted and upgraded items)
    and its events; and the combo a failed step or a wait breaks.
  - `snapshot`: what agents see between steps: each side's head count and
    hit points, where the selected hero can move and strike, the turn order,
    the enemies' intents, the combos on offer, bestiary and lore progress,
    the active floor modifiers and each hero's complete equipment sets.
  - `action`, `bindings`, `token`: player commands, the text commands that
    scripts and agents send, and the default key map.
  - `text`: decimal rendering of numbers into log lines.
- `tests/` — executable tests of the library.
- `app/` — the parts that use floating point (damage ranges, health bars,
  line-of-sight cover, the combo, morale and critical-hit factors, the Thorns
  and Lifesteal echoes, Blade Storm's damage), built on the library.

Not in the library: the game object that ties the rules to the entity world
and carries it through (the floating-point damage factors, which live in
`app/`; walking a unit along a path; the enemy turn; drawing floor modifiers;
assembling the step report with its timing diagnostics; writing and reading
recorded traces; saving and loading), rendering, sound and visual effects,
the dungeon generator and path-finding. The library holds the rules those
steps apply, each as a function over plain values that the game calls.

Public proof functions (`lemma_*`) state the laws that hold across calls, such as
equipping then unequipping handing an item back, at most one equipment set being
active, the turn order being sorted by speed and listing every living unit once,
unlocking lore being idempotent, a redo taking back what an undo replaced,
cycling to the next hero and back returning the selection, and a failure a
step recorded being what the step reports.

The one trusted item is the wrapper around `str::to_lowercase` in `action`,
whose result is named, and stated for all-ASCII text.
