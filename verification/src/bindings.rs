use vstd::prelude::*;

use crate::action::Action;
use crate::geometry::Direction;

verus! {

/// A key as the terminal input layer reports it.
#[derive(Copy, Clone, Debug, PartialEq, Eq, Hash, Structural)]
pub enum Key {
    Up,
    Down,
    Left,
    Right,
    Enter,
    Esc,
    Tab,
    Char(char),
    F(u8),
    /// A character together with the three modifier flags, in the order in
    /// which the input layer lists them.
    Modified(char, bool, bool, bool),
}

/// The default key map, in binding order.
pub open spec fn default_key_table() -> Seq<(Key, Action)> {
    seq![
        (Key::Up, Action::MoveNorth),
        (Key::Down, Action::MoveSouth),
        (Key::Left, Action::MoveWest),
        (Key::Right, Action::MoveEast),
        (Key::Char('w'), Action::MoveNorth),
        (Key::Char('s'), Action::MoveSouth),
        (Key::Char('a'), Action::MoveWest),
        (Key::Char('d'), Action::MoveEast),
        (Key::Char('W'), Action::MoveNorth),
        (Key::Char('S'), Action::MoveSouth),
        (Key::Char('A'), Action::MoveWest),
        (Key::Char('D'), Action::MoveEast),
        (Key::Char(' '), Action::Wait),
        (Key::Enter, Action::Confirm),
        (Key::Esc, Action::Cancel),
        (Key::Tab, Action::NextCharacter),
        (Key::Char('q'), Action::Quit),
        (Key::Char('Q'), Action::Quit),
        (Key::Char('e'), Action::EndTurn),
        (Key::Char('E'), Action::EndTurn),
        (Key::Char('i'), Action::ToggleInventory),
        (Key::Char('I'), Action::ToggleInventory),
        (Key::Char('1'), Action::Skill1),
        (Key::Char('2'), Action::Skill2),
        (Key::Char('3'), Action::Skill3),
        (Key::Char('4'), Action::SwapCharacter(0)),
        (Key::Char('5'), Action::SwapCharacter(1)),
        (Key::Char('6'), Action::SwapCharacter(2)),
        (Key::F(5), Action::Save),
        (Key::F(9), Action::Load),
        (Key::F(3), Action::TogglePerf),
        (Key::F(10), Action::ToggleRecording),
        (Key::F(11), Action::ToggleReplay),
        (Key::F(12), Action::StepReplay),
        (Key::Char('p'), Action::ToggleReplayAuto),
        (Key::Char('b'), Action::AutoBattle),
        (Key::Char('B'), Action::AutoBattle),
        (Key::Char('r'), Action::StepToSafety),
        (Key::Char('R'), Action::StepToSafety),
        (Key::Char('m'), Action::ToggleMinimap),
        (Key::Char('M'), Action::ToggleMinimap),
        (Key::Char('u'), Action::Undo),
        (Key::Char('U'), Action::Undo),
        (Key::Char('y'), Action::Redo),
        (Key::Char('Y'), Action::Redo),
        (Key::Char('>'), Action::NextFloor),
        (Key::Char('?'), Action::ToggleHelp),
        (Key::Char('h'), Action::ToggleHelp),
        (Key::Char('H'), Action::ToggleHelp),
        (Key::Char('c'), Action::ToggleCameraLock),
        (Key::Char('C'), Action::ToggleCameraLock),
        (Key::Modified('\u{2191}', false, false, true), Action::PanCamera(Direction::North)),
        (Key::Modified('\u{2193}', false, false, true), Action::PanCamera(Direction::South)),
        (Key::Modified('\u{2190}', false, false, true), Action::PanCamera(Direction::West)),
        (Key::Modified('\u{2192}', false, false, true), Action::PanCamera(Direction::East)),
        (Key::Char('='), Action::ZoomIn),
        (Key::Char('+'), Action::ZoomIn),
        (Key::Char('-'), Action::ZoomOut),
        (Key::Char('_'), Action::ZoomOut),
        (Key::Char('t'), Action::ToggleSkillTree),
        (Key::Char('T'), Action::ToggleSkillTree),
        (Key::Char('x'), Action::RerollModifiers),
        (Key::Char('X'), Action::RerollModifiers),
        (Key::Char('v'), Action::ViewPrestige),
        (Key::Char('V'), Action::ViewPrestige),
        (Key::Char('z'), Action::Rest),
        (Key::Char('Z'), Action::Rest),
        (Key::Char('j'), Action::ToggleBestiary),
        (Key::Char('J'), Action::ToggleBestiary),
    ]
}

/// The default command words, in binding order.
pub open spec fn default_name_table() -> Seq<(Seq<char>, Action)> {
    seq![
        ("north"@, Action::MoveNorth),
        ("south"@, Action::MoveSouth),
        ("east"@, Action::MoveEast),
        ("west"@, Action::MoveWest),
        ("wait"@, Action::Wait),
        ("confirm"@, Action::Confirm),
        ("cancel"@, Action::Cancel),
        ("next"@, Action::NextCharacter),
        ("prev"@, Action::PrevCharacter),
        ("swap1"@, Action::SwapCharacter(0)),
        ("swap2"@, Action::SwapCharacter(1)),
        ("swap3"@, Action::SwapCharacter(2)),
        ("skill1"@, Action::Skill1),
        ("skill2"@, Action::Skill2),
        ("skill3"@, Action::Skill3),
        ("quit"@, Action::Quit),
        ("end"@, Action::EndTurn),
        ("save"@, Action::Save),
        ("load"@, Action::Load),
        ("record"@, Action::ToggleRecording),
        ("replay"@, Action::ToggleReplay),
        ("replay_auto"@, Action::ToggleReplayAuto),
        ("step_replay"@, Action::StepReplay),
        ("autobattle"@, Action::AutoBattle),
        ("safety"@, Action::StepToSafety),
        ("undo"@, Action::Undo),
        ("redo"@, Action::Redo),
        ("stairs"@, Action::NextFloor),
        ("next_floor"@, Action::NextFloor),
        ("help"@, Action::ToggleHelp),
        ("skill_tree"@, Action::ToggleSkillTree),
        ("upgrades"@, Action::ToggleSkillTree),
        ("prestige"@, Action::ViewPrestige),
        ("reroll"@, Action::RerollModifiers),
        ("rest"@, Action::Rest),
        ("bestiary"@, Action::ToggleBestiary),
        ("lore"@, Action::ToggleBestiary),
    ]
}

/// The default one-character commands, in binding order.
pub open spec fn default_glyph_table() -> Seq<(char, Action)> {
    seq![
        ('n', Action::MoveNorth),
        ('s', Action::MoveSouth),
        ('e', Action::MoveEast),
        ('w', Action::MoveWest),
        ('.', Action::Wait),
        ('c', Action::Confirm),
        ('x', Action::Cancel),
        ('>', Action::NextCharacter),
        ('<', Action::PrevCharacter),
        ('1', Action::Skill1),
        ('2', Action::Skill2),
        ('3', Action::Skill3),
        ('q', Action::Quit),
        ('e', Action::EndTurn),
        ('i', Action::ToggleInventory),
        (',', Action::ClearCursor),
        ('b', Action::AutoBattle),
        ('r', Action::StepToSafety),
        ('m', Action::ToggleMinimap),
        ('u', Action::Undo),
        ('y', Action::Redo),
        ('?', Action::ToggleHelp),
        ('h', Action::ToggleHelp),
        ('t', Action::ToggleSkillTree),
        ('v', Action::ViewPrestige),
        ('j', Action::ToggleBestiary),
    ]
}

/// The command words and one-character commands that scripts and agents use.
pub struct CommandTable {
    pub names: Vec<(&'static str, Action)>,
    pub glyphs: Vec<(char, Action)>,
}

/// The default key map: arrows and WASD move, and one key per command.
pub fn default_bindings() -> (r: Vec<(Key, Action)>)
    ensures
        r@ == default_key_table(),
{
    let r: Vec<(Key, Action)> = vec![
        (Key::Up, Action::MoveNorth),
        (Key::Down, Action::MoveSouth),
        (Key::Left, Action::MoveWest),
        (Key::Right, Action::MoveEast),
        (Key::Char('w'), Action::MoveNorth),
        (Key::Char('s'), Action::MoveSouth),
        (Key::Char('a'), Action::MoveWest),
        (Key::Char('d'), Action::MoveEast),
        (Key::Char('W'), Action::MoveNorth),
        (Key::Char('S'), Action::MoveSouth),
        (Key::Char('A'), Action::MoveWest),
        (Key::Char('D'), Action::MoveEast),
        (Key::Char(' '), Action::Wait),
        (Key::Enter, Action::Confirm),
        (Key::Esc, Action::Cancel),
        (Key::Tab, Action::NextCharacter),
        (Key::Char('q'), Action::Quit),
        (Key::Char('Q'), Action::Quit),
        (Key::Char('e'), Action::EndTurn),
        (Key::Char('E'), Action::EndTurn),
        (Key::Char('i'), Action::ToggleInventory),
        (Key::Char('I'), Action::ToggleInventory),
        (Key::Char('1'), Action::Skill1),
        (Key::Char('2'), Action::Skill2),
        (Key::Char('3'), Action::Skill3),
        (Key::Char('4'), Action::SwapCharacter(0)),
        (Key::Char('5'), Action::SwapCharacter(1)),
        (Key::Char('6'), Action::SwapCharacter(2)),
        (Key::F(5), Action::Save),
        (Key::F(9), Action::Load),
        (Key::F(3), Action::TogglePerf),
        (Key::F(10), Action::ToggleRecording),
        (Key::F(11), Action::ToggleReplay),
        (Key::F(12), Action::StepReplay),
        (Key::Char('p'), Action::ToggleReplayAuto),
        (Key::Char('b'), Action::AutoBattle),
        (Key::Char('B'), Action::AutoBattle),
        (Key::Char('r'), Action::StepToSafety),
        (Key::Char('R'), Action::StepToSafety),
        (Key::Char('m'), Action::ToggleMinimap),
        (Key::Char('M'), Action::ToggleMinimap),
        (Key::Char('u'), Action::Undo),
        (Key::Char('U'), Action::Undo),
        (Key::Char('y'), Action::Redo),
        (Key::Char('Y'), Action::Redo),
        (Key::Char('>'), Action::NextFloor),
        (Key::Char('?'), Action::ToggleHelp),
        (Key::Char('h'), Action::ToggleHelp),
        (Key::Char('H'), Action::ToggleHelp),
        (Key::Char('c'), Action::ToggleCameraLock),
        (Key::Char('C'), Action::ToggleCameraLock),
        (Key::Modified('\u{2191}', false, false, true), Action::PanCamera(Direction::North)),
        (Key::Modified('\u{2193}', false, false, true), Action::PanCamera(Direction::South)),
        (Key::Modified('\u{2190}', false, false, true), Action::PanCamera(Direction::West)),
        (Key::Modified('\u{2192}', false, false, true), Action::PanCamera(Direction::East)),
        (Key::Char('='), Action::ZoomIn),
        (Key::Char('+'), Action::ZoomIn),
        (Key::Char('-'), Action::ZoomOut),
        (Key::Char('_'), Action::ZoomOut),
        (Key::Char('t'), Action::ToggleSkillTree),
        (Key::Char('T'), Action::ToggleSkillTree),
        (Key::Char('x'), Action::RerollModifiers),
        (Key::Char('X'), Action::RerollModifiers),
        (Key::Char('v'), Action::ViewPrestige),
        (Key::Char('V'), Action::ViewPrestige),
        (Key::Char('z'), Action::Rest),
        (Key::Char('Z'), Action::Rest),
        (Key::Char('j'), Action::ToggleBestiary),
        (Key::Char('J'), Action::ToggleBestiary),
    ];
    assert(r@ =~= default_key_table());
    r
}

/// The default command words and one-character commands.
pub fn default_commands() -> (c: CommandTable)
    ensures
        c.names@.map_values(|p: (&'static str, Action)| (p.0@, p.1)) == default_name_table(),
        c.glyphs@ == default_glyph_table(),
{
    let names: Vec<(&'static str, Action)> = vec![
        ("north", Action::MoveNorth),
        ("south", Action::MoveSouth),
        ("east", Action::MoveEast),
        ("west", Action::MoveWest),
        ("wait", Action::Wait),
        ("confirm", Action::Confirm),
        ("cancel", Action::Cancel),
        ("next", Action::NextCharacter),
        ("prev", Action::PrevCharacter),
        ("swap1", Action::SwapCharacter(0)),
        ("swap2", Action::SwapCharacter(1)),
        ("swap3", Action::SwapCharacter(2)),
        ("skill1", Action::Skill1),
        ("skill2", Action::Skill2),
        ("skill3", Action::Skill3),
        ("quit", Action::Quit),
        ("end", Action::EndTurn),
        ("save", Action::Save),
        ("load", Action::Load),
        ("record", Action::ToggleRecording),
        ("replay", Action::ToggleReplay),
        ("replay_auto", Action::ToggleReplayAuto),
        ("step_replay", Action::StepReplay),
        ("autobattle", Action::AutoBattle),
        ("safety", Action::StepToSafety),
        ("undo", Action::Undo),
        ("redo", Action::Redo),
        ("stairs", Action::NextFloor),
        ("next_floor", Action::NextFloor),
        ("help", Action::ToggleHelp),
        ("skill_tree", Action::ToggleSkillTree),
        ("upgrades", Action::ToggleSkillTree),
        ("prestige", Action::ViewPrestige),
        ("reroll", Action::RerollModifiers),
        ("rest", Action::Rest),
        ("bestiary", Action::ToggleBestiary),
        ("lore", Action::ToggleBestiary),
    ];
    let glyphs: Vec<(char, Action)> = vec![
        ('n', Action::MoveNorth),
        ('s', Action::MoveSouth),
        ('e', Action::MoveEast),
        ('w', Action::MoveWest),
        ('.', Action::Wait),
        ('c', Action::Confirm),
        ('x', Action::Cancel),
        ('>', Action::NextCharacter),
        ('<', Action::PrevCharacter),
        ('1', Action::Skill1),
        ('2', Action::Skill2),
        ('3', Action::Skill3),
        ('q', Action::Quit),
        ('e', Action::EndTurn),
        ('i', Action::ToggleInventory),
        (',', Action::ClearCursor),
        ('b', Action::AutoBattle),
        ('r', Action::StepToSafety),
        ('m', Action::ToggleMinimap),
        ('u', Action::Undo),
        ('y', Action::Redo),
        ('?', Action::ToggleHelp),
        ('h', Action::ToggleHelp),
        ('t', Action::ToggleSkillTree),
        ('v', Action::ViewPrestige),
        ('j', Action::ToggleBestiary),
    ];
    assert(names@.map_values(|p: (&'static str, Action)| (p.0@, p.1)) =~= default_name_table());
    assert(glyphs@ =~= default_glyph_table());
    CommandTable { names, glyphs }
}

} // verus!
