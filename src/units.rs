use vstd::prelude::*;
use crate::skills::{Skill, StatusEffect};

verus! {

/// The static template of a chess piece.
#[derive(Debug, Clone)]
pub struct ChessTemplate {
    pub id: String,
    pub chess: String,
    pub level: StarLevel,
    pub description: Option<String>,
    pub base_attrs: Attrs,
    pub skills: Vec<Skill>,
    pub synergies: Vec<SynergyTag>,
}

/// A piece's base attributes; `attack_speed` is in hundredths of an attack per second.
#[derive(Debug, Copy, Clone, PartialEq, Eq, Structural)]
pub struct Attrs {
    pub max_hp: i32,
    pub max_mp: i32,
    pub armor: i32,
    pub magic_resist: i32,
    pub attack_damage: i32,
    pub ability_power: i32,
    pub attack_speed: u32,
    pub attack_range: i32,
}

/// Synergy tags: traits, origins and classes.
#[derive(Debug, Copy, Clone, PartialEq, Eq, Hash, Structural)]
pub enum SynergyTag {
    Knight,
    Mage,
    Assassin,
    Human,
    Orc,
    Undead,
}

/// A piece's star level.
#[derive(Debug, Copy, Clone, PartialEq, Eq, Hash, Structural)]
pub enum StarLevel {
    One,
    Two,
    Three,
}

/// A unit in battle: its template, its current state and its status effects.
#[derive(Debug, Clone)]
pub struct Unit {
    pub template: ChessTemplate,
    pub state: UnitState,
    pub status_effects: Vec<StatusEffect>,
}

/// The attributes of a unit that change during battle.
#[derive(Debug, Copy, Clone, PartialEq, Eq, Structural)]
pub struct UnitState {
    pub hp: i32,
    pub mp: i32,
    pub attack_damage: i32,
    pub ability_power: i32,
    pub armor: i32,
    pub magic_resist: i32,
    pub attack_speed: i32,
}

} // verus!
