use vstd::prelude::*;

verus! {

/// A skill a unit can carry: what it is and the effects it applies, in order.
#[derive(Debug, Clone)]
pub struct Skill {
    pub id: String,
    pub name: String,
    pub description: String,
    pub skill_type: SkillType,
    pub trigger_condition: Option<TriggerCondition>,
    pub skill_effect: Vec<SkillEffectMeta>,
}

/// Whether a skill is cast or fires on a condition.
#[derive(Debug, Copy, Clone, PartialEq, Eq, Structural)]
pub enum SkillType {
    Active,
    Trigger,
}

/// When a triggered skill fires.
#[derive(Debug, Copy, Clone, PartialEq, Eq, Structural)]
pub enum TriggerCondition {
    Always,
    OnHit,
    OnKill,
    OnAllyDeath,
    OnHpBelow { percent: u8 },
}

/// An effect together with its place in the skill's order of execution.
#[derive(Debug, Clone)]
pub struct SkillEffectMeta {
    pub order: u8,
    pub effect: SkillEffect,
}

/// What a skill does.
#[derive(Debug, Clone)]
pub enum SkillEffect {
    PhysicalDamage { amount: u32, target: SkillTarget },
    MagicalDamage { amount: u32, target: SkillTarget },
    TrueDamage { amount: u32, target: SkillTarget },
    Heal { amount: u32, target: SkillTarget },
    Dash { distance: u32, target: SkillTarget },
    Buff { effect: StatusEffect, target: SkillTarget },
    Debuff { effect: StatusEffect, target: SkillTarget },
}

/// Whom an effect reaches.
#[derive(Debug, Clone)]
pub enum SkillTarget {
    SelfTarget,
    SingleEnemy,
    AllEnemies,
    SingleAlly,
    AllAllies,
    RandomEnemy,
    RandomAlly,
    AreaOfEffect(AoeShape),
    Custom(String),
}

/// The shape of an area effect.
#[derive(Debug, Copy, Clone, PartialEq, Eq, Structural)]
pub enum AoeShape {
    Circle { radius: u32 },
    Line { distance: u32 },
}

/// A timed change of a unit's state.
#[derive(Debug, Clone)]
pub struct StatusEffect {
    pub kind: StatusEffectType,
    pub amount: Option<i32>,
    pub duration: u32,
}

/// The kinds of status effect: the first six are buffs, the rest debuffs.
#[derive(Debug, Copy, Clone, PartialEq, Eq, Structural)]
pub enum StatusEffectType {
    AttackDamageUp,
    AbilityPowerUp,
    AttackSpeedUp,
    ArmorUp,
    MagicResistUp,
    Shield,
    AttackDamageDown,
    AbilityPowerDown,
    AttackSpeedDown,
    ArmorDown,
    MagicResistDown,
    Stun,
}

} // verus!
