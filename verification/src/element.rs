use vstd::prelude::*;

verus! {

/// The elements an attack or a reaction can carry.
#[derive(Clone, Copy, Debug, PartialEq, Eq, Structural)]
pub enum Element {
    Pyro,
    Hydro,
    Electro,
    Cryo,
    Anemo,
    Geo,
    Dendro,
    Physical,
}

/// The kinds of skill a hit can come from.
#[derive(Clone, Copy, Debug, PartialEq, Eq, Structural)]
pub enum SkillType {
    NormalAttack,
    ChargedAttack,
    PlungingAttackInAction,
    PlungingAttackOnGround,
    ElementalSkill,
    ElementalBurst,
    NoneType,
}

/// Whether a skill is one of the two plunging attacks.
pub open spec fn spec_is_plunging(skill: SkillType) -> bool {
    skill == SkillType::PlungingAttackInAction || skill == SkillType::PlungingAttackOnGround
}

impl SkillType {
    /// Whether this is a plunging attack (in action or on ground).
    pub fn is_plunging(&self) -> (r: bool)
        ensures
            r == spec_is_plunging(*self),
    {
        match self {
            SkillType::PlungingAttackInAction => true,
            SkillType::PlungingAttackOnGround => true,
            _ => false,
        }
    }
}

} // verus!
