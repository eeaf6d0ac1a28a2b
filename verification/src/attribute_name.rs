use vstd::prelude::*;
use crate::element::{Element, SkillType};

verus! {

/// The groups of skills that have attributes of their own.
#[derive(Clone, Copy, Debug, PartialEq, Eq, Structural)]
pub enum SkillGroup {
    NormalAttack,
    ChargedAttack,
    PlungingAttack,
    ElementalSkill,
    ElementalBurst,
}

/// The group of a skill; both plunging attacks share one, and a hit of no
/// skill has none.
pub open spec fn skill_group(skill: SkillType) -> Option<SkillGroup> {
    match skill {
        SkillType::NormalAttack => Some(SkillGroup::NormalAttack),
        SkillType::ChargedAttack => Some(SkillGroup::ChargedAttack),
        SkillType::PlungingAttackInAction => Some(SkillGroup::PlungingAttack),
        SkillType::PlungingAttackOnGround => Some(SkillGroup::PlungingAttack),
        SkillType::ElementalSkill => Some(SkillGroup::ElementalSkill),
        SkillType::ElementalBurst => Some(SkillGroup::ElementalBurst),
        SkillType::NoneType => None,
    }
}

/// Each skill is its own group, except that both plunging attacks share the
/// plunging group and a hit of no skill has no group.
pub proof fn lemma_skill_groups()
    ensures
        skill_group(SkillType::NormalAttack) == Some(SkillGroup::NormalAttack),
        skill_group(SkillType::ChargedAttack) == Some(SkillGroup::ChargedAttack),
        skill_group(SkillType::PlungingAttackInAction) == Some(SkillGroup::PlungingAttack),
        skill_group(SkillType::PlungingAttackOnGround) == Some(SkillGroup::PlungingAttack),
        skill_group(SkillType::ElementalSkill) == Some(SkillGroup::ElementalSkill),
        skill_group(SkillType::ElementalBurst) == Some(SkillGroup::ElementalBurst),
        skill_group(SkillType::NoneType) == None::<SkillGroup>,
{
}

/// The group of a skill, as `skill_group` states.
pub fn group_of_skill(skill: SkillType) -> (r: Option<SkillGroup>)
    ensures
        r == skill_group(skill),
{
    match skill {
        SkillType::NormalAttack => Some(SkillGroup::NormalAttack),
        SkillType::ChargedAttack => Some(SkillGroup::ChargedAttack),
        SkillType::PlungingAttackInAction => Some(SkillGroup::PlungingAttack),
        SkillType::PlungingAttackOnGround => Some(SkillGroup::PlungingAttack),
        SkillType::ElementalSkill => Some(SkillGroup::ElementalSkill),
        SkillType::ElementalBurst => Some(SkillGroup::ElementalBurst),
        SkillType::NoneType => None,
    }
}

/// The attributes that an attribute graph records contributions to.
#[derive(Clone, Copy, Debug, PartialEq, Eq, Structural)]
pub enum AttributeName {
    ATKBase,
    ATKPercentage,
    ATKFixed,
    ATKFromSecondaryConversion,
    DEFBase,
    DEFPercentage,
    DEFFixed,
    HPBase,
    HPPercentage,
    HPFixed,
    ElementalMastery,
    ElementalMasteryExtra,
    ATKRatioBase,
    ATKRatioByElement(Element),
    ATKRatioBySkill(SkillGroup),
    DEFRatioBase,
    DEFRatioByElement(Element),
    DEFRatioBySkill(SkillGroup),
    HPRatioBase,
    HPRatioByElement(Element),
    HPRatioBySkill(SkillGroup),
    ExtraDmgBase,
    ExtraDmgByElement(Element),
    ExtraDmgBySkill(SkillGroup),
    ExtraDmgPlungingAttackLowHigh,
    BonusBase,
    BonusByElement(Element),
    BonusBySkill(SkillGroup),
    BonusNormalAndElemental,
    CriticalBase,
    CriticalByElement(Element),
    CriticalBySkill(SkillGroup),
    CriticalDamageBase,
    CriticalDamageByElement(Element),
    CriticalDamageBySkill(SkillGroup),
    ResMinusBase,
    ResMinusByElement(Element),
    DefMinus,
    DefPenetration,
    HealingBonus,
    ShieldStrength,
    EnhanceMelt,
    EnhanceVaporize,
    EnhanceSpread,
    EnhanceAggravate,
    EnhanceMoonfall,
    EnhanceMoonelectro,
    EnhanceMoonelectroBase,
}

/// `s` with `name` appended where there is one.
pub open spec fn push_opt(s: Seq<AttributeName>, name: Option<AttributeName>) -> Seq<AttributeName> {
    match name {
        Some(n) => s.push(n),
        None => s,
    }
}

/// The per-skill `ExtraDmgBySkill` attribute of the group of `skill`, where it has one.
pub open spec fn extra_dmg_skill_attribute(skill: SkillType) -> Option<AttributeName> {
    match skill_group(skill) {
        Some(g) => Some(AttributeName::ExtraDmgBySkill(g)),
        None => None,
    }
}

/// The per-skill `CriticalDamageBySkill` attribute of the group of `skill`, where it has one.
pub open spec fn critical_damage_skill_attribute(skill: SkillType) -> Option<AttributeName> {
    match skill_group(skill) {
        Some(g) => Some(AttributeName::CriticalDamageBySkill(g)),
        None => None,
    }
}

/// The per-skill `CriticalBySkill` attribute of the group of `skill`, where it has one.
pub open spec fn critical_skill_attribute(skill: SkillType) -> Option<AttributeName> {
    match skill_group(skill) {
        Some(g) => Some(AttributeName::CriticalBySkill(g)),
        None => None,
    }
}

/// The per-skill `BonusBySkill` attribute of the group of `skill`, where it has one.
pub open spec fn bonus_skill_attribute(skill: SkillType) -> Option<AttributeName> {
    match skill_group(skill) {
        Some(g) => Some(AttributeName::BonusBySkill(g)),
        None => None,
    }
}

/// The per-skill `ATKRatioBySkill` attribute of the group of `skill`, where it has one.
pub open spec fn atk_ratio_skill_attribute(skill: SkillType) -> Option<AttributeName> {
    match skill_group(skill) {
        Some(g) => Some(AttributeName::ATKRatioBySkill(g)),
        None => None,
    }
}

/// The per-skill `DEFRatioBySkill` attribute of the group of `skill`, where it has one.
pub open spec fn def_ratio_skill_attribute(skill: SkillType) -> Option<AttributeName> {
    match skill_group(skill) {
        Some(g) => Some(AttributeName::DEFRatioBySkill(g)),
        None => None,
    }
}

/// The per-skill `HPRatioBySkill` attribute of the group of `skill`, where it has one.
pub open spec fn hp_ratio_skill_attribute(skill: SkillType) -> Option<AttributeName> {
    match skill_group(skill) {
        Some(g) => Some(AttributeName::HPRatioBySkill(g)),
        None => None,
    }
}

impl AttributeName {
    /// The resistance reduction that applies to hits of one element.
    pub fn res_minus_name_by_element(element: Element) -> (r: AttributeName)
        ensures
            r == AttributeName::ResMinusByElement(element),
    {
        AttributeName::ResMinusByElement(element)
    }

    /// The flat extra damage of hits of one element.
    pub fn extra_dmg_name_by_element(element: Element) -> (r: AttributeName)
        ensures
            r == AttributeName::ExtraDmgByElement(element),
    {
        AttributeName::ExtraDmgByElement(element)
    }

    /// The flat extra damage of one kind of skill, where it has one.
    pub fn extra_dmg_name_by_skill_type(skill: SkillType) -> (r: Option<AttributeName>)
        ensures
            r == extra_dmg_skill_attribute(skill),
    {
        match group_of_skill(skill) {
            Some(g) => Some(AttributeName::ExtraDmgBySkill(g)),
            None => None,
        }
    }

    /// The critical damage of hits of one element.
    pub fn critical_damage_name_by_element(element: Element) -> (r: AttributeName)
        ensures
            r == AttributeName::CriticalDamageByElement(element),
    {
        AttributeName::CriticalDamageByElement(element)
    }

    /// The critical damage of one kind of skill, where it has one.
    pub fn critical_damage_name_by_skill_name(skill: SkillType) -> (r: Option<AttributeName>)
        ensures
            r == critical_damage_skill_attribute(skill),
    {
        match group_of_skill(skill) {
            Some(g) => Some(AttributeName::CriticalDamageBySkill(g)),
            None => None,
        }
    }

    /// The critical rate of hits of one element.
    pub fn critical_name_by_element(element: Element) -> (r: AttributeName)
        ensures
            r == AttributeName::CriticalByElement(element),
    {
        AttributeName::CriticalByElement(element)
    }

    /// The critical rate of one kind of skill, where it has one.
    pub fn critical_name_by_skill_type(skill: SkillType) -> (r: Option<AttributeName>)
        ensures
            r == critical_skill_attribute(skill),
    {
        match group_of_skill(skill) {
            Some(g) => Some(AttributeName::CriticalBySkill(g)),
            None => None,
        }
    }

    /// The damage bonus of hits of one element.
    pub fn bonus_name_by_element(element: Element) -> (r: AttributeName)
        ensures
            r == AttributeName::BonusByElement(element),
    {
        AttributeName::BonusByElement(element)
    }

    /// The damage bonus of one kind of skill, where it has one.
    pub fn bonus_name_by_skill_type(skill: SkillType) -> (r: Option<AttributeName>)
        ensures
            r == bonus_skill_attribute(skill),
    {
        match group_of_skill(skill) {
            Some(g) => Some(AttributeName::BonusBySkill(g)),
            None => None,
        }
    }

    /// The attack multiplier of hits of one element.
    pub fn atk_ratio_name_by_element(element: Element) -> (r: AttributeName)
        ensures
            r == AttributeName::ATKRatioByElement(element),
    {
        AttributeName::ATKRatioByElement(element)
    }

    /// The attack multiplier of one kind of skill, where it has one.
    pub fn atk_ratio_name_by_skill_type(skill: SkillType) -> (r: Option<AttributeName>)
        ensures
            r == atk_ratio_skill_attribute(skill),
    {
        match group_of_skill(skill) {
            Some(g) => Some(AttributeName::ATKRatioBySkill(g)),
            None => None,
        }
    }

    /// The defense multiplier of hits of one element.
    pub fn def_ratio_name_by_element(element: Element) -> (r: AttributeName)
        ensures
            r == AttributeName::DEFRatioByElement(element),
    {
        AttributeName::DEFRatioByElement(element)
    }

    /// The defense multiplier of one kind of skill, where it has one.
    pub fn def_ratio_name_by_skill_type(skill: SkillType) -> (r: Option<AttributeName>)
        ensures
            r == def_ratio_skill_attribute(skill),
    {
        match group_of_skill(skill) {
            Some(g) => Some(AttributeName::DEFRatioBySkill(g)),
            None => None,
        }
    }

    /// The HP multiplier of hits of one element.
    pub fn hp_ratio_name_by_element(element: Element) -> (r: AttributeName)
        ensures
            r == AttributeName::HPRatioByElement(element),
    {
        AttributeName::HPRatioByElement(element)
    }

    /// The HP multiplier of one kind of skill, where it has one.
    pub fn hp_ratio_name_by_skill_type(skill: SkillType) -> (r: Option<AttributeName>)
        ensures
            r == hp_ratio_skill_attribute(skill),
    {
        match group_of_skill(skill) {
            Some(g) => Some(AttributeName::HPRatioBySkill(g)),
            None => None,
        }
    }
}

} // verus!
