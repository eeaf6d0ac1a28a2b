use vstd::prelude::*;
use crate::attribute_graph::{ComplicatedAttributeGraph, lemma_gather_magnitude};
use crate::attribute_name::AttributeName;
use crate::builder::{
    ComplicatedDamageBuilder,
    INPUT_LIMIT,
    atk_names,
    atk_ratio_names,
    bonus_names,
    critical_damage_names,
    def_names,
    def_ratio_names,
    extra_damage_names,
    hp_names,
    hp_ratio_names,
    mastery_amount,
    res_minus_names,
    with_mastery,
};
use crate::composition::{Composition, CompositionMap, UNIT, combine, single};
use crate::element::{Element, SkillType, spec_is_plunging};
use crate::reaction::{amp_bonus, catalyze_bonus, moonelectro_bonus, transformative_bonus};

verus! {

/// The element a hit deals: normal, charged and plunging attacks take the
/// infusion where there is one.
pub open spec fn infused_element(element: Element, skill: SkillType, infusion: Option<Element>) -> Element {
    if skill == SkillType::NormalAttack || skill == SkillType::ChargedAttack || spec_is_plunging(skill) {
        match infusion {
            Some(x) => x,
            None => element,
        }
    } else {
        element
    }
}

/// The element of a hit, as `infused_element` states.
pub fn damage_element(element: Element, skill: SkillType, infusion: Option<Element>) -> (r: Element)
    ensures
        r == infused_element(element, skill, infusion),
        (skill == SkillType::NormalAttack || skill == SkillType::ChargedAttack
            || skill == SkillType::PlungingAttackInAction || skill == SkillType::PlungingAttackOnGround)
            && infusion is Some ==> r == infusion->0,
        !(skill == SkillType::NormalAttack || skill == SkillType::ChargedAttack
            || skill == SkillType::PlungingAttackInAction || skill == SkillType::PlungingAttackOnGround)
            || infusion is None ==> r == element,
{
    if skill == SkillType::NormalAttack || skill == SkillType::ChargedAttack || skill.is_plunging() {
        if let Some(x) = infusion {
            x
        } else {
            element
        }
    } else {
        element
    }
}

/// The reactions whose damage a hit has.
#[derive(Clone, Copy, Debug, PartialEq, Eq, Structural)]
pub struct Reactions {
    pub melt: bool,
    pub vaporize: bool,
    pub spread: bool,
    pub aggravate: bool,
    pub moonfall: bool,
    pub moonelectro: bool,
    pub direct_moonelectro: bool,
}

/// The reactions of a hit of `element`; direct moon-electro-charged damage
/// comes with a positive multiplier alone.
pub open spec fn reactions_for(element: Element, direct_multiplier: int) -> Reactions {
    Reactions {
        melt: element == Element::Pyro || element == Element::Cryo,
        vaporize: element == Element::Pyro || element == Element::Hydro,
        spread: element == Element::Dendro,
        aggravate: element == Element::Electro,
        moonfall: element == Element::Dendro || element == Element::Hydro,
        moonelectro: element == Element::Electro || element == Element::Hydro,
        direct_moonelectro: direct_multiplier > 0,
    }
}

/// No reaction at all: heals and shields have none.
pub open spec fn no_reactions() -> Reactions {
    Reactions {
        melt: false,
        vaporize: false,
        spread: false,
        aggravate: false,
        moonfall: false,
        moonelectro: false,
        direct_moonelectro: false,
    }
}

/// The reactions of a hit, as `reactions_for` states.
pub fn reactions_of(element: Element, direct_multiplier: i64) -> (r: Reactions)
    ensures
        r == reactions_for(element, direct_multiplier as int),
        r.melt == (element == Element::Pyro || element == Element::Cryo),
        r.vaporize == (element == Element::Pyro || element == Element::Hydro),
        r.spread == (element == Element::Dendro),
        r.aggravate == (element == Element::Electro),
        r.moonfall == (element == Element::Dendro || element == Element::Hydro),
        r.moonelectro == (element == Element::Electro || element == Element::Hydro),
        r.direct_moonelectro == (direct_multiplier > 0),
{
    Reactions {
        melt: element == Element::Pyro || element == Element::Cryo,
        vaporize: element == Element::Pyro || element == Element::Hydro,
        spread: element == Element::Dendro,
        aggravate: element == Element::Electro,
        moonfall: element == Element::Dendro || element == Element::Hydro,
        moonelectro: element == Element::Electro || element == Element::Hydro,
        direct_moonelectro: direct_multiplier > 0,
    }
}

/// The extra damage that a plunging attack on ground adds from the graph.
pub open spec fn plunging_extra_damage(attribute: &ComplicatedAttributeGraph, skill: SkillType) -> CompositionMap {
    if skill == SkillType::PlungingAttackOnGround {
        attribute.composition_of(seq![AttributeName::ExtraDmgPlungingAttackLowHigh])
    } else {
        Map::empty()
    }
}

/// `value` clamped to the range from zero to one.
pub open spec fn clamp_unit(value: int) -> int {
    if value < 0 {
        0
    } else if value > UNIT {
        UNIT as int
    } else {
        value
    }
}

/// Every composition that goes into a damage, heal or shield value, with the
/// element, the kind of value and the reactions that apply.
pub struct DamageAnalysis {
    /// The attack.
    pub atk: Composition,
    /// The attack multiplier.
    pub atk_ratio: Composition,
    /// The HP.
    pub hp: Composition,
    /// The HP multiplier.
    pub hp_ratio: Composition,
    /// The defense.
    pub def: Composition,
    /// The defense multiplier.
    pub def_ratio: Composition,
    /// The elemental mastery.
    pub em: Composition,
    /// The elemental-mastery multiplier.
    pub em_ratio: Composition,
    /// The flat extra damage.
    pub extra_damage: Composition,
    /// The damage bonus.
    pub bonus: Composition,
    /// The critical rate.
    pub critical: Composition,
    /// The critical damage.
    pub critical_damage: Composition,
    /// The spread bonus.
    pub spread_compose: Composition,
    /// The aggravate bonus.
    pub aggravate_compose: Composition,
    /// The moonfall bonus.
    pub moonfall_compose: Composition,
    /// The moon-electro-charged bonus.
    pub moonelectro_compose: Composition,
    /// The increase of the moon-electro-charged base.
    pub moonelectro_base_compose: Composition,
    /// The direct moon-electro-charged bonus.
    pub direct_moonelectro_compose: Composition,
    /// The direct moon-electro-charged multiplier.
    pub direct_moonelectro_ratio: Composition,
    /// The melt bonus.
    pub melt_enhance: Composition,
    /// The vaporize bonus.
    pub vaporize_enhance: Composition,
    /// The healing bonus.
    pub healing_bonus: Composition,
    /// The shield strength.
    pub shield_strength: Composition,
    /// The defense reduction.
    pub def_minus: Composition,
    /// The defense penetration.
    pub def_penetration: Composition,
    /// The resistance reduction.
    pub res_minus: Composition,
    pub element: Element,
    pub is_heal: bool,
    pub is_shield: bool,
    pub reactions: Reactions,
}

impl DamageAnalysis {
    /// The critical rate, clamped to the range from zero to one.
    pub fn critical_rate(&self) -> (r: i64)
        ensures
            r == clamp_unit(self.critical.total()),
    {
        let c = self.critical.sum();
        if c < 0 {
            0
        } else if c > UNIT {
            UNIT
        } else {
            c
        }
    }
}

/// The multiplier of melt damage: 2 for a pyro hit on cryo, 1.5 for a cryo hit
/// on pyro.
pub open spec fn melt_ratio(element: Element) -> int {
    if element == Element::Pyro {
        2 * UNIT
    } else {
        3 * UNIT / 2
    }
}

/// The multiplier of vaporize damage: 2 for a hydro hit on pyro, 1.5 for a pyro
/// hit on hydro.
pub open spec fn vaporize_ratio(element: Element) -> int {
    if element == Element::Hydro {
        2 * UNIT
    } else {
        3 * UNIT / 2
    }
}

/// The multiplier of melt damage, as `melt_ratio` states.
pub fn melt_multiplier(element: Element) -> (r: i64)
    ensures
        r == melt_ratio(element),
{
    if element == Element::Pyro {
        2 * UNIT
    } else {
        3 * UNIT / 2
    }
}

/// The multiplier of vaporize damage, as `vaporize_ratio` states.
pub fn vaporize_multiplier(element: Element) -> (r: i64)
    ensures
        r == vaporize_ratio(element),
{
    if element == Element::Hydro {
        2 * UNIT
    } else {
        3 * UNIT / 2
    }
}

/// The share of the level base that spread adds to a hit (1.25).
pub const SPREAD_REACTION_RATIO: i64 = 1_250_000;

/// The share of the level base that aggravate adds to a hit (1.15).
pub const AGGRAVATE_REACTION_RATIO: i64 = 1_150_000;

/// The multiplier of the level base in moonfall damage (2).
pub const MOONFALL_BASE_MULTIPLIER: i64 = 2_000_000;

/// The multiplier of the level base in moon-electro-charged damage (1.8).
pub const MOONELECTRO_BASE_MULTIPLIER: i64 = 1_800_000;

/// The factor of attack in direct moon-electro-charged damage (3).
pub const DIRECT_MOONELECTRO_FACTOR: i64 = 3_000_000;

/// The compositions that go into a damage, heal or shield value.
#[derive(Clone, Copy, Debug, PartialEq, Eq, Structural)]
pub enum Quantity {
    Atk,
    AtkRatio,
    Hp,
    HpRatio,
    Def,
    DefRatio,
    Em,
    EmRatio,
    ExtraDamage,
    Bonus,
    Critical,
    CriticalDamage,
    SpreadCompose,
    AggravateCompose,
    MoonfallCompose,
    MoonelectroCompose,
    MoonelectroBaseCompose,
    DirectMoonelectroCompose,
    DirectMoonelectroRatio,
    MeltEnhance,
    VaporizeEnhance,
    HealingBonus,
    ShieldStrength,
    DefMinus,
    DefPenetration,
    ResMinus,
}

/// The sum of the extra damage that a plunging attack on ground adds from the graph.
pub open spec fn plunging_extra_damage_total(attribute: &ComplicatedAttributeGraph, skill: SkillType) -> int {
    if skill == SkillType::PlungingAttackOnGround {
        attribute.total_of(seq![AttributeName::ExtraDmgPlungingAttackLowHigh])
    } else {
        0
    }
}

impl ComplicatedDamageBuilder {
    /// The composition `q` of a hit of `element` from `skill` with the infusion `fumo`.
    pub open spec fn damage_view(&self, attribute: &ComplicatedAttributeGraph, element: Element, skill: SkillType, fumo: Option<Element>, q: Quantity) -> CompositionMap {
        let e = infused_element(element, skill, fumo);
        match q {
            Quantity::Atk => combine(attribute.composition_of(atk_names()), self.extra_atk@),
            Quantity::AtkRatio => combine(attribute.composition_of(atk_ratio_names(e, skill)), self.ratio_atk@),
            Quantity::Hp => combine(attribute.composition_of(hp_names()), self.extra_hp@),
            Quantity::HpRatio => combine(attribute.composition_of(hp_ratio_names(e, skill)), self.ratio_hp@),
            Quantity::Def => combine(attribute.composition_of(def_names()), self.extra_def@),
            Quantity::DefRatio => combine(attribute.composition_of(def_ratio_names(e, skill)), self.ratio_def@),
            Quantity::Em => combine(attribute.composition_of(ComplicatedAttributeGraph::em_names()), self.extra_em@),
            Quantity::EmRatio => self.em_ratio_view(attribute, e, skill),
            Quantity::ExtraDamage => combine(combine(attribute.composition_of(extra_damage_names(e, skill)), self.extra_damage@), plunging_extra_damage(attribute, skill)),
            Quantity::Bonus => combine(attribute.composition_of(bonus_names(e, skill)), self.extra_bonus@),
            Quantity::Critical => combine(attribute.composition_of(ComplicatedAttributeGraph::critical_names(e, skill)), self.extra_critical_rate@),
            Quantity::CriticalDamage => combine(attribute.composition_of(critical_damage_names(e, skill)), self.extra_critical_damage@),
            Quantity::SpreadCompose => with_mastery(attribute.composition_of(seq![AttributeName::EnhanceSpread]), self.em_total(attribute), catalyze_bonus(self.em_total(attribute))),
            Quantity::AggravateCompose => with_mastery(attribute.composition_of(seq![AttributeName::EnhanceAggravate]), self.em_total(attribute), catalyze_bonus(self.em_total(attribute))),
            Quantity::MoonfallCompose => with_mastery(attribute.composition_of(seq![AttributeName::EnhanceMoonfall]), self.em_total(attribute), transformative_bonus(self.em_total(attribute))),
            Quantity::MoonelectroCompose => self.moonelectro_view(attribute),
            Quantity::MoonelectroBaseCompose => attribute.composition_of(seq![AttributeName::EnhanceMoonelectroBase]),
            Quantity::DirectMoonelectroCompose => self.direct_moonelectro_view(attribute),
            Quantity::DirectMoonelectroRatio => self.direct_moonelectro_ratio@,
            Quantity::MeltEnhance => with_mastery(combine(attribute.composition_of(seq![AttributeName::EnhanceMelt]), self.extra_enhance_melt@), self.em_total(attribute), amp_bonus(self.em_total(attribute))),
            Quantity::VaporizeEnhance => with_mastery(combine(attribute.composition_of(seq![AttributeName::EnhanceVaporize]), self.extra_enhance_vaporize@), self.em_total(attribute), amp_bonus(self.em_total(attribute))),
            Quantity::HealingBonus => Map::<Seq<char>, int>::empty(),
            Quantity::ShieldStrength => Map::<Seq<char>, int>::empty(),
            Quantity::DefMinus => combine(attribute.composition_of(seq![AttributeName::DefMinus]), self.extra_def_minus@),
            Quantity::DefPenetration => combine(attribute.composition_of(seq![AttributeName::DefPenetration]), self.extra_def_penetration@),
            Quantity::ResMinus => combine(attribute.composition_of(res_minus_names(e)), self.extra_res_minus@),
        }
    }

    /// The sum of `damage_view`.
    pub open spec fn damage_total(&self, attribute: &ComplicatedAttributeGraph, element: Element, skill: SkillType, fumo: Option<Element>, q: Quantity) -> int {
        let e = infused_element(element, skill, fumo);
        match q {
            Quantity::Atk => attribute.total_of(atk_names()) + self.extra_atk.total(),
            Quantity::AtkRatio => attribute.total_of(atk_ratio_names(e, skill)) + self.ratio_atk.total(),
            Quantity::Hp => attribute.total_of(hp_names()) + self.extra_hp.total(),
            Quantity::HpRatio => attribute.total_of(hp_ratio_names(e, skill)) + self.ratio_hp.total(),
            Quantity::Def => attribute.total_of(def_names()) + self.extra_def.total(),
            Quantity::DefRatio => attribute.total_of(def_ratio_names(e, skill)) + self.ratio_def.total(),
            Quantity::Em => attribute.total_of(ComplicatedAttributeGraph::em_names()) + self.extra_em.total(),
            Quantity::EmRatio => self.em_ratio_total(attribute, e, skill),
            Quantity::ExtraDamage => attribute.total_of(extra_damage_names(e, skill)) + self.extra_damage.total() + plunging_extra_damage_total(attribute, skill),
            Quantity::Bonus => attribute.total_of(bonus_names(e, skill)) + self.extra_bonus.total(),
            Quantity::Critical => attribute.total_of(ComplicatedAttributeGraph::critical_names(e, skill)) + self.extra_critical_rate.total(),
            Quantity::CriticalDamage => attribute.total_of(critical_damage_names(e, skill)) + self.extra_critical_damage.total(),
            Quantity::SpreadCompose => attribute.total_of(seq![AttributeName::EnhanceSpread]) + mastery_amount(self.em_total(attribute), catalyze_bonus(self.em_total(attribute))),
            Quantity::AggravateCompose => attribute.total_of(seq![AttributeName::EnhanceAggravate]) + mastery_amount(self.em_total(attribute), catalyze_bonus(self.em_total(attribute))),
            Quantity::MoonfallCompose => attribute.total_of(seq![AttributeName::EnhanceMoonfall]) + mastery_amount(self.em_total(attribute), transformative_bonus(self.em_total(attribute))),
            Quantity::MoonelectroCompose => self.moonelectro_total(attribute),
            Quantity::MoonelectroBaseCompose => attribute.total_of(seq![AttributeName::EnhanceMoonelectroBase]),
            Quantity::DirectMoonelectroCompose => self.direct_moonelectro_total(attribute),
            Quantity::DirectMoonelectroRatio => self.direct_moonelectro_ratio.total(),
            Quantity::MeltEnhance => attribute.total_of(seq![AttributeName::EnhanceMelt]) + self.extra_enhance_melt.total() + mastery_amount(self.em_total(attribute), amp_bonus(self.em_total(attribute))),
            Quantity::VaporizeEnhance => attribute.total_of(seq![AttributeName::EnhanceVaporize]) + self.extra_enhance_vaporize.total() + mastery_amount(self.em_total(attribute), amp_bonus(self.em_total(attribute))),
            Quantity::HealingBonus => 0,
            Quantity::ShieldStrength => 0,
            Quantity::DefMinus => attribute.total_of(seq![AttributeName::DefMinus]) + self.extra_def_minus.total(),
            Quantity::DefPenetration => attribute.total_of(seq![AttributeName::DefPenetration]) + self.extra_def_penetration.total(),
            Quantity::ResMinus => attribute.total_of(res_minus_names(e)) + self.extra_res_minus.total(),
        }
    }

    /// The composition `q` of a heal.
    pub open spec fn heal_view(&self, attribute: &ComplicatedAttributeGraph, q: Quantity) -> CompositionMap {
        match q {
            Quantity::Atk => combine(attribute.composition_of(atk_names()), self.extra_atk@),
            Quantity::AtkRatio => self.ratio_atk@,
            Quantity::Hp => combine(attribute.composition_of(hp_names()), self.extra_hp@),
            Quantity::HpRatio => self.ratio_hp@,
            Quantity::Def => combine(attribute.composition_of(def_names()), self.extra_def@),
            Quantity::DefRatio => self.ratio_def@,
            Quantity::Em => combine(attribute.composition_of(ComplicatedAttributeGraph::em_names()), self.extra_em@),
            Quantity::EmRatio => self.ratio_em@,
            Quantity::ExtraDamage => self.extra_damage@,
            Quantity::Bonus => Map::<Seq<char>, int>::empty(),
            Quantity::Critical => Map::<Seq<char>, int>::empty(),
            Quantity::CriticalDamage => Map::<Seq<char>, int>::empty(),
            Quantity::SpreadCompose => Map::<Seq<char>, int>::empty(),
            Quantity::AggravateCompose => Map::<Seq<char>, int>::empty(),
            Quantity::MoonfallCompose => Map::<Seq<char>, int>::empty(),
            Quantity::MoonelectroCompose => Map::<Seq<char>, int>::empty(),
            Quantity::MoonelectroBaseCompose => Map::<Seq<char>, int>::empty(),
            Quantity::DirectMoonelectroCompose => Map::<Seq<char>, int>::empty(),
            Quantity::DirectMoonelectroRatio => Map::<Seq<char>, int>::empty(),
            Quantity::MeltEnhance => Map::<Seq<char>, int>::empty(),
            Quantity::VaporizeEnhance => Map::<Seq<char>, int>::empty(),
            Quantity::HealingBonus => combine(attribute.composition_of(seq![AttributeName::HealingBonus]), self.extra_healing_bonus@),
            Quantity::ShieldStrength => Map::<Seq<char>, int>::empty(),
            Quantity::DefMinus => Map::<Seq<char>, int>::empty(),
            Quantity::DefPenetration => Map::<Seq<char>, int>::empty(),
            Quantity::ResMinus => Map::<Seq<char>, int>::empty(),
        }
    }

    /// The sum of `heal_view`.
    pub open spec fn heal_total(&self, attribute: &ComplicatedAttributeGraph, q: Quantity) -> int {
        match q {
            Quantity::Atk => attribute.total_of(atk_names()) + self.extra_atk.total(),
            Quantity::AtkRatio => self.ratio_atk.total(),
            Quantity::Hp => attribute.total_of(hp_names()) + self.extra_hp.total(),
            Quantity::HpRatio => self.ratio_hp.total(),
            Quantity::Def => attribute.total_of(def_names()) + self.extra_def.total(),
            Quantity::DefRatio => self.ratio_def.total(),
            Quantity::Em => attribute.total_of(ComplicatedAttributeGraph::em_names()) + self.extra_em.total(),
            Quantity::EmRatio => self.ratio_em.total(),
            Quantity::ExtraDamage => self.extra_damage.total(),
            Quantity::Bonus => 0,
            Quantity::Critical => 0,
            Quantity::CriticalDamage => 0,
            Quantity::SpreadCompose => 0,
            Quantity::AggravateCompose => 0,
            Quantity::MoonfallCompose => 0,
            Quantity::MoonelectroCompose => 0,
            Quantity::MoonelectroBaseCompose => 0,
            Quantity::DirectMoonelectroCompose => 0,
            Quantity::DirectMoonelectroRatio => 0,
            Quantity::MeltEnhance => 0,
            Quantity::VaporizeEnhance => 0,
            Quantity::HealingBonus => attribute.total_of(seq![AttributeName::HealingBonus]) + self.extra_healing_bonus.total(),
            Quantity::ShieldStrength => 0,
            Quantity::DefMinus => 0,
            Quantity::DefPenetration => 0,
            Quantity::ResMinus => 0,
        }
    }

    /// The composition `q` of a shield of `element`.
    pub open spec fn shield_view(&self, attribute: &ComplicatedAttributeGraph, element: Element, q: Quantity) -> CompositionMap {
        match q {
            Quantity::Atk => combine(attribute.composition_of(atk_names()), self.extra_atk@),
            Quantity::AtkRatio => self.ratio_atk@,
            Quantity::Hp => combine(attribute.composition_of(hp_names()), self.extra_hp@),
            Quantity::HpRatio => self.ratio_hp@,
            Quantity::Def => combine(attribute.composition_of(def_names()), self.extra_def@),
            Quantity::DefRatio => self.ratio_def@,
            Quantity::Em => combine(attribute.composition_of(ComplicatedAttributeGraph::em_names()), self.extra_em@),
            Quantity::EmRatio => self.ratio_em@,
            Quantity::ExtraDamage => self.extra_damage@,
            Quantity::Bonus => Map::<Seq<char>, int>::empty(),
            Quantity::Critical => Map::<Seq<char>, int>::empty(),
            Quantity::CriticalDamage => Map::<Seq<char>, int>::empty(),
            Quantity::SpreadCompose => Map::<Seq<char>, int>::empty(),
            Quantity::AggravateCompose => Map::<Seq<char>, int>::empty(),
            Quantity::MoonfallCompose => Map::<Seq<char>, int>::empty(),
            Quantity::MoonelectroCompose => Map::<Seq<char>, int>::empty(),
            Quantity::MoonelectroBaseCompose => Map::<Seq<char>, int>::empty(),
            Quantity::DirectMoonelectroCompose => Map::<Seq<char>, int>::empty(),
            Quantity::DirectMoonelectroRatio => Map::<Seq<char>, int>::empty(),
            Quantity::MeltEnhance => Map::<Seq<char>, int>::empty(),
            Quantity::VaporizeEnhance => Map::<Seq<char>, int>::empty(),
            Quantity::HealingBonus => Map::<Seq<char>, int>::empty(),
            Quantity::ShieldStrength => attribute.composition_of(seq![AttributeName::ShieldStrength]),
            Quantity::DefMinus => Map::<Seq<char>, int>::empty(),
            Quantity::DefPenetration => Map::<Seq<char>, int>::empty(),
            Quantity::ResMinus => Map::<Seq<char>, int>::empty(),
        }
    }

    /// The sum of `shield_view`.
    pub open spec fn shield_total(&self, attribute: &ComplicatedAttributeGraph, element: Element, q: Quantity) -> int {
        match q {
            Quantity::Atk => attribute.total_of(atk_names()) + self.extra_atk.total(),
            Quantity::AtkRatio => self.ratio_atk.total(),
            Quantity::Hp => attribute.total_of(hp_names()) + self.extra_hp.total(),
            Quantity::HpRatio => self.ratio_hp.total(),
            Quantity::Def => attribute.total_of(def_names()) + self.extra_def.total(),
            Quantity::DefRatio => self.ratio_def.total(),
            Quantity::Em => attribute.total_of(ComplicatedAttributeGraph::em_names()) + self.extra_em.total(),
            Quantity::EmRatio => self.ratio_em.total(),
            Quantity::ExtraDamage => self.extra_damage.total(),
            Quantity::Bonus => 0,
            Quantity::Critical => 0,
            Quantity::CriticalDamage => 0,
            Quantity::SpreadCompose => 0,
            Quantity::AggravateCompose => 0,
            Quantity::MoonfallCompose => 0,
            Quantity::MoonelectroCompose => 0,
            Quantity::MoonelectroBaseCompose => 0,
            Quantity::DirectMoonelectroCompose => 0,
            Quantity::DirectMoonelectroRatio => 0,
            Quantity::MeltEnhance => 0,
            Quantity::VaporizeEnhance => 0,
            Quantity::HealingBonus => 0,
            Quantity::ShieldStrength => attribute.total_of(seq![AttributeName::ShieldStrength]),
            Quantity::DefMinus => 0,
            Quantity::DefPenetration => 0,
            Quantity::ResMinus => 0,
        }
    }

    /// The compositions of a hit of `element` from `skill`, where normal,
    /// charged and plunging attacks take the infusion `fumo` where there is one.
    #[verifier::rlimit(100)]
    pub fn damage_analysis(
        &self,
        attribute: &ComplicatedAttributeGraph,
        element: Element,
        skill: SkillType,
        fumo: Option<Element>,
    ) -> (r: DamageAnalysis)
        requires
            self.magnitude() + attribute.magnitude() <= INPUT_LIMIT,
        ensures
            r.element == infused_element(element, skill, fumo),
            !r.is_heal,
            !r.is_shield,
            r.reactions == reactions_for(r.element, self.direct_moonelectro_ratio.total()),
            r.atk@ == self.damage_view(attribute, element, skill, fumo, Quantity::Atk),
            r.atk.total() == self.damage_total(attribute, element, skill, fumo, Quantity::Atk),
            r.atk_ratio@ == self.damage_view(attribute, element, skill, fumo, Quantity::AtkRatio),
            r.atk_ratio.total() == self.damage_total(attribute, element, skill, fumo, Quantity::AtkRatio),
            r.hp@ == self.damage_view(attribute, element, skill, fumo, Quantity::Hp),
            r.hp.total() == self.damage_total(attribute, element, skill, fumo, Quantity::Hp),
            r.hp_ratio@ == self.damage_view(attribute, element, skill, fumo, Quantity::HpRatio),
            r.hp_ratio.total() == self.damage_total(attribute, element, skill, fumo, Quantity::HpRatio),
            r.def@ == self.damage_view(attribute, element, skill, fumo, Quantity::Def),
            r.def.total() == self.damage_total(attribute, element, skill, fumo, Quantity::Def),
            r.def_ratio@ == self.damage_view(attribute, element, skill, fumo, Quantity::DefRatio),
            r.def_ratio.total() == self.damage_total(attribute, element, skill, fumo, Quantity::DefRatio),
            r.em@ == self.damage_view(attribute, element, skill, fumo, Quantity::Em),
            r.em.total() == self.damage_total(attribute, element, skill, fumo, Quantity::Em),
            r.em_ratio@ == self.damage_view(attribute, element, skill, fumo, Quantity::EmRatio),
            r.em_ratio.total() == self.damage_total(attribute, element, skill, fumo, Quantity::EmRatio),
            r.extra_damage@ == self.damage_view(attribute, element, skill, fumo, Quantity::ExtraDamage),
            r.extra_damage.total() == self.damage_total(attribute, element, skill, fumo, Quantity::ExtraDamage),
            r.bonus@ == self.damage_view(attribute, element, skill, fumo, Quantity::Bonus),
            r.bonus.total() == self.damage_total(attribute, element, skill, fumo, Quantity::Bonus),
            r.critical@ == self.damage_view(attribute, element, skill, fumo, Quantity::Critical),
            r.critical.total() == self.damage_total(attribute, element, skill, fumo, Quantity::Critical),
            r.critical_damage@ == self.damage_view(attribute, element, skill, fumo, Quantity::CriticalDamage),
            r.critical_damage.total() == self.damage_total(attribute, element, skill, fumo, Quantity::CriticalDamage),
            r.spread_compose@ == self.damage_view(attribute, element, skill, fumo, Quantity::SpreadCompose),
            r.spread_compose.total() == self.damage_total(attribute, element, skill, fumo, Quantity::SpreadCompose),
            r.aggravate_compose@ == self.damage_view(attribute, element, skill, fumo, Quantity::AggravateCompose),
            r.aggravate_compose.total() == self.damage_total(attribute, element, skill, fumo, Quantity::AggravateCompose),
            r.moonfall_compose@ == self.damage_view(attribute, element, skill, fumo, Quantity::MoonfallCompose),
            r.moonfall_compose.total() == self.damage_total(attribute, element, skill, fumo, Quantity::MoonfallCompose),
            r.moonelectro_compose@ == self.damage_view(attribute, element, skill, fumo, Quantity::MoonelectroCompose),
            r.moonelectro_compose.total() == self.damage_total(attribute, element, skill, fumo, Quantity::MoonelectroCompose),
            r.moonelectro_base_compose@ == self.damage_view(attribute, element, skill, fumo, Quantity::MoonelectroBaseCompose),
            r.moonelectro_base_compose.total() == self.damage_total(attribute, element, skill, fumo, Quantity::MoonelectroBaseCompose),
            r.direct_moonelectro_compose@ == self.damage_view(attribute, element, skill, fumo, Quantity::DirectMoonelectroCompose),
            r.direct_moonelectro_compose.total() == self.damage_total(attribute, element, skill, fumo, Quantity::DirectMoonelectroCompose),
            r.direct_moonelectro_ratio@ == self.damage_view(attribute, element, skill, fumo, Quantity::DirectMoonelectroRatio),
            r.direct_moonelectro_ratio.total() == self.damage_total(attribute, element, skill, fumo, Quantity::DirectMoonelectroRatio),
            r.melt_enhance@ == self.damage_view(attribute, element, skill, fumo, Quantity::MeltEnhance),
            r.melt_enhance.total() == self.damage_total(attribute, element, skill, fumo, Quantity::MeltEnhance),
            r.vaporize_enhance@ == self.damage_view(attribute, element, skill, fumo, Quantity::VaporizeEnhance),
            r.vaporize_enhance.total() == self.damage_total(attribute, element, skill, fumo, Quantity::VaporizeEnhance),
            r.healing_bonus@ == self.damage_view(attribute, element, skill, fumo, Quantity::HealingBonus),
            r.healing_bonus.total() == self.damage_total(attribute, element, skill, fumo, Quantity::HealingBonus),
            r.shield_strength@ == self.damage_view(attribute, element, skill, fumo, Quantity::ShieldStrength),
            r.shield_strength.total() == self.damage_total(attribute, element, skill, fumo, Quantity::ShieldStrength),
            r.def_minus@ == self.damage_view(attribute, element, skill, fumo, Quantity::DefMinus),
            r.def_minus.total() == self.damage_total(attribute, element, skill, fumo, Quantity::DefMinus),
            r.def_penetration@ == self.damage_view(attribute, element, skill, fumo, Quantity::DefPenetration),
            r.def_penetration.total() == self.damage_total(attribute, element, skill, fumo, Quantity::DefPenetration),
            r.res_minus@ == self.damage_view(attribute, element, skill, fumo, Quantity::ResMinus),
            r.res_minus.total() == self.damage_total(attribute, element, skill, fumo, Quantity::ResMinus),
            (skill == SkillType::NormalAttack || skill == SkillType::ChargedAttack
                || skill == SkillType::PlungingAttackInAction || skill == SkillType::PlungingAttackOnGround)
                && fumo is Some ==> r.element == fumo->0,
            !(skill == SkillType::NormalAttack || skill == SkillType::ChargedAttack
                || skill == SkillType::PlungingAttackInAction || skill == SkillType::PlungingAttackOnGround)
                || fumo is None ==> r.element == element,
            r.reactions.melt == (r.element == Element::Pyro || r.element == Element::Cryo),
            r.reactions.vaporize == (r.element == Element::Pyro || r.element == Element::Hydro),
            r.reactions.spread == (r.element == Element::Dendro),
            r.reactions.aggravate == (r.element == Element::Electro),
            r.reactions.moonfall == (r.element == Element::Dendro || r.element == Element::Hydro),
            r.reactions.moonelectro == (r.element == Element::Electro || r.element == Element::Hydro),
            r.reactions.direct_moonelectro == (self.direct_moonelectro_ratio.total() > 0),
            r.direct_moonelectro_ratio@ == self.direct_moonelectro_ratio@,
            r.direct_moonelectro_ratio.total() == self.direct_moonelectro_ratio.total(),
            r.healing_bonus@ == Map::<Seq<char>, int>::empty(),
            r.healing_bonus.total() == 0,
            r.shield_strength@ == Map::<Seq<char>, int>::empty(),
            r.shield_strength.total() == 0,
            r.atk@ == combine(combine(combine(combine(attribute.composition_of(seq![AttributeName::ATKBase]), attribute.composition_of(seq![AttributeName::ATKPercentage])), attribute.composition_of(seq![AttributeName::ATKFixed])), attribute.composition_of(seq![AttributeName::ATKFromSecondaryConversion])), self.extra_atk@),
            r.atk.total() == attribute.total_of(seq![AttributeName::ATKBase]) + attribute.total_of(seq![AttributeName::ATKPercentage]) + attribute.total_of(seq![AttributeName::ATKFixed]) + attribute.total_of(seq![AttributeName::ATKFromSecondaryConversion]) + self.extra_atk.total(),
            r.def@ == combine(combine(combine(attribute.composition_of(seq![AttributeName::DEFBase]), attribute.composition_of(seq![AttributeName::DEFPercentage])), attribute.composition_of(seq![AttributeName::DEFFixed])), self.extra_def@),
            r.def.total() == attribute.total_of(seq![AttributeName::DEFBase]) + attribute.total_of(seq![AttributeName::DEFPercentage]) + attribute.total_of(seq![AttributeName::DEFFixed]) + self.extra_def.total(),
            r.hp@ == combine(combine(combine(attribute.composition_of(seq![AttributeName::HPBase]), attribute.composition_of(seq![AttributeName::HPPercentage])), attribute.composition_of(seq![AttributeName::HPFixed])), self.extra_hp@),
            r.hp.total() == attribute.total_of(seq![AttributeName::HPBase]) + attribute.total_of(seq![AttributeName::HPPercentage]) + attribute.total_of(seq![AttributeName::HPFixed]) + self.extra_hp.total(),
            r.em@ == combine(combine(attribute.composition_of(seq![AttributeName::ElementalMastery]), attribute.composition_of(seq![AttributeName::ElementalMasteryExtra])), self.extra_em@),
            r.em.total() == attribute.total_of(seq![AttributeName::ElementalMastery]) + attribute.total_of(seq![AttributeName::ElementalMasteryExtra]) + self.extra_em.total(),
            (self.extra_em.total() + attribute.total_of(seq![AttributeName::ElementalMastery]) + attribute.total_of(seq![AttributeName::ElementalMasteryExtra])) > 0 ==> r.melt_enhance@ == combine(combine(attribute.composition_of(seq![AttributeName::EnhanceMelt]), self.extra_enhance_melt@), single(seq!['\u{7cbe}', '\u{901a}'], (25 * (self.extra_em.total() + attribute.total_of(seq![AttributeName::ElementalMastery]) + attribute.total_of(seq![AttributeName::ElementalMasteryExtra])) * UNIT) / (9 * ((self.extra_em.total() + attribute.total_of(seq![AttributeName::ElementalMastery]) + attribute.total_of(seq![AttributeName::ElementalMasteryExtra])) + 1400 * UNIT)))),
            (self.extra_em.total() + attribute.total_of(seq![AttributeName::ElementalMastery]) + attribute.total_of(seq![AttributeName::ElementalMasteryExtra])) <= 0 ==> r.melt_enhance@ == combine(attribute.composition_of(seq![AttributeName::EnhanceMelt]), self.extra_enhance_melt@),
            r.melt_enhance.total() == attribute.total_of(seq![AttributeName::EnhanceMelt]) + self.extra_enhance_melt.total() + if (self.extra_em.total() + attribute.total_of(seq![AttributeName::ElementalMastery]) + attribute.total_of(seq![AttributeName::ElementalMasteryExtra])) > 0 {
                (25 * (self.extra_em.total() + attribute.total_of(seq![AttributeName::ElementalMastery]) + attribute.total_of(seq![AttributeName::ElementalMasteryExtra])) * UNIT) / (9 * ((self.extra_em.total() + attribute.total_of(seq![AttributeName::ElementalMastery]) + attribute.total_of(seq![AttributeName::ElementalMasteryExtra])) + 1400 * UNIT))
            } else {
                0
            },
            (self.extra_em.total() + attribute.total_of(seq![AttributeName::ElementalMastery]) + attribute.total_of(seq![AttributeName::ElementalMasteryExtra])) > 0 ==> r.vaporize_enhance@ == combine(combine(attribute.composition_of(seq![AttributeName::EnhanceVaporize]), self.extra_enhance_vaporize@), single(seq!['\u{7cbe}', '\u{901a}'], (25 * (self.extra_em.total() + attribute.total_of(seq![AttributeName::ElementalMastery]) + attribute.total_of(seq![AttributeName::ElementalMasteryExtra])) * UNIT) / (9 * ((self.extra_em.total() + attribute.total_of(seq![AttributeName::ElementalMastery]) + attribute.total_of(seq![AttributeName::ElementalMasteryExtra])) + 1400 * UNIT)))),
            (self.extra_em.total() + attribute.total_of(seq![AttributeName::ElementalMastery]) + attribute.total_of(seq![AttributeName::ElementalMasteryExtra])) <= 0 ==> r.vaporize_enhance@ == combine(attribute.composition_of(seq![AttributeName::EnhanceVaporize]), self.extra_enhance_vaporize@),
            r.vaporize_enhance.total() == attribute.total_of(seq![AttributeName::EnhanceVaporize]) + self.extra_enhance_vaporize.total() + if (self.extra_em.total() + attribute.total_of(seq![AttributeName::ElementalMastery]) + attribute.total_of(seq![AttributeName::ElementalMasteryExtra])) > 0 {
                (25 * (self.extra_em.total() + attribute.total_of(seq![AttributeName::ElementalMastery]) + attribute.total_of(seq![AttributeName::ElementalMasteryExtra])) * UNIT) / (9 * ((self.extra_em.total() + attribute.total_of(seq![AttributeName::ElementalMastery]) + attribute.total_of(seq![AttributeName::ElementalMasteryExtra])) + 1400 * UNIT))
            } else {
                0
            },
            (self.extra_em.total() + attribute.total_of(seq![AttributeName::ElementalMastery]) + attribute.total_of(seq![AttributeName::ElementalMasteryExtra])) > 0 ==> r.spread_compose@ == combine(attribute.composition_of(seq![AttributeName::EnhanceSpread]), single(seq!['\u{7cbe}', '\u{901a}'], (5 * (self.extra_em.total() + attribute.total_of(seq![AttributeName::ElementalMastery]) + attribute.total_of(seq![AttributeName::ElementalMasteryExtra])) * UNIT) / ((self.extra_em.total() + attribute.total_of(seq![AttributeName::ElementalMastery]) + attribute.total_of(seq![AttributeName::ElementalMasteryExtra])) + 1200 * UNIT))),
            (self.extra_em.total() + attribute.total_of(seq![AttributeName::ElementalMastery]) + attribute.total_of(seq![AttributeName::ElementalMasteryExtra])) <= 0 ==> r.spread_compose@ == attribute.composition_of(seq![AttributeName::EnhanceSpread]),
            r.spread_compose.total() == attribute.total_of(seq![AttributeName::EnhanceSpread]) + if (self.extra_em.total() + attribute.total_of(seq![AttributeName::ElementalMastery]) + attribute.total_of(seq![AttributeName::ElementalMasteryExtra])) > 0 {
                (5 * (self.extra_em.total() + attribute.total_of(seq![AttributeName::ElementalMastery]) + attribute.total_of(seq![AttributeName::ElementalMasteryExtra])) * UNIT) / ((self.extra_em.total() + attribute.total_of(seq![AttributeName::ElementalMastery]) + attribute.total_of(seq![AttributeName::ElementalMasteryExtra])) + 1200 * UNIT)
            } else {
                0
            },
            (self.extra_em.total() + attribute.total_of(seq![AttributeName::ElementalMastery]) + attribute.total_of(seq![AttributeName::ElementalMasteryExtra])) > 0 ==> r.aggravate_compose@ == combine(attribute.composition_of(seq![AttributeName::EnhanceAggravate]), single(seq!['\u{7cbe}', '\u{901a}'], (5 * (self.extra_em.total() + attribute.total_of(seq![AttributeName::ElementalMastery]) + attribute.total_of(seq![AttributeName::ElementalMasteryExtra])) * UNIT) / ((self.extra_em.total() + attribute.total_of(seq![AttributeName::ElementalMastery]) + attribute.total_of(seq![AttributeName::ElementalMasteryExtra])) + 1200 * UNIT))),
            (self.extra_em.total() + attribute.total_of(seq![AttributeName::ElementalMastery]) + attribute.total_of(seq![AttributeName::ElementalMasteryExtra])) <= 0 ==> r.aggravate_compose@ == attribute.composition_of(seq![AttributeName::EnhanceAggravate]),
            r.aggravate_compose.total() == attribute.total_of(seq![AttributeName::EnhanceAggravate]) + if (self.extra_em.total() + attribute.total_of(seq![AttributeName::ElementalMastery]) + attribute.total_of(seq![AttributeName::ElementalMasteryExtra])) > 0 {
                (5 * (self.extra_em.total() + attribute.total_of(seq![AttributeName::ElementalMastery]) + attribute.total_of(seq![AttributeName::ElementalMasteryExtra])) * UNIT) / ((self.extra_em.total() + attribute.total_of(seq![AttributeName::ElementalMastery]) + attribute.total_of(seq![AttributeName::ElementalMasteryExtra])) + 1200 * UNIT)
            } else {
                0
            },
            (self.extra_em.total() + attribute.total_of(seq![AttributeName::ElementalMastery]) + attribute.total_of(seq![AttributeName::ElementalMasteryExtra])) > 0 ==> r.moonfall_compose@ == combine(attribute.composition_of(seq![AttributeName::EnhanceMoonfall]), single(seq!['\u{7cbe}', '\u{901a}'], (16 * (self.extra_em.total() + attribute.total_of(seq![AttributeName::ElementalMastery]) + attribute.total_of(seq![AttributeName::ElementalMasteryExtra])) * UNIT) / ((self.extra_em.total() + attribute.total_of(seq![AttributeName::ElementalMastery]) + attribute.total_of(seq![AttributeName::ElementalMasteryExtra])) + 2000 * UNIT))),
            (self.extra_em.total() + attribute.total_of(seq![AttributeName::ElementalMastery]) + attribute.total_of(seq![AttributeName::ElementalMasteryExtra])) <= 0 ==> r.moonfall_compose@ == attribute.composition_of(seq![AttributeName::EnhanceMoonfall]),
            r.moonfall_compose.total() == attribute.total_of(seq![AttributeName::EnhanceMoonfall]) + if (self.extra_em.total() + attribute.total_of(seq![AttributeName::ElementalMastery]) + attribute.total_of(seq![AttributeName::ElementalMasteryExtra])) > 0 {
                (16 * (self.extra_em.total() + attribute.total_of(seq![AttributeName::ElementalMastery]) + attribute.total_of(seq![AttributeName::ElementalMasteryExtra])) * UNIT) / ((self.extra_em.total() + attribute.total_of(seq![AttributeName::ElementalMastery]) + attribute.total_of(seq![AttributeName::ElementalMasteryExtra])) + 2000 * UNIT)
            } else {
                0
            },
            (self.extra_em.total() + attribute.total_of(seq![AttributeName::ElementalMastery]) + attribute.total_of(seq![AttributeName::ElementalMasteryExtra])) > 0 ==> r.moonelectro_compose@ == combine(attribute.composition_of(seq![AttributeName::EnhanceMoonelectro]), single(seq!['\u{7cbe}', '\u{901a}'], (6 * (self.extra_em.total() + attribute.total_of(seq![AttributeName::ElementalMastery]) + attribute.total_of(seq![AttributeName::ElementalMasteryExtra])) * UNIT) / ((self.extra_em.total() + attribute.total_of(seq![AttributeName::ElementalMastery]) + attribute.total_of(seq![AttributeName::ElementalMasteryExtra])) + 2000 * UNIT))),
            (self.extra_em.total() + attribute.total_of(seq![AttributeName::ElementalMastery]) + attribute.total_of(seq![AttributeName::ElementalMasteryExtra])) <= 0 ==> r.moonelectro_compose@ == attribute.composition_of(seq![AttributeName::EnhanceMoonelectro]),
            r.moonelectro_compose.total() == attribute.total_of(seq![AttributeName::EnhanceMoonelectro]) + if (self.extra_em.total() + attribute.total_of(seq![AttributeName::ElementalMastery]) + attribute.total_of(seq![AttributeName::ElementalMasteryExtra])) > 0 {
                (6 * (self.extra_em.total() + attribute.total_of(seq![AttributeName::ElementalMastery]) + attribute.total_of(seq![AttributeName::ElementalMasteryExtra])) * UNIT) / ((self.extra_em.total() + attribute.total_of(seq![AttributeName::ElementalMastery]) + attribute.total_of(seq![AttributeName::ElementalMasteryExtra])) + 2000 * UNIT)
            } else {
                0
            },
            (self.extra_em.total() + attribute.total_of(seq![AttributeName::ElementalMastery]) + attribute.total_of(seq![AttributeName::ElementalMasteryExtra])) > 0 ==> r.direct_moonelectro_compose@ == combine(attribute.composition_of(seq![AttributeName::EnhanceMoonelectro]), single(seq!['\u{7cbe}', '\u{901a}'], (6 * (self.extra_em.total() + attribute.total_of(seq![AttributeName::ElementalMastery]) + attribute.total_of(seq![AttributeName::ElementalMasteryExtra])) * UNIT) / ((self.extra_em.total() + attribute.total_of(seq![AttributeName::ElementalMastery]) + attribute.total_of(seq![AttributeName::ElementalMasteryExtra])) + 2000 * UNIT))),
            (self.extra_em.total() + attribute.total_of(seq![AttributeName::ElementalMastery]) + attribute.total_of(seq![AttributeName::ElementalMasteryExtra])) <= 0 ==> r.direct_moonelectro_compose@ == attribute.composition_of(seq![AttributeName::EnhanceMoonelectro]),
            r.direct_moonelectro_compose.total() == attribute.total_of(seq![AttributeName::EnhanceMoonelectro]) + if (self.extra_em.total() + attribute.total_of(seq![AttributeName::ElementalMastery]) + attribute.total_of(seq![AttributeName::ElementalMasteryExtra])) > 0 {
                (6 * (self.extra_em.total() + attribute.total_of(seq![AttributeName::ElementalMastery]) + attribute.total_of(seq![AttributeName::ElementalMasteryExtra])) * UNIT) / ((self.extra_em.total() + attribute.total_of(seq![AttributeName::ElementalMastery]) + attribute.total_of(seq![AttributeName::ElementalMasteryExtra])) + 2000 * UNIT)
            } else {
                0
            },
    {
        proof {
            self.lemma_fields_bounded();
            lemma_gather_magnitude(attribute.contributions(), seq![]);
        }
        let element = damage_element(element, skill, fumo);
        let mut extra_damage = self.get_extra_damage_composition(attribute, element, skill);
        let plunging = if skill == SkillType::PlungingAttackOnGround {
            attribute.get_attribute_composition(AttributeName::ExtraDmgPlungingAttackLowHigh)
        } else {
            Composition::new()
        };
        extra_damage.merge(&plunging);
        let direct_multiplier = self.direct_moonelectro_ratio.sum();
        let atk = self.get_atk_composition(attribute);
        let atk_ratio = self.get_atk_ratio_composition(attribute, element, skill);
        let hp = self.get_hp_composition(attribute);
        let hp_ratio = self.get_hp_ratio_composition(attribute, element, skill);
        let def = self.get_def_composition(attribute);
        let def_ratio = self.get_def_ratio_composition(attribute, element, skill);
        let em = self.get_em_composition(attribute);
        let em_ratio = self.get_em_ratio_composition(attribute, element, skill);
        let bonus = self.get_bonus_composition(attribute, element, skill);
        let critical = self.get_critical_composition(attribute, element, skill);
        let critical_damage = self.get_critical_damage_composition(attribute, element, skill);
        let spread_compose = self.get_enhance_spread_composition(attribute);
        let aggravate_compose = self.get_enhance_aggravate_composition(attribute);
        let moonfall_compose = self.get_enhance_moonfall_composition(attribute);
        let moonelectro_compose = self.get_enhance_moonelectro_composition(attribute);
        let moonelectro_base_compose = self.get_enhance_moonelectro_base_composition(attribute);
        let direct_moonelectro_compose = self.get_enhance_direct_moonelectro_composition(attribute);
        let direct_moonelectro_ratio = self.direct_moonelectro_ratio.duplicate();
        let melt_enhance = self.get_enhance_melt_composition(attribute);
        let vaporize_enhance = self.get_enhance_vaporize_composition(attribute);
        let healing_bonus = Composition::new();
        let shield_strength = Composition::new();
        let def_minus = self.get_def_minus_composition(attribute);
        let def_penetration = self.get_def_penetration_composition(attribute);
        let res_minus = self.get_res_minus_composition(attribute, element);
        DamageAnalysis {
            atk,
            atk_ratio,
            hp,
            hp_ratio,
            def,
            def_ratio,
            em,
            em_ratio,
            extra_damage,
            bonus,
            critical,
            critical_damage,
            spread_compose,
            aggravate_compose,
            moonfall_compose,
            moonelectro_compose,
            moonelectro_base_compose,
            direct_moonelectro_compose,
            direct_moonelectro_ratio,
            melt_enhance,
            vaporize_enhance,
            healing_bonus,
            shield_strength,
            def_minus,
            def_penetration,
            res_minus,
            element,
            is_heal: false,
            is_shield: false,
            reactions: reactions_of(element, direct_multiplier),
        }
    }

    /// The compositions of a heal: the builder's own multipliers and extra
    /// amount, scaled by the healing bonus.
    #[verifier::rlimit(100)]
    pub fn heal_analysis(&self, attribute: &ComplicatedAttributeGraph) -> (r: DamageAnalysis)
        requires
            self.magnitude() + attribute.magnitude() <= INPUT_LIMIT,
        ensures
            r.element == Element::Pyro,
            r.is_heal,
            !r.is_shield,
            r.reactions == no_reactions(),
            r.atk@ == self.heal_view(attribute, Quantity::Atk),
            r.atk.total() == self.heal_total(attribute, Quantity::Atk),
            r.atk_ratio@ == self.heal_view(attribute, Quantity::AtkRatio),
            r.atk_ratio.total() == self.heal_total(attribute, Quantity::AtkRatio),
            r.hp@ == self.heal_view(attribute, Quantity::Hp),
            r.hp.total() == self.heal_total(attribute, Quantity::Hp),
            r.hp_ratio@ == self.heal_view(attribute, Quantity::HpRatio),
            r.hp_ratio.total() == self.heal_total(attribute, Quantity::HpRatio),
            r.def@ == self.heal_view(attribute, Quantity::Def),
            r.def.total() == self.heal_total(attribute, Quantity::Def),
            r.def_ratio@ == self.heal_view(attribute, Quantity::DefRatio),
            r.def_ratio.total() == self.heal_total(attribute, Quantity::DefRatio),
            r.em@ == self.heal_view(attribute, Quantity::Em),
            r.em.total() == self.heal_total(attribute, Quantity::Em),
            r.em_ratio@ == self.heal_view(attribute, Quantity::EmRatio),
            r.em_ratio.total() == self.heal_total(attribute, Quantity::EmRatio),
            r.extra_damage@ == self.heal_view(attribute, Quantity::ExtraDamage),
            r.extra_damage.total() == self.heal_total(attribute, Quantity::ExtraDamage),
            r.bonus@ == self.heal_view(attribute, Quantity::Bonus),
            r.bonus.total() == self.heal_total(attribute, Quantity::Bonus),
            r.critical@ == self.heal_view(attribute, Quantity::Critical),
            r.critical.total() == self.heal_total(attribute, Quantity::Critical),
            r.critical_damage@ == self.heal_view(attribute, Quantity::CriticalDamage),
            r.critical_damage.total() == self.heal_total(attribute, Quantity::CriticalDamage),
            r.spread_compose@ == self.heal_view(attribute, Quantity::SpreadCompose),
            r.spread_compose.total() == self.heal_total(attribute, Quantity::SpreadCompose),
            r.aggravate_compose@ == self.heal_view(attribute, Quantity::AggravateCompose),
            r.aggravate_compose.total() == self.heal_total(attribute, Quantity::AggravateCompose),
            r.moonfall_compose@ == self.heal_view(attribute, Quantity::MoonfallCompose),
            r.moonfall_compose.total() == self.heal_total(attribute, Quantity::MoonfallCompose),
            r.moonelectro_compose@ == self.heal_view(attribute, Quantity::MoonelectroCompose),
            r.moonelectro_compose.total() == self.heal_total(attribute, Quantity::MoonelectroCompose),
            r.moonelectro_base_compose@ == self.heal_view(attribute, Quantity::MoonelectroBaseCompose),
            r.moonelectro_base_compose.total() == self.heal_total(attribute, Quantity::MoonelectroBaseCompose),
            r.direct_moonelectro_compose@ == self.heal_view(attribute, Quantity::DirectMoonelectroCompose),
            r.direct_moonelectro_compose.total() == self.heal_total(attribute, Quantity::DirectMoonelectroCompose),
            r.direct_moonelectro_ratio@ == self.heal_view(attribute, Quantity::DirectMoonelectroRatio),
            r.direct_moonelectro_ratio.total() == self.heal_total(attribute, Quantity::DirectMoonelectroRatio),
            r.melt_enhance@ == self.heal_view(attribute, Quantity::MeltEnhance),
            r.melt_enhance.total() == self.heal_total(attribute, Quantity::MeltEnhance),
            r.vaporize_enhance@ == self.heal_view(attribute, Quantity::VaporizeEnhance),
            r.vaporize_enhance.total() == self.heal_total(attribute, Quantity::VaporizeEnhance),
            r.healing_bonus@ == self.heal_view(attribute, Quantity::HealingBonus),
            r.healing_bonus.total() == self.heal_total(attribute, Quantity::HealingBonus),
            r.shield_strength@ == self.heal_view(attribute, Quantity::ShieldStrength),
            r.shield_strength.total() == self.heal_total(attribute, Quantity::ShieldStrength),
            r.def_minus@ == self.heal_view(attribute, Quantity::DefMinus),
            r.def_minus.total() == self.heal_total(attribute, Quantity::DefMinus),
            r.def_penetration@ == self.heal_view(attribute, Quantity::DefPenetration),
            r.def_penetration.total() == self.heal_total(attribute, Quantity::DefPenetration),
            r.res_minus@ == self.heal_view(attribute, Quantity::ResMinus),
            r.res_minus.total() == self.heal_total(attribute, Quantity::ResMinus),
            !r.reactions.melt && !r.reactions.vaporize && !r.reactions.spread && !r.reactions.aggravate,
            !r.reactions.moonfall && !r.reactions.moonelectro && !r.reactions.direct_moonelectro,
            r.atk@ == combine(combine(combine(combine(attribute.composition_of(seq![AttributeName::ATKBase]), attribute.composition_of(seq![AttributeName::ATKPercentage])), attribute.composition_of(seq![AttributeName::ATKFixed])), attribute.composition_of(seq![AttributeName::ATKFromSecondaryConversion])), self.extra_atk@),
            r.atk.total() == attribute.total_of(seq![AttributeName::ATKBase]) + attribute.total_of(seq![AttributeName::ATKPercentage]) + attribute.total_of(seq![AttributeName::ATKFixed]) + attribute.total_of(seq![AttributeName::ATKFromSecondaryConversion]) + self.extra_atk.total(),
            r.def@ == combine(combine(combine(attribute.composition_of(seq![AttributeName::DEFBase]), attribute.composition_of(seq![AttributeName::DEFPercentage])), attribute.composition_of(seq![AttributeName::DEFFixed])), self.extra_def@),
            r.def.total() == attribute.total_of(seq![AttributeName::DEFBase]) + attribute.total_of(seq![AttributeName::DEFPercentage]) + attribute.total_of(seq![AttributeName::DEFFixed]) + self.extra_def.total(),
            r.hp@ == combine(combine(combine(attribute.composition_of(seq![AttributeName::HPBase]), attribute.composition_of(seq![AttributeName::HPPercentage])), attribute.composition_of(seq![AttributeName::HPFixed])), self.extra_hp@),
            r.hp.total() == attribute.total_of(seq![AttributeName::HPBase]) + attribute.total_of(seq![AttributeName::HPPercentage]) + attribute.total_of(seq![AttributeName::HPFixed]) + self.extra_hp.total(),
            r.em@ == combine(combine(attribute.composition_of(seq![AttributeName::ElementalMastery]), attribute.composition_of(seq![AttributeName::ElementalMasteryExtra])), self.extra_em@),
            r.em.total() == attribute.total_of(seq![AttributeName::ElementalMastery]) + attribute.total_of(seq![AttributeName::ElementalMasteryExtra]) + self.extra_em.total(),
            r.atk_ratio@ == self.ratio_atk@,
            r.atk_ratio.total() == self.ratio_atk.total(),
            r.hp_ratio@ == self.ratio_hp@,
            r.hp_ratio.total() == self.ratio_hp.total(),
            r.def_ratio@ == self.ratio_def@,
            r.def_ratio.total() == self.ratio_def.total(),
            r.em_ratio@ == self.ratio_em@,
            r.em_ratio.total() == self.ratio_em.total(),
            r.extra_damage@ == self.extra_damage@,
            r.extra_damage.total() == self.extra_damage.total(),
            r.bonus@ == Map::<Seq<char>, int>::empty(),
            r.bonus.total() == 0,
            r.critical@ == Map::<Seq<char>, int>::empty(),
            r.critical.total() == 0,
            r.critical_damage@ == Map::<Seq<char>, int>::empty(),
            r.critical_damage.total() == 0,
            r.spread_compose@ == Map::<Seq<char>, int>::empty(),
            r.spread_compose.total() == 0,
            r.aggravate_compose@ == Map::<Seq<char>, int>::empty(),
            r.aggravate_compose.total() == 0,
            r.moonfall_compose@ == Map::<Seq<char>, int>::empty(),
            r.moonfall_compose.total() == 0,
            r.moonelectro_compose@ == Map::<Seq<char>, int>::empty(),
            r.moonelectro_compose.total() == 0,
            r.moonelectro_base_compose@ == Map::<Seq<char>, int>::empty(),
            r.moonelectro_base_compose.total() == 0,
            r.direct_moonelectro_compose@ == Map::<Seq<char>, int>::empty(),
            r.direct_moonelectro_compose.total() == 0,
            r.direct_moonelectro_ratio@ == Map::<Seq<char>, int>::empty(),
            r.direct_moonelectro_ratio.total() == 0,
            r.melt_enhance@ == Map::<Seq<char>, int>::empty(),
            r.melt_enhance.total() == 0,
            r.vaporize_enhance@ == Map::<Seq<char>, int>::empty(),
            r.vaporize_enhance.total() == 0,
            r.def_minus@ == Map::<Seq<char>, int>::empty(),
            r.def_minus.total() == 0,
            r.def_penetration@ == Map::<Seq<char>, int>::empty(),
            r.def_penetration.total() == 0,
            r.res_minus@ == Map::<Seq<char>, int>::empty(),
            r.res_minus.total() == 0,
            r.healing_bonus@ == combine(attribute.composition_of(seq![AttributeName::HealingBonus]), self.extra_healing_bonus@),
            r.healing_bonus.total() == attribute.total_of(seq![AttributeName::HealingBonus]) + self.extra_healing_bonus.total(),
            r.shield_strength@ == Map::<Seq<char>, int>::empty(),
            r.shield_strength.total() == 0,
    {
        proof {
            self.lemma_fields_bounded();
            lemma_gather_magnitude(attribute.contributions(), seq![]);
        }
        let atk = self.get_atk_composition(attribute);
        let atk_ratio = self.ratio_atk.duplicate();
        let hp = self.get_hp_composition(attribute);
        let hp_ratio = self.ratio_hp.duplicate();
        let def = self.get_def_composition(attribute);
        let def_ratio = self.ratio_def.duplicate();
        let em = self.get_em_composition(attribute);
        let em_ratio = self.ratio_em.duplicate();
        let extra_damage = self.extra_damage.duplicate();
        let bonus = Composition::new();
        let critical = Composition::new();
        let critical_damage = Composition::new();
        let spread_compose = Composition::new();
        let aggravate_compose = Composition::new();
        let moonfall_compose = Composition::new();
        let moonelectro_compose = Composition::new();
        let moonelectro_base_compose = Composition::new();
        let direct_moonelectro_compose = Composition::new();
        let direct_moonelectro_ratio = Composition::new();
        let melt_enhance = Composition::new();
        let vaporize_enhance = Composition::new();
        let healing_bonus = self.get_healing_bonus_composition(attribute);
        let shield_strength = Composition::new();
        let def_minus = Composition::new();
        let def_penetration = Composition::new();
        let res_minus = Composition::new();
        DamageAnalysis {
            atk,
            atk_ratio,
            hp,
            hp_ratio,
            def,
            def_ratio,
            em,
            em_ratio,
            extra_damage,
            bonus,
            critical,
            critical_damage,
            spread_compose,
            aggravate_compose,
            moonfall_compose,
            moonelectro_compose,
            moonelectro_base_compose,
            direct_moonelectro_compose,
            direct_moonelectro_ratio,
            melt_enhance,
            vaporize_enhance,
            healing_bonus,
            shield_strength,
            def_minus,
            def_penetration,
            res_minus,
            element: Element::Pyro,
            is_heal: true,
            is_shield: false,
            reactions: Reactions {
                melt: false,
                vaporize: false,
                spread: false,
                aggravate: false,
                moonfall: false,
                moonelectro: false,
                direct_moonelectro: false,
            },
        }
    }

    /// The compositions of a shield of `element`: the builder's own multipliers
    /// and extra amount, scaled by the shield strength. The analysis carries the
    /// heal mark, not the shield mark; the shield mark belongs to the value.
    #[verifier::rlimit(100)]
    pub fn shield_analysis(&self, attribute: &ComplicatedAttributeGraph, element: Element) -> (r: DamageAnalysis)
        requires
            self.magnitude() + attribute.magnitude() <= INPUT_LIMIT,
        ensures
            r.element == element,
            r.is_heal,
            !r.is_shield,
            r.reactions == no_reactions(),
            r.atk@ == self.shield_view(attribute, element, Quantity::Atk),
            r.atk.total() == self.shield_total(attribute, element, Quantity::Atk),
            r.atk_ratio@ == self.shield_view(attribute, element, Quantity::AtkRatio),
            r.atk_ratio.total() == self.shield_total(attribute, element, Quantity::AtkRatio),
            r.hp@ == self.shield_view(attribute, element, Quantity::Hp),
            r.hp.total() == self.shield_total(attribute, element, Quantity::Hp),
            r.hp_ratio@ == self.shield_view(attribute, element, Quantity::HpRatio),
            r.hp_ratio.total() == self.shield_total(attribute, element, Quantity::HpRatio),
            r.def@ == self.shield_view(attribute, element, Quantity::Def),
            r.def.total() == self.shield_total(attribute, element, Quantity::Def),
            r.def_ratio@ == self.shield_view(attribute, element, Quantity::DefRatio),
            r.def_ratio.total() == self.shield_total(attribute, element, Quantity::DefRatio),
            r.em@ == self.shield_view(attribute, element, Quantity::Em),
            r.em.total() == self.shield_total(attribute, element, Quantity::Em),
            r.em_ratio@ == self.shield_view(attribute, element, Quantity::EmRatio),
            r.em_ratio.total() == self.shield_total(attribute, element, Quantity::EmRatio),
            r.extra_damage@ == self.shield_view(attribute, element, Quantity::ExtraDamage),
            r.extra_damage.total() == self.shield_total(attribute, element, Quantity::ExtraDamage),
            r.bonus@ == self.shield_view(attribute, element, Quantity::Bonus),
            r.bonus.total() == self.shield_total(attribute, element, Quantity::Bonus),
            r.critical@ == self.shield_view(attribute, element, Quantity::Critical),
            r.critical.total() == self.shield_total(attribute, element, Quantity::Critical),
            r.critical_damage@ == self.shield_view(attribute, element, Quantity::CriticalDamage),
            r.critical_damage.total() == self.shield_total(attribute, element, Quantity::CriticalDamage),
            r.spread_compose@ == self.shield_view(attribute, element, Quantity::SpreadCompose),
            r.spread_compose.total() == self.shield_total(attribute, element, Quantity::SpreadCompose),
            r.aggravate_compose@ == self.shield_view(attribute, element, Quantity::AggravateCompose),
            r.aggravate_compose.total() == self.shield_total(attribute, element, Quantity::AggravateCompose),
            r.moonfall_compose@ == self.shield_view(attribute, element, Quantity::MoonfallCompose),
            r.moonfall_compose.total() == self.shield_total(attribute, element, Quantity::MoonfallCompose),
            r.moonelectro_compose@ == self.shield_view(attribute, element, Quantity::MoonelectroCompose),
            r.moonelectro_compose.total() == self.shield_total(attribute, element, Quantity::MoonelectroCompose),
            r.moonelectro_base_compose@ == self.shield_view(attribute, element, Quantity::MoonelectroBaseCompose),
            r.moonelectro_base_compose.total() == self.shield_total(attribute, element, Quantity::MoonelectroBaseCompose),
            r.direct_moonelectro_compose@ == self.shield_view(attribute, element, Quantity::DirectMoonelectroCompose),
            r.direct_moonelectro_compose.total() == self.shield_total(attribute, element, Quantity::DirectMoonelectroCompose),
            r.direct_moonelectro_ratio@ == self.shield_view(attribute, element, Quantity::DirectMoonelectroRatio),
            r.direct_moonelectro_ratio.total() == self.shield_total(attribute, element, Quantity::DirectMoonelectroRatio),
            r.melt_enhance@ == self.shield_view(attribute, element, Quantity::MeltEnhance),
            r.melt_enhance.total() == self.shield_total(attribute, element, Quantity::MeltEnhance),
            r.vaporize_enhance@ == self.shield_view(attribute, element, Quantity::VaporizeEnhance),
            r.vaporize_enhance.total() == self.shield_total(attribute, element, Quantity::VaporizeEnhance),
            r.healing_bonus@ == self.shield_view(attribute, element, Quantity::HealingBonus),
            r.healing_bonus.total() == self.shield_total(attribute, element, Quantity::HealingBonus),
            r.shield_strength@ == self.shield_view(attribute, element, Quantity::ShieldStrength),
            r.shield_strength.total() == self.shield_total(attribute, element, Quantity::ShieldStrength),
            r.def_minus@ == self.shield_view(attribute, element, Quantity::DefMinus),
            r.def_minus.total() == self.shield_total(attribute, element, Quantity::DefMinus),
            r.def_penetration@ == self.shield_view(attribute, element, Quantity::DefPenetration),
            r.def_penetration.total() == self.shield_total(attribute, element, Quantity::DefPenetration),
            r.res_minus@ == self.shield_view(attribute, element, Quantity::ResMinus),
            r.res_minus.total() == self.shield_total(attribute, element, Quantity::ResMinus),
            !r.reactions.melt && !r.reactions.vaporize && !r.reactions.spread && !r.reactions.aggravate,
            !r.reactions.moonfall && !r.reactions.moonelectro && !r.reactions.direct_moonelectro,
            r.atk@ == combine(combine(combine(combine(attribute.composition_of(seq![AttributeName::ATKBase]), attribute.composition_of(seq![AttributeName::ATKPercentage])), attribute.composition_of(seq![AttributeName::ATKFixed])), attribute.composition_of(seq![AttributeName::ATKFromSecondaryConversion])), self.extra_atk@),
            r.atk.total() == attribute.total_of(seq![AttributeName::ATKBase]) + attribute.total_of(seq![AttributeName::ATKPercentage]) + attribute.total_of(seq![AttributeName::ATKFixed]) + attribute.total_of(seq![AttributeName::ATKFromSecondaryConversion]) + self.extra_atk.total(),
            r.def@ == combine(combine(combine(attribute.composition_of(seq![AttributeName::DEFBase]), attribute.composition_of(seq![AttributeName::DEFPercentage])), attribute.composition_of(seq![AttributeName::DEFFixed])), self.extra_def@),
            r.def.total() == attribute.total_of(seq![AttributeName::DEFBase]) + attribute.total_of(seq![AttributeName::DEFPercentage]) + attribute.total_of(seq![AttributeName::DEFFixed]) + self.extra_def.total(),
            r.hp@ == combine(combine(combine(attribute.composition_of(seq![AttributeName::HPBase]), attribute.composition_of(seq![AttributeName::HPPercentage])), attribute.composition_of(seq![AttributeName::HPFixed])), self.extra_hp@),
            r.hp.total() == attribute.total_of(seq![AttributeName::HPBase]) + attribute.total_of(seq![AttributeName::HPPercentage]) + attribute.total_of(seq![AttributeName::HPFixed]) + self.extra_hp.total(),
            r.em@ == combine(combine(attribute.composition_of(seq![AttributeName::ElementalMastery]), attribute.composition_of(seq![AttributeName::ElementalMasteryExtra])), self.extra_em@),
            r.em.total() == attribute.total_of(seq![AttributeName::ElementalMastery]) + attribute.total_of(seq![AttributeName::ElementalMasteryExtra]) + self.extra_em.total(),
            r.atk_ratio@ == self.ratio_atk@,
            r.atk_ratio.total() == self.ratio_atk.total(),
            r.hp_ratio@ == self.ratio_hp@,
            r.hp_ratio.total() == self.ratio_hp.total(),
            r.def_ratio@ == self.ratio_def@,
            r.def_ratio.total() == self.ratio_def.total(),
            r.em_ratio@ == self.ratio_em@,
            r.em_ratio.total() == self.ratio_em.total(),
            r.extra_damage@ == self.extra_damage@,
            r.extra_damage.total() == self.extra_damage.total(),
            r.bonus@ == Map::<Seq<char>, int>::empty(),
            r.bonus.total() == 0,
            r.critical@ == Map::<Seq<char>, int>::empty(),
            r.critical.total() == 0,
            r.critical_damage@ == Map::<Seq<char>, int>::empty(),
            r.critical_damage.total() == 0,
            r.spread_compose@ == Map::<Seq<char>, int>::empty(),
            r.spread_compose.total() == 0,
            r.aggravate_compose@ == Map::<Seq<char>, int>::empty(),
            r.aggravate_compose.total() == 0,
            r.moonfall_compose@ == Map::<Seq<char>, int>::empty(),
            r.moonfall_compose.total() == 0,
            r.moonelectro_compose@ == Map::<Seq<char>, int>::empty(),
            r.moonelectro_compose.total() == 0,
            r.moonelectro_base_compose@ == Map::<Seq<char>, int>::empty(),
            r.moonelectro_base_compose.total() == 0,
            r.direct_moonelectro_compose@ == Map::<Seq<char>, int>::empty(),
            r.direct_moonelectro_compose.total() == 0,
            r.direct_moonelectro_ratio@ == Map::<Seq<char>, int>::empty(),
            r.direct_moonelectro_ratio.total() == 0,
            r.melt_enhance@ == Map::<Seq<char>, int>::empty(),
            r.melt_enhance.total() == 0,
            r.vaporize_enhance@ == Map::<Seq<char>, int>::empty(),
            r.vaporize_enhance.total() == 0,
            r.def_minus@ == Map::<Seq<char>, int>::empty(),
            r.def_minus.total() == 0,
            r.def_penetration@ == Map::<Seq<char>, int>::empty(),
            r.def_penetration.total() == 0,
            r.res_minus@ == Map::<Seq<char>, int>::empty(),
            r.res_minus.total() == 0,
            r.shield_strength@ == attribute.composition_of(seq![AttributeName::ShieldStrength]),
            r.shield_strength.total() == attribute.total_of(seq![AttributeName::ShieldStrength]),
            r.healing_bonus@ == Map::<Seq<char>, int>::empty(),
            r.healing_bonus.total() == 0,
    {
        proof {
            self.lemma_fields_bounded();
            lemma_gather_magnitude(attribute.contributions(), seq![]);
        }
        let atk = self.get_atk_composition(attribute);
        let atk_ratio = self.ratio_atk.duplicate();
        let hp = self.get_hp_composition(attribute);
        let hp_ratio = self.ratio_hp.duplicate();
        let def = self.get_def_composition(attribute);
        let def_ratio = self.ratio_def.duplicate();
        let em = self.get_em_composition(attribute);
        let em_ratio = self.ratio_em.duplicate();
        let extra_damage = self.extra_damage.duplicate();
        let bonus = Composition::new();
        let critical = Composition::new();
        let critical_damage = Composition::new();
        let spread_compose = Composition::new();
        let aggravate_compose = Composition::new();
        let moonfall_compose = Composition::new();
        let moonelectro_compose = Composition::new();
        let moonelectro_base_compose = Composition::new();
        let direct_moonelectro_compose = Composition::new();
        let direct_moonelectro_ratio = Composition::new();
        let melt_enhance = Composition::new();
        let vaporize_enhance = Composition::new();
        let healing_bonus = Composition::new();
        let shield_strength = self.get_shield_strength_composition(attribute);
        let def_minus = Composition::new();
        let def_penetration = Composition::new();
        let res_minus = Composition::new();
        DamageAnalysis {
            atk,
            atk_ratio,
            hp,
            hp_ratio,
            def,
            def_ratio,
            em,
            em_ratio,
            extra_damage,
            bonus,
            critical,
            critical_damage,
            spread_compose,
            aggravate_compose,
            moonfall_compose,
            moonelectro_compose,
            moonelectro_base_compose,
            direct_moonelectro_compose,
            direct_moonelectro_ratio,
            melt_enhance,
            vaporize_enhance,
            healing_bonus,
            shield_strength,
            def_minus,
            def_penetration,
            res_minus,
            element: element,
            is_heal: true,
            is_shield: false,
            reactions: Reactions {
                melt: false,
                vaporize: false,
                spread: false,
                aggravate: false,
                moonfall: false,
                moonelectro: false,
                direct_moonelectro: false,
            },
        }
    }

    /// A heal cannot be critical and takes no damage bonus, defense, resistance
    /// or reaction setting: two builders that agree on the compositions a heal
    /// reads give the same heal compositions, whatever else they hold.
    pub proof fn lemma_heal_ignores_hit_settings(
        &self,
        other: &ComplicatedDamageBuilder,
        attribute: &ComplicatedAttributeGraph,
    )
        requires
            self.extra_atk == other.extra_atk,
            self.extra_hp == other.extra_hp,
            self.extra_def == other.extra_def,
            self.extra_em == other.extra_em,
            self.ratio_atk == other.ratio_atk,
            self.ratio_hp == other.ratio_hp,
            self.ratio_def == other.ratio_def,
            self.ratio_em == other.ratio_em,
            self.extra_damage == other.extra_damage,
            self.extra_healing_bonus == other.extra_healing_bonus,
        ensures
            forall|q: Quantity|
                self.heal_view(attribute, q) == other.heal_view(attribute, q) && self.heal_total(
                    attribute,
                    q,
                ) == other.heal_total(attribute, q),
    {
    }

    /// The element of a shield does not change its compositions.
    pub proof fn lemma_shield_ignores_element(
        &self,
        attribute: &ComplicatedAttributeGraph,
        first: Element,
        second: Element,
    )
        ensures
            forall|q: Quantity|
                self.shield_view(attribute, first, q) == self.shield_view(attribute, second, q)
                    && self.shield_total(attribute, first, q) == self.shield_total(
                    attribute,
                    second,
                    q,
                ),
    {
    }
    /// Attack, defense, HP and elemental mastery are the character's own in a
    /// hit, a heal and a shield alike: every contribution to their attributes in
    /// the graph (attack: base, percentage, fixed and secondary conversion;
    /// defense and HP: base, percentage and fixed; mastery: mastery and extra
    /// mastery), plus the builder's extra amount, whatever the element, skill or
    /// infusion.
    pub proof fn lemma_stats_are_the_characters(
        &self,
        attribute: &ComplicatedAttributeGraph,
        element: Element,
        skill: SkillType,
        fumo: Option<Element>,
        shield_element: Element,
    )
        ensures
            self.damage_view(attribute, element, skill, fumo, Quantity::Atk) == combine(combine(combine(combine(attribute.composition_of(seq![AttributeName::ATKBase]), attribute.composition_of(seq![AttributeName::ATKPercentage])), attribute.composition_of(seq![AttributeName::ATKFixed])), attribute.composition_of(seq![AttributeName::ATKFromSecondaryConversion])), self.extra_atk@),
            self.damage_total(attribute, element, skill, fumo, Quantity::Atk) == attribute.total_of(seq![AttributeName::ATKBase]) + attribute.total_of(seq![AttributeName::ATKPercentage]) + attribute.total_of(seq![AttributeName::ATKFixed]) + attribute.total_of(seq![AttributeName::ATKFromSecondaryConversion]) + self.extra_atk.total(),
            self.heal_view(attribute, Quantity::Atk) == combine(combine(combine(combine(attribute.composition_of(seq![AttributeName::ATKBase]), attribute.composition_of(seq![AttributeName::ATKPercentage])), attribute.composition_of(seq![AttributeName::ATKFixed])), attribute.composition_of(seq![AttributeName::ATKFromSecondaryConversion])), self.extra_atk@),
            self.heal_total(attribute, Quantity::Atk) == attribute.total_of(seq![AttributeName::ATKBase]) + attribute.total_of(seq![AttributeName::ATKPercentage]) + attribute.total_of(seq![AttributeName::ATKFixed]) + attribute.total_of(seq![AttributeName::ATKFromSecondaryConversion]) + self.extra_atk.total(),
            self.shield_view(attribute, shield_element, Quantity::Atk) == combine(combine(combine(combine(attribute.composition_of(seq![AttributeName::ATKBase]), attribute.composition_of(seq![AttributeName::ATKPercentage])), attribute.composition_of(seq![AttributeName::ATKFixed])), attribute.composition_of(seq![AttributeName::ATKFromSecondaryConversion])), self.extra_atk@),
            self.shield_total(attribute, shield_element, Quantity::Atk) == attribute.total_of(seq![AttributeName::ATKBase]) + attribute.total_of(seq![AttributeName::ATKPercentage]) + attribute.total_of(seq![AttributeName::ATKFixed]) + attribute.total_of(seq![AttributeName::ATKFromSecondaryConversion]) + self.extra_atk.total(),
            self.damage_view(attribute, element, skill, fumo, Quantity::Def) == combine(combine(combine(attribute.composition_of(seq![AttributeName::DEFBase]), attribute.composition_of(seq![AttributeName::DEFPercentage])), attribute.composition_of(seq![AttributeName::DEFFixed])), self.extra_def@),
            self.damage_total(attribute, element, skill, fumo, Quantity::Def) == attribute.total_of(seq![AttributeName::DEFBase]) + attribute.total_of(seq![AttributeName::DEFPercentage]) + attribute.total_of(seq![AttributeName::DEFFixed]) + self.extra_def.total(),
            self.heal_view(attribute, Quantity::Def) == combine(combine(combine(attribute.composition_of(seq![AttributeName::DEFBase]), attribute.composition_of(seq![AttributeName::DEFPercentage])), attribute.composition_of(seq![AttributeName::DEFFixed])), self.extra_def@),
            self.heal_total(attribute, Quantity::Def) == attribute.total_of(seq![AttributeName::DEFBase]) + attribute.total_of(seq![AttributeName::DEFPercentage]) + attribute.total_of(seq![AttributeName::DEFFixed]) + self.extra_def.total(),
            self.shield_view(attribute, shield_element, Quantity::Def) == combine(combine(combine(attribute.composition_of(seq![AttributeName::DEFBase]), attribute.composition_of(seq![AttributeName::DEFPercentage])), attribute.composition_of(seq![AttributeName::DEFFixed])), self.extra_def@),
            self.shield_total(attribute, shield_element, Quantity::Def) == attribute.total_of(seq![AttributeName::DEFBase]) + attribute.total_of(seq![AttributeName::DEFPercentage]) + attribute.total_of(seq![AttributeName::DEFFixed]) + self.extra_def.total(),
            self.damage_view(attribute, element, skill, fumo, Quantity::Hp) == combine(combine(combine(attribute.composition_of(seq![AttributeName::HPBase]), attribute.composition_of(seq![AttributeName::HPPercentage])), attribute.composition_of(seq![AttributeName::HPFixed])), self.extra_hp@),
            self.damage_total(attribute, element, skill, fumo, Quantity::Hp) == attribute.total_of(seq![AttributeName::HPBase]) + attribute.total_of(seq![AttributeName::HPPercentage]) + attribute.total_of(seq![AttributeName::HPFixed]) + self.extra_hp.total(),
            self.heal_view(attribute, Quantity::Hp) == combine(combine(combine(attribute.composition_of(seq![AttributeName::HPBase]), attribute.composition_of(seq![AttributeName::HPPercentage])), attribute.composition_of(seq![AttributeName::HPFixed])), self.extra_hp@),
            self.heal_total(attribute, Quantity::Hp) == attribute.total_of(seq![AttributeName::HPBase]) + attribute.total_of(seq![AttributeName::HPPercentage]) + attribute.total_of(seq![AttributeName::HPFixed]) + self.extra_hp.total(),
            self.shield_view(attribute, shield_element, Quantity::Hp) == combine(combine(combine(attribute.composition_of(seq![AttributeName::HPBase]), attribute.composition_of(seq![AttributeName::HPPercentage])), attribute.composition_of(seq![AttributeName::HPFixed])), self.extra_hp@),
            self.shield_total(attribute, shield_element, Quantity::Hp) == attribute.total_of(seq![AttributeName::HPBase]) + attribute.total_of(seq![AttributeName::HPPercentage]) + attribute.total_of(seq![AttributeName::HPFixed]) + self.extra_hp.total(),
            self.damage_view(attribute, element, skill, fumo, Quantity::Em) == combine(combine(attribute.composition_of(seq![AttributeName::ElementalMastery]), attribute.composition_of(seq![AttributeName::ElementalMasteryExtra])), self.extra_em@),
            self.damage_total(attribute, element, skill, fumo, Quantity::Em) == attribute.total_of(seq![AttributeName::ElementalMastery]) + attribute.total_of(seq![AttributeName::ElementalMasteryExtra]) + self.extra_em.total(),
            self.heal_view(attribute, Quantity::Em) == combine(combine(attribute.composition_of(seq![AttributeName::ElementalMastery]), attribute.composition_of(seq![AttributeName::ElementalMasteryExtra])), self.extra_em@),
            self.heal_total(attribute, Quantity::Em) == attribute.total_of(seq![AttributeName::ElementalMastery]) + attribute.total_of(seq![AttributeName::ElementalMasteryExtra]) + self.extra_em.total(),
            self.shield_view(attribute, shield_element, Quantity::Em) == combine(combine(attribute.composition_of(seq![AttributeName::ElementalMastery]), attribute.composition_of(seq![AttributeName::ElementalMasteryExtra])), self.extra_em@),
            self.shield_total(attribute, shield_element, Quantity::Em) == attribute.total_of(seq![AttributeName::ElementalMastery]) + attribute.total_of(seq![AttributeName::ElementalMasteryExtra]) + self.extra_em.total(),
    {
        attribute.lemma_four_names(AttributeName::ATKBase, AttributeName::ATKPercentage, AttributeName::ATKFixed, AttributeName::ATKFromSecondaryConversion);
        attribute.lemma_three_names(AttributeName::DEFBase, AttributeName::DEFPercentage, AttributeName::DEFFixed);
        attribute.lemma_three_names(AttributeName::HPBase, AttributeName::HPPercentage, AttributeName::HPFixed);
        attribute.lemma_two_names(AttributeName::ElementalMastery, AttributeName::ElementalMasteryExtra);
    }

}

/// Which reactions a hit has, by its element: melt for pyro and cryo, vaporize
/// for pyro and hydro, spread for dendro alone, aggravate for electro alone,
/// moonfall for dendro and hydro, moon-electro-charged for electro and hydro,
/// and direct moon-electro-charged damage exactly when its multiplier is
/// positive.
pub proof fn lemma_reactions_by_element(element: Element, direct_multiplier: int)
    ensures
        reactions_for(element, direct_multiplier).melt == (element == Element::Pyro || element == Element::Cryo),
        reactions_for(element, direct_multiplier).vaporize == (element == Element::Pyro || element == Element::Hydro),
        reactions_for(element, direct_multiplier).spread == (element == Element::Dendro),
        reactions_for(element, direct_multiplier).aggravate == (element == Element::Electro),
        reactions_for(element, direct_multiplier).moonfall == (element == Element::Dendro || element == Element::Hydro),
        reactions_for(element, direct_multiplier).moonelectro == (element == Element::Electro || element == Element::Hydro),
        reactions_for(element, direct_multiplier).direct_moonelectro == (direct_multiplier > 0),
{
}

} // verus!
