use vstd::prelude::*;
use crate::attribute_graph::{ComplicatedAttributeGraph, lemma_gather_magnitude, lemma_gather_none};
use crate::attribute_name::{
    AttributeName,
    skill_group,
    atk_ratio_skill_attribute,
    bonus_skill_attribute,
    critical_damage_skill_attribute,
    def_ratio_skill_attribute,
    extra_dmg_skill_attribute,
    hp_ratio_skill_attribute,
    push_opt,
};
use crate::composition::{
    UNIT,
    Composition,
    CompositionMap,
    MAX_MAGNITUDE,
    abs,
    combine,
    lemma_combine_empty,
    lemma_magnitude_nonneg,
    single,
    view_of,
};
use crate::element::{Element, SkillType};
use crate::reaction::{
    lemma_bonus_formulas,
    amp,
    amp_bonus,
    catalyze,
    catalyze_bonus,
    moonelectro,
    moonelectro_bonus,
    transformative,
    transformative_bonus,
};

verus! {

/// The bound on the absolute amounts that a builder and an attribute graph may
/// hold together (2^61), so that any composition built from them fits.
pub const INPUT_LIMIT: i64 = 0x2000_0000_0000_0000;

/// The source key under which elemental mastery adds its reaction bonus.
pub open spec fn mastery_source() -> Seq<char> {
    seq!['\u{7cbe}', '\u{901a}']
}

/// `m` with the mastery bonus added under `mastery_source()` where the
/// mastery `em` is positive.
pub open spec fn with_mastery(m: CompositionMap, em: int, bonus: int) -> CompositionMap {
    if em > 0 {
        combine(m, single(mastery_source(), bonus))
    } else {
        m
    }
}

/// The amount that `with_mastery` adds.
pub open spec fn mastery_amount(em: int, bonus: int) -> int {
    if em > 0 {
        bonus
    } else {
        0
    }
}

/// The attributes that make up the attack of a character.
pub open spec fn atk_names() -> Seq<AttributeName> {
    seq![AttributeName::ATKBase, AttributeName::ATKPercentage, AttributeName::ATKFixed, AttributeName::ATKFromSecondaryConversion]
}

/// The attributes that make up the defense of a character.
pub open spec fn def_names() -> Seq<AttributeName> {
    seq![AttributeName::DEFBase, AttributeName::DEFPercentage, AttributeName::DEFFixed]
}

/// The attributes that make up the HP of a character.
pub open spec fn hp_names() -> Seq<AttributeName> {
    seq![AttributeName::HPBase, AttributeName::HPPercentage, AttributeName::HPFixed]
}

/// The attributes that make up the attack multiplier of a hit.
pub open spec fn atk_ratio_names(element: Element, skill: SkillType) -> Seq<AttributeName> {
    push_opt(seq![AttributeName::ATKRatioBase, AttributeName::ATKRatioByElement(element)], atk_ratio_skill_attribute(skill))
}

/// The attributes that make up the defense multiplier of a hit.
pub open spec fn def_ratio_names(element: Element, skill: SkillType) -> Seq<AttributeName> {
    push_opt(seq![AttributeName::DEFRatioBase, AttributeName::DEFRatioByElement(element)], def_ratio_skill_attribute(skill))
}

/// The attributes that make up the HP multiplier of a hit.
pub open spec fn hp_ratio_names(element: Element, skill: SkillType) -> Seq<AttributeName> {
    push_opt(seq![AttributeName::HPRatioBase, AttributeName::HPRatioByElement(element)], hp_ratio_skill_attribute(skill))
}

/// The attributes that make up the flat extra damage of a hit.
pub open spec fn extra_damage_names(element: Element, skill: SkillType) -> Seq<AttributeName> {
    push_opt(seq![AttributeName::ExtraDmgBase, AttributeName::ExtraDmgByElement(element)], extra_dmg_skill_attribute(skill))
}

/// The attributes that make up the critical damage of a hit.
pub open spec fn critical_damage_names(element: Element, skill: SkillType) -> Seq<AttributeName> {
    push_opt(seq![AttributeName::CriticalDamageBase, AttributeName::CriticalDamageByElement(element)], critical_damage_skill_attribute(skill))
}

/// The attributes that make up the damage bonus of a hit: an elemental normal
/// attack also takes the bonus of normal and elemental attacks.
pub open spec fn bonus_names(element: Element, skill: SkillType) -> Seq<AttributeName> {
    let base = push_opt(seq![AttributeName::BonusBase, AttributeName::BonusByElement(element)], bonus_skill_attribute(skill));
    if element != Element::Physical && skill == SkillType::NormalAttack {
        base.push(AttributeName::BonusNormalAndElemental)
    } else {
        base
    }
}

/// The attributes that make up the resistance reduction against a hit.
pub open spec fn res_minus_names(element: Element) -> Seq<AttributeName> {
    seq![AttributeName::ResMinusBase, AttributeName::ResMinusByElement(element)]
}

/// The composition of the attributes `names` of the graph, with `extra` added.
fn gathered_with(attribute: &ComplicatedAttributeGraph, names: &Vec<AttributeName>, extra: &Composition) -> (r: Composition)
    requires
        attribute.magnitude() + extra.magnitude() <= MAX_MAGNITUDE,
    ensures
        r@ == combine(attribute.composition_of(names@), extra@),
        r.total() == attribute.total_of(names@) + extra.total(),
        0 <= r.magnitude() <= attribute.magnitude() + extra.magnitude(),
{
    let mut comp = attribute.get_composition_merge(names);
    proof {
        lemma_magnitude_nonneg(extra.items());
    }
    comp.merge(extra);
    proof {
        lemma_magnitude_nonneg(comp.items());
    }
    comp
}

/// The attributes of a hit, each on its own: the base attribute, the one of
/// the hit's element and, where the skill has a group, the one of that group;
/// an elemental normal attack also takes the bonus of normal and elemental
/// attacks, and the resistance reduction is the base one with the element's.
pub proof fn lemma_hit_attributes(attribute: &ComplicatedAttributeGraph, element: Element, skill: SkillType)
    ensures
        attribute.composition_of(atk_ratio_names(element, skill)) == combine(combine(attribute.composition_of(seq![AttributeName::ATKRatioBase]), attribute.composition_of(seq![AttributeName::ATKRatioByElement(element)])), match skill_group(skill) {
                Some(g) => attribute.composition_of(seq![AttributeName::ATKRatioBySkill(g)]),
                None => Map::<Seq<char>, int>::empty(),
            }),
        attribute.total_of(atk_ratio_names(element, skill)) == attribute.total_of(seq![AttributeName::ATKRatioBase]) + attribute.total_of(seq![AttributeName::ATKRatioByElement(element)]) + match skill_group(skill) {
                Some(g) => attribute.total_of(seq![AttributeName::ATKRatioBySkill(g)]),
                None => 0,
            },
        attribute.composition_of(def_ratio_names(element, skill)) == combine(combine(attribute.composition_of(seq![AttributeName::DEFRatioBase]), attribute.composition_of(seq![AttributeName::DEFRatioByElement(element)])), match skill_group(skill) {
                Some(g) => attribute.composition_of(seq![AttributeName::DEFRatioBySkill(g)]),
                None => Map::<Seq<char>, int>::empty(),
            }),
        attribute.total_of(def_ratio_names(element, skill)) == attribute.total_of(seq![AttributeName::DEFRatioBase]) + attribute.total_of(seq![AttributeName::DEFRatioByElement(element)]) + match skill_group(skill) {
                Some(g) => attribute.total_of(seq![AttributeName::DEFRatioBySkill(g)]),
                None => 0,
            },
        attribute.composition_of(hp_ratio_names(element, skill)) == combine(combine(attribute.composition_of(seq![AttributeName::HPRatioBase]), attribute.composition_of(seq![AttributeName::HPRatioByElement(element)])), match skill_group(skill) {
                Some(g) => attribute.composition_of(seq![AttributeName::HPRatioBySkill(g)]),
                None => Map::<Seq<char>, int>::empty(),
            }),
        attribute.total_of(hp_ratio_names(element, skill)) == attribute.total_of(seq![AttributeName::HPRatioBase]) + attribute.total_of(seq![AttributeName::HPRatioByElement(element)]) + match skill_group(skill) {
                Some(g) => attribute.total_of(seq![AttributeName::HPRatioBySkill(g)]),
                None => 0,
            },
        attribute.composition_of(extra_damage_names(element, skill)) == combine(combine(attribute.composition_of(seq![AttributeName::ExtraDmgBase]), attribute.composition_of(seq![AttributeName::ExtraDmgByElement(element)])), match skill_group(skill) {
                Some(g) => attribute.composition_of(seq![AttributeName::ExtraDmgBySkill(g)]),
                None => Map::<Seq<char>, int>::empty(),
            }),
        attribute.total_of(extra_damage_names(element, skill)) == attribute.total_of(seq![AttributeName::ExtraDmgBase]) + attribute.total_of(seq![AttributeName::ExtraDmgByElement(element)]) + match skill_group(skill) {
                Some(g) => attribute.total_of(seq![AttributeName::ExtraDmgBySkill(g)]),
                None => 0,
            },
        attribute.composition_of(critical_damage_names(element, skill)) == combine(combine(attribute.composition_of(seq![AttributeName::CriticalDamageBase]), attribute.composition_of(seq![AttributeName::CriticalDamageByElement(element)])), match skill_group(skill) {
                Some(g) => attribute.composition_of(seq![AttributeName::CriticalDamageBySkill(g)]),
                None => Map::<Seq<char>, int>::empty(),
            }),
        attribute.total_of(critical_damage_names(element, skill)) == attribute.total_of(seq![AttributeName::CriticalDamageBase]) + attribute.total_of(seq![AttributeName::CriticalDamageByElement(element)]) + match skill_group(skill) {
                Some(g) => attribute.total_of(seq![AttributeName::CriticalDamageBySkill(g)]),
                None => 0,
            },
        attribute.composition_of(ComplicatedAttributeGraph::critical_names(element, skill)) == combine(combine(attribute.composition_of(seq![AttributeName::CriticalBase]), attribute.composition_of(seq![AttributeName::CriticalByElement(element)])), match skill_group(skill) {
                Some(g) => attribute.composition_of(seq![AttributeName::CriticalBySkill(g)]),
                None => Map::<Seq<char>, int>::empty(),
            }),
        attribute.total_of(ComplicatedAttributeGraph::critical_names(element, skill)) == attribute.total_of(seq![AttributeName::CriticalBase]) + attribute.total_of(seq![AttributeName::CriticalByElement(element)]) + match skill_group(skill) {
                Some(g) => attribute.total_of(seq![AttributeName::CriticalBySkill(g)]),
                None => 0,
            },
        attribute.composition_of(bonus_names(element, skill)) == combine(combine(combine(attribute.composition_of(seq![AttributeName::BonusBase]), attribute.composition_of(seq![AttributeName::BonusByElement(element)])), match skill_group(skill) {
                Some(g) => attribute.composition_of(seq![AttributeName::BonusBySkill(g)]),
                None => Map::<Seq<char>, int>::empty(),
            }), if element != Element::Physical && skill == SkillType::NormalAttack {
            attribute.composition_of(seq![AttributeName::BonusNormalAndElemental])
        } else {
            Map::<Seq<char>, int>::empty()
        }),
        attribute.total_of(bonus_names(element, skill)) == attribute.total_of(seq![AttributeName::BonusBase]) + attribute.total_of(seq![AttributeName::BonusByElement(element)]) + match skill_group(skill) {
                Some(g) => attribute.total_of(seq![AttributeName::BonusBySkill(g)]),
                None => 0,
            } + if element != Element::Physical && skill == SkillType::NormalAttack {
            attribute.total_of(seq![AttributeName::BonusNormalAndElemental])
        } else {
            0
        },
        attribute.composition_of(res_minus_names(element)) == combine(attribute.composition_of(seq![AttributeName::ResMinusBase]), attribute.composition_of(seq![AttributeName::ResMinusByElement(element)])),
        attribute.total_of(res_minus_names(element)) == attribute.total_of(seq![AttributeName::ResMinusBase]) + attribute.total_of(seq![AttributeName::ResMinusByElement(element)]),
{
    match skill_group(skill) {
        Some(g) => {
            assert(push_opt(seq![AttributeName::ATKRatioBase, AttributeName::ATKRatioByElement(element)], Some(AttributeName::ATKRatioBySkill(g))) =~= seq![AttributeName::ATKRatioBase, AttributeName::ATKRatioByElement(element), AttributeName::ATKRatioBySkill(g)]);
            attribute.lemma_three_names(AttributeName::ATKRatioBase, AttributeName::ATKRatioByElement(element), AttributeName::ATKRatioBySkill(g));
            assert(push_opt(seq![AttributeName::DEFRatioBase, AttributeName::DEFRatioByElement(element)], Some(AttributeName::DEFRatioBySkill(g))) =~= seq![AttributeName::DEFRatioBase, AttributeName::DEFRatioByElement(element), AttributeName::DEFRatioBySkill(g)]);
            attribute.lemma_three_names(AttributeName::DEFRatioBase, AttributeName::DEFRatioByElement(element), AttributeName::DEFRatioBySkill(g));
            assert(push_opt(seq![AttributeName::HPRatioBase, AttributeName::HPRatioByElement(element)], Some(AttributeName::HPRatioBySkill(g))) =~= seq![AttributeName::HPRatioBase, AttributeName::HPRatioByElement(element), AttributeName::HPRatioBySkill(g)]);
            attribute.lemma_three_names(AttributeName::HPRatioBase, AttributeName::HPRatioByElement(element), AttributeName::HPRatioBySkill(g));
            assert(push_opt(seq![AttributeName::ExtraDmgBase, AttributeName::ExtraDmgByElement(element)], Some(AttributeName::ExtraDmgBySkill(g))) =~= seq![AttributeName::ExtraDmgBase, AttributeName::ExtraDmgByElement(element), AttributeName::ExtraDmgBySkill(g)]);
            attribute.lemma_three_names(AttributeName::ExtraDmgBase, AttributeName::ExtraDmgByElement(element), AttributeName::ExtraDmgBySkill(g));
            assert(push_opt(seq![AttributeName::CriticalDamageBase, AttributeName::CriticalDamageByElement(element)], Some(AttributeName::CriticalDamageBySkill(g))) =~= seq![AttributeName::CriticalDamageBase, AttributeName::CriticalDamageByElement(element), AttributeName::CriticalDamageBySkill(g)]);
            attribute.lemma_three_names(AttributeName::CriticalDamageBase, AttributeName::CriticalDamageByElement(element), AttributeName::CriticalDamageBySkill(g));
            assert(push_opt(seq![AttributeName::CriticalBase, AttributeName::CriticalByElement(element)], Some(AttributeName::CriticalBySkill(g))) =~= seq![AttributeName::CriticalBase, AttributeName::CriticalByElement(element), AttributeName::CriticalBySkill(g)]);
            attribute.lemma_three_names(AttributeName::CriticalBase, AttributeName::CriticalByElement(element), AttributeName::CriticalBySkill(g));
            assert(push_opt(seq![AttributeName::BonusBase, AttributeName::BonusByElement(element)], Some(AttributeName::BonusBySkill(g))) =~= seq![AttributeName::BonusBase, AttributeName::BonusByElement(element), AttributeName::BonusBySkill(g)]);
            attribute.lemma_three_names(AttributeName::BonusBase, AttributeName::BonusByElement(element), AttributeName::BonusBySkill(g));
            if element != Element::Physical && skill == SkillType::NormalAttack {
                assert(seq![AttributeName::BonusBase, AttributeName::BonusByElement(element), AttributeName::BonusBySkill(g)].push(AttributeName::BonusNormalAndElemental) =~= seq![AttributeName::BonusBase, AttributeName::BonusByElement(element), AttributeName::BonusBySkill(g), AttributeName::BonusNormalAndElemental]);
                attribute.lemma_four_names(AttributeName::BonusBase, AttributeName::BonusByElement(element), AttributeName::BonusBySkill(g), AttributeName::BonusNormalAndElemental);
            }
        },
        None => {
            attribute.lemma_two_names(AttributeName::ATKRatioBase, AttributeName::ATKRatioByElement(element));
            lemma_combine_empty(combine(attribute.composition_of(seq![AttributeName::ATKRatioBase]), attribute.composition_of(seq![AttributeName::ATKRatioByElement(element)])));
            attribute.lemma_two_names(AttributeName::DEFRatioBase, AttributeName::DEFRatioByElement(element));
            lemma_combine_empty(combine(attribute.composition_of(seq![AttributeName::DEFRatioBase]), attribute.composition_of(seq![AttributeName::DEFRatioByElement(element)])));
            attribute.lemma_two_names(AttributeName::HPRatioBase, AttributeName::HPRatioByElement(element));
            lemma_combine_empty(combine(attribute.composition_of(seq![AttributeName::HPRatioBase]), attribute.composition_of(seq![AttributeName::HPRatioByElement(element)])));
            attribute.lemma_two_names(AttributeName::ExtraDmgBase, AttributeName::ExtraDmgByElement(element));
            lemma_combine_empty(combine(attribute.composition_of(seq![AttributeName::ExtraDmgBase]), attribute.composition_of(seq![AttributeName::ExtraDmgByElement(element)])));
            attribute.lemma_two_names(AttributeName::CriticalDamageBase, AttributeName::CriticalDamageByElement(element));
            lemma_combine_empty(combine(attribute.composition_of(seq![AttributeName::CriticalDamageBase]), attribute.composition_of(seq![AttributeName::CriticalDamageByElement(element)])));
            attribute.lemma_two_names(AttributeName::CriticalBase, AttributeName::CriticalByElement(element));
            lemma_combine_empty(combine(attribute.composition_of(seq![AttributeName::CriticalBase]), attribute.composition_of(seq![AttributeName::CriticalByElement(element)])));
            attribute.lemma_two_names(AttributeName::BonusBase, AttributeName::BonusByElement(element));
            lemma_combine_empty(combine(attribute.composition_of(seq![AttributeName::BonusBase]), attribute.composition_of(seq![AttributeName::BonusByElement(element)])));
        },
    }
    attribute.lemma_two_names(AttributeName::ResMinusBase, AttributeName::ResMinusByElement(element));
    lemma_combine_empty(attribute.composition_of(bonus_names(element, skill)));
}

/// The contributions that a damage computation adds to those of the attribute
/// graph: for each quantity, a map from source description to amount.
pub struct ComplicatedDamageBuilder {
    pub extra_critical_damage: Composition,
    pub extra_critical_rate: Composition,
    pub extra_bonus: Composition,
    pub extra_damage: Composition,
    pub extra_atk: Composition,
    pub extra_def: Composition,
    pub extra_hp: Composition,
    pub extra_healing_bonus: Composition,
    pub extra_enhance_melt: Composition,
    pub extra_enhance_vaporize: Composition,
    pub extra_em: Composition,
    pub extra_def_minus: Composition,
    pub extra_def_penetration: Composition,
    pub extra_res_minus: Composition,
    pub ratio_atk: Composition,
    pub ratio_def: Composition,
    pub ratio_hp: Composition,
    pub ratio_em: Composition,
    pub direct_moonelectro_ratio: Composition,
}

impl ComplicatedDamageBuilder {
    /// The sum of the absolute amounts of all compositions of the builder.
    pub open spec fn magnitude(&self) -> int {
        self.extra_critical_damage.magnitude()
            + self.extra_critical_rate.magnitude()
            + self.extra_bonus.magnitude()
            + self.extra_damage.magnitude()
            + self.extra_atk.magnitude()
            + self.extra_def.magnitude()
            + self.extra_hp.magnitude()
            + self.extra_healing_bonus.magnitude()
            + self.extra_enhance_melt.magnitude()
            + self.extra_enhance_vaporize.magnitude()
            + self.extra_em.magnitude()
            + self.extra_def_minus.magnitude()
            + self.extra_def_penetration.magnitude()
            + self.extra_res_minus.magnitude()
            + self.ratio_atk.magnitude()
            + self.ratio_def.magnitude()
            + self.ratio_hp.magnitude()
            + self.ratio_em.magnitude()
            + self.direct_moonelectro_ratio.magnitude()
    }

    /// The elemental mastery that the builder and the graph give together.
    pub open spec fn em_total(&self, attribute: &ComplicatedAttributeGraph) -> int {
        self.extra_em.total() + attribute.total_of(ComplicatedAttributeGraph::em_names())
    }

    /// Every composition of the builder holds a non-negative magnitude, at most
    /// that of the builder.
    pub proof fn lemma_fields_bounded(&self)
        ensures
            0 <= self.extra_critical_damage.magnitude() <= self.magnitude(),
            0 <= self.extra_critical_rate.magnitude() <= self.magnitude(),
            0 <= self.extra_bonus.magnitude() <= self.magnitude(),
            0 <= self.extra_damage.magnitude() <= self.magnitude(),
            0 <= self.extra_atk.magnitude() <= self.magnitude(),
            0 <= self.extra_def.magnitude() <= self.magnitude(),
            0 <= self.extra_hp.magnitude() <= self.magnitude(),
            0 <= self.extra_healing_bonus.magnitude() <= self.magnitude(),
            0 <= self.extra_enhance_melt.magnitude() <= self.magnitude(),
            0 <= self.extra_enhance_vaporize.magnitude() <= self.magnitude(),
            0 <= self.extra_em.magnitude() <= self.magnitude(),
            0 <= self.extra_def_minus.magnitude() <= self.magnitude(),
            0 <= self.extra_def_penetration.magnitude() <= self.magnitude(),
            0 <= self.extra_res_minus.magnitude() <= self.magnitude(),
            0 <= self.ratio_atk.magnitude() <= self.magnitude(),
            0 <= self.ratio_def.magnitude() <= self.magnitude(),
            0 <= self.ratio_hp.magnitude() <= self.magnitude(),
            0 <= self.ratio_em.magnitude() <= self.magnitude(),
            0 <= self.direct_moonelectro_ratio.magnitude() <= self.magnitude(),
            abs(self.extra_em.total()) <= self.extra_em.magnitude(),
    {
        lemma_magnitude_nonneg(self.extra_critical_damage.items());
        lemma_magnitude_nonneg(self.extra_critical_rate.items());
        lemma_magnitude_nonneg(self.extra_bonus.items());
        lemma_magnitude_nonneg(self.extra_damage.items());
        lemma_magnitude_nonneg(self.extra_atk.items());
        lemma_magnitude_nonneg(self.extra_def.items());
        lemma_magnitude_nonneg(self.extra_hp.items());
        lemma_magnitude_nonneg(self.extra_healing_bonus.items());
        lemma_magnitude_nonneg(self.extra_enhance_melt.items());
        lemma_magnitude_nonneg(self.extra_enhance_vaporize.items());
        lemma_magnitude_nonneg(self.extra_em.items());
        lemma_magnitude_nonneg(self.extra_def_minus.items());
        lemma_magnitude_nonneg(self.extra_def_penetration.items());
        lemma_magnitude_nonneg(self.extra_res_minus.items());
        lemma_magnitude_nonneg(self.ratio_atk.items());
        lemma_magnitude_nonneg(self.ratio_def.items());
        lemma_magnitude_nonneg(self.ratio_hp.items());
        lemma_magnitude_nonneg(self.ratio_em.items());
        lemma_magnitude_nonneg(self.direct_moonelectro_ratio.items());
    }

    /// The moon-electro-charged bonus: the graph's, with 6 * em / (em + 2000)
    /// where the elemental mastery em is positive.
    pub open spec fn moonelectro_view(&self, attribute: &ComplicatedAttributeGraph) -> CompositionMap {
        with_mastery(
            attribute.composition_of(seq![AttributeName::EnhanceMoonelectro]),
            self.em_total(attribute),
            moonelectro_bonus(self.em_total(attribute)),
        )
    }

    /// The sum of `moonelectro_view`.
    pub open spec fn moonelectro_total(&self, attribute: &ComplicatedAttributeGraph) -> int {
        attribute.total_of(seq![AttributeName::EnhanceMoonelectro]) + mastery_amount(
            self.em_total(attribute),
            moonelectro_bonus(self.em_total(attribute)),
        )
    }

    /// The bonus of direct moon-electro-charged damage: the graph's
    /// moon-electro-charged bonus, with 6 * em / (em + 2000) where the elemental
    /// mastery em is positive.
    pub open spec fn direct_moonelectro_view(&self, attribute: &ComplicatedAttributeGraph) -> CompositionMap {
        with_mastery(
            attribute.composition_of(seq![AttributeName::EnhanceMoonelectro]),
            self.extra_em.total() + attribute.total_of(ComplicatedAttributeGraph::em_names()),
            moonelectro_bonus(self.extra_em.total() + attribute.total_of(ComplicatedAttributeGraph::em_names())),
        )
    }

    /// The sum of `direct_moonelectro_view`.
    pub open spec fn direct_moonelectro_total(&self, attribute: &ComplicatedAttributeGraph) -> int {
        attribute.total_of(seq![AttributeName::EnhanceMoonelectro]) + mastery_amount(
            self.extra_em.total() + attribute.total_of(ComplicatedAttributeGraph::em_names()),
            moonelectro_bonus(self.extra_em.total() + attribute.total_of(ComplicatedAttributeGraph::em_names())),
        )
    }

    /// The elemental-mastery multiplier of a hit of `element` from `skill`: the
    /// graph has no attribute for it, so only the builder's own entries.
    pub open spec fn em_ratio_view(&self, attribute: &ComplicatedAttributeGraph, element: Element, skill: SkillType) -> CompositionMap {
        combine(attribute.composition_of(Seq::<AttributeName>::empty()), self.ratio_em@)
    }

    /// The sum of `em_ratio_view`.
    pub open spec fn em_ratio_total(&self, attribute: &ComplicatedAttributeGraph, element: Element, skill: SkillType) -> int {
        attribute.total_of(Seq::<AttributeName>::empty()) + self.ratio_em.total()
    }

    /// The direct moon-electro-charged bonus is the moon-electro-charged bonus,
    /// for every builder and graph.
    pub proof fn lemma_direct_moonelectro_matches(&self, attribute: &ComplicatedAttributeGraph)
        ensures
            self.direct_moonelectro_view(attribute) == self.moonelectro_view(attribute),
            self.direct_moonelectro_total(attribute) == self.moonelectro_total(attribute),
    {
    }

    /// The elemental-mastery multiplier of a hit is the builder's own
    /// composition, whatever the element and the skill.
    pub proof fn lemma_em_ratio_is_builders(
        &self,
        attribute: &ComplicatedAttributeGraph,
        element: Element,
        skill: SkillType,
    )
        ensures
            self.em_ratio_view(attribute, element, skill) == self.ratio_em@,
            self.em_ratio_total(attribute, element, skill) == self.ratio_em.total(),
    {
        lemma_gather_none(attribute.contributions());
        assert(view_of(Seq::<(Seq<char>, int)>::empty()) =~= Map::<Seq<char>, int>::empty());
        lemma_combine_empty(self.ratio_em@);
    }

    /// Whether the builder and `attribute` together stay within `INPUT_LIMIT`,
    /// as the compositions of a hit require.
    pub fn within_limit(&self, attribute: &ComplicatedAttributeGraph) -> (r: bool)
        ensures
            r == (self.magnitude() + attribute.magnitude() <= INPUT_LIMIT),
    {
        proof {
            self.lemma_fields_bounded();
        }
        let mut acc: i128 = attribute.absolute_sum() as i128;
        acc = acc + self.extra_critical_damage.absolute_sum() as i128;
        acc = acc + self.extra_critical_rate.absolute_sum() as i128;
        acc = acc + self.extra_bonus.absolute_sum() as i128;
        acc = acc + self.extra_damage.absolute_sum() as i128;
        acc = acc + self.extra_atk.absolute_sum() as i128;
        acc = acc + self.extra_def.absolute_sum() as i128;
        acc = acc + self.extra_hp.absolute_sum() as i128;
        acc = acc + self.extra_healing_bonus.absolute_sum() as i128;
        acc = acc + self.extra_enhance_melt.absolute_sum() as i128;
        acc = acc + self.extra_enhance_vaporize.absolute_sum() as i128;
        acc = acc + self.extra_em.absolute_sum() as i128;
        acc = acc + self.extra_def_minus.absolute_sum() as i128;
        acc = acc + self.extra_def_penetration.absolute_sum() as i128;
        acc = acc + self.extra_res_minus.absolute_sum() as i128;
        acc = acc + self.ratio_atk.absolute_sum() as i128;
        acc = acc + self.ratio_def.absolute_sum() as i128;
        acc = acc + self.ratio_hp.absolute_sum() as i128;
        acc = acc + self.ratio_em.absolute_sum() as i128;
        acc = acc + self.direct_moonelectro_ratio.absolute_sum() as i128;
        acc <= INPUT_LIMIT as i128
    }

    /// A builder whose compositions are all empty.
    pub fn new() -> (r: ComplicatedDamageBuilder)
        ensures
            r.extra_critical_damage@ == Map::<Seq<char>, int>::empty(),
            r.extra_critical_rate@ == Map::<Seq<char>, int>::empty(),
            r.extra_bonus@ == Map::<Seq<char>, int>::empty(),
            r.extra_damage@ == Map::<Seq<char>, int>::empty(),
            r.extra_atk@ == Map::<Seq<char>, int>::empty(),
            r.extra_def@ == Map::<Seq<char>, int>::empty(),
            r.extra_hp@ == Map::<Seq<char>, int>::empty(),
            r.extra_healing_bonus@ == Map::<Seq<char>, int>::empty(),
            r.extra_enhance_melt@ == Map::<Seq<char>, int>::empty(),
            r.extra_enhance_vaporize@ == Map::<Seq<char>, int>::empty(),
            r.extra_em@ == Map::<Seq<char>, int>::empty(),
            r.extra_def_minus@ == Map::<Seq<char>, int>::empty(),
            r.extra_def_penetration@ == Map::<Seq<char>, int>::empty(),
            r.extra_res_minus@ == Map::<Seq<char>, int>::empty(),
            r.ratio_atk@ == Map::<Seq<char>, int>::empty(),
            r.ratio_def@ == Map::<Seq<char>, int>::empty(),
            r.ratio_hp@ == Map::<Seq<char>, int>::empty(),
            r.ratio_em@ == Map::<Seq<char>, int>::empty(),
            r.direct_moonelectro_ratio@ == Map::<Seq<char>, int>::empty(),
            r.extra_critical_damage.total() == 0,
            r.extra_critical_rate.total() == 0,
            r.extra_bonus.total() == 0,
            r.extra_damage.total() == 0,
            r.extra_atk.total() == 0,
            r.extra_def.total() == 0,
            r.extra_hp.total() == 0,
            r.extra_healing_bonus.total() == 0,
            r.extra_enhance_melt.total() == 0,
            r.extra_enhance_vaporize.total() == 0,
            r.extra_em.total() == 0,
            r.extra_def_minus.total() == 0,
            r.extra_def_penetration.total() == 0,
            r.extra_res_minus.total() == 0,
            r.ratio_atk.total() == 0,
            r.ratio_def.total() == 0,
            r.ratio_hp.total() == 0,
            r.ratio_em.total() == 0,
            r.direct_moonelectro_ratio.total() == 0,
            r.magnitude() == 0,
    {
        ComplicatedDamageBuilder {
            extra_critical_damage: Composition::new(),
            extra_critical_rate: Composition::new(),
            extra_bonus: Composition::new(),
            extra_damage: Composition::new(),
            extra_atk: Composition::new(),
            extra_def: Composition::new(),
            extra_hp: Composition::new(),
            extra_healing_bonus: Composition::new(),
            extra_enhance_melt: Composition::new(),
            extra_enhance_vaporize: Composition::new(),
            extra_em: Composition::new(),
            extra_def_minus: Composition::new(),
            extra_def_penetration: Composition::new(),
            extra_res_minus: Composition::new(),
            ratio_atk: Composition::new(),
            ratio_def: Composition::new(),
            ratio_hp: Composition::new(),
            ratio_em: Composition::new(),
            direct_moonelectro_ratio: Composition::new(),
        }
    }

    /// Adds `value` to the elemental-mastery multiplier that the source `key` contributes.
    pub fn add_em_ratio(&mut self, key: &str, value: i64)
        requires
            old(self).ratio_em.magnitude() + abs(value as int) <= MAX_MAGNITUDE,
        ensures
            final(self).ratio_em@ == combine(old(self).ratio_em@, single(key@, value as int)),
            final(self).ratio_em.total() == old(self).ratio_em.total() + value,
            final(self).ratio_em.magnitude() <= old(self).ratio_em.magnitude() + abs(value as int),
            *final(self) == (ComplicatedDamageBuilder { ratio_em: final(self).ratio_em, ..*old(self) }),
    {
        self.ratio_em.add_value(key, value);
    }

    /// Adds `value` to the attack multiplier that the source `key` contributes.
    pub fn add_atk_ratio(&mut self, key: &str, value: i64)
        requires
            old(self).ratio_atk.magnitude() + abs(value as int) <= MAX_MAGNITUDE,
        ensures
            final(self).ratio_atk@ == combine(old(self).ratio_atk@, single(key@, value as int)),
            final(self).ratio_atk.total() == old(self).ratio_atk.total() + value,
            final(self).ratio_atk.magnitude() <= old(self).ratio_atk.magnitude() + abs(value as int),
            *final(self) == (ComplicatedDamageBuilder { ratio_atk: final(self).ratio_atk, ..*old(self) }),
    {
        self.ratio_atk.add_value(key, value);
    }

    /// Adds `value` to the defense multiplier that the source `key` contributes.
    pub fn add_def_ratio(&mut self, key: &str, value: i64)
        requires
            old(self).ratio_def.magnitude() + abs(value as int) <= MAX_MAGNITUDE,
        ensures
            final(self).ratio_def@ == combine(old(self).ratio_def@, single(key@, value as int)),
            final(self).ratio_def.total() == old(self).ratio_def.total() + value,
            final(self).ratio_def.magnitude() <= old(self).ratio_def.magnitude() + abs(value as int),
            *final(self) == (ComplicatedDamageBuilder { ratio_def: final(self).ratio_def, ..*old(self) }),
    {
        self.ratio_def.add_value(key, value);
    }

    /// Adds `value` to the HP multiplier that the source `key` contributes.
    pub fn add_hp_ratio(&mut self, key: &str, value: i64)
        requires
            old(self).ratio_hp.magnitude() + abs(value as int) <= MAX_MAGNITUDE,
        ensures
            final(self).ratio_hp@ == combine(old(self).ratio_hp@, single(key@, value as int)),
            final(self).ratio_hp.total() == old(self).ratio_hp.total() + value,
            final(self).ratio_hp.magnitude() <= old(self).ratio_hp.magnitude() + abs(value as int),
            *final(self) == (ComplicatedDamageBuilder { ratio_hp: final(self).ratio_hp, ..*old(self) }),
    {
        self.ratio_hp.add_value(key, value);
    }

    /// Adds `value` to extra elemental mastery that the source `key` contributes.
    pub fn add_extra_em(&mut self, key: &str, value: i64)
        requires
            old(self).extra_em.magnitude() + abs(value as int) <= MAX_MAGNITUDE,
        ensures
            final(self).extra_em@ == combine(old(self).extra_em@, single(key@, value as int)),
            final(self).extra_em.total() == old(self).extra_em.total() + value,
            final(self).extra_em.magnitude() <= old(self).extra_em.magnitude() + abs(value as int),
            *final(self) == (ComplicatedDamageBuilder { extra_em: final(self).extra_em, ..*old(self) }),
    {
        self.extra_em.add_value(key, value);
    }

    /// Adds `value` to extra attack that the source `key` contributes.
    pub fn add_extra_atk(&mut self, key: &str, value: i64)
        requires
            old(self).extra_atk.magnitude() + abs(value as int) <= MAX_MAGNITUDE,
        ensures
            final(self).extra_atk@ == combine(old(self).extra_atk@, single(key@, value as int)),
            final(self).extra_atk.total() == old(self).extra_atk.total() + value,
            final(self).extra_atk.magnitude() <= old(self).extra_atk.magnitude() + abs(value as int),
            *final(self) == (ComplicatedDamageBuilder { extra_atk: final(self).extra_atk, ..*old(self) }),
    {
        self.extra_atk.add_value(key, value);
    }

    /// Adds `value` to extra defense that the source `key` contributes.
    pub fn add_extra_def(&mut self, key: &str, value: i64)
        requires
            old(self).extra_def.magnitude() + abs(value as int) <= MAX_MAGNITUDE,
        ensures
            final(self).extra_def@ == combine(old(self).extra_def@, single(key@, value as int)),
            final(self).extra_def.total() == old(self).extra_def.total() + value,
            final(self).extra_def.magnitude() <= old(self).extra_def.magnitude() + abs(value as int),
            *final(self) == (ComplicatedDamageBuilder { extra_def: final(self).extra_def, ..*old(self) }),
    {
        self.extra_def.add_value(key, value);
    }

    /// Adds `value` to extra HP that the source `key` contributes.
    pub fn add_extra_hp(&mut self, key: &str, value: i64)
        requires
            old(self).extra_hp.magnitude() + abs(value as int) <= MAX_MAGNITUDE,
        ensures
            final(self).extra_hp@ == combine(old(self).extra_hp@, single(key@, value as int)),
            final(self).extra_hp.total() == old(self).extra_hp.total() + value,
            final(self).extra_hp.magnitude() <= old(self).extra_hp.magnitude() + abs(value as int),
            *final(self) == (ComplicatedDamageBuilder { extra_hp: final(self).extra_hp, ..*old(self) }),
    {
        self.extra_hp.add_value(key, value);
    }

    /// Adds `value` to flat extra damage that the source `key` contributes.
    pub fn add_extra_damage(&mut self, key: &str, value: i64)
        requires
            old(self).extra_damage.magnitude() + abs(value as int) <= MAX_MAGNITUDE,
        ensures
            final(self).extra_damage@ == combine(old(self).extra_damage@, single(key@, value as int)),
            final(self).extra_damage.total() == old(self).extra_damage.total() + value,
            final(self).extra_damage.magnitude() <= old(self).extra_damage.magnitude() + abs(value as int),
            *final(self) == (ComplicatedDamageBuilder { extra_damage: final(self).extra_damage, ..*old(self) }),
    {
        self.extra_damage.add_value(key, value);
    }

    /// Adds `value` to extra critical rate that the source `key` contributes.
    pub fn add_extra_critical(&mut self, key: &str, value: i64)
        requires
            old(self).extra_critical_rate.magnitude() + abs(value as int) <= MAX_MAGNITUDE,
        ensures
            final(self).extra_critical_rate@ == combine(old(self).extra_critical_rate@, single(key@, value as int)),
            final(self).extra_critical_rate.total() == old(self).extra_critical_rate.total() + value,
            final(self).extra_critical_rate.magnitude() <= old(self).extra_critical_rate.magnitude() + abs(value as int),
            *final(self) == (ComplicatedDamageBuilder { extra_critical_rate: final(self).extra_critical_rate, ..*old(self) }),
    {
        self.extra_critical_rate.add_value(key, value);
    }

    /// Adds `value` to extra critical damage that the source `key` contributes.
    pub fn add_extra_critical_damage(&mut self, key: &str, value: i64)
        requires
            old(self).extra_critical_damage.magnitude() + abs(value as int) <= MAX_MAGNITUDE,
        ensures
            final(self).extra_critical_damage@ == combine(old(self).extra_critical_damage@, single(key@, value as int)),
            final(self).extra_critical_damage.total() == old(self).extra_critical_damage.total() + value,
            final(self).extra_critical_damage.magnitude() <= old(self).extra_critical_damage.magnitude() + abs(value as int),
            *final(self) == (ComplicatedDamageBuilder { extra_critical_damage: final(self).extra_critical_damage, ..*old(self) }),
    {
        self.extra_critical_damage.add_value(key, value);
    }

    /// Adds `value` to extra damage bonus that the source `key` contributes.
    pub fn add_extra_bonus(&mut self, key: &str, value: i64)
        requires
            old(self).extra_bonus.magnitude() + abs(value as int) <= MAX_MAGNITUDE,
        ensures
            final(self).extra_bonus@ == combine(old(self).extra_bonus@, single(key@, value as int)),
            final(self).extra_bonus.total() == old(self).extra_bonus.total() + value,
            final(self).extra_bonus.magnitude() <= old(self).extra_bonus.magnitude() + abs(value as int),
            *final(self) == (ComplicatedDamageBuilder { extra_bonus: final(self).extra_bonus, ..*old(self) }),
    {
        self.extra_bonus.add_value(key, value);
    }

    /// Adds `value` to extra melt bonus that the source `key` contributes.
    pub fn add_extra_enhance_melt(&mut self, key: &str, value: i64)
        requires
            old(self).extra_enhance_melt.magnitude() + abs(value as int) <= MAX_MAGNITUDE,
        ensures
            final(self).extra_enhance_melt@ == combine(old(self).extra_enhance_melt@, single(key@, value as int)),
            final(self).extra_enhance_melt.total() == old(self).extra_enhance_melt.total() + value,
            final(self).extra_enhance_melt.magnitude() <= old(self).extra_enhance_melt.magnitude() + abs(value as int),
            *final(self) == (ComplicatedDamageBuilder { extra_enhance_melt: final(self).extra_enhance_melt, ..*old(self) }),
    {
        self.extra_enhance_melt.add_value(key, value);
    }

    /// Adds `value` to extra vaporize bonus that the source `key` contributes.
    pub fn add_extra_enhance_vaporize(&mut self, key: &str, value: i64)
        requires
            old(self).extra_enhance_vaporize.magnitude() + abs(value as int) <= MAX_MAGNITUDE,
        ensures
            final(self).extra_enhance_vaporize@ == combine(old(self).extra_enhance_vaporize@, single(key@, value as int)),
            final(self).extra_enhance_vaporize.total() == old(self).extra_enhance_vaporize.total() + value,
            final(self).extra_enhance_vaporize.magnitude() <= old(self).extra_enhance_vaporize.magnitude() + abs(value as int),
            *final(self) == (ComplicatedDamageBuilder { extra_enhance_vaporize: final(self).extra_enhance_vaporize, ..*old(self) }),
    {
        self.extra_enhance_vaporize.add_value(key, value);
    }

    /// Adds `value` to extra defense reduction that the source `key` contributes.
    pub fn add_extra_def_minus(&mut self, key: &str, value: i64)
        requires
            old(self).extra_def_minus.magnitude() + abs(value as int) <= MAX_MAGNITUDE,
        ensures
            final(self).extra_def_minus@ == combine(old(self).extra_def_minus@, single(key@, value as int)),
            final(self).extra_def_minus.total() == old(self).extra_def_minus.total() + value,
            final(self).extra_def_minus.magnitude() <= old(self).extra_def_minus.magnitude() + abs(value as int),
            *final(self) == (ComplicatedDamageBuilder { extra_def_minus: final(self).extra_def_minus, ..*old(self) }),
    {
        self.extra_def_minus.add_value(key, value);
    }

    /// Adds `value` to extra defense penetration that the source `key` contributes.
    pub fn add_extra_def_penetration(&mut self, key: &str, value: i64)
        requires
            old(self).extra_def_penetration.magnitude() + abs(value as int) <= MAX_MAGNITUDE,
        ensures
            final(self).extra_def_penetration@ == combine(old(self).extra_def_penetration@, single(key@, value as int)),
            final(self).extra_def_penetration.total() == old(self).extra_def_penetration.total() + value,
            final(self).extra_def_penetration.magnitude() <= old(self).extra_def_penetration.magnitude() + abs(value as int),
            *final(self) == (ComplicatedDamageBuilder { extra_def_penetration: final(self).extra_def_penetration, ..*old(self) }),
    {
        self.extra_def_penetration.add_value(key, value);
    }

    /// Adds `value` to extra resistance reduction that the source `key` contributes.
    pub fn add_extra_res_minus(&mut self, key: &str, value: i64)
        requires
            old(self).extra_res_minus.magnitude() + abs(value as int) <= MAX_MAGNITUDE,
        ensures
            final(self).extra_res_minus@ == combine(old(self).extra_res_minus@, single(key@, value as int)),
            final(self).extra_res_minus.total() == old(self).extra_res_minus.total() + value,
            final(self).extra_res_minus.magnitude() <= old(self).extra_res_minus.magnitude() + abs(value as int),
            *final(self) == (ComplicatedDamageBuilder { extra_res_minus: final(self).extra_res_minus, ..*old(self) }),
    {
        self.extra_res_minus.add_value(key, value);
    }

    /// Adds `value` to the direct moon-electro-charged multiplier that the source `key` contributes.
    pub fn add_direct_moonelectro_ratio(&mut self, key: &str, value: i64)
        requires
            old(self).direct_moonelectro_ratio.magnitude() + abs(value as int) <= MAX_MAGNITUDE,
        ensures
            final(self).direct_moonelectro_ratio@ == combine(old(self).direct_moonelectro_ratio@, single(key@, value as int)),
            final(self).direct_moonelectro_ratio.total() == old(self).direct_moonelectro_ratio.total() + value,
            final(self).direct_moonelectro_ratio.magnitude() <= old(self).direct_moonelectro_ratio.magnitude() + abs(value as int),
            *final(self) == (ComplicatedDamageBuilder { direct_moonelectro_ratio: final(self).direct_moonelectro_ratio, ..*old(self) }),
    {
        self.direct_moonelectro_ratio.add_value(key, value);
    }

    /// Direct moonfall damage takes no multiplier: the builder stays as it is.
    pub fn add_direct_moonfall_ratio(&mut self, key: &str, value: i64)
        ensures
            *final(self) == *old(self),
    {
    }
}


impl ComplicatedDamageBuilder {
    /// The elemental mastery of the character with the builder's extra mastery.
    fn mastery(&self, attribute: &ComplicatedAttributeGraph) -> (r: i64)
        requires
            self.magnitude() + attribute.magnitude() <= INPUT_LIMIT,
        ensures
            r == self.em_total(attribute),
            abs(r as int) <= self.magnitude() + attribute.magnitude(),
    {
        proof {
            self.lemma_fields_bounded();
        }
        self.extra_em.sum() + attribute.get_em_all()
    }

    /// The defense reduction against the target.
    pub fn get_def_minus_composition(&self, attribute: &ComplicatedAttributeGraph) -> (r: Composition)
        requires
            self.magnitude() + attribute.magnitude() <= INPUT_LIMIT,
        ensures
            r@ == combine(attribute.composition_of(seq![AttributeName::DefMinus]), self.extra_def_minus@),
            r.total() == attribute.total_of(seq![AttributeName::DefMinus]) + self.extra_def_minus.total(),
            0 <= r.magnitude() <= self.magnitude() + attribute.magnitude(),
    {
        proof {
            self.lemma_fields_bounded();
            lemma_gather_magnitude(attribute.contributions(), seq![]);
        }
        let names = vec![AttributeName::DefMinus];
        assert(names@ =~= seq![AttributeName::DefMinus]);
        gathered_with(attribute, &names, &self.extra_def_minus)
    }

    /// The defense penetration of the hit.
    pub fn get_def_penetration_composition(&self, attribute: &ComplicatedAttributeGraph) -> (r: Composition)
        requires
            self.magnitude() + attribute.magnitude() <= INPUT_LIMIT,
        ensures
            r@ == combine(attribute.composition_of(seq![AttributeName::DefPenetration]), self.extra_def_penetration@),
            r.total() == attribute.total_of(seq![AttributeName::DefPenetration]) + self.extra_def_penetration.total(),
            0 <= r.magnitude() <= self.magnitude() + attribute.magnitude(),
    {
        proof {
            self.lemma_fields_bounded();
            lemma_gather_magnitude(attribute.contributions(), seq![]);
        }
        let names = vec![AttributeName::DefPenetration];
        assert(names@ =~= seq![AttributeName::DefPenetration]);
        gathered_with(attribute, &names, &self.extra_def_penetration)
    }

    /// The resistance reduction against a hit of `element`.
    pub fn get_res_minus_composition(&self, attribute: &ComplicatedAttributeGraph, element: Element) -> (r: Composition)
        requires
            self.magnitude() + attribute.magnitude() <= INPUT_LIMIT,
        ensures
            r@ == combine(attribute.composition_of(res_minus_names(element)), self.extra_res_minus@),
            r.total() == attribute.total_of(res_minus_names(element)) + self.extra_res_minus.total(),
            r@ == combine(combine(attribute.composition_of(seq![AttributeName::ResMinusBase]), attribute.composition_of(seq![AttributeName::ResMinusByElement(element)])), self.extra_res_minus@),
            r.total() == attribute.total_of(seq![AttributeName::ResMinusBase]) + attribute.total_of(seq![AttributeName::ResMinusByElement(element)]) + self.extra_res_minus.total(),
            0 <= r.magnitude() <= self.magnitude() + attribute.magnitude(),
    {
        proof {
            lemma_hit_attributes(attribute, element, SkillType::NoneType);
            self.lemma_fields_bounded();
            lemma_gather_magnitude(attribute.contributions(), seq![]);
        }
        let names = vec![AttributeName::ResMinusBase, AttributeName::res_minus_name_by_element(element)];
        assert(names@ =~= res_minus_names(element));
        gathered_with(attribute, &names, &self.extra_res_minus)
    }

    /// The flat extra damage of a hit of `element` from `skill`.
    pub fn get_extra_damage_composition(&self, attribute: &ComplicatedAttributeGraph, element: Element, skill: SkillType) -> (r: Composition)
        requires
            self.magnitude() + attribute.magnitude() <= INPUT_LIMIT,
        ensures
            r@ == combine(attribute.composition_of(extra_damage_names(element, skill)), self.extra_damage@),
            r.total() == attribute.total_of(extra_damage_names(element, skill)) + self.extra_damage.total(),
            r@ == combine(combine(combine(attribute.composition_of(seq![AttributeName::ExtraDmgBase]), attribute.composition_of(seq![AttributeName::ExtraDmgByElement(element)])), match skill_group(skill) {
                Some(g) => attribute.composition_of(seq![AttributeName::ExtraDmgBySkill(g)]),
                None => Map::<Seq<char>, int>::empty(),
            }), self.extra_damage@),
            r.total() == attribute.total_of(seq![AttributeName::ExtraDmgBase]) + attribute.total_of(seq![AttributeName::ExtraDmgByElement(element)]) + match skill_group(skill) {
                Some(g) => attribute.total_of(seq![AttributeName::ExtraDmgBySkill(g)]),
                None => 0,
            } + self.extra_damage.total(),
            0 <= r.magnitude() <= self.magnitude() + attribute.magnitude(),
    {
        proof {
            lemma_hit_attributes(attribute, element, skill);
            self.lemma_fields_bounded();
            lemma_gather_magnitude(attribute.contributions(), seq![]);
        }
        let mut names = vec![AttributeName::ExtraDmgBase, AttributeName::extra_dmg_name_by_element(element)];
        if let Some(name) = AttributeName::extra_dmg_name_by_skill_type(skill) {
            names.push(name);
        }
        assert(names@ =~= extra_damage_names(element, skill));
        gathered_with(attribute, &names, &self.extra_damage)
    }

    /// The healing bonus.
    pub fn get_healing_bonus_composition(&self, attribute: &ComplicatedAttributeGraph) -> (r: Composition)
        requires
            self.magnitude() + attribute.magnitude() <= INPUT_LIMIT,
        ensures
            r@ == combine(attribute.composition_of(seq![AttributeName::HealingBonus]), self.extra_healing_bonus@),
            r.total() == attribute.total_of(seq![AttributeName::HealingBonus]) + self.extra_healing_bonus.total(),
            0 <= r.magnitude() <= self.magnitude() + attribute.magnitude(),
    {
        proof {
            self.lemma_fields_bounded();
            lemma_gather_magnitude(attribute.contributions(), seq![]);
        }
        let names = vec![AttributeName::HealingBonus];
        assert(names@ =~= seq![AttributeName::HealingBonus]);
        gathered_with(attribute, &names, &self.extra_healing_bonus)
    }

    /// The shield strength: the builder adds none.
    pub fn get_shield_strength_composition(&self, attribute: &ComplicatedAttributeGraph) -> (r: Composition)
        ensures
            r@ == attribute.composition_of(seq![AttributeName::ShieldStrength]),
            r.total() == attribute.total_of(seq![AttributeName::ShieldStrength]),
            0 <= r.magnitude() <= attribute.magnitude(),
    {
        attribute.get_attribute_composition(AttributeName::ShieldStrength)
    }

    /// The melt bonus, with the amplifying bonus of the elemental mastery where it is positive.
    pub fn get_enhance_melt_composition(&self, attribute: &ComplicatedAttributeGraph) -> (r: Composition)
        requires
            self.magnitude() + attribute.magnitude() <= INPUT_LIMIT,
        ensures
            r@ == with_mastery(
                combine(attribute.composition_of(seq![AttributeName::EnhanceMelt]), self.extra_enhance_melt@),
                self.em_total(attribute),
                amp_bonus(self.em_total(attribute)),
            ),
            r.total() == attribute.total_of(seq![AttributeName::EnhanceMelt]) + self.extra_enhance_melt.total() + mastery_amount(
                self.em_total(attribute),
                amp_bonus(self.em_total(attribute)),
            ),
            (self.extra_em.total() + attribute.total_of(seq![AttributeName::ElementalMastery]) + attribute.total_of(seq![AttributeName::ElementalMasteryExtra])) > 0 ==> r@ == combine(combine(attribute.composition_of(seq![AttributeName::EnhanceMelt]), self.extra_enhance_melt@), single(seq!['\u{7cbe}', '\u{901a}'], (25 * (self.extra_em.total() + attribute.total_of(seq![AttributeName::ElementalMastery]) + attribute.total_of(seq![AttributeName::ElementalMasteryExtra])) * UNIT) / (9 * ((self.extra_em.total() + attribute.total_of(seq![AttributeName::ElementalMastery]) + attribute.total_of(seq![AttributeName::ElementalMasteryExtra])) + 1400 * UNIT)))),
            (self.extra_em.total() + attribute.total_of(seq![AttributeName::ElementalMastery]) + attribute.total_of(seq![AttributeName::ElementalMasteryExtra])) <= 0 ==> r@ == combine(attribute.composition_of(seq![AttributeName::EnhanceMelt]), self.extra_enhance_melt@),
            r.total() == attribute.total_of(seq![AttributeName::EnhanceMelt]) + self.extra_enhance_melt.total() + if (self.extra_em.total() + attribute.total_of(seq![AttributeName::ElementalMastery]) + attribute.total_of(seq![AttributeName::ElementalMasteryExtra])) > 0 {
                (25 * (self.extra_em.total() + attribute.total_of(seq![AttributeName::ElementalMastery]) + attribute.total_of(seq![AttributeName::ElementalMasteryExtra])) * UNIT) / (9 * ((self.extra_em.total() + attribute.total_of(seq![AttributeName::ElementalMastery]) + attribute.total_of(seq![AttributeName::ElementalMasteryExtra])) + 1400 * UNIT))
            } else {
                0
            },
    {
        proof {
            attribute.lemma_two_names(AttributeName::ElementalMastery, AttributeName::ElementalMasteryExtra);
            lemma_bonus_formulas(self.em_total(attribute));
            self.lemma_fields_bounded();
            lemma_gather_magnitude(attribute.contributions(), seq![]);
        }
        let mut comp = attribute.get_attribute_composition(AttributeName::EnhanceMelt);
        comp.merge(&self.extra_enhance_melt);
        let em = self.mastery(attribute);
        if em > 0 {
            let bonus = amp(em);
            let key = "\u{7cbe}\u{901a}";
            proof {
                reveal_strlit("\u{7cbe}\u{901a}");
                assert(key@ =~= mastery_source());
            }
            comp.add_value(key, bonus);
        }
        comp
    }

    /// The vaporize bonus, with the amplifying bonus of the elemental mastery where it is positive.
    pub fn get_enhance_vaporize_composition(&self, attribute: &ComplicatedAttributeGraph) -> (r: Composition)
        requires
            self.magnitude() + attribute.magnitude() <= INPUT_LIMIT,
        ensures
            r@ == with_mastery(
                combine(attribute.composition_of(seq![AttributeName::EnhanceVaporize]), self.extra_enhance_vaporize@),
                self.em_total(attribute),
                amp_bonus(self.em_total(attribute)),
            ),
            r.total() == attribute.total_of(seq![AttributeName::EnhanceVaporize]) + self.extra_enhance_vaporize.total() + mastery_amount(
                self.em_total(attribute),
                amp_bonus(self.em_total(attribute)),
            ),
            (self.extra_em.total() + attribute.total_of(seq![AttributeName::ElementalMastery]) + attribute.total_of(seq![AttributeName::ElementalMasteryExtra])) > 0 ==> r@ == combine(combine(attribute.composition_of(seq![AttributeName::EnhanceVaporize]), self.extra_enhance_vaporize@), single(seq!['\u{7cbe}', '\u{901a}'], (25 * (self.extra_em.total() + attribute.total_of(seq![AttributeName::ElementalMastery]) + attribute.total_of(seq![AttributeName::ElementalMasteryExtra])) * UNIT) / (9 * ((self.extra_em.total() + attribute.total_of(seq![AttributeName::ElementalMastery]) + attribute.total_of(seq![AttributeName::ElementalMasteryExtra])) + 1400 * UNIT)))),
            (self.extra_em.total() + attribute.total_of(seq![AttributeName::ElementalMastery]) + attribute.total_of(seq![AttributeName::ElementalMasteryExtra])) <= 0 ==> r@ == combine(attribute.composition_of(seq![AttributeName::EnhanceVaporize]), self.extra_enhance_vaporize@),
            r.total() == attribute.total_of(seq![AttributeName::EnhanceVaporize]) + self.extra_enhance_vaporize.total() + if (self.extra_em.total() + attribute.total_of(seq![AttributeName::ElementalMastery]) + attribute.total_of(seq![AttributeName::ElementalMasteryExtra])) > 0 {
                (25 * (self.extra_em.total() + attribute.total_of(seq![AttributeName::ElementalMastery]) + attribute.total_of(seq![AttributeName::ElementalMasteryExtra])) * UNIT) / (9 * ((self.extra_em.total() + attribute.total_of(seq![AttributeName::ElementalMastery]) + attribute.total_of(seq![AttributeName::ElementalMasteryExtra])) + 1400 * UNIT))
            } else {
                0
            },
    {
        proof {
            attribute.lemma_two_names(AttributeName::ElementalMastery, AttributeName::ElementalMasteryExtra);
            lemma_bonus_formulas(self.em_total(attribute));
            self.lemma_fields_bounded();
            lemma_gather_magnitude(attribute.contributions(), seq![]);
        }
        let mut comp = attribute.get_attribute_composition(AttributeName::EnhanceVaporize);
        comp.merge(&self.extra_enhance_vaporize);
        let em = self.mastery(attribute);
        if em > 0 {
            let bonus = amp(em);
            let key = "\u{7cbe}\u{901a}";
            proof {
                reveal_strlit("\u{7cbe}\u{901a}");
                assert(key@ =~= mastery_source());
            }
            comp.add_value(key, bonus);
        }
        comp
    }

    /// The spread bonus, with the catalyze bonus of the elemental mastery where it is positive.
    pub fn get_enhance_spread_composition(&self, attribute: &ComplicatedAttributeGraph) -> (r: Composition)
        requires
            self.magnitude() + attribute.magnitude() <= INPUT_LIMIT,
        ensures
            r@ == with_mastery(
                attribute.composition_of(seq![AttributeName::EnhanceSpread]),
                self.em_total(attribute),
                catalyze_bonus(self.em_total(attribute)),
            ),
            r.total() == attribute.total_of(seq![AttributeName::EnhanceSpread]) + mastery_amount(
                self.em_total(attribute),
                catalyze_bonus(self.em_total(attribute)),
            ),
            (self.extra_em.total() + attribute.total_of(seq![AttributeName::ElementalMastery]) + attribute.total_of(seq![AttributeName::ElementalMasteryExtra])) > 0 ==> r@ == combine(attribute.composition_of(seq![AttributeName::EnhanceSpread]), single(seq!['\u{7cbe}', '\u{901a}'], (5 * (self.extra_em.total() + attribute.total_of(seq![AttributeName::ElementalMastery]) + attribute.total_of(seq![AttributeName::ElementalMasteryExtra])) * UNIT) / ((self.extra_em.total() + attribute.total_of(seq![AttributeName::ElementalMastery]) + attribute.total_of(seq![AttributeName::ElementalMasteryExtra])) + 1200 * UNIT))),
            (self.extra_em.total() + attribute.total_of(seq![AttributeName::ElementalMastery]) + attribute.total_of(seq![AttributeName::ElementalMasteryExtra])) <= 0 ==> r@ == attribute.composition_of(seq![AttributeName::EnhanceSpread]),
            r.total() == attribute.total_of(seq![AttributeName::EnhanceSpread]) + if (self.extra_em.total() + attribute.total_of(seq![AttributeName::ElementalMastery]) + attribute.total_of(seq![AttributeName::ElementalMasteryExtra])) > 0 {
                (5 * (self.extra_em.total() + attribute.total_of(seq![AttributeName::ElementalMastery]) + attribute.total_of(seq![AttributeName::ElementalMasteryExtra])) * UNIT) / ((self.extra_em.total() + attribute.total_of(seq![AttributeName::ElementalMastery]) + attribute.total_of(seq![AttributeName::ElementalMasteryExtra])) + 1200 * UNIT)
            } else {
                0
            },
    {
        proof {
            attribute.lemma_two_names(AttributeName::ElementalMastery, AttributeName::ElementalMasteryExtra);
            lemma_bonus_formulas(self.em_total(attribute));
            self.lemma_fields_bounded();
            lemma_gather_magnitude(attribute.contributions(), seq![]);
        }
        let mut comp = attribute.get_attribute_composition(AttributeName::EnhanceSpread);
        let em = self.mastery(attribute);
        if em > 0 {
            let bonus = catalyze(em);
            let key = "\u{7cbe}\u{901a}";
            proof {
                reveal_strlit("\u{7cbe}\u{901a}");
                assert(key@ =~= mastery_source());
            }
            comp.add_value(key, bonus);
        }
        comp
    }

    /// The aggravate bonus, with the catalyze bonus of the elemental mastery where it is positive.
    pub fn get_enhance_aggravate_composition(&self, attribute: &ComplicatedAttributeGraph) -> (r: Composition)
        requires
            self.magnitude() + attribute.magnitude() <= INPUT_LIMIT,
        ensures
            r@ == with_mastery(
                attribute.composition_of(seq![AttributeName::EnhanceAggravate]),
                self.em_total(attribute),
                catalyze_bonus(self.em_total(attribute)),
            ),
            r.total() == attribute.total_of(seq![AttributeName::EnhanceAggravate]) + mastery_amount(
                self.em_total(attribute),
                catalyze_bonus(self.em_total(attribute)),
            ),
            (self.extra_em.total() + attribute.total_of(seq![AttributeName::ElementalMastery]) + attribute.total_of(seq![AttributeName::ElementalMasteryExtra])) > 0 ==> r@ == combine(attribute.composition_of(seq![AttributeName::EnhanceAggravate]), single(seq!['\u{7cbe}', '\u{901a}'], (5 * (self.extra_em.total() + attribute.total_of(seq![AttributeName::ElementalMastery]) + attribute.total_of(seq![AttributeName::ElementalMasteryExtra])) * UNIT) / ((self.extra_em.total() + attribute.total_of(seq![AttributeName::ElementalMastery]) + attribute.total_of(seq![AttributeName::ElementalMasteryExtra])) + 1200 * UNIT))),
            (self.extra_em.total() + attribute.total_of(seq![AttributeName::ElementalMastery]) + attribute.total_of(seq![AttributeName::ElementalMasteryExtra])) <= 0 ==> r@ == attribute.composition_of(seq![AttributeName::EnhanceAggravate]),
            r.total() == attribute.total_of(seq![AttributeName::EnhanceAggravate]) + if (self.extra_em.total() + attribute.total_of(seq![AttributeName::ElementalMastery]) + attribute.total_of(seq![AttributeName::ElementalMasteryExtra])) > 0 {
                (5 * (self.extra_em.total() + attribute.total_of(seq![AttributeName::ElementalMastery]) + attribute.total_of(seq![AttributeName::ElementalMasteryExtra])) * UNIT) / ((self.extra_em.total() + attribute.total_of(seq![AttributeName::ElementalMastery]) + attribute.total_of(seq![AttributeName::ElementalMasteryExtra])) + 1200 * UNIT)
            } else {
                0
            },
    {
        proof {
            attribute.lemma_two_names(AttributeName::ElementalMastery, AttributeName::ElementalMasteryExtra);
            lemma_bonus_formulas(self.em_total(attribute));
            self.lemma_fields_bounded();
            lemma_gather_magnitude(attribute.contributions(), seq![]);
        }
        let mut comp = attribute.get_attribute_composition(AttributeName::EnhanceAggravate);
        let em = self.mastery(attribute);
        if em > 0 {
            let bonus = catalyze(em);
            let key = "\u{7cbe}\u{901a}";
            proof {
                reveal_strlit("\u{7cbe}\u{901a}");
                assert(key@ =~= mastery_source());
            }
            comp.add_value(key, bonus);
        }
        comp
    }

    /// The moonfall bonus, with the transformative bonus of the elemental mastery where it is positive.
    pub fn get_enhance_moonfall_composition(&self, attribute: &ComplicatedAttributeGraph) -> (r: Composition)
        requires
            self.magnitude() + attribute.magnitude() <= INPUT_LIMIT,
        ensures
            r@ == with_mastery(
                attribute.composition_of(seq![AttributeName::EnhanceMoonfall]),
                self.em_total(attribute),
                transformative_bonus(self.em_total(attribute)),
            ),
            r.total() == attribute.total_of(seq![AttributeName::EnhanceMoonfall]) + mastery_amount(
                self.em_total(attribute),
                transformative_bonus(self.em_total(attribute)),
            ),
            (self.extra_em.total() + attribute.total_of(seq![AttributeName::ElementalMastery]) + attribute.total_of(seq![AttributeName::ElementalMasteryExtra])) > 0 ==> r@ == combine(attribute.composition_of(seq![AttributeName::EnhanceMoonfall]), single(seq!['\u{7cbe}', '\u{901a}'], (16 * (self.extra_em.total() + attribute.total_of(seq![AttributeName::ElementalMastery]) + attribute.total_of(seq![AttributeName::ElementalMasteryExtra])) * UNIT) / ((self.extra_em.total() + attribute.total_of(seq![AttributeName::ElementalMastery]) + attribute.total_of(seq![AttributeName::ElementalMasteryExtra])) + 2000 * UNIT))),
            (self.extra_em.total() + attribute.total_of(seq![AttributeName::ElementalMastery]) + attribute.total_of(seq![AttributeName::ElementalMasteryExtra])) <= 0 ==> r@ == attribute.composition_of(seq![AttributeName::EnhanceMoonfall]),
            r.total() == attribute.total_of(seq![AttributeName::EnhanceMoonfall]) + if (self.extra_em.total() + attribute.total_of(seq![AttributeName::ElementalMastery]) + attribute.total_of(seq![AttributeName::ElementalMasteryExtra])) > 0 {
                (16 * (self.extra_em.total() + attribute.total_of(seq![AttributeName::ElementalMastery]) + attribute.total_of(seq![AttributeName::ElementalMasteryExtra])) * UNIT) / ((self.extra_em.total() + attribute.total_of(seq![AttributeName::ElementalMastery]) + attribute.total_of(seq![AttributeName::ElementalMasteryExtra])) + 2000 * UNIT)
            } else {
                0
            },
    {
        proof {
            attribute.lemma_two_names(AttributeName::ElementalMastery, AttributeName::ElementalMasteryExtra);
            lemma_bonus_formulas(self.em_total(attribute));
            self.lemma_fields_bounded();
            lemma_gather_magnitude(attribute.contributions(), seq![]);
        }
        let mut comp = attribute.get_attribute_composition(AttributeName::EnhanceMoonfall);
        let em = self.mastery(attribute);
        if em > 0 {
            let bonus = transformative(em);
            let key = "\u{7cbe}\u{901a}";
            proof {
                reveal_strlit("\u{7cbe}\u{901a}");
                assert(key@ =~= mastery_source());
            }
            comp.add_value(key, bonus);
        }
        comp
    }

    /// The moon-electro-charged bonus, with 6 * em / (em + 2000) where the elemental mastery em is positive.
    pub fn get_enhance_moonelectro_composition(&self, attribute: &ComplicatedAttributeGraph) -> (r: Composition)
        requires
            self.magnitude() + attribute.magnitude() <= INPUT_LIMIT,
        ensures
            r@ == self.moonelectro_view(attribute),
            r.total() == self.moonelectro_total(attribute),
            (self.extra_em.total() + attribute.total_of(seq![AttributeName::ElementalMastery]) + attribute.total_of(seq![AttributeName::ElementalMasteryExtra])) > 0 ==> r@ == combine(attribute.composition_of(seq![AttributeName::EnhanceMoonelectro]), single(seq!['\u{7cbe}', '\u{901a}'], (6 * (self.extra_em.total() + attribute.total_of(seq![AttributeName::ElementalMastery]) + attribute.total_of(seq![AttributeName::ElementalMasteryExtra])) * UNIT) / ((self.extra_em.total() + attribute.total_of(seq![AttributeName::ElementalMastery]) + attribute.total_of(seq![AttributeName::ElementalMasteryExtra])) + 2000 * UNIT))),
            (self.extra_em.total() + attribute.total_of(seq![AttributeName::ElementalMastery]) + attribute.total_of(seq![AttributeName::ElementalMasteryExtra])) <= 0 ==> r@ == attribute.composition_of(seq![AttributeName::EnhanceMoonelectro]),
            r.total() == attribute.total_of(seq![AttributeName::EnhanceMoonelectro]) + if (self.extra_em.total() + attribute.total_of(seq![AttributeName::ElementalMastery]) + attribute.total_of(seq![AttributeName::ElementalMasteryExtra])) > 0 {
                (6 * (self.extra_em.total() + attribute.total_of(seq![AttributeName::ElementalMastery]) + attribute.total_of(seq![AttributeName::ElementalMasteryExtra])) * UNIT) / ((self.extra_em.total() + attribute.total_of(seq![AttributeName::ElementalMastery]) + attribute.total_of(seq![AttributeName::ElementalMasteryExtra])) + 2000 * UNIT)
            } else {
                0
            },
    {
        proof {
            attribute.lemma_two_names(AttributeName::ElementalMastery, AttributeName::ElementalMasteryExtra);
            lemma_bonus_formulas(self.em_total(attribute));
            self.lemma_fields_bounded();
            lemma_gather_magnitude(attribute.contributions(), seq![]);
        }
        let mut comp = attribute.get_attribute_composition(AttributeName::EnhanceMoonelectro);
        let em = self.mastery(attribute);
        if em > 0 {
            let bonus = moonelectro(em);
            let key = "\u{7cbe}\u{901a}";
            proof {
                reveal_strlit("\u{7cbe}\u{901a}");
                assert(key@ =~= mastery_source());
            }
            comp.add_value(key, bonus);
        }
        comp
    }

    /// The increase of the base of moon-electro-charged damage: the builder adds none.
    pub fn get_enhance_moonelectro_base_composition(&self, attribute: &ComplicatedAttributeGraph) -> (r: Composition)
        ensures
            r@ == attribute.composition_of(seq![AttributeName::EnhanceMoonelectroBase]),
            r.total() == attribute.total_of(seq![AttributeName::EnhanceMoonelectroBase]),
            0 <= r.magnitude() <= attribute.magnitude(),
    {
        attribute.get_attribute_composition(AttributeName::EnhanceMoonelectroBase)
    }

    /// The bonus of direct moon-electro-charged damage: the moon-electro-charged bonus, with 6 * em / (em + 2000) where the elemental mastery em is positive.
    pub fn get_enhance_direct_moonelectro_composition(&self, attribute: &ComplicatedAttributeGraph) -> (r: Composition)
        requires
            self.magnitude() + attribute.magnitude() <= INPUT_LIMIT,
        ensures
            r@ == self.direct_moonelectro_view(attribute),
            r.total() == self.direct_moonelectro_total(attribute),
            (self.extra_em.total() + attribute.total_of(seq![AttributeName::ElementalMastery]) + attribute.total_of(seq![AttributeName::ElementalMasteryExtra])) > 0 ==> r@ == combine(attribute.composition_of(seq![AttributeName::EnhanceMoonelectro]), single(seq!['\u{7cbe}', '\u{901a}'], (6 * (self.extra_em.total() + attribute.total_of(seq![AttributeName::ElementalMastery]) + attribute.total_of(seq![AttributeName::ElementalMasteryExtra])) * UNIT) / ((self.extra_em.total() + attribute.total_of(seq![AttributeName::ElementalMastery]) + attribute.total_of(seq![AttributeName::ElementalMasteryExtra])) + 2000 * UNIT))),
            (self.extra_em.total() + attribute.total_of(seq![AttributeName::ElementalMastery]) + attribute.total_of(seq![AttributeName::ElementalMasteryExtra])) <= 0 ==> r@ == attribute.composition_of(seq![AttributeName::EnhanceMoonelectro]),
            r.total() == attribute.total_of(seq![AttributeName::EnhanceMoonelectro]) + if (self.extra_em.total() + attribute.total_of(seq![AttributeName::ElementalMastery]) + attribute.total_of(seq![AttributeName::ElementalMasteryExtra])) > 0 {
                (6 * (self.extra_em.total() + attribute.total_of(seq![AttributeName::ElementalMastery]) + attribute.total_of(seq![AttributeName::ElementalMasteryExtra])) * UNIT) / ((self.extra_em.total() + attribute.total_of(seq![AttributeName::ElementalMastery]) + attribute.total_of(seq![AttributeName::ElementalMasteryExtra])) + 2000 * UNIT)
            } else {
                0
            },
    {
        proof {
            attribute.lemma_two_names(AttributeName::ElementalMastery, AttributeName::ElementalMasteryExtra);
            lemma_bonus_formulas(self.em_total(attribute));
            self.lemma_fields_bounded();
            lemma_gather_magnitude(attribute.contributions(), seq![]);
        }
        let mut comp = attribute.get_attribute_composition(AttributeName::EnhanceMoonelectro);
        let em = self.mastery(attribute);
        if em > 0 {
            let bonus = moonelectro(em);
            let key = "\u{7cbe}\u{901a}";
            proof {
                reveal_strlit("\u{7cbe}\u{901a}");
                assert(key@ =~= mastery_source());
            }
            comp.add_value(key, bonus);
        }
        comp
    }

    /// The critical damage of a hit of `element` from `skill`.
    pub fn get_critical_damage_composition(&self, attribute: &ComplicatedAttributeGraph, element: Element, skill: SkillType) -> (r: Composition)
        requires
            self.magnitude() + attribute.magnitude() <= INPUT_LIMIT,
        ensures
            r@ == combine(attribute.composition_of(critical_damage_names(element, skill)), self.extra_critical_damage@),
            r.total() == attribute.total_of(critical_damage_names(element, skill)) + self.extra_critical_damage.total(),
            r@ == combine(combine(combine(attribute.composition_of(seq![AttributeName::CriticalDamageBase]), attribute.composition_of(seq![AttributeName::CriticalDamageByElement(element)])), match skill_group(skill) {
                Some(g) => attribute.composition_of(seq![AttributeName::CriticalDamageBySkill(g)]),
                None => Map::<Seq<char>, int>::empty(),
            }), self.extra_critical_damage@),
            r.total() == attribute.total_of(seq![AttributeName::CriticalDamageBase]) + attribute.total_of(seq![AttributeName::CriticalDamageByElement(element)]) + match skill_group(skill) {
                Some(g) => attribute.total_of(seq![AttributeName::CriticalDamageBySkill(g)]),
                None => 0,
            } + self.extra_critical_damage.total(),
            0 <= r.magnitude() <= self.magnitude() + attribute.magnitude(),
    {
        proof {
            lemma_hit_attributes(attribute, element, skill);
            self.lemma_fields_bounded();
            lemma_gather_magnitude(attribute.contributions(), seq![]);
        }
        let mut names = vec![AttributeName::CriticalDamageBase, AttributeName::critical_damage_name_by_element(element)];
        if let Some(name) = AttributeName::critical_damage_name_by_skill_name(skill) {
            names.push(name);
        }
        assert(names@ =~= critical_damage_names(element, skill));
        gathered_with(attribute, &names, &self.extra_critical_damage)
    }

    /// The critical rate of a hit of `element` from `skill`.
    pub fn get_critical_composition(&self, attribute: &ComplicatedAttributeGraph, element: Element, skill: SkillType) -> (r: Composition)
        requires
            self.magnitude() + attribute.magnitude() <= INPUT_LIMIT,
        ensures
            r@ == combine(attribute.composition_of(ComplicatedAttributeGraph::critical_names(element, skill)), self.extra_critical_rate@),
            r.total() == attribute.total_of(ComplicatedAttributeGraph::critical_names(element, skill)) + self.extra_critical_rate.total(),
            r@ == combine(combine(combine(attribute.composition_of(seq![AttributeName::CriticalBase]), attribute.composition_of(seq![AttributeName::CriticalByElement(element)])), match skill_group(skill) {
                Some(g) => attribute.composition_of(seq![AttributeName::CriticalBySkill(g)]),
                None => Map::<Seq<char>, int>::empty(),
            }), self.extra_critical_rate@),
            r.total() == attribute.total_of(seq![AttributeName::CriticalBase]) + attribute.total_of(seq![AttributeName::CriticalByElement(element)]) + match skill_group(skill) {
                Some(g) => attribute.total_of(seq![AttributeName::CriticalBySkill(g)]),
                None => 0,
            } + self.extra_critical_rate.total(),
            0 <= r.magnitude() <= self.magnitude() + attribute.magnitude(),
    {
        proof {
            lemma_hit_attributes(attribute, element, skill);
            self.lemma_fields_bounded();
        }
        let mut comp = attribute.get_critical_composition(element, skill);
        comp.merge(&self.extra_critical_rate);
        proof {
            lemma_magnitude_nonneg(comp.items());
        }
        comp
    }

    /// The damage bonus of a hit of `element` from `skill`.
    pub fn get_bonus_composition(&self, attribute: &ComplicatedAttributeGraph, element: Element, skill: SkillType) -> (r: Composition)
        requires
            self.magnitude() + attribute.magnitude() <= INPUT_LIMIT,
        ensures
            r@ == combine(attribute.composition_of(bonus_names(element, skill)), self.extra_bonus@),
            r.total() == attribute.total_of(bonus_names(element, skill)) + self.extra_bonus.total(),
            r@ == combine(combine(combine(combine(attribute.composition_of(seq![AttributeName::BonusBase]), attribute.composition_of(seq![AttributeName::BonusByElement(element)])), match skill_group(skill) {
                Some(g) => attribute.composition_of(seq![AttributeName::BonusBySkill(g)]),
                None => Map::<Seq<char>, int>::empty(),
            }), if element != Element::Physical && skill == SkillType::NormalAttack {
                attribute.composition_of(seq![AttributeName::BonusNormalAndElemental])
            } else {
                Map::<Seq<char>, int>::empty()
            }), self.extra_bonus@),
            r.total() == attribute.total_of(seq![AttributeName::BonusBase]) + attribute.total_of(seq![AttributeName::BonusByElement(element)]) + match skill_group(skill) {
                Some(g) => attribute.total_of(seq![AttributeName::BonusBySkill(g)]),
                None => 0,
            } + if element != Element::Physical && skill == SkillType::NormalAttack {
                attribute.total_of(seq![AttributeName::BonusNormalAndElemental])
            } else {
                0
            } + self.extra_bonus.total(),
            0 <= r.magnitude() <= self.magnitude() + attribute.magnitude(),
    {
        proof {
            lemma_hit_attributes(attribute, element, skill);
            self.lemma_fields_bounded();
            lemma_gather_magnitude(attribute.contributions(), seq![]);
        }
        let mut names = vec![AttributeName::BonusBase, AttributeName::bonus_name_by_element(element)];
        if let Some(name) = AttributeName::bonus_name_by_skill_type(skill) {
            names.push(name);
        }
        if element != Element::Physical && skill == SkillType::NormalAttack {
            names.push(AttributeName::BonusNormalAndElemental);
        }
        assert(names@ =~= bonus_names(element, skill));
        gathered_with(attribute, &names, &self.extra_bonus)
    }

    /// The attack of the character.
    pub fn get_atk_composition(&self, attribute: &ComplicatedAttributeGraph) -> (r: Composition)
        requires
            self.magnitude() + attribute.magnitude() <= INPUT_LIMIT,
        ensures
            r@ == combine(attribute.composition_of(atk_names()), self.extra_atk@),
            r.total() == attribute.total_of(atk_names()) + self.extra_atk.total(),
            r@ == combine(combine(combine(combine(attribute.composition_of(seq![AttributeName::ATKBase]), attribute.composition_of(seq![AttributeName::ATKPercentage])), attribute.composition_of(seq![AttributeName::ATKFixed])), attribute.composition_of(seq![AttributeName::ATKFromSecondaryConversion])), self.extra_atk@),
            r.total() == attribute.total_of(seq![AttributeName::ATKBase]) + attribute.total_of(seq![AttributeName::ATKPercentage]) + attribute.total_of(seq![AttributeName::ATKFixed]) + attribute.total_of(seq![AttributeName::ATKFromSecondaryConversion]) + self.extra_atk.total(),
            0 <= r.magnitude() <= self.magnitude() + attribute.magnitude(),
    {
        proof {
            self.lemma_fields_bounded();
            lemma_gather_magnitude(attribute.contributions(), seq![]);
        }
        let names = vec![AttributeName::ATKBase, AttributeName::ATKPercentage, AttributeName::ATKFixed, AttributeName::ATKFromSecondaryConversion];
        assert(names@ =~= atk_names());
        let r = gathered_with(attribute, &names, &self.extra_atk);
        proof {
            attribute.lemma_four_names(AttributeName::ATKBase, AttributeName::ATKPercentage, AttributeName::ATKFixed, AttributeName::ATKFromSecondaryConversion);
        }
        r
    }

    /// The attack multiplier of a hit of `element` from `skill`.
    pub fn get_atk_ratio_composition(&self, attribute: &ComplicatedAttributeGraph, element: Element, skill: SkillType) -> (r: Composition)
        requires
            self.magnitude() + attribute.magnitude() <= INPUT_LIMIT,
        ensures
            r@ == combine(attribute.composition_of(atk_ratio_names(element, skill)), self.ratio_atk@),
            r.total() == attribute.total_of(atk_ratio_names(element, skill)) + self.ratio_atk.total(),
            r@ == combine(combine(combine(attribute.composition_of(seq![AttributeName::ATKRatioBase]), attribute.composition_of(seq![AttributeName::ATKRatioByElement(element)])), match skill_group(skill) {
                Some(g) => attribute.composition_of(seq![AttributeName::ATKRatioBySkill(g)]),
                None => Map::<Seq<char>, int>::empty(),
            }), self.ratio_atk@),
            r.total() == attribute.total_of(seq![AttributeName::ATKRatioBase]) + attribute.total_of(seq![AttributeName::ATKRatioByElement(element)]) + match skill_group(skill) {
                Some(g) => attribute.total_of(seq![AttributeName::ATKRatioBySkill(g)]),
                None => 0,
            } + self.ratio_atk.total(),
            0 <= r.magnitude() <= self.magnitude() + attribute.magnitude(),
    {
        proof {
            lemma_hit_attributes(attribute, element, skill);
            self.lemma_fields_bounded();
            lemma_gather_magnitude(attribute.contributions(), seq![]);
        }
        let mut names = vec![AttributeName::ATKRatioBase, AttributeName::atk_ratio_name_by_element(element)];
        if let Some(name) = AttributeName::atk_ratio_name_by_skill_type(skill) {
            names.push(name);
        }
        assert(names@ =~= atk_ratio_names(element, skill));
        gathered_with(attribute, &names, &self.ratio_atk)
    }

    /// The defense of the character.
    pub fn get_def_composition(&self, attribute: &ComplicatedAttributeGraph) -> (r: Composition)
        requires
            self.magnitude() + attribute.magnitude() <= INPUT_LIMIT,
        ensures
            r@ == combine(attribute.composition_of(def_names()), self.extra_def@),
            r.total() == attribute.total_of(def_names()) + self.extra_def.total(),
            r@ == combine(combine(combine(attribute.composition_of(seq![AttributeName::DEFBase]), attribute.composition_of(seq![AttributeName::DEFPercentage])), attribute.composition_of(seq![AttributeName::DEFFixed])), self.extra_def@),
            r.total() == attribute.total_of(seq![AttributeName::DEFBase]) + attribute.total_of(seq![AttributeName::DEFPercentage]) + attribute.total_of(seq![AttributeName::DEFFixed]) + self.extra_def.total(),
            0 <= r.magnitude() <= self.magnitude() + attribute.magnitude(),
    {
        proof {
            self.lemma_fields_bounded();
            lemma_gather_magnitude(attribute.contributions(), seq![]);
        }
        let names = vec![AttributeName::DEFBase, AttributeName::DEFPercentage, AttributeName::DEFFixed];
        assert(names@ =~= def_names());
        let r = gathered_with(attribute, &names, &self.extra_def);
        proof {
            attribute.lemma_three_names(AttributeName::DEFBase, AttributeName::DEFPercentage, AttributeName::DEFFixed);
        }
        r
    }

    /// The defense multiplier of a hit of `element` from `skill`.
    pub fn get_def_ratio_composition(&self, attribute: &ComplicatedAttributeGraph, element: Element, skill: SkillType) -> (r: Composition)
        requires
            self.magnitude() + attribute.magnitude() <= INPUT_LIMIT,
        ensures
            r@ == combine(attribute.composition_of(def_ratio_names(element, skill)), self.ratio_def@),
            r.total() == attribute.total_of(def_ratio_names(element, skill)) + self.ratio_def.total(),
            r@ == combine(combine(combine(attribute.composition_of(seq![AttributeName::DEFRatioBase]), attribute.composition_of(seq![AttributeName::DEFRatioByElement(element)])), match skill_group(skill) {
                Some(g) => attribute.composition_of(seq![AttributeName::DEFRatioBySkill(g)]),
                None => Map::<Seq<char>, int>::empty(),
            }), self.ratio_def@),
            r.total() == attribute.total_of(seq![AttributeName::DEFRatioBase]) + attribute.total_of(seq![AttributeName::DEFRatioByElement(element)]) + match skill_group(skill) {
                Some(g) => attribute.total_of(seq![AttributeName::DEFRatioBySkill(g)]),
                None => 0,
            } + self.ratio_def.total(),
            0 <= r.magnitude() <= self.magnitude() + attribute.magnitude(),
    {
        proof {
            lemma_hit_attributes(attribute, element, skill);
            self.lemma_fields_bounded();
            lemma_gather_magnitude(attribute.contributions(), seq![]);
        }
        let mut names = vec![AttributeName::DEFRatioBase, AttributeName::def_ratio_name_by_element(element)];
        if let Some(name) = AttributeName::def_ratio_name_by_skill_type(skill) {
            names.push(name);
        }
        assert(names@ =~= def_ratio_names(element, skill));
        gathered_with(attribute, &names, &self.ratio_def)
    }

    /// The HP of the character.
    pub fn get_hp_composition(&self, attribute: &ComplicatedAttributeGraph) -> (r: Composition)
        requires
            self.magnitude() + attribute.magnitude() <= INPUT_LIMIT,
        ensures
            r@ == combine(attribute.composition_of(hp_names()), self.extra_hp@),
            r.total() == attribute.total_of(hp_names()) + self.extra_hp.total(),
            r@ == combine(combine(combine(attribute.composition_of(seq![AttributeName::HPBase]), attribute.composition_of(seq![AttributeName::HPPercentage])), attribute.composition_of(seq![AttributeName::HPFixed])), self.extra_hp@),
            r.total() == attribute.total_of(seq![AttributeName::HPBase]) + attribute.total_of(seq![AttributeName::HPPercentage]) + attribute.total_of(seq![AttributeName::HPFixed]) + self.extra_hp.total(),
            0 <= r.magnitude() <= self.magnitude() + attribute.magnitude(),
    {
        proof {
            self.lemma_fields_bounded();
            lemma_gather_magnitude(attribute.contributions(), seq![]);
        }
        let names = vec![AttributeName::HPBase, AttributeName::HPPercentage, AttributeName::HPFixed];
        assert(names@ =~= hp_names());
        let r = gathered_with(attribute, &names, &self.extra_hp);
        proof {
            attribute.lemma_three_names(AttributeName::HPBase, AttributeName::HPPercentage, AttributeName::HPFixed);
        }
        r
    }

    /// The elemental mastery of the character.
    pub fn get_em_composition(&self, attribute: &ComplicatedAttributeGraph) -> (r: Composition)
        requires
            self.magnitude() + attribute.magnitude() <= INPUT_LIMIT,
        ensures
            r@ == combine(attribute.composition_of(ComplicatedAttributeGraph::em_names()), self.extra_em@),
            r.total() == attribute.total_of(ComplicatedAttributeGraph::em_names()) + self.extra_em.total(),
            r@ == combine(combine(attribute.composition_of(seq![AttributeName::ElementalMastery]), attribute.composition_of(seq![AttributeName::ElementalMasteryExtra])), self.extra_em@),
            r.total() == attribute.total_of(seq![AttributeName::ElementalMastery]) + attribute.total_of(seq![AttributeName::ElementalMasteryExtra]) + self.extra_em.total(),
            0 <= r.magnitude() <= self.magnitude() + attribute.magnitude(),
    {
        proof {
            self.lemma_fields_bounded();
            lemma_gather_magnitude(attribute.contributions(), seq![]);
        }
        let names = vec![AttributeName::ElementalMastery, AttributeName::ElementalMasteryExtra];
        assert(names@ =~= ComplicatedAttributeGraph::em_names());
        let r = gathered_with(attribute, &names, &self.extra_em);
        proof {
            attribute.lemma_two_names(AttributeName::ElementalMastery, AttributeName::ElementalMasteryExtra);
        }
        r
    }

    /// The HP multiplier of a hit of `element` from `skill`.
    pub fn get_hp_ratio_composition(&self, attribute: &ComplicatedAttributeGraph, element: Element, skill: SkillType) -> (r: Composition)
        requires
            self.magnitude() + attribute.magnitude() <= INPUT_LIMIT,
        ensures
            r@ == combine(attribute.composition_of(hp_ratio_names(element, skill)), self.ratio_hp@),
            r.total() == attribute.total_of(hp_ratio_names(element, skill)) + self.ratio_hp.total(),
            r@ == combine(combine(combine(attribute.composition_of(seq![AttributeName::HPRatioBase]), attribute.composition_of(seq![AttributeName::HPRatioByElement(element)])), match skill_group(skill) {
                Some(g) => attribute.composition_of(seq![AttributeName::HPRatioBySkill(g)]),
                None => Map::<Seq<char>, int>::empty(),
            }), self.ratio_hp@),
            r.total() == attribute.total_of(seq![AttributeName::HPRatioBase]) + attribute.total_of(seq![AttributeName::HPRatioByElement(element)]) + match skill_group(skill) {
                Some(g) => attribute.total_of(seq![AttributeName::HPRatioBySkill(g)]),
                None => 0,
            } + self.ratio_hp.total(),
            0 <= r.magnitude() <= self.magnitude() + attribute.magnitude(),
    {
        proof {
            lemma_hit_attributes(attribute, element, skill);
            self.lemma_fields_bounded();
            lemma_gather_magnitude(attribute.contributions(), seq![]);
        }
        let mut names = vec![AttributeName::HPRatioBase, AttributeName::hp_ratio_name_by_element(element)];
        if let Some(name) = AttributeName::hp_ratio_name_by_skill_type(skill) {
            names.push(name);
        }
        assert(names@ =~= hp_ratio_names(element, skill));
        gathered_with(attribute, &names, &self.ratio_hp)
    }

    /// The elemental-mastery multiplier of a hit: the graph has no attribute for
    /// it, so it is the builder's alone.
    pub fn get_em_ratio_composition(&self, attribute: &ComplicatedAttributeGraph, element: Element, skill: SkillType) -> (r: Composition)
        requires
            self.magnitude() + attribute.magnitude() <= INPUT_LIMIT,
        ensures
            r@ == self.em_ratio_view(attribute, element, skill),
            r.total() == self.em_ratio_total(attribute, element, skill),
            0 <= r.magnitude() <= self.magnitude() + attribute.magnitude(),
    {
        proof {
            self.lemma_fields_bounded();
            lemma_gather_magnitude(attribute.contributions(), seq![]);
        }
        let names: Vec<AttributeName> = Vec::new();
        assert(names@ =~= Seq::<AttributeName>::empty());
        gathered_with(attribute, &names, &self.ratio_em)
    }
}

impl Default for ComplicatedDamageBuilder {
    /// A builder whose compositions are all empty.
    fn default() -> (r: ComplicatedDamageBuilder)
        ensures
            r.extra_critical_damage@ == Map::<Seq<char>, int>::empty(),
            r.extra_critical_rate@ == Map::<Seq<char>, int>::empty(),
            r.extra_bonus@ == Map::<Seq<char>, int>::empty(),
            r.extra_damage@ == Map::<Seq<char>, int>::empty(),
            r.extra_atk@ == Map::<Seq<char>, int>::empty(),
            r.extra_def@ == Map::<Seq<char>, int>::empty(),
            r.extra_hp@ == Map::<Seq<char>, int>::empty(),
            r.extra_healing_bonus@ == Map::<Seq<char>, int>::empty(),
            r.extra_enhance_melt@ == Map::<Seq<char>, int>::empty(),
            r.extra_enhance_vaporize@ == Map::<Seq<char>, int>::empty(),
            r.extra_em@ == Map::<Seq<char>, int>::empty(),
            r.extra_def_minus@ == Map::<Seq<char>, int>::empty(),
            r.extra_def_penetration@ == Map::<Seq<char>, int>::empty(),
            r.extra_res_minus@ == Map::<Seq<char>, int>::empty(),
            r.ratio_atk@ == Map::<Seq<char>, int>::empty(),
            r.ratio_def@ == Map::<Seq<char>, int>::empty(),
            r.ratio_hp@ == Map::<Seq<char>, int>::empty(),
            r.ratio_em@ == Map::<Seq<char>, int>::empty(),
            r.direct_moonelectro_ratio@ == Map::<Seq<char>, int>::empty(),
            r.extra_critical_damage.total() == 0,
            r.extra_critical_rate.total() == 0,
            r.extra_bonus.total() == 0,
            r.extra_damage.total() == 0,
            r.extra_atk.total() == 0,
            r.extra_def.total() == 0,
            r.extra_hp.total() == 0,
            r.extra_healing_bonus.total() == 0,
            r.extra_enhance_melt.total() == 0,
            r.extra_enhance_vaporize.total() == 0,
            r.extra_em.total() == 0,
            r.extra_def_minus.total() == 0,
            r.extra_def_penetration.total() == 0,
            r.extra_res_minus.total() == 0,
            r.ratio_atk.total() == 0,
            r.ratio_def.total() == 0,
            r.ratio_hp.total() == 0,
            r.ratio_em.total() == 0,
            r.direct_moonelectro_ratio.total() == 0,
            r.magnitude() == 0,
    {
        ComplicatedDamageBuilder::new()
    }
}

} // verus!
