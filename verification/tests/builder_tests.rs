use mona_core::analysis::{
    damage_element, melt_multiplier, reactions_of, vaporize_multiplier, Reactions, AGGRAVATE_REACTION_RATIO,
    SPREAD_REACTION_RATIO,
};
use mona_core::attribute_graph::ComplicatedAttributeGraph;
use mona_core::attribute_name::{AttributeName, SkillGroup};
use mona_core::builder::ComplicatedDamageBuilder;
use mona_core::composition::UNIT;
use mona_core::element::{Element, SkillType};
use mona_core::reaction::{amp, catalyze, moonelectro, transformative};

const MASTERY: &str = "\u{7cbe}\u{901a}";

fn sample_graph() -> ComplicatedAttributeGraph {
    let mut g = ComplicatedAttributeGraph::new();
    g.add_value(AttributeName::ATKBase, "character", 800 * UNIT);
    g.add_value(AttributeName::ATKPercentage, "artifact", 400 * UNIT);
    g.add_value(AttributeName::ATKFixed, "artifact", 311 * UNIT);
    g.add_value(AttributeName::HPBase, "character", 12000 * UNIT);
    g.add_value(AttributeName::DEFBase, "character", 700 * UNIT);
    g.add_value(AttributeName::ElementalMastery, "artifact", 100 * UNIT);
    g.add_value(AttributeName::ElementalMasteryExtra, "weapon", 100 * UNIT);
    g.add_value(AttributeName::BonusBase, "set", UNIT / 10);
    g.add_value(AttributeName::BonusByElement(Element::Pyro), "goblet", UNIT / 2);
    g.add_value(AttributeName::BonusBySkill(SkillGroup::NormalAttack), "talent", UNIT / 5);
    g.add_value(AttributeName::BonusNormalAndElemental, "passive", UNIT / 4);
    g.add_value(AttributeName::CriticalBase, "character", UNIT / 20);
    g.add_value(AttributeName::CriticalByElement(Element::Pyro), "circlet", 3 * UNIT / 10);
    g.add_value(AttributeName::CriticalDamageBase, "character", UNIT / 2);
    g.add_value(AttributeName::ExtraDmgPlungingAttackLowHigh, "plunge", 1000 * UNIT);
    g.add_value(AttributeName::ExtraDmgBase, "buff", 50 * UNIT);
    g.add_value(AttributeName::EnhanceMelt, "set", 3 * UNIT / 20);
    g.add_value(AttributeName::ShieldStrength, "set", UNIT / 4);
    g.add_value(AttributeName::HealingBonus, "set", UNIT / 10);
    g
}

#[test]
fn new_builder_is_empty() {
    let b = ComplicatedDamageBuilder::new();
    assert_eq!(b.extra_atk.sum(), 0);
    assert_eq!(b.ratio_atk.len(), 0);
    assert_eq!(b.direct_moonelectro_ratio.len(), 0);
}

#[test]
fn attack_composition_adds_builder_extra() {
    let g = sample_graph();
    let mut b = ComplicatedDamageBuilder::new();
    b.add_extra_atk("buff", 200 * UNIT);
    b.add_extra_atk("buff", 100 * UNIT);
    let atk = b.get_atk_composition(&g);
    assert_eq!(atk.sum(), (800 + 400 + 311 + 300) * UNIT);
    assert_eq!(atk.get("artifact"), 711 * UNIT);
    assert_eq!(atk.get("buff"), 300 * UNIT);
    assert_eq!(atk.get("character"), 800 * UNIT);
}

#[test]
fn graph_gathers_named_attributes() {
    let g = sample_graph();
    assert_eq!(g.get_em_all(), 200 * UNIT);
    let c = g.get_attribute_composition(AttributeName::ATKBase);
    assert_eq!(c.sum(), 800 * UNIT);
    assert_eq!(c.len(), 1);
    let none = g.get_attribute_composition(AttributeName::DefMinus);
    assert_eq!(none.len(), 0);
}

#[test]
fn melt_composition_gets_mastery_bonus() {
    let g = sample_graph();
    let mut b = ComplicatedDamageBuilder::new();
    b.add_extra_enhance_melt("set", UNIT / 10);
    let melt = b.get_enhance_melt_composition(&g);
    assert_eq!(melt.get(MASTERY), amp(200 * UNIT));
    assert_eq!(melt.get("set"), 3 * UNIT / 20 + UNIT / 10);
    let spread = b.get_enhance_spread_composition(&g);
    assert_eq!(spread.get(MASTERY), catalyze(200 * UNIT));
    let moonfall = b.get_enhance_moonfall_composition(&g);
    assert_eq!(moonfall.get(MASTERY), transformative(200 * UNIT));
    let me = b.get_enhance_moonelectro_composition(&g);
    let dme = b.get_enhance_direct_moonelectro_composition(&g);
    assert_eq!(me.get(MASTERY), moonelectro(200 * UNIT));
    assert_eq!(dme.get(MASTERY), me.get(MASTERY));
}

#[test]
fn no_mastery_bonus_without_mastery() {
    let g = ComplicatedAttributeGraph::new();
    let mut b = ComplicatedDamageBuilder::new();
    let melt = b.get_enhance_melt_composition(&g);
    assert_eq!(melt.len(), 0);
    b.add_extra_em("debuff", -UNIT);
    let vaporize = b.get_enhance_vaporize_composition(&g);
    assert_eq!(vaporize.len(), 0);
    b.add_extra_em("buff", 2 * UNIT);
    let aggravate = b.get_enhance_aggravate_composition(&g);
    assert_eq!(aggravate.len(), 1);
    assert_eq!(aggravate.get(MASTERY), catalyze(UNIT));
}

#[test]
fn bonus_of_elemental_normal_attack_takes_normal_and_elemental() {
    let g = sample_graph();
    let b = ComplicatedDamageBuilder::new();
    let pyro_na = b.get_bonus_composition(&g, Element::Pyro, SkillType::NormalAttack);
    assert_eq!(pyro_na.sum(), UNIT / 10 + UNIT / 2 + UNIT / 5 + UNIT / 4);
    let phys_na = b.get_bonus_composition(&g, Element::Physical, SkillType::NormalAttack);
    assert_eq!(phys_na.sum(), UNIT / 10 + UNIT / 5);
    let pyro_skill = b.get_bonus_composition(&g, Element::Pyro, SkillType::ElementalSkill);
    assert_eq!(pyro_skill.sum(), UNIT / 10 + UNIT / 2);
}

#[test]
fn infusion_applies_to_attacks_only() {
    assert_eq!(damage_element(Element::Physical, SkillType::NormalAttack, Some(Element::Pyro)), Element::Pyro);
    assert_eq!(damage_element(Element::Physical, SkillType::ChargedAttack, Some(Element::Cryo)), Element::Cryo);
    assert_eq!(damage_element(Element::Physical, SkillType::PlungingAttackOnGround, Some(Element::Hydro)), Element::Hydro);
    assert_eq!(damage_element(Element::Physical, SkillType::PlungingAttackInAction, Some(Element::Hydro)), Element::Hydro);
    assert_eq!(damage_element(Element::Electro, SkillType::ElementalSkill, Some(Element::Pyro)), Element::Electro);
    assert_eq!(damage_element(Element::Physical, SkillType::NormalAttack, None), Element::Physical);
}

#[test]
fn reactions_by_element() {
    let pyro = reactions_of(Element::Pyro, 0);
    assert!(pyro.melt && pyro.vaporize && !pyro.spread && !pyro.moonfall && !pyro.direct_moonelectro);
    let hydro = reactions_of(Element::Hydro, 1);
    assert!(!hydro.melt && hydro.vaporize && hydro.moonfall && hydro.moonelectro && hydro.direct_moonelectro);
    let dendro = reactions_of(Element::Dendro, 0);
    assert!(dendro.spread && dendro.moonfall && !dendro.aggravate);
    let electro = reactions_of(Element::Electro, -1);
    assert!(electro.aggravate && electro.moonelectro && !electro.direct_moonelectro);
    let cryo = reactions_of(Element::Cryo, 0);
    assert!(cryo.melt && !cryo.vaporize);
    let anemo = reactions_of(Element::Anemo, 0);
    assert_eq!(
        anemo,
        Reactions {
            melt: false,
            vaporize: false,
            spread: false,
            aggravate: false,
            moonfall: false,
            moonelectro: false,
            direct_moonelectro: false
        }
    );
}

#[test]
fn damage_analysis_of_infused_plunge() {
    let g = sample_graph();
    let mut b = ComplicatedDamageBuilder::new();
    b.add_extra_damage("buff", 10 * UNIT);
    b.add_direct_moonelectro_ratio("talent", 65 * UNIT / 100);
    assert!(b.within_limit(&g));
    let a = b.damage_analysis(&g, Element::Physical, SkillType::PlungingAttackOnGround, Some(Element::Pyro));
    assert_eq!(a.element, Element::Pyro);
    assert!(!a.is_heal && !a.is_shield);
    assert!(a.reactions.melt && a.reactions.vaporize && a.reactions.direct_moonelectro);
    assert_eq!(a.extra_damage.sum(), (1000 + 50 + 10) * UNIT);
    assert_eq!(a.atk.sum(), 1511 * UNIT);
    assert_eq!(a.critical_rate(), UNIT / 20 + 3 * UNIT / 10);
    assert_eq!(a.direct_moonelectro_ratio.sum(), 65 * UNIT / 100);
    assert_eq!(a.healing_bonus.len(), 0);
    assert_eq!(a.em.sum(), 200 * UNIT);
    let in_action = b.damage_analysis(&g, Element::Physical, SkillType::PlungingAttackInAction, None);
    assert_eq!(in_action.extra_damage.sum(), 60 * UNIT);
    assert_eq!(in_action.element, Element::Physical);
    assert!(!in_action.reactions.melt);
}

#[test]
fn critical_rate_is_clamped() {
    let g = ComplicatedAttributeGraph::new();
    let mut b = ComplicatedDamageBuilder::new();
    b.add_extra_critical("buff", 3 * UNIT / 2);
    let a = b.damage_analysis(&g, Element::Pyro, SkillType::ElementalBurst, None);
    assert_eq!(a.critical.sum(), 3 * UNIT / 2);
    assert_eq!(a.critical_rate(), UNIT);
    let mut c = ComplicatedDamageBuilder::new();
    c.add_extra_critical("debuff", -UNIT);
    assert_eq!(c.damage_analysis(&g, Element::Pyro, SkillType::ElementalBurst, None).critical_rate(), 0);
}

#[test]
fn heal_uses_builder_multipliers() {
    let g = sample_graph();
    let mut b = ComplicatedDamageBuilder::new();
    b.add_hp_ratio("skill", UNIT / 10);
    b.add_extra_damage("flat", 500 * UNIT);
    let h = b.heal_analysis(&g);
    assert!(h.is_heal && !h.is_shield);
    assert_eq!(h.element, Element::Pyro);
    assert_eq!(h.hp_ratio.sum(), UNIT / 10);
    assert_eq!(h.extra_damage.sum(), 500 * UNIT);
    assert_eq!(h.healing_bonus.sum(), UNIT / 10);
    assert_eq!(h.bonus.len(), 0);
    assert_eq!(h.reactions, reactions_of(Element::Anemo, 0));
}

#[test]
fn shield_keeps_its_element_and_strength() {
    let g = sample_graph();
    let mut b = ComplicatedDamageBuilder::new();
    b.add_def_ratio("skill", UNIT / 5);
    let s = b.shield_analysis(&g, Element::Geo);
    assert_eq!(s.element, Element::Geo);
    assert!(s.is_heal && !s.is_shield);
    assert_eq!(s.shield_strength.sum(), UNIT / 4);
    assert_eq!(s.healing_bonus.len(), 0);
    assert_eq!(s.def_ratio.sum(), UNIT / 5);
    assert_eq!(s.def.sum(), 700 * UNIT);
}

#[test]
fn direct_moonfall_ratio_changes_nothing() {
    let mut b = ComplicatedDamageBuilder::new();
    b.add_direct_moonfall_ratio("talent", UNIT);
    assert_eq!(b.direct_moonelectro_ratio.len(), 0);
    assert_eq!(b.ratio_atk.len(), 0);
}

#[test]
fn builder_adders_fill_their_own_composition() {
    let g = ComplicatedAttributeGraph::new();
    let mut b = ComplicatedDamageBuilder::new();
    b.add_em_ratio("a", 1);
    b.add_atk_ratio("a", 2);
    b.add_def_ratio("a", 3);
    b.add_hp_ratio("a", 4);
    b.add_extra_em("a", 5);
    b.add_extra_atk("a", 6);
    b.add_extra_def("a", 7);
    b.add_extra_hp("a", 8);
    b.add_extra_damage("a", 9);
    b.add_extra_critical("a", 10);
    b.add_extra_critical_damage("a", 11);
    b.add_extra_bonus("a", 12);
    b.add_extra_def_minus("a", 13);
    b.add_extra_def_penetration("a", 14);
    b.add_extra_res_minus("a", 15);
    assert_eq!(b.get_em_ratio_composition(&g, Element::Pyro, SkillType::NoneType).sum(), 1);
    assert_eq!(b.get_atk_ratio_composition(&g, Element::Pyro, SkillType::NoneType).sum(), 2);
    assert_eq!(b.get_def_ratio_composition(&g, Element::Pyro, SkillType::NoneType).sum(), 3);
    assert_eq!(b.get_hp_ratio_composition(&g, Element::Pyro, SkillType::NoneType).sum(), 4);
    assert_eq!(b.get_em_composition(&g).sum(), 5);
    assert_eq!(b.get_atk_composition(&g).sum(), 6);
    assert_eq!(b.get_def_composition(&g).sum(), 7);
    assert_eq!(b.get_hp_composition(&g).sum(), 8);
    assert_eq!(b.get_extra_damage_composition(&g, Element::Pyro, SkillType::NoneType).sum(), 9);
    assert_eq!(b.get_critical_composition(&g, Element::Pyro, SkillType::NoneType).sum(), 10);
    assert_eq!(b.get_critical_damage_composition(&g, Element::Pyro, SkillType::NoneType).sum(), 11);
    assert_eq!(b.get_bonus_composition(&g, Element::Pyro, SkillType::NoneType).sum(), 12);
    assert_eq!(b.get_def_minus_composition(&g).sum(), 13);
    assert_eq!(b.get_def_penetration_composition(&g).sum(), 14);
    assert_eq!(b.get_res_minus_composition(&g, Element::Pyro).sum(), 15);
    assert_eq!(b.get_healing_bonus_composition(&g).sum(), 0);
    assert_eq!(b.get_shield_strength_composition(&g).sum(), 0);
    assert_eq!(b.get_enhance_moonelectro_base_composition(&g).sum(), 0);
}

#[test]
fn element_and_skill_specific_attributes_are_chosen() {
    let mut g = ComplicatedAttributeGraph::new();
    g.add_value(AttributeName::ATKRatioBySkill(SkillGroup::PlungingAttack), "plunge", 2 * UNIT);
    g.add_value(AttributeName::ATKRatioByElement(Element::Cryo), "cryo", UNIT);
    g.add_value(AttributeName::ResMinusByElement(Element::Cryo), "shred", UNIT / 5);
    g.add_value(AttributeName::ResMinusBase, "all", UNIT / 10);
    let b = ComplicatedDamageBuilder::new();
    assert_eq!(b.get_atk_ratio_composition(&g, Element::Cryo, SkillType::PlungingAttackInAction).sum(), 3 * UNIT);
    assert_eq!(b.get_atk_ratio_composition(&g, Element::Pyro, SkillType::PlungingAttackOnGround).sum(), 2 * UNIT);
    assert_eq!(b.get_atk_ratio_composition(&g, Element::Pyro, SkillType::NoneType).sum(), 0);
    assert_eq!(b.get_res_minus_composition(&g, Element::Cryo).sum(), 3 * UNIT / 10);
    assert_eq!(b.get_res_minus_composition(&g, Element::Pyro).sum(), UNIT / 10);
    assert_eq!(AttributeName::bonus_name_by_skill_type(SkillType::NoneType), None);
    assert_eq!(AttributeName::hp_ratio_name_by_skill_type(SkillType::PlungingAttackOnGround), Some(AttributeName::HPRatioBySkill(SkillGroup::PlungingAttack)));
}

#[test]
fn default_builder_is_empty() {
    let b = ComplicatedDamageBuilder::default();
    assert_eq!(b.extra_atk.len(), 0);
    assert_eq!(b.ratio_em.len(), 0);
    assert_eq!(b.direct_moonelectro_ratio.sum(), 0);
}

#[test]
fn heal_ignores_hit_settings() {
    let g = sample_graph();
    let mut b1 = ComplicatedDamageBuilder::new();
    b1.add_hp_ratio("skill", UNIT / 10);
    let mut b2 = ComplicatedDamageBuilder::new();
    b2.add_hp_ratio("skill", UNIT / 10);
    b2.add_extra_critical("buff", UNIT);
    b2.add_extra_bonus("buff", UNIT);
    b2.add_extra_res_minus("shred", UNIT);
    b2.add_direct_moonelectro_ratio("talent", UNIT);
    let h1 = b1.heal_analysis(&g);
    let h2 = b2.heal_analysis(&g);
    assert_eq!(h1.hp_ratio.sum(), h2.hp_ratio.sum());
    assert_eq!(h1.critical.len(), 0);
    assert_eq!(h2.critical.len(), 0);
    assert_eq!(h2.bonus.len(), 0);
    assert_eq!(h2.direct_moonelectro_ratio.len(), 0);
    assert_eq!(h1.healing_bonus.sum(), h2.healing_bonus.sum());
}

#[test]
fn shield_compositions_ignore_element() {
    let g = sample_graph();
    let mut b = ComplicatedDamageBuilder::new();
    b.add_hp_ratio("skill", UNIT / 5);
    let s1 = b.shield_analysis(&g, Element::Geo);
    let s2 = b.shield_analysis(&g, Element::Cryo);
    assert_eq!(s1.element, Element::Geo);
    assert_eq!(s2.element, Element::Cryo);
    assert_eq!(s1.hp.sum(), s2.hp.sum());
    assert_eq!(s1.hp_ratio.sum(), s2.hp_ratio.sum());
    assert_eq!(s1.shield_strength.sum(), s2.shield_strength.sum());
}

#[test]
fn additions_commute() {
    let mut b1 = ComplicatedDamageBuilder::new();
    b1.add_extra_damage("a", 3);
    b1.add_extra_damage("b", 4);
    let mut b2 = ComplicatedDamageBuilder::new();
    b2.add_extra_damage("b", 4);
    b2.add_extra_damage("a", 3);
    for key in ["a", "b", "c"] {
        assert_eq!(b1.extra_damage.get(key), b2.extra_damage.get(key));
    }
    assert_eq!(b1.extra_damage.sum(), b2.extra_damage.sum());
}

#[test]
fn em_ratio_is_the_builders_own() {
    let g = sample_graph();
    let mut b = ComplicatedDamageBuilder::new();
    b.add_em_ratio("talent", 2 * UNIT);
    let r1 = b.get_em_ratio_composition(&g, Element::Pyro, SkillType::NormalAttack);
    let r2 = b.get_em_ratio_composition(&g, Element::Dendro, SkillType::ElementalBurst);
    assert_eq!(r1.get("talent"), 2 * UNIT);
    assert_eq!(r1.len(), 1);
    assert_eq!(r2.get("talent"), 2 * UNIT);
    assert_eq!(r2.len(), 1);
}

#[test]
fn damage_sums_add_graph_and_builder() {
    let g = sample_graph();
    let mut b = ComplicatedDamageBuilder::new();
    b.add_extra_atk("buff", 100 * UNIT);
    let a = b.damage_analysis(&g, Element::Pyro, SkillType::ElementalSkill, None);
    assert_eq!(a.atk.sum(), g.get_composition_merge(&vec![
        AttributeName::ATKBase,
        AttributeName::ATKPercentage,
        AttributeName::ATKFixed,
        AttributeName::ATKFromSecondaryConversion,
    ]).sum() + b.extra_atk.sum());
}

#[test]
fn reaction_multipliers_by_element() {
    assert_eq!(melt_multiplier(Element::Pyro), 2 * UNIT);
    assert_eq!(melt_multiplier(Element::Cryo), 3 * UNIT / 2);
    assert_eq!(vaporize_multiplier(Element::Hydro), 2 * UNIT);
    assert_eq!(vaporize_multiplier(Element::Pyro), 3 * UNIT / 2);
    assert_eq!(SPREAD_REACTION_RATIO, 5 * UNIT / 4);
    assert_eq!(AGGRAVATE_REACTION_RATIO, 115 * UNIT / 100);
}
