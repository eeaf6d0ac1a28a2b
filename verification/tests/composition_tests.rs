use mona_core::composition::{Composition, UNIT};
use mona_core::reaction::{amp, catalyze, moonelectro, transformative};

#[test]
fn empty_composition_sums_to_zero() {
    let c = Composition::new();
    assert_eq!(c.sum(), 0);
    assert_eq!(c.len(), 0);
    assert_eq!(c.get("anything"), 0);
}

#[test]
fn add_value_accumulates_under_one_key() {
    let mut c = Composition::new();
    c.add_value("weapon", 3 * UNIT);
    c.add_value("artifact", UNIT / 2);
    c.add_value("weapon", 2 * UNIT);
    assert_eq!(c.len(), 2);
    assert_eq!(c.get("weapon"), 5 * UNIT);
    assert_eq!(c.get("artifact"), UNIT / 2);
    assert_eq!(c.sum(), 5 * UNIT + UNIT / 2);
    let (k, v) = c.entry(0);
    assert_eq!(k, "weapon");
    assert_eq!(v, 5 * UNIT);
}

#[test]
fn merge_adds_key_by_key() {
    let mut a = Composition::new();
    a.add_value("x", 10);
    a.add_value("y", -4);
    let mut b = Composition::new();
    b.add_value("y", 6);
    b.add_value("z", 1);
    let mut ab = a.duplicate();
    ab.merge(&b);
    let mut ba = b.duplicate();
    ba.merge(&a);
    for key in ["x", "y", "z", "w"] {
        assert_eq!(ab.get(key), a.get(key) + b.get(key));
        assert_eq!(ab.get(key), ba.get(key));
    }
    assert_eq!(ab.sum(), a.sum() + b.sum());
    assert_eq!(ab.len(), 3);
}

#[test]
fn negative_amounts_are_kept() {
    let mut c = Composition::new();
    c.add_value("debuff", -UNIT);
    assert_eq!(c.sum(), -UNIT);
}

#[test]
fn amplifying_bonus_of_100_mastery() {
    // 25 * 100 / (9 * 1500) = 0.185185...
    assert_eq!(amp(100 * UNIT), 185185);
    assert_eq!(amp(0), 0);
}

#[test]
fn catalyze_bonus_of_200_mastery() {
    // 5 * 200 / 1400 = 0.714285...
    assert_eq!(catalyze(200 * UNIT), 714285);
}

#[test]
fn transformative_bonus_of_500_mastery() {
    // 16 * 500 / 2500 = 3.2
    assert_eq!(transformative(500 * UNIT), 3_200_000);
}

#[test]
fn moonelectro_bonus_of_1000_mastery() {
    // 6 * 1000 / 3000 = 2
    assert_eq!(moonelectro(1000 * UNIT), 2 * UNIT);
}

#[test]
fn mastery_bonus_grows_with_mastery() {
    let mut last = 0;
    for em in [0, 1, 50, 100, 500, 1000, 5000, 100000] {
        let v = amp(em * UNIT);
        assert!(v >= last);
        last = v;
    }
    assert!(9 * amp(i64::MAX) < 25 * UNIT);
    assert!(transformative(i64::MAX) < 16 * UNIT);
}
