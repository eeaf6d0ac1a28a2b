use vstd::prelude::*;
use crate::attribute_name::{AttributeName, critical_skill_attribute, push_opt};
use crate::composition::{
    Composition,
    CompositionMap,
    MAX_MAGNITUDE,
    abs,
    combine,
    lemma_magnitude_nonneg,
    lemma_push,
    magnitude_of,
    total_of,
    view_of,
};
use crate::element::{Element, SkillType};

verus! {

/// The (key, amount) entries of the contributions whose attribute is one of `names`,
/// in the order they were recorded.
pub open spec fn gather(c: Seq<(AttributeName, Seq<char>, int)>, names: Seq<AttributeName>) -> Seq<
    (Seq<char>, int),
>
    decreases c.len(),
{
    if c.len() == 0 {
        Seq::empty()
    } else if names.contains(c.last().0) {
        gather(c.drop_last(), names).push((c.last().1, c.last().2))
    } else {
        gather(c.drop_last(), names)
    }
}

/// The sum of the absolute values of all contributions.
pub open spec fn contribution_magnitude(c: Seq<(AttributeName, Seq<char>, int)>) -> int
    decreases c.len(),
{
    if c.len() == 0 {
        0
    } else {
        contribution_magnitude(c.drop_last()) + abs(c.last().2)
    }
}

pub proof fn lemma_gather_magnitude(c: Seq<(AttributeName, Seq<char>, int)>, names: Seq<AttributeName>)
    ensures
        0 <= magnitude_of(gather(c, names)) <= contribution_magnitude(c),
    decreases c.len(),
{
    if c.len() > 0 {
        lemma_gather_magnitude(c.drop_last(), names);
        let g = gather(c.drop_last(), names);
        assert(g.push((c.last().1, c.last().2)).drop_last() =~= g);
    }
}

/// No contribution belongs to an empty list of names.
pub proof fn lemma_gather_none(c: Seq<(AttributeName, Seq<char>, int)>)
    ensures
        gather(c, Seq::empty()) == Seq::<(Seq<char>, int)>::empty(),
    decreases c.len(),
{
    if c.len() > 0 {
        lemma_gather_none(c.drop_last());
    }
}

/// Gathering the contributions to two lists of names with no name in common is
/// gathering each list and combining the two.
pub proof fn lemma_gather_concat(
    c: Seq<(AttributeName, Seq<char>, int)>,
    s: Seq<AttributeName>,
    t: Seq<AttributeName>,
)
    requires
        forall|i: int, j: int| 0 <= i < s.len() && 0 <= j < t.len() ==> s[i] != t[j],
    ensures
        view_of(gather(c, s + t)) =~= combine(view_of(gather(c, s)), view_of(gather(c, t))),
        total_of(gather(c, s + t)) == total_of(gather(c, s)) + total_of(gather(c, t)),
    decreases c.len(),
{
    if c.len() == 0 {
        assert(view_of(Seq::<(Seq<char>, int)>::empty()) =~= Map::<Seq<char>, int>::empty());
    } else {
        let d = c.drop_last();
        let x = c.last();
        lemma_gather_concat(d, s, t);
        lemma_concat_contains(s, t, x.0);
        let gs = gather(d, s);
        let gt = gather(d, t);
        let gst = gather(d, s + t);
        if s.contains(x.0) {
            let i = choose|i: int| 0 <= i < s.len() && s[i] == x.0;
            assert(!t.contains(x.0)) by {
                if t.contains(x.0) {
                    let j = choose|j: int| 0 <= j < t.len() && t[j] == x.0;
                    assert(s[i] != t[j]);
                }
            }
            lemma_push(gst, x.1, x.2);
            lemma_push(gs, x.1, x.2);
        } else if t.contains(x.0) {
            lemma_push(gst, x.1, x.2);
            lemma_push(gt, x.1, x.2);
        }
    }
}

proof fn lemma_concat_contains(s: Seq<AttributeName>, t: Seq<AttributeName>, n: AttributeName)
    ensures
        (s + t).contains(n) == (s.contains(n) || t.contains(n)),
{
    if s.contains(n) {
        let i = choose|i: int| 0 <= i < s.len() && s[i] == n;
        assert((s + t)[i] == n);
    }
    if t.contains(n) {
        let j = choose|j: int| 0 <= j < t.len() && t[j] == n;
        assert((s + t)[s.len() + j] == n);
    }
    if (s + t).contains(n) {
        let k = choose|k: int| 0 <= k < (s + t).len() && (s + t)[k] == n;
        if k < s.len() {
            assert(s[k] == n);
        } else {
            assert(t[k - s.len()] == n);
        }
    }
}

proof fn lemma_gather_step(c: Seq<(AttributeName, Seq<char>, int)>, names: Seq<AttributeName>, i: int)
    requires
        0 <= i < c.len(),
    ensures
        gather(c.take(i + 1), names) == if names.contains(c[i].0) {
            gather(c.take(i), names).push((c[i].1, c[i].2))
        } else {
            gather(c.take(i), names)
        },
        contribution_magnitude(c.take(i + 1)) == contribution_magnitude(c.take(i)) + abs(c[i].2),
{
    assert(c.take(i + 1).drop_last() =~= c.take(i));
}

proof fn lemma_take_contribution_magnitude(c: Seq<(AttributeName, Seq<char>, int)>, i: int)
    requires
        0 <= i <= c.len(),
    ensures
        contribution_magnitude(c.take(i)) <= contribution_magnitude(c),
    decreases c.len() - i,
{
    if i < c.len() {
        lemma_gather_step(c, Seq::empty(), i);
        lemma_take_contribution_magnitude(c, i + 1);
    } else {
        assert(c.take(i) =~= c);
    }
}

/// The attributes of a character and its environment: every contribution
/// recorded as (attribute, source, amount), in the order it was recorded.
pub struct ComplicatedAttributeGraph {
    contributions: Vec<(AttributeName, String, i64)>,
}

impl ComplicatedAttributeGraph {
    /// The recorded contributions.
    pub closed spec fn contributions(&self) -> Seq<(AttributeName, Seq<char>, int)> {
        self.contributions@.map_values(|e: (AttributeName, String, i64)| (e.0, e.1@, e.2 as int))
    }

    /// The sum of the absolute values of all contributions.
    pub open spec fn magnitude(&self) -> int {
        contribution_magnitude(self.contributions())
    }

    /// The composition of the contributions to any of `names`.
    pub open spec fn composition_of(&self, names: Seq<AttributeName>) -> CompositionMap {
        view_of(gather(self.contributions(), names))
    }

    /// The sum of the contributions to any of `names`.
    pub open spec fn total_of(&self, names: Seq<AttributeName>) -> int {
        total_of(gather(self.contributions(), names))
    }

    /// The names whose contributions make up the elemental mastery.
    pub open spec fn em_names() -> Seq<AttributeName> {
        seq![AttributeName::ElementalMastery, AttributeName::ElementalMasteryExtra]
    }

    /// The names whose contributions make up the critical rate of a hit.
    pub open spec fn critical_names(element: Element, skill: SkillType) -> Seq<AttributeName> {
        push_opt(
            seq![AttributeName::CriticalBase, AttributeName::CriticalByElement(element)],
            critical_skill_attribute(skill),
        )
    }

    /// The composition of two attributes is that of the first combined with
    /// that of the second.
    pub proof fn lemma_two_names(&self, a: AttributeName, b: AttributeName)
        requires
            a != b,
        ensures
            self.composition_of(seq![a, b]) == combine(self.composition_of(seq![a]), self.composition_of(seq![b])),
            self.total_of(seq![a, b]) == self.total_of(seq![a]) + self.total_of(seq![b]),
    {
        assert(seq![a, b] =~= seq![a] + seq![b]);
        lemma_gather_concat(self.contributions(), seq![a], seq![b]);
    }

    /// The composition of three distinct attributes is the combination of each.
    pub proof fn lemma_three_names(&self, a: AttributeName, b: AttributeName, c: AttributeName)
        requires
            a != b,
            a != c,
            b != c,
        ensures
            self.composition_of(seq![a, b, c]) == combine(
                combine(self.composition_of(seq![a]), self.composition_of(seq![b])),
                self.composition_of(seq![c]),
            ),
            self.total_of(seq![a, b, c]) == self.total_of(seq![a]) + self.total_of(seq![b])
                + self.total_of(seq![c]),
    {
        self.lemma_two_names(a, b);
        assert(seq![a, b, c] =~= seq![a, b] + seq![c]);
        lemma_gather_concat(self.contributions(), seq![a, b], seq![c]);
    }

    /// The composition of four distinct attributes is the combination of each.
    pub proof fn lemma_four_names(&self, a: AttributeName, b: AttributeName, c: AttributeName, d: AttributeName)
        requires
            a != b,
            a != c,
            a != d,
            b != c,
            b != d,
            c != d,
        ensures
            self.composition_of(seq![a, b, c, d]) == combine(
                combine(
                    combine(self.composition_of(seq![a]), self.composition_of(seq![b])),
                    self.composition_of(seq![c]),
                ),
                self.composition_of(seq![d]),
            ),
            self.total_of(seq![a, b, c, d]) == self.total_of(seq![a]) + self.total_of(seq![b])
                + self.total_of(seq![c]) + self.total_of(seq![d]),
    {
        self.lemma_three_names(a, b, c);
        assert(seq![a, b, c, d] =~= seq![a, b, c] + seq![d]);
        lemma_gather_concat(self.contributions(), seq![a, b, c], seq![d]);
    }

    #[verifier::type_invariant]
    spec fn well_formed(&self) -> bool {
        contribution_magnitude(self.contributions()) <= MAX_MAGNITUDE
    }

    /// A graph with no contributions.
    pub fn new() -> (r: ComplicatedAttributeGraph)
        ensures
            r.contributions() == Seq::<(AttributeName, Seq<char>, int)>::empty(),
            r.magnitude() == 0,
    {
        let r = ComplicatedAttributeGraph { contributions: Vec::new() };
        assert(r.contributions() =~= Seq::<(AttributeName, Seq<char>, int)>::empty());
        r
    }

    /// Records that `key` contributes `value` to the attribute `name`.
    pub fn add_value(&mut self, name: AttributeName, key: &str, value: i64)
        requires
            old(self).magnitude() + abs(value as int) <= MAX_MAGNITUDE,
        ensures
            final(self).contributions() == old(self).contributions().push((name, key@, value as int)),
            final(self).magnitude() == old(self).magnitude() + abs(value as int),
    {
        let ghost c = self.contributions();
        let mut contributions = Vec::new();
        std::mem::swap(&mut contributions, &mut self.contributions);
        contributions.push((name, key.to_owned(), value));
        proof {
            let d = contributions@.map_values(
                |e: (AttributeName, String, i64)| (e.0, e.1@, e.2 as int),
            );
            assert(d =~= c.push((name, key@, value as int)));
            assert(d.drop_last() =~= c);
        }
        self.contributions = contributions;
    }

    /// The sum of the absolute values of all contributions.
    pub fn absolute_sum(&self) -> (r: i64)
        ensures
            r == self.magnitude(),
    {
        proof {
            use_type_invariant(self);
        }
        let ghost c = self.contributions();
        let n = self.contributions.len();
        let mut acc: i64 = 0;
        let mut i: usize = 0;
        proof {
            assert(c.take(0) =~= Seq::<(AttributeName, Seq<char>, int)>::empty());
        }
        while i < n
            invariant
                n == self.contributions.len(),
                c == self.contributions(),
                contribution_magnitude(c) <= MAX_MAGNITUDE,
                i <= n,
                acc == contribution_magnitude(c.take(i as int)),
            decreases n - i,
        {
            proof {
                lemma_gather_step(c, Seq::empty(), i as int);
                lemma_take_contribution_magnitude(c, i as int + 1);
                lemma_gather_magnitude(c.take(i as int), Seq::empty());
            }
            let v = self.contributions[i].2;
            let a = if v < 0 {
                -v
            } else {
                v
            };
            acc = acc + a;
            i = i + 1;
        }
        proof {
            assert(c.take(n as int) =~= c);
        }
        acc
    }

    /// The composition of the contributions to any of `names`, each source
    /// with the sum of its amounts.
    pub fn get_composition_merge(&self, names: &Vec<AttributeName>) -> (r: Composition)
        ensures
            r@ == self.composition_of(names@),
            r.total() == self.total_of(names@),
            0 <= r.magnitude() <= self.magnitude(),
    {
        proof {
            use_type_invariant(self);
        }
        let ghost c = self.contributions();
        let mut r = Composition::new();
        let n = self.contributions.len();
        let mut i: usize = 0;
        proof {
            assert(c.take(0) =~= Seq::<(AttributeName, Seq<char>, int)>::empty());
            assert(view_of(Seq::<(Seq<char>, int)>::empty()) =~= Map::<Seq<char>, int>::empty());
        }
        while i < n
            invariant
                n == self.contributions.len(),
                c == self.contributions(),
                contribution_magnitude(c) <= MAX_MAGNITUDE,
                i <= n,
                r@ == view_of(gather(c.take(i as int), names@)),
                r.total() == total_of(gather(c.take(i as int), names@)),
                r.magnitude() <= magnitude_of(gather(c.take(i as int), names@)),
                magnitude_of(gather(c.take(i as int), names@)) <= contribution_magnitude(c.take(i as int)),
            decreases n - i,
        {
            proof {
                lemma_gather_step(c, names@, i as int);
                lemma_take_contribution_magnitude(c, i as int + 1);
            }
            let name = self.contributions[i].0;
            if contains_name(names, name) {
                let value = self.contributions[i].2;
                proof {
                    lemma_push(gather(c.take(i as int), names@), c[i as int].1, value as int);
                }
                r.add_value(self.contributions[i].1.as_str(), value);
            }
            i = i + 1;
        }
        proof {
            assert(c.take(n as int) =~= c);
            lemma_gather_magnitude(c, names@);
            lemma_magnitude_nonneg(r.items());
        }
        r
    }

    /// The composition of the contributions to the attribute `name`.
    pub fn get_attribute_composition(&self, name: AttributeName) -> (r: Composition)
        ensures
            r@ == self.composition_of(seq![name]),
            r.total() == self.total_of(seq![name]),
            0 <= r.magnitude() <= self.magnitude(),
    {
        let names = vec![name];
        assert(names@ =~= seq![name]);
        self.get_composition_merge(&names)
    }

    /// The elemental mastery of the character: the sum of every contribution
    /// to `ElementalMastery` and `ElementalMasteryExtra`.
    pub fn get_em_all(&self) -> (r: i64)
        ensures
            r == self.total_of(Self::em_names()),
            abs(r as int) <= self.magnitude(),
    {
        let names = vec![AttributeName::ElementalMastery, AttributeName::ElementalMasteryExtra];
        assert(names@ =~= Self::em_names());
        let c = self.get_composition_merge(&names);
        proof {
            lemma_magnitude_nonneg(c.items());
        }
        c.sum()
    }

    /// The composition of the critical rate of a hit of `element` from `skill`.
    pub fn get_critical_composition(&self, element: Element, skill: SkillType) -> (r: Composition)
        ensures
            r@ == self.composition_of(Self::critical_names(element, skill)),
            r.total() == self.total_of(Self::critical_names(element, skill)),
            0 <= r.magnitude() <= self.magnitude(),
    {
        let mut names = vec![
            AttributeName::CriticalBase,
            AttributeName::critical_name_by_element(element),
        ];
        if let Some(name) = AttributeName::critical_name_by_skill_type(skill) {
            names.push(name);
        }
        assert(names@ =~= Self::critical_names(element, skill));
        self.get_composition_merge(&names)
    }
}

/// Whether `name` is one of `names`.
fn contains_name(names: &Vec<AttributeName>, name: AttributeName) -> (r: bool)
    ensures
        r == names@.contains(name),
{
    let n = names.len();
    let mut i: usize = 0;
    while i < n
        invariant
            n == names.len(),
            i <= n,
            forall|j: int| 0 <= j < i ==> names@[j] != name,
        decreases n - i,
    {
        if names[i] == name {
            return true;
        }
        i = i + 1;
    }
    false
}

} // verus!
