use vstd::prelude::*;

verus! {

/// The fixed-point representation of 1.0: every quantity of the library is an
/// integer count of millionths.
pub const UNIT: i64 = 1_000_000;

/// The largest sum of absolute values that one composition may hold (2^62),
/// so that every partial sum of its values fits in an `i64`.
pub const MAX_MAGNITUDE: i64 = 0x4000_0000_0000_0000;

/// The abstract value of a composition: for each source key, the amount it
/// contributes.
pub type CompositionMap = Map<Seq<char>, int>;

pub open spec fn abs(x: int) -> int {
    if x < 0 {
        -x
    } else {
        x
    }
}

/// The amount recorded under `key`, zero where there is none.
pub open spec fn amount_of(m: CompositionMap, key: Seq<char>) -> int {
    if m.contains_key(key) {
        m[key]
    } else {
        0
    }
}

/// Key-wise sum of two compositions: the keys of either, each with the sum of
/// its amounts in both.
pub open spec fn combine(a: CompositionMap, b: CompositionMap) -> CompositionMap {
    Map::new(
        |k: Seq<char>| a.contains_key(k) || b.contains_key(k),
        |k: Seq<char>| amount_of(a, k) + amount_of(b, k),
    )
}

/// The composition that holds one amount under one key.
pub open spec fn single(key: Seq<char>, value: int) -> CompositionMap {
    Map::empty().insert(key, value)
}

/// Whether some entry of `s` has the key `key`.
pub open spec fn has_key_in(s: Seq<(Seq<char>, int)>, key: Seq<char>) -> bool
    decreases s.len(),
{
    if s.len() == 0 {
        false
    } else {
        s.last().0 == key || has_key_in(s.drop_last(), key)
    }
}

/// The sum of the amounts of the entries of `s` with the key `key`.
pub open spec fn amount_in(s: Seq<(Seq<char>, int)>, key: Seq<char>) -> int
    decreases s.len(),
{
    if s.len() == 0 {
        0
    } else {
        amount_in(s.drop_last(), key) + if s.last().0 == key {
            s.last().1
        } else {
            0
        }
    }
}

/// The sum of all amounts of `s`.
pub open spec fn total_of(s: Seq<(Seq<char>, int)>) -> int
    decreases s.len(),
{
    if s.len() == 0 {
        0
    } else {
        total_of(s.drop_last()) + s.last().1
    }
}

/// The sum of the absolute values of all amounts of `s`.
pub open spec fn magnitude_of(s: Seq<(Seq<char>, int)>) -> int
    decreases s.len(),
{
    if s.len() == 0 {
        0
    } else {
        magnitude_of(s.drop_last()) + abs(s.last().1)
    }
}

/// The composition that a list of (key, amount) entries describes.
pub open spec fn view_of(s: Seq<(Seq<char>, int)>) -> CompositionMap {
    Map::new(|k: Seq<char>| has_key_in(s, k), |k: Seq<char>| amount_in(s, k))
}

/// No key occurs twice in `s`.
pub open spec fn distinct_keys(s: Seq<(Seq<char>, int)>) -> bool {
    forall|i: int, j: int| 0 <= i < j < s.len() ==> s[i].0 != s[j].0
}

pub proof fn lemma_push(s: Seq<(Seq<char>, int)>, key: Seq<char>, value: int)
    ensures
        view_of(s.push((key, value))) =~= combine(view_of(s), single(key, value)),
        total_of(s.push((key, value))) == total_of(s) + value,
        magnitude_of(s.push((key, value))) == magnitude_of(s) + abs(value),
{
    let t = s.push((key, value));
    assert(t.drop_last() =~= s);
    assert forall|k: Seq<char>| #[trigger] amount_in(t, k) == amount_of(view_of(s), k) + amount_of(
        single(key, value),
        k,
    ) by {
        if !has_key_in(s, k) {
            lemma_absent_amount(s, k);
        }
    }
}

pub proof fn lemma_magnitude_nonneg(s: Seq<(Seq<char>, int)>)
    ensures
        magnitude_of(s) >= 0,
        abs(total_of(s)) <= magnitude_of(s),
    decreases s.len(),
{
    if s.len() > 0 {
        lemma_magnitude_nonneg(s.drop_last());
    }
}

pub proof fn lemma_take_step(s: Seq<(Seq<char>, int)>, i: int)
    requires
        0 <= i < s.len(),
    ensures
        s.take(i + 1) =~= s.take(i).push(s[i]),
        total_of(s.take(i + 1)) == total_of(s.take(i)) + s[i].1,
        magnitude_of(s.take(i + 1)) == magnitude_of(s.take(i)) + abs(s[i].1),
        view_of(s.take(i + 1)) =~= combine(view_of(s.take(i)), single(s[i].0, s[i].1)),
{
    assert(s.take(i + 1) =~= s.take(i).push(s[i]));
    lemma_push(s.take(i), s[i].0, s[i].1);
}

pub proof fn lemma_take_magnitude(s: Seq<(Seq<char>, int)>, i: int)
    requires
        0 <= i <= s.len(),
    ensures
        magnitude_of(s.take(i)) <= magnitude_of(s),
    decreases s.len() - i,
{
    if i < s.len() {
        lemma_take_step(s, i);
        lemma_take_magnitude(s, i + 1);
    } else {
        assert(s.take(i) =~= s);
    }
}

/// Changing the amount of an existing entry changes the composition under that
/// key alone.
pub proof fn lemma_update(s: Seq<(Seq<char>, int)>, i: int, value: int)
    requires
        0 <= i < s.len(),
    ensures
        forall|k: Seq<char>| #[trigger]
            has_key_in(s.update(i, (s[i].0, value)), k) == has_key_in(s, k),
        forall|k: Seq<char>| #[trigger]
            amount_in(s.update(i, (s[i].0, value)), k) == amount_in(s, k) + if k == s[i].0 {
                value - s[i].1
            } else {
                0
            },
        total_of(s.update(i, (s[i].0, value))) == total_of(s) + value - s[i].1,
        magnitude_of(s.update(i, (s[i].0, value))) == magnitude_of(s) + abs(value) - abs(
            s[i].1,
        ),
    decreases s.len(),
{
    let t = s.update(i, (s[i].0, value));
    if i == s.len() - 1 {
        assert(t.drop_last() =~= s.drop_last());
        assert(t.last() == (s[i].0, value));
    } else {
        assert(t.drop_last() =~= s.drop_last().update(i, (s[i].0, value)));
        assert(t.last() == s.last());
        lemma_update(s.drop_last(), i, value);
    }
    assert forall|k: Seq<char>| #[trigger] has_key_in(t, k) == has_key_in(s, k) by {
        if i < s.len() - 1 {
            assert(has_key_in(t.drop_last(), k) == has_key_in(s.drop_last(), k));
        } else if k == s[i].0 {
            lemma_has_key_at(s, i);
        }
    }
    assert forall|k: Seq<char>|
        #[trigger] amount_in(t, k) == amount_in(s, k) + if k == s[i].0 {
            value - s[i].1
        } else {
            0
        } by {
        if i < s.len() - 1 {
            assert(amount_in(t.drop_last(), k) == amount_in(s.drop_last(), k) + if k == s[i].0 {
                value - s[i].1
            } else {
                0
            });
        }
    }
}

/// Key-wise summation does not depend on the order in which compositions are
/// combined.
pub proof fn lemma_combine_commutative(a: CompositionMap, b: CompositionMap)
    ensures
        combine(a, b) =~= combine(b, a),
{
}

/// Combining three compositions gives the same result however they are grouped.
pub proof fn lemma_combine_associative(a: CompositionMap, b: CompositionMap, c: CompositionMap)
    ensures
        combine(combine(a, b), c) =~= combine(a, combine(b, c)),
{
}

/// The empty composition is neutral for combination.
pub proof fn lemma_combine_empty(a: CompositionMap)
    ensures
        combine(a, Map::empty()) =~= a,
        combine(Map::empty(), a) =~= a,
{
}

/// Adding two amounts under one key in turn is adding their sum once.
pub proof fn lemma_single_accumulates(a: CompositionMap, key: Seq<char>, x: int, y: int)
    ensures
        combine(combine(a, single(key, x)), single(key, y)) =~= combine(a, single(key, x + y)),
{
}

/// Two additions give the same composition in either order.
pub proof fn lemma_additions_commute(
    a: CompositionMap,
    first_key: Seq<char>,
    first: int,
    second_key: Seq<char>,
    second: int,
)
    ensures
        combine(combine(a, single(first_key, first)), single(second_key, second)) =~= combine(
            combine(a, single(second_key, second)),
            single(first_key, first),
        ),
{
}

/// A map from source descriptions to amounts, with each source recorded once.
pub struct Composition {
    entries: Vec<(String, i64)>,
}

impl View for Composition {
    type V = CompositionMap;

    open spec fn view(&self) -> CompositionMap {
        view_of(self.items())
    }
}

impl Composition {
    /// The entries as (key, amount) pairs, in the order they were first recorded.
    pub closed spec fn items(&self) -> Seq<(Seq<char>, int)> {
        self.entries@.map_values(|e: (String, i64)| (e.0@, e.1 as int))
    }

    /// The sum of all amounts.
    pub open spec fn total(&self) -> int {
        total_of(self.items())
    }

    /// The sum of the absolute values of all amounts.
    pub open spec fn magnitude(&self) -> int {
        magnitude_of(self.items())
    }

    #[verifier::type_invariant]
    spec fn well_formed(&self) -> bool {
        &&& distinct_keys(self.items())
        &&& magnitude_of(self.items()) <= MAX_MAGNITUDE
    }

    /// The empty composition.
    pub fn new() -> (r: Composition)
        ensures
            r@ == Map::<Seq<char>, int>::empty(),
            r.total() == 0,
            r.magnitude() == 0,
    {
        let r = Composition { entries: Vec::new() };
        assert(r.items() =~= Seq::<(Seq<char>, int)>::empty());
        assert(r@ =~= Map::<Seq<char>, int>::empty());
        r
    }

    /// A composition with the same entries as this one.
    pub fn duplicate(&self) -> (r: Composition)
        ensures
            r@ == self@,
            r.total() == self.total(),
            0 <= r.magnitude() <= self.magnitude(),
    {
        proof {
            use_type_invariant(self);
            lemma_magnitude_nonneg(self.items());
            lemma_combine_empty(self@);
        }
        let mut r = Composition::new();
        r.merge(self);
        proof {
            lemma_magnitude_nonneg(r.items());
        }
        r
    }

    /// The position of `key` among the entries, if it is recorded.
    fn find(&self, key: &String) -> (r: Option<usize>)
        ensures
            match r {
                Some(i) => i < self.items().len() && self.items()[i as int].0 == key@,
                None => !has_key_in(self.items(), key@),
            },
    {
        let n = self.entries.len();
        let mut i: usize = 0;
        while i < n
            invariant
                n == self.entries.len(),
                i <= n,
                forall|j: int| 0 <= j < i ==> self.items()[j].0 != key@,
            decreases n - i,
        {
            if self.entries[i].0 == *key {
                return Some(i);
            }
            i = i + 1;
        }
        proof {
            lemma_no_key(self.items(), key@);
        }
        None
    }

    /// Adds `value` to the amount recorded under `key`, recording it first with
    /// zero where it is absent.
    pub fn add_value(&mut self, key: &str, value: i64)
        requires
            old(self).magnitude() + abs(value as int) <= MAX_MAGNITUDE,
        ensures
            final(self)@ == combine(old(self)@, single(key@, value as int)),
            final(self).total() == old(self).total() + value,
            final(self).magnitude() <= old(self).magnitude() + abs(value as int),
    {
        proof {
            use_type_invariant(&*self);
            lemma_magnitude_nonneg(self.items());
        }
        let k: String = key.to_owned();
        let ghost s = self.items();
        match self.find(&k) {
            Some(i) => {
                let old_value = self.entries[i].1;
                proof {
                    lemma_single_bound(s, i as int);
                }
                let new_value = old_value + value;
                let key_copy = self.entries[i].0.clone();
                let mut entries = Vec::new();
                std::mem::swap(&mut entries, &mut self.entries);
                entries.set(i, (key_copy, new_value));
                proof {
                    let t = entries@.map_values(|e: (String, i64)| (e.0@, e.1 as int));
                    assert(t =~= s.update(i as int, (s[i as int].0, new_value as int)));
                    lemma_update(s, i as int, new_value as int);
                    lemma_has_key_at(s, i as int);
                    assert(view_of(t) =~= combine(view_of(s), single(key@, value as int)));
                }
                self.entries = entries;
            },
            None => {
                let mut entries = Vec::new();
                std::mem::swap(&mut entries, &mut self.entries);
                entries.push((k, value));
                proof {
                    let t = entries@.map_values(|e: (String, i64)| (e.0@, e.1 as int));
                    assert(t =~= s.push((key@, value as int)));
                    lemma_push(s, key@, value as int);
                    lemma_absent_distinct(s, key@);
                }
                self.entries = entries;
            },
        }
    }

    /// Adds every amount of `other` to the amount recorded under the same key.
    pub fn merge(&mut self, other: &Composition)
        requires
            old(self).magnitude() + other.magnitude() <= MAX_MAGNITUDE,
        ensures
            final(self)@ == combine(old(self)@, other@),
            final(self).total() == old(self).total() + other.total(),
            final(self).magnitude() <= old(self).magnitude() + other.magnitude(),
    {
        let ghost start = self@;
        let ghost start_total = self.total();
        let ghost start_mag = self.magnitude();
        let ghost o = other.items();
        proof {
            lemma_magnitude_nonneg(o);
            lemma_combine_empty(start);
            assert(o.take(0) =~= Seq::<(Seq<char>, int)>::empty());
            assert(view_of(o.take(0)) =~= Map::<Seq<char>, int>::empty());
        }
        let n = other.entries.len();
        let mut i: usize = 0;
        while i < n
            invariant
                n == other.entries.len(),
                o == other.items(),
                i <= n,
                start_mag + magnitude_of(o) <= MAX_MAGNITUDE,
                self@ == combine(start, view_of(o.take(i as int))),
                self.total() == start_total + total_of(o.take(i as int)),
                self.magnitude() <= start_mag + magnitude_of(o.take(i as int)),
            decreases n - i,
        {
            proof {
                lemma_take_step(o, i as int);
                lemma_take_magnitude(o, i as int + 1);
                lemma_combine_associative(
                    start,
                    view_of(o.take(i as int)),
                    single(o[i as int].0, o[i as int].1),
                );
            }
            let value = other.entries[i].1;
            self.add_value(other.entries[i].0.as_str(), value);
            i = i + 1;
        }
        proof {
            assert(o.take(n as int) =~= o);
        }
    }

    /// The sum of all amounts.
    pub fn sum(&self) -> (r: i64)
        ensures
            r == self.total(),
    {
        proof {
            use_type_invariant(self);
        }
        let ghost s = self.items();
        let n = self.entries.len();
        let mut acc: i64 = 0;
        let mut i: usize = 0;
        proof {
            assert(s.take(0) =~= Seq::<(Seq<char>, int)>::empty());
        }
        while i < n
            invariant
                n == self.entries.len(),
                s == self.items(),
                i <= n,
                magnitude_of(s) <= MAX_MAGNITUDE,
                acc == total_of(s.take(i as int)),
            decreases n - i,
        {
            proof {
                lemma_take_step(s, i as int);
                lemma_take_magnitude(s, i as int + 1);
                lemma_magnitude_nonneg(s.take(i as int + 1));
            }
            acc = acc + self.entries[i].1;
            i = i + 1;
        }
        proof {
            assert(s.take(n as int) =~= s);
        }
        acc
    }

    /// The sum of the absolute values of all amounts.
    pub fn absolute_sum(&self) -> (r: i64)
        ensures
            r == self.magnitude(),
    {
        proof {
            use_type_invariant(self);
        }
        let ghost s = self.items();
        let n = self.entries.len();
        let mut acc: i64 = 0;
        let mut i: usize = 0;
        proof {
            assert(s.take(0) =~= Seq::<(Seq<char>, int)>::empty());
        }
        while i < n
            invariant
                n == self.entries.len(),
                s == self.items(),
                i <= n,
                magnitude_of(s) <= MAX_MAGNITUDE,
                acc == magnitude_of(s.take(i as int)),
            decreases n - i,
        {
            proof {
                lemma_take_step(s, i as int);
                lemma_take_magnitude(s, i as int + 1);
                lemma_magnitude_nonneg(s.take(i as int));
            }
            let v = self.entries[i].1;
            let a = if v < 0 {
                -v
            } else {
                v
            };
            acc = acc + a;
            i = i + 1;
        }
        proof {
            assert(s.take(n as int) =~= s);
        }
        acc
    }

    /// The amount recorded under `key`, zero where there is none.
    pub fn get(&self, key: &str) -> (r: i64)
        ensures
            r == amount_of(self@, key@),
    {
        let k: String = key.to_owned();
        match self.find(&k) {
            Some(i) => {
                proof {
                    use_type_invariant(self);
                    lemma_distinct_amount(self.items(), i as int);
                    lemma_has_key_at(self.items(), i as int);
                }
                self.entries[i].1
            },
            None => {
                proof {
                    lemma_absent_amount(self.items(), key@);
                }
                0
            },
        }
    }

    /// The number of recorded keys.
    pub fn len(&self) -> (r: usize)
        ensures
            r == self.items().len(),
    {
        self.entries.len()
    }

    /// The key and amount of the entry at `index`.
    pub fn entry(&self, index: usize) -> (r: (String, i64))
        requires
            index < self.items().len(),
        ensures
            r.0@ == self.items()[index as int].0,
            r.1 == self.items()[index as int].1,
    {
        (self.entries[index].0.clone(), self.entries[index].1)
    }
}

proof fn lemma_no_key(s: Seq<(Seq<char>, int)>, key: Seq<char>)
    requires
        forall|j: int| 0 <= j < s.len() ==> s[j].0 != key,
    ensures
        !has_key_in(s, key),
    decreases s.len(),
{
    if s.len() > 0 {
        lemma_no_key(s.drop_last(), key);
    }
}

proof fn lemma_absent_distinct(s: Seq<(Seq<char>, int)>, key: Seq<char>)
    requires
        distinct_keys(s),
        !has_key_in(s, key),
    ensures
        forall|v: int| distinct_keys(#[trigger] s.push((key, v))),
{
    assert forall|v: int| distinct_keys(#[trigger] s.push((key, v))) by {
        let t = s.push((key, v));
        assert forall|i: int, j: int| 0 <= i < j < t.len() implies t[i].0 != t[j].0 by {
            if j == s.len() && t[i].0 == key {
                lemma_has_key_at(s, i);
            }
        }
    }
}

proof fn lemma_has_key_at(s: Seq<(Seq<char>, int)>, i: int)
    requires
        0 <= i < s.len(),
    ensures
        has_key_in(s, s[i].0),
    decreases s.len(),
{
    if i < s.len() - 1 {
        lemma_has_key_at(s.drop_last(), i);
    }
}

proof fn lemma_absent_amount(s: Seq<(Seq<char>, int)>, key: Seq<char>)
    requires
        !has_key_in(s, key),
    ensures
        amount_in(s, key) == 0,
    decreases s.len(),
{
    if s.len() > 0 {
        lemma_absent_amount(s.drop_last(), key);
    }
}

proof fn lemma_distinct_amount(s: Seq<(Seq<char>, int)>, i: int)
    requires
        0 <= i < s.len(),
        distinct_keys(s),
    ensures
        amount_in(s, s[i].0) == s[i].1,
    decreases s.len(),
{
    if i == s.len() - 1 {
        assert forall|j: int| 0 <= j < s.drop_last().len() implies s.drop_last()[j].0 != s[i].0 by {
            assert(s.drop_last()[j] == s[j]);
        }
        lemma_no_key(s.drop_last(), s[i].0);
        lemma_absent_amount(s.drop_last(), s[i].0);
    } else {
        lemma_distinct_amount(s.drop_last(), i);
    }
}

proof fn lemma_single_bound(s: Seq<(Seq<char>, int)>, i: int)
    requires
        0 <= i < s.len(),
    ensures
        abs(s[i].1) <= magnitude_of(s),
    decreases s.len(),
{
    lemma_magnitude_nonneg(s.drop_last());
    if i < s.len() - 1 {
        lemma_single_bound(s.drop_last(), i);
    }
}

} // verus!
