//! An ordered map from strings to strings.
//!
//! Entries are kept in strictly increasing key order (the order in which
//! a `BTreeMap<String, String>` walks its keys), so each key occurs once
//! and iteration is deterministic.

use vstd::prelude::*;

verus! {

/// Lexicographic "less than" on the suffixes of `a` and `b` from index `i`,
/// comparing characters by code point.
pub open spec fn lex_lt_from(a: Seq<char>, b: Seq<char>, i: nat) -> bool
    decreases a.len() - i,
{
    if i >= a.len() {
        i < b.len()
    } else if i >= b.len() {
        false
    } else if (a[i as int] as int) < (b[i as int] as int) {
        true
    } else if (b[i as int] as int) < (a[i as int] as int) {
        false
    } else {
        lex_lt_from(a, b, i + 1)
    }
}

/// Lexicographic order on character sequences (the order of `String`'s `Ord`).
pub open spec fn lex_lt(a: Seq<char>, b: Seq<char>) -> bool {
    lex_lt_from(a, b, 0)
}

proof fn lemma_lex_irreflexive_from(a: Seq<char>, i: nat)
    ensures
        !lex_lt_from(a, a, i),
    decreases a.len() - i,
{
    if i < a.len() {
        lemma_lex_irreflexive_from(a, i + 1);
    }
}

/// No sequence is below itself.
pub proof fn lemma_lex_irreflexive(a: Seq<char>)
    ensures
        !lex_lt(a, a),
{
    lemma_lex_irreflexive_from(a, 0);
}

proof fn lemma_lex_transitive_from(a: Seq<char>, b: Seq<char>, c: Seq<char>, i: nat)
    requires
        lex_lt_from(a, b, i),
        lex_lt_from(b, c, i),
    ensures
        lex_lt_from(a, c, i),
    decreases b.len() - i,
{
    if i < a.len() && i < b.len() && i < c.len() {
        let x = a[i as int] as int;
        let y = b[i as int] as int;
        let z = c[i as int] as int;
        if x == y && y == z {
            lemma_lex_transitive_from(a, b, c, i + 1);
        }
    }
}

/// The order is transitive.
pub proof fn lemma_lex_transitive(a: Seq<char>, b: Seq<char>, c: Seq<char>)
    requires
        lex_lt(a, b),
        lex_lt(b, c),
    ensures
        lex_lt(a, c),
{
    lemma_lex_transitive_from(a, b, c, 0);
}

proof fn lemma_lex_total_from(a: Seq<char>, b: Seq<char>, i: nat)
    requires
        i <= a.len(),
        i <= b.len(),
        !lex_lt_from(a, b, i),
        !lex_lt_from(b, a, i),
    ensures
        a.len() == b.len(),
        forall|j: int| i <= j < a.len() ==> a[j] == b[j],
    decreases a.len() - i,
{
    if i < a.len() && i < b.len() {
        assert(a[i as int] as int == b[i as int] as int);
        lemma_lex_total_from(a, b, i + 1);
    }
}

/// Two sequences that are not ordered either way are equal.
pub proof fn lemma_lex_total(a: Seq<char>, b: Seq<char>)
    requires
        !lex_lt(a, b),
        !lex_lt(b, a),
    ensures
        a == b,
{
    lemma_lex_total_from(a, b, 0);
    assert(a =~= b);
}

/// Compares two strings lexicographically by code point.
pub fn str_lt(a: &str, b: &str) -> (r: bool)
    ensures
        r == lex_lt(a@, b@),
{
    let na = a.unicode_len();
    let nb = b.unicode_len();
    let mut i: usize = 0;
    loop
        invariant
            na == a@.len(),
            nb == b@.len(),
            i <= na,
            i <= nb,
            lex_lt(a@, b@) == lex_lt_from(a@, b@, i as nat),
        decreases na - i,
    {
        if i == na {
            return i < nb;
        }
        if i == nb {
            return false;
        }
        let ca = a.get_char(i) as u32;
        let cb = b.get_char(i) as u32;
        if ca < cb {
            return true;
        }
        if cb < ca {
            return false;
        }
        i = i + 1;
    }
}

/// Whether two strings hold the same characters.
pub fn str_eq(a: &str, b: &str) -> (r: bool)
    ensures
        r == (a@ == b@),
{
    let lt1 = str_lt(a, b);
    let lt2 = str_lt(b, a);
    proof {
        if !lt1 && !lt2 {
            lemma_lex_total(a@, b@);
        }
        if a@ == b@ {
            lemma_lex_irreflexive(a@);
        }
    }
    !lt1 && !lt2
}

/// The views of a sequence of key/value string pairs.
pub open spec fn pair_views(e: Seq<(String, String)>) -> Seq<(Seq<char>, Seq<char>)> {
    e.map_values(|p: (String, String)| (p.0@, p.1@))
}

/// Keys strictly increase along the sequence.
pub open spec fn keys_sorted(p: Seq<(Seq<char>, Seq<char>)>) -> bool {
    forall|i: int, j: int| 0 <= i < j < p.len() ==> lex_lt(#[trigger] p[i].0, #[trigger] p[j].0)
}

/// No key occurs twice.
pub open spec fn keys_distinct(p: Seq<(Seq<char>, Seq<char>)>) -> bool {
    forall|i: int, j: int| 0 <= i < p.len() && 0 <= j < p.len() && i != j ==> #[trigger] p[i].0 != #[trigger] p[j].0
}

/// The map that inserting the pairs one after another produces.
pub open spec fn pairs_to_map(p: Seq<(Seq<char>, Seq<char>)>) -> Map<Seq<char>, Seq<char>>
    decreases p.len(),
{
    if p.len() == 0 {
        Map::empty()
    } else {
        pairs_to_map(p.drop_last()).insert(p.last().0, p.last().1)
    }
}

/// Sorted keys are distinct.
pub proof fn lemma_sorted_distinct(p: Seq<(Seq<char>, Seq<char>)>)
    requires
        keys_sorted(p),
    ensures
        keys_distinct(p),
{
    assert forall|i: int, j: int| 0 <= i < p.len() && 0 <= j < p.len() && i != j implies #[trigger] p[i].0 != #[trigger] p[j].0 by {
        if i < j {
            assert(lex_lt(p[i].0, p[j].0));
            lemma_lex_irreflexive(p[i].0);
        } else {
            assert(lex_lt(p[j].0, p[i].0));
            lemma_lex_irreflexive(p[j].0);
        }
    }
}

/// The keys of the map are exactly the keys of the pairs, and with
/// distinct keys each key maps to its own value.
pub proof fn lemma_pairs_to_map(p: Seq<(Seq<char>, Seq<char>)>)
    ensures
        forall|k: Seq<char>| #[trigger] pairs_to_map(p).contains_key(k) <==> exists|i: int| 0 <= i < p.len() && p[i].0 == k,
        keys_distinct(p) ==> forall|i: int| 0 <= i < p.len() ==> #[trigger] pairs_to_map(p)[p[i].0] == p[i].1,
    decreases p.len(),
{
    if p.len() > 0 {
        let q = p.drop_last();
        let last = p.len() - 1;
        lemma_pairs_to_map(q);
        assert forall|k: Seq<char>| #[trigger] pairs_to_map(p).contains_key(k) <==> exists|i: int| 0 <= i < p.len() && p[i].0 == k by {
            if pairs_to_map(p).contains_key(k) {
                if k == p[last].0 {
                    assert(0 <= last < p.len() && p[last].0 == k);
                } else {
                    assert(pairs_to_map(q).contains_key(k));
                    let i = choose|i: int| 0 <= i < q.len() && q[i].0 == k;
                    assert(q[i] == p[i]);
                    assert(0 <= i < p.len() && p[i].0 == k);
                }
            }
            if exists|i: int| 0 <= i < p.len() && p[i].0 == k {
                let i = choose|i: int| 0 <= i < p.len() && p[i].0 == k;
                if i < last {
                    assert(q[i] == p[i]);
                    assert(pairs_to_map(q).contains_key(k));
                }
            }
        }
        if keys_distinct(p) {
            assert forall|i: int, j: int| 0 <= i < q.len() && 0 <= j < q.len() && i != j implies #[trigger] q[i].0 != #[trigger] q[j].0 by {
                assert(q[i] == p[i] && q[j] == p[j]);
            }
            assert forall|i: int| 0 <= i < p.len() implies #[trigger] pairs_to_map(p)[p[i].0] == p[i].1 by {
                if i < last {
                    assert(q[i] == p[i]);
                    assert(p[i].0 != p[last].0);
                    assert(pairs_to_map(q)[q[i].0] == q[i].1);
                }
            }
        }
    }
}

/// An ordered string-to-string map, iterated in key order. Its entries are
/// always sorted by key (so no key occurs twice): every method states
/// `keys_sorted` of the map it reads or returns.
#[derive(Debug)]
pub struct StringMap {
    entries: Vec<(String, String)>,
}

impl StringMap {
    /// The entries as character sequences, in iteration (key) order.
    pub closed spec fn pairs(self) -> Seq<(Seq<char>, Seq<char>)> {
        pair_views(self.entries@)
    }

    #[verifier::type_invariant]
    spec fn sorted(self) -> bool {
        keys_sorted(self.pairs())
    }
}

impl View for StringMap {
    type V = Map<Seq<char>, Seq<char>>;

    open spec fn view(&self) -> Map<Seq<char>, Seq<char>> {
        pairs_to_map(self.pairs())
    }
}

impl StringMap {
    /// An empty map.
    pub fn new() -> (m: Self)
        ensures
            m@ == Map::<Seq<char>, Seq<char>>::empty(),
            m.pairs().len() == 0,
            keys_sorted(m.pairs()),
    {
        let m = StringMap { entries: Vec::new() };
        assert(m.pairs() =~= Seq::empty());
        m
    }

    /// The number of entries.
    pub fn len(&self) -> (n: usize)
        ensures
            n == self.pairs().len(),
            n == self@.len(),
            keys_sorted(self.pairs()),
    {
        proof {
            use_type_invariant(self);
            lemma_sorted_distinct(self.pairs());
            lemma_pairs_len(self.pairs());
        }
        self.entries.len()
    }

    /// The key of the `i`-th entry in key order.
    pub fn key_at(&self, i: usize) -> (k: &String)
        requires
            i < self.pairs().len(),
        ensures
            k@ == self.pairs()[i as int].0,
            keys_sorted(self.pairs()),
    {
        proof {
            use_type_invariant(self);
        }
        &self.entries[i].0
    }

    /// The value of the `i`-th entry in key order.
    pub fn value_at(&self, i: usize) -> (v: &String)
        requires
            i < self.pairs().len(),
        ensures
            v@ == self.pairs()[i as int].1,
            keys_sorted(self.pairs()),
    {
        proof {
            use_type_invariant(self);
        }
        &self.entries[i].1
    }

    /// Looks a key up.
    pub fn get(&self, key: &str) -> (r: Option<&String>)
        ensures
            r is Some <==> self@.contains_key(key@),
            r is Some ==> r->0@ == self@[key@],
            keys_sorted(self.pairs()),
    {
        proof {
            use_type_invariant(self);
            lemma_sorted_distinct(self.pairs());
        }
        let n = self.entries.len();
        for i in 0..n
            invariant
                n == self.pairs().len(),
                keys_sorted(self.pairs()),
                keys_distinct(self.pairs()),
                forall|j: int| 0 <= j < i ==> self.pairs()[j].0 != key@,
        {
            if str_eq(self.entries[i].0.as_str(), key) {
                proof {
                    lemma_pairs_to_map(self.pairs());
                    assert(self.pairs()[i as int].0 == key@);
                    assert(pairs_to_map(self.pairs())[self.pairs()[i as int].0] == self.pairs()[i as int].1);
                }
                return Some(&self.entries[i].1);
            }
        }
        proof {
            lemma_pairs_to_map(self.pairs());
            if pairs_to_map(self.pairs()).contains_key(key@) {
                let j = choose|j: int| 0 <= j < self.pairs().len() && self.pairs()[j].0 == key@;
                assert(false);
            }
        }
        None
    }

    /// Whether the key is present.
    pub fn contains_key(&self, key: &str) -> (r: bool)
        ensures
            r == self@.contains_key(key@),
            keys_sorted(self.pairs()),
    {
        self.get(key).is_some()
    }

    /// Inserts or replaces the value of `key`.
    pub fn insert(&mut self, key: String, value: String)
        ensures
            final(self)@ == old(self)@.insert(key@, value@),
            keys_sorted(final(self).pairs()),
    {
        proof {
            use_type_invariant(&*self);
        }
        let mut entries: Vec<(String, String)> = Vec::new();
        std::mem::swap(&mut entries, &mut self.entries);
        let ghost p = pair_views(entries@);
        assert(keys_sorted(p));
        let n = entries.len();
        let mut pos: usize = 0;
        while pos < n && str_lt(entries[pos].0.as_str(), key.as_str())
            invariant
                n == entries.len(),
                p == pair_views(entries@),
                pos <= n,
                forall|j: int| 0 <= j < pos ==> lex_lt(#[trigger] p[j].0, key@),
            decreases n - pos,
        {
            pos = pos + 1;
        }
        let ghost k = key@;
        let ghost v = value@;
        let replace = pos < n && str_eq(entries[pos].0.as_str(), key.as_str());
        if replace {
            entries.set(pos, (key, value));
        } else {
            entries.insert(pos, (key, value));
        }
        let ghost q = pair_views(entries@);
        proof {
            lemma_sorted_distinct(p);
            lemma_pairs_to_map(p);
            if replace {
                assert(q =~= p.update(pos as int, (k, v)));
            } else {
                assert(q =~= p.insert(pos as int, (k, v)));
            }
            lemma_insert_sorted(p, q, pos as int, k, v, replace);
            lemma_sorted_distinct(q);
            lemma_pairs_to_map(q);
            lemma_insert_view(p, q, pos as int, k, v, replace);
        }
        self.entries = entries;
        proof {
            use_type_invariant(&*self);
        }
    }

    /// Builds a map by inserting the pairs in order; a later pair wins
    /// over an earlier one with the same key.
    pub fn from_pairs(pairs: Vec<(String, String)>) -> (m: Self)
        ensures
            m@ == pairs_to_map(pair_views(pairs@)),
            keys_sorted(m.pairs()),
    {
        let mut m = StringMap::new();
        let mut rest = pairs;
        let ghost all = pair_views(rest@);
        let mut done: Vec<(String, String)> = Vec::new();
        // Take the pairs from the front by reversing them first.
        let mut rev: Vec<(String, String)> = Vec::new();
        while rest.len() > 0
            invariant
                all == pair_views(rest@) + pair_views(rev@).reverse(),
            decreases rest.len(),
        {
            let ghost before = rest@;
            let e = rest.pop().unwrap();
            proof {
                assert(before =~= rest@.push(e));
                assert(pair_views(rev@.push(e)).reverse() =~= seq![(e.0@, e.1@)] + pair_views(rev@).reverse());
                assert(pair_views(before) =~= pair_views(rest@).push((e.0@, e.1@)));
            }
            rev.push(e);
        }
        assert(all =~= pair_views(rev@).reverse());
        while rev.len() > 0
            invariant
                all == pair_views(done@) + pair_views(rev@).reverse(),
                m@ == pairs_to_map(pair_views(done@)),
            decreases rev.len(),
        {
            let ghost before = rev@;
            let e = rev.pop().unwrap();
            let ghost ev = (e.0@, e.1@);
            m.insert(e.0.clone(), e.1.clone());
            proof {
                assert(before =~= rev@.push(e));
                assert(pair_views(before).reverse() =~= seq![ev] + pair_views(rev@).reverse());
                assert(pair_views(done@.push(e)) =~= pair_views(done@).push(ev));
                assert(pair_views(done@.push(e)).drop_last() =~= pair_views(done@));
            }
            done.push(e);
        }
        assert(all =~= pair_views(done@));
        proof {
            use_type_invariant(&m);
        }
        m
    }
}

impl Clone for StringMap {
    fn clone(&self) -> (m: Self)
        ensures
            m.pairs() == self.pairs(),
            m@ == self@,
            keys_sorted(m.pairs()),
    {
        proof {
            use_type_invariant(self);
        }
        let n = self.entries.len();
        let mut entries: Vec<(String, String)> = Vec::new();
        for i in 0..n
            invariant
                n == self.entries@.len(),
                pair_views(entries@) =~= pair_views(self.entries@).take(i as int),
        {
            let k = self.entries[i].0.clone();
            let v = self.entries[i].1.clone();
            let ghost before = entries@;
            entries.push((k, v));
            proof {
                assert(entries@ =~= before.push((k, v)));
                assert(pair_views(entries@) =~= pair_views(before).push((k@, v@)));
                assert(pair_views(self.entries@)[i as int] == (k@, v@));
                assert(pair_views(entries@) =~= pair_views(self.entries@).take(i + 1));
            }
        }
        assert(pair_views(self.entries@).take(n as int) =~= pair_views(self.entries@));
        StringMap { entries }
    }
}

proof fn lemma_pairs_len(p: Seq<(Seq<char>, Seq<char>)>)
    requires
        keys_distinct(p),
    ensures
        pairs_to_map(p).len() == p.len(),
        pairs_to_map(p).dom().finite(),
    decreases p.len(),
{
    if p.len() > 0 {
        let q = p.drop_last();
        assert(keys_distinct(q));
        lemma_pairs_len(q);
        lemma_pairs_to_map(q);
        if pairs_to_map(q).contains_key(p.last().0) {
            let i = choose|i: int| 0 <= i < q.len() && q[i].0 == p.last().0;
            assert(p[i].0 == p[p.len() - 1].0);
        }
    }
}

proof fn lemma_insert_sorted(
    p: Seq<(Seq<char>, Seq<char>)>,
    q: Seq<(Seq<char>, Seq<char>)>,
    pos: int,
    k: Seq<char>,
    v: Seq<char>,
    replace: bool,
)
    requires
        keys_sorted(p),
        0 <= pos <= p.len(),
        forall|j: int| 0 <= j < pos ==> lex_lt(#[trigger] p[j].0, k),
        pos < p.len() ==> !lex_lt(p[pos].0, k),
        replace ==> pos < p.len() && p[pos].0 == k && q == p.update(pos, (k, v)),
        !replace ==> q == p.insert(pos, (k, v)) && (pos < p.len() ==> p[pos].0 != k),
    ensures
        keys_sorted(q),
        !replace ==> forall|j: int| 0 <= j < p.len() ==> p[j].0 != k,
{
    if !replace && pos < p.len() {
        if !lex_lt(k, p[pos].0) {
            lemma_lex_total(p[pos].0, k);
        }
        assert(lex_lt(k, p[pos].0));
    }
    if !replace {
        assert forall|j: int| 0 <= j < p.len() implies p[j].0 != k by {
            if j < pos {
                assert(lex_lt(p[j].0, k));
                lemma_lex_irreflexive(k);
            } else {
                if j > pos {
                    assert(lex_lt(p[pos].0, p[j].0));
                    lemma_lex_transitive(k, p[pos].0, p[j].0);
                }
                lemma_lex_irreflexive(k);
            }
        }
    }
    assert forall|i: int, j: int| 0 <= i < j < q.len() implies lex_lt(#[trigger] q[i].0, #[trigger] q[j].0) by {
        if replace {
            if i == pos {
                assert(lex_lt(p[i].0, p[j].0));
            } else if j == pos {
                assert(lex_lt(p[i].0, p[j].0));
            } else {
                assert(lex_lt(p[i].0, p[j].0));
            }
        } else {
            if j < pos {
                assert(q[i] == p[i] && q[j] == p[j]);
            } else if j == pos {
                assert(q[i] == p[i]);
            } else if i < pos {
                assert(q[i] == p[i] && q[j] == p[j - 1]);
                if j - 1 > pos {
                    assert(lex_lt(p[pos].0, p[j - 1].0));
                    lemma_lex_transitive(k, p[pos].0, p[j - 1].0);
                }
                lemma_lex_transitive(p[i].0, k, p[j - 1].0);
            } else if i == pos {
                assert(q[j] == p[j - 1]);
                if j - 1 > pos {
                    assert(lex_lt(p[pos].0, p[j - 1].0));
                    lemma_lex_transitive(k, p[pos].0, p[j - 1].0);
                }
            } else {
                assert(q[i] == p[i - 1] && q[j] == p[j - 1]);
            }
        }
    }
}

proof fn lemma_insert_view(
    p: Seq<(Seq<char>, Seq<char>)>,
    q: Seq<(Seq<char>, Seq<char>)>,
    pos: int,
    k: Seq<char>,
    v: Seq<char>,
    replace: bool,
)
    requires
        keys_distinct(p),
        keys_distinct(q),
        0 <= pos <= p.len(),
        replace ==> pos < p.len() && p[pos].0 == k && q == p.update(pos, (k, v)),
        !replace ==> q == p.insert(pos, (k, v)) && (forall|j: int| 0 <= j < p.len() ==> p[j].0 != k),
        forall|x: Seq<char>| #[trigger] pairs_to_map(p).contains_key(x) <==> exists|i: int| 0 <= i < p.len() && p[i].0 == x,
        forall|i: int| 0 <= i < p.len() ==> #[trigger] pairs_to_map(p)[p[i].0] == p[i].1,
        forall|x: Seq<char>| #[trigger] pairs_to_map(q).contains_key(x) <==> exists|i: int| 0 <= i < q.len() && q[i].0 == x,
        forall|i: int| 0 <= i < q.len() ==> #[trigger] pairs_to_map(q)[q[i].0] == q[i].1,
    ensures
        pairs_to_map(q) == pairs_to_map(p).insert(k, v),
{
    let mp = pairs_to_map(p);
    let mq = pairs_to_map(q);
    let target = mp.insert(k, v);
    assert(q[pos].0 == k);
    assert forall|x: Seq<char>| mq.contains_key(x) <==> target.contains_key(x) by {
        if mq.contains_key(x) && x != k {
            let i = choose|i: int| 0 <= i < q.len() && q[i].0 == x;
            if replace {
                assert(p[i].0 == x);
            } else if i < pos {
                assert(p[i].0 == x);
            } else {
                assert(i != pos);
                assert(p[i - 1].0 == x);
            }
        }
        if target.contains_key(x) && x != k {
            let i = choose|i: int| 0 <= i < p.len() && p[i].0 == x;
            if replace {
                assert(q[i].0 == x);
            } else if i < pos {
                assert(q[i].0 == x);
            } else {
                assert(q[i + 1].0 == x);
            }
        }
    }
    assert forall|x: Seq<char>| mq.contains_key(x) implies mq[x] == target[x] by {
        if x == k {
            assert(mq[q[pos].0] == q[pos].1);
        } else {
            let i = choose|i: int| 0 <= i < q.len() && q[i].0 == x;
            if replace {
                assert(i != pos);
                assert(p[i] == q[i]);
                assert(mp[p[i].0] == p[i].1);
            } else if i < pos {
                assert(p[i] == q[i]);
                assert(mp[p[i].0] == p[i].1);
            } else {
                assert(i != pos);
                assert(p[i - 1] == q[i]);
                assert(mp[p[i - 1].0] == p[i - 1].1);
            }
            assert(mq[q[i].0] == q[i].1);
        }
    }
    assert(mq =~= target);
}

} // verus!
