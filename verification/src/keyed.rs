//! Entries kept by key: ascending by key, each key once, the later value
//! winning.
use vstd::prelude::*;
use vstd::string::*;

verus! {

/// Whether text `a` sorts before text `b`: at the first position where they
/// differ the character of `a` has the smaller code, or `a` is a proper
/// prefix of `b`.
pub open spec fn precedes(a: Seq<char>, b: Seq<char>) -> bool
    decreases a.len(),
{
    if b.len() == 0 {
        false
    } else if a.len() == 0 {
        true
    } else if a[0] != b[0] {
        (a[0] as int) < (b[0] as int)
    } else {
        precedes(a.drop_first(), b.drop_first())
    }
}

/// No text sorts both before and after another.
pub proof fn lemma_precedes_asymmetric(a: Seq<char>, b: Seq<char>)
    requires
        precedes(a, b),
    ensures
        !precedes(b, a),
    decreases a.len(),
{
    if a.len() > 0 && b.len() > 0 && a[0] == b[0] {
        lemma_precedes_asymmetric(a.drop_first(), b.drop_first());
    }
}

/// Sorting before is transitive.
pub proof fn lemma_precedes_transitive(a: Seq<char>, b: Seq<char>, c: Seq<char>)
    requires
        precedes(a, b),
        precedes(b, c),
    ensures
        precedes(a, c),
    decreases a.len(),
{
    if a.len() > 0 && a[0] == b[0] && b[0] == c[0] {
        lemma_precedes_transitive(a.drop_first(), b.drop_first(), c.drop_first());
    }
}

/// Two texts of which neither sorts before the other are the same text.
pub proof fn lemma_precedes_total(a: Seq<char>, b: Seq<char>)
    requires
        !precedes(a, b),
        !precedes(b, a),
    ensures
        a == b,
    decreases a.len(),
{
    if a.len() > 0 && b.len() > 0 {
        if a[0] == b[0] {
            lemma_precedes_total(a.drop_first(), b.drop_first());
            assert(a =~= seq![a[0]] + a.drop_first());
            assert(b =~= seq![b[0]] + b.drop_first());
        } else {
            assert((a[0] as int) != (b[0] as int));
        }
    } else {
        assert(a =~= b);
    }
}

/// The test for entries whose key sorts before that of `entry`.
pub open spec fn before(entry: (String, String)) -> spec_fn((String, String)) -> bool {
    |e: (String, String)| precedes(e.0@, entry.0@)
}

/// The test for entries whose key sorts after that of `entry`.
pub open spec fn after(entry: (String, String)) -> spec_fn((String, String)) -> bool {
    |e: (String, String)| precedes(entry.0@, e.0@)
}

/// `entries` with `entry` put in by key: the entries with a smaller key,
/// then `entry`, then those with a greater key. One with the same key is
/// gone.
pub open spec fn put(entries: Seq<(String, String)>, entry: (String, String)) -> Seq<
    (String, String),
> {
    entries.filter(before(entry)) + seq![entry] + entries.filter(after(entry))
}

/// The pairs put in by key one after the other, starting from nothing.
pub open spec fn keyed(pairs: Seq<(String, String)>) -> Seq<(String, String)>
    decreases pairs.len(),
{
    if pairs.len() == 0 {
        Seq::empty()
    } else {
        put(keyed(pairs.drop_last()), pairs.last())
    }
}

/// Whether the keys ascend strictly, so that no key occurs twice.
pub open spec fn ascending(entries: Seq<(String, String)>) -> bool {
    forall|i: int, j: int|
        0 <= i < j < entries.len() ==> precedes(
            (#[trigger] entries[i]).0@,
            (#[trigger] entries[j]).0@,
        )
}

proof fn lemma_filter_prefix<A>(s: Seq<A>, pred: spec_fn(A) -> bool, p: int)
    requires
        0 <= p <= s.len(),
        forall|i: int| 0 <= i < p ==> pred(#[trigger] s[i]),
        forall|i: int| p <= i < s.len() ==> !pred(#[trigger] s[i]),
    ensures
        s.filter(pred) == s.take(p),
    decreases s.len(),
{
    reveal(Seq::filter);
    if s.len() == 0 {
        assert(s.take(p) =~= s.filter(pred));
    } else {
        let front = s.drop_last();
        assert(forall|i: int| 0 <= i < front.len() ==> front[i] == s[i]);
        if p == s.len() {
            lemma_filter_prefix(front, pred, p - 1);
            assert(pred(s[p - 1]));
            assert(front.take(p - 1).push(s.last()) =~= s.take(p));
        } else {
            lemma_filter_prefix(front, pred, p);
            assert(!pred(s[s.len() - 1]));
            assert(front.take(p) =~= s.take(p));
        }
    }
}

proof fn lemma_filter_suffix<A>(s: Seq<A>, pred: spec_fn(A) -> bool, q: int)
    requires
        0 <= q <= s.len(),
        forall|i: int| 0 <= i < q ==> !pred(#[trigger] s[i]),
        forall|i: int| q <= i < s.len() ==> pred(#[trigger] s[i]),
    ensures
        s.filter(pred) == s.skip(q),
    decreases s.len(),
{
    reveal(Seq::filter);
    if s.len() == 0 {
        assert(s.skip(q) =~= s.filter(pred));
    } else {
        let front = s.drop_last();
        assert(forall|i: int| 0 <= i < front.len() ==> front[i] == s[i]);
        if q == s.len() {
            lemma_filter_suffix(front, pred, q - 1);
            assert(!pred(s[q - 1]));
            assert(front.skip(q - 1) =~= Seq::<A>::empty());
            assert(s.skip(q) =~= Seq::<A>::empty());
        } else {
            lemma_filter_suffix(front, pred, q);
            assert(pred(s[s.len() - 1]));
            assert(front.skip(q).push(s.last()) =~= s.skip(q));
        }
    }
}

/// Putting an entry into ascending entries at the place `p` where the
/// smaller keys end: where the entry there has the same key it is replaced,
/// else the new entry goes in before it. The keys still ascend.
proof fn lemma_put_at(entries: Seq<(String, String)>, entry: (String, String), p: int)
    requires
        ascending(entries),
        0 <= p <= entries.len(),
        forall|j: int| 0 <= j < p ==> precedes((#[trigger] entries[j]).0@, entry.0@),
        p < entries.len() ==> !precedes(entries[p].0@, entry.0@),
    ensures
        p < entries.len() && !precedes(entry.0@, entries[p].0@) ==> put(entries, entry)
            == entries.update(p, entry),
        !(p < entries.len() && !precedes(entry.0@, entries[p].0@)) ==> put(entries, entry)
            == entries.insert(p, entry),
        ascending(put(entries, entry)),
{
    let key = entry.0@;
    assert forall|j: int| p <= j < entries.len() implies !before(entry)(
        #[trigger] entries[j],
    ) by {
        if j > p && precedes(entries[j].0@, key) {
            assert(precedes(entries[p].0@, entries[j].0@));
            lemma_precedes_transitive(entries[p].0@, entries[j].0@, key);
        }
    }
    assert forall|j: int| 0 <= j < p implies before(entry)(#[trigger] entries[j]) by {}
    lemma_filter_prefix(entries, before(entry), p);
    let same = p < entries.len() && !precedes(key, entries[p].0@);
    let q = if same {
        p + 1
    } else {
        p
    };
    assert forall|j: int| 0 <= j < q implies !after(entry)(#[trigger] entries[j]) by {
        if j < p {
            lemma_precedes_asymmetric(entries[j].0@, key);
        }
    }
    assert forall|j: int| q <= j < entries.len() implies after(entry)(#[trigger] entries[j]) by {
        if same {
            lemma_precedes_total(key, entries[p].0@);
            assert(precedes(entries[p].0@, entries[j].0@));
        } else if j > p {
            assert(precedes(entries[p].0@, entries[j].0@));
            lemma_precedes_transitive(key, entries[p].0@, entries[j].0@);
        }
    }
    lemma_filter_suffix(entries, after(entry), q);
    let placed = put(entries, entry);
    assert(placed =~= entries.take(p) + seq![entry] + entries.skip(q));
    if same {
        assert(placed =~= entries.update(p, entry));
    } else {
        assert(placed =~= entries.insert(p, entry));
    }
    assert forall|i: int, j: int| 0 <= i < j < placed.len() implies precedes(
        (#[trigger] placed[i]).0@,
        (#[trigger] placed[j]).0@,
    ) by {
        let shift = q - p - 1;
        if j < p {
            assert(placed[i] == entries[i] && placed[j] == entries[j]);
        } else if j == p {
            assert(placed[i] == entries[i]);
        } else if i == p {
            assert(placed[j] == entries[j + shift]);
            assert(after(entry)(entries[j + shift]));
        } else if i < p {
            assert(placed[i] == entries[i] && placed[j] == entries[j + shift]);
        } else {
            assert(placed[i] == entries[i + shift] && placed[j] == entries[j + shift]);
        }
    }
}

/// Keyed entries ascend strictly by key: no key occurs twice.
pub proof fn lemma_keyed_ascending(pairs: Seq<(String, String)>)
    ensures
        ascending(keyed(pairs)),
    decreases pairs.len(),
{
    if pairs.len() > 0 {
        let entries = keyed(pairs.drop_last());
        let entry = pairs.last();
        lemma_keyed_ascending(pairs.drop_last());
        let p = entries.filter(before(entry)).len() as int;
        entries.lemma_filter_len(before(entry));
        lemma_smaller_keys_lead(entries, entry, p);
        lemma_put_at(entries, entry, p);
    }
}

/// The pair put in last is among the keyed entries, whatever came before
/// it under the same key.
pub proof fn lemma_keyed_holds_last(pairs: Seq<(String, String)>)
    requires
        pairs.len() > 0,
    ensures
        keyed(pairs).contains(pairs.last()),
{
    let entries = keyed(pairs.drop_last());
    let entry = pairs.last();
    let at = entries.filter(before(entry)).len() as int;
    assert(keyed(pairs)[at] == entry);
}

/// In ascending entries those with a key smaller than that of `entry` come
/// first: `p` of them where the test holds of `p` entries.
proof fn lemma_smaller_keys_lead(entries: Seq<(String, String)>, entry: (String, String), p: int)
    requires
        ascending(entries),
        p == entries.filter(before(entry)).len(),
    ensures
        0 <= p <= entries.len(),
        forall|j: int| 0 <= j < p ==> precedes((#[trigger] entries[j]).0@, entry.0@),
        p < entries.len() ==> !precedes(entries[p].0@, entry.0@),
    decreases entries.len(),
{
    reveal(Seq::filter);
    entries.lemma_filter_len(before(entry));
    if entries.len() > 0 {
        let front = entries.drop_last();
        let last = entries.last();
        assert(forall|i: int| 0 <= i < front.len() ==> front[i] == entries[i]);
        let fp = front.filter(before(entry)).len() as int;
        front.lemma_filter_len(before(entry));
        lemma_smaller_keys_lead(front, entry, fp);
        if before(entry)(last) {
            if fp < front.len() {
                assert(precedes(entries[fp].0@, last.0@));
                lemma_precedes_transitive(entries[fp].0@, last.0@, entry.0@);
            }
        }
    }
}

/// Tells whether text `a` sorts before text `b`.
pub fn text_precedes(a: &str, b: &str) -> (earlier: bool)
    ensures
        earlier == precedes(a@, b@),
{
    let n = a.unicode_len();
    let m = b.unicode_len();
    let mut i: usize = 0;
    assert(a@.skip(0) =~= a@ && b@.skip(0) =~= b@);
    while i < n && i < m
        invariant
            n == a@.len(),
            m == b@.len(),
            i <= n,
            i <= m,
            precedes(a@, b@) == precedes(a@.skip(i as int), b@.skip(i as int)),
        decreases n - i,
    {
        let x = a.get_char(i);
        let y = b.get_char(i);
        proof {
            assert(a@.skip(i as int)[0] == x);
            assert(b@.skip(i as int)[0] == y);
            assert(a@.skip(i as int).drop_first() =~= a@.skip(i as int + 1));
            assert(b@.skip(i as int).drop_first() =~= b@.skip(i as int + 1));
        }
        if x != y {
            return (x as u32) < (y as u32);
        }
        i += 1;
    }
    i < m
}

/// Puts the pairs in by key, one after the other: the result ascends by
/// key, holds each key once, and of two pairs with one key the later wins.
pub fn keyed_entries(pairs: &Vec<(String, String)>) -> (entries: Vec<(String, String)>)
    ensures
        entries@ == keyed(pairs@),
        ascending(entries@),
{
    let mut entries: Vec<(String, String)> = Vec::new();
    let mut i: usize = 0;
    while i < pairs.len()
        invariant
            i <= pairs.len(),
            entries@ == keyed(pairs@.take(i as int)),
            ascending(entries@),
        decreases pairs.len() - i,
    {
        let entry = (pairs[i].0.clone(), pairs[i].1.clone());
        assert(entry == pairs@[i as int]);
        let mut p: usize = 0;
        while p < entries.len() && text_precedes(entries[p].0.as_str(), entry.0.as_str())
            invariant
                p <= entries.len(),
                forall|j: int| 0 <= j < p ==> precedes((#[trigger] entries@[j]).0@, entry.0@),
            decreases entries.len() - p,
        {
            p += 1;
        }
        proof {
            lemma_put_at(entries@, entry, p as int);
            let next = pairs@.take(i as int + 1);
            assert(next.drop_last() =~= pairs@.take(i as int));
            assert(next.last() == pairs@[i as int]);
        }
        if p < entries.len() && !text_precedes(entry.0.as_str(), entries[p].0.as_str()) {
            entries.set(p, entry);
        } else {
            entries.insert(p, entry);
        }
        i += 1;
    }
    assert(pairs@.take(i as int) =~= pairs@);
    entries
}

} // verus!
