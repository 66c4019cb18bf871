use crate::key_map::KeyMap;
use crate::keys::LogicalKey;
use crate::text::chars_of;
use vstd::prelude::*;

verus! {

/// `a` comes strictly before `b` in the order of texts: character by
/// character, a text before every text it begins.
pub open spec fn text_before(a: Seq<char>, b: Seq<char>) -> bool
    decreases a.len(),
{
    if b.len() == 0 {
        false
    } else if a.len() == 0 {
        true
    } else if a[0] != b[0] {
        a[0] < b[0]
    } else {
        text_before(a.subrange(1, a.len() as int), b.subrange(1, b.len() as int))
    }
}

/// No text comes before itself.
pub proof fn lemma_text_before_irreflexive(a: Seq<char>)
    ensures
        !text_before(a, a),
    decreases a.len(),
{
    if a.len() > 0 {
        lemma_text_before_irreflexive(a.subrange(1, a.len() as int));
    }
}

/// Of two different texts, one comes before the other.
pub proof fn lemma_text_before_total(a: Seq<char>, b: Seq<char>)
    ensures
        text_before(a, b) || a == b || text_before(b, a),
    decreases a.len(),
{
    if a.len() == 0 || b.len() == 0 {
        if a.len() == 0 && b.len() == 0 {
            assert(a =~= b);
        } else if a.len() == 0 {
            assert(text_before(a, b));
        } else {
            assert(text_before(b, a));
        }
    } else if a[0] == b[0] {
        let ta = a.subrange(1, a.len() as int);
        let tb = b.subrange(1, b.len() as int);
        lemma_text_before_total(ta, tb);
        if ta == tb {
            assert(a =~= seq![a[0]] + ta);
            assert(b =~= seq![b[0]] + tb);
            assert(a == b);
        } else if text_before(ta, tb) {
            assert(text_before(a, b));
        } else {
            assert(text_before(b, a));
        }
    } else {
        if a[0] < b[0] {
            assert(text_before(a, b));
        } else {
            assert(text_before(b, a));
        }
    }
}

/// The order of texts is transitive.
pub proof fn lemma_text_before_transitive(a: Seq<char>, b: Seq<char>, c: Seq<char>)
    requires
        text_before(a, b),
        text_before(b, c),
    ensures
        text_before(a, c),
    decreases a.len(),
{
    if a.len() > 0 && a[0] == b[0] && b[0] == c[0] {
        lemma_text_before_transitive(
            a.subrange(1, a.len() as int),
            b.subrange(1, b.len() as int),
            c.subrange(1, c.len() as int),
        );
    }
}

/// Texts that agree on their first `k` characters are ordered as what
/// follows those characters.
proof fn lemma_text_before_after_common_prefix(a: Seq<char>, b: Seq<char>, k: int)
    requires
        0 <= k <= a.len(),
        k <= b.len(),
        forall|i: int| 0 <= i < k ==> a[i] == b[i],
    ensures
        text_before(a, b) == text_before(
            a.subrange(k, a.len() as int),
            b.subrange(k, b.len() as int),
        ),
    decreases k,
{
    if k == 0 {
        assert(a.subrange(0, a.len() as int) =~= a);
        assert(b.subrange(0, b.len() as int) =~= b);
    } else {
        let ta = a.subrange(1, a.len() as int);
        let tb = b.subrange(1, b.len() as int);
        assert(a[0] == b[0]);
        assert forall|i: int| 0 <= i < k - 1 implies ta[i] == tb[i] by {
            assert(a[i + 1] == b[i + 1]);
        }
        lemma_text_before_after_common_prefix(ta, tb, k - 1);
        assert(ta.subrange(k - 1, ta.len() as int) =~= a.subrange(k, a.len() as int));
        assert(tb.subrange(k - 1, tb.len() as int) =~= b.subrange(k, b.len() as int));
    }
}

impl LogicalKey {
    /// The key is listed before `other`: its display form comes first.
    pub open spec fn shown_before(self, other: LogicalKey) -> bool {
        text_before(self.display(), other.display())
    }

    /// Tells whether the key is listed before `other`.
    pub fn is_shown_before(&self, other: &LogicalKey) -> (b: bool)
        ensures
            b == self.shown_before(*other),
    {
        let mine = chars_of(self.to_string().as_str());
        let theirs = chars_of(other.to_string().as_str());
        let mut i: usize = 0;
        while i < mine.len() && i < theirs.len()
            invariant
                i <= mine@.len(),
                i <= theirs@.len(),
                mine@ == self.display(),
                theirs@ == other.display(),
                forall|j: int| 0 <= j < i ==> mine@[j] == theirs@[j],
            decreases mine@.len() - i,
        {
            if mine[i] != theirs[i] {
                proof {
                    lemma_text_before_after_common_prefix(mine@, theirs@, i as int);
                    assert(mine@.subrange(i as int, mine@.len() as int)[0] == mine@[i as int]);
                    assert(theirs@.subrange(i as int, theirs@.len() as int)[0]
                        == theirs@[i as int]);
                }
                return mine[i] < theirs[i];
            }
            i += 1;
        }
        proof {
            lemma_text_before_after_common_prefix(mine@, theirs@, i as int);
        }
        i < theirs.len()
    }
}

/// Each key is listed no later than every key behind it.
pub open spec fn in_display_order(keys: Seq<LogicalKey>) -> bool {
    forall|i: int, j: int|
        0 <= i < j < keys.len() ==> !(#[trigger] keys[j]).shown_before(#[trigger] keys[i])
}

/// The order of listing is a strict total order on the display forms, and
/// with them on the keys: no key is listed before itself, of two keys with
/// different display forms one is listed first, and the order is
/// transitive.
pub proof fn law_listing_order_is_total(a: LogicalKey, b: LogicalKey, c: LogicalKey)
    ensures
        !a.shown_before(a),
        a.shown_before(b) || b.shown_before(a) || a == b,
        a.shown_before(b) && b.shown_before(c) ==> a.shown_before(c),
        !(a.shown_before(b) && b.shown_before(a)),
{
    lemma_text_before_irreflexive(a.display());
    lemma_text_before_total(a.display(), b.display());
    if a.display() == b.display() {
        a.law_display_reads_back();
        b.law_display_reads_back();
    }
    if a.shown_before(b) && b.shown_before(c) {
        lemma_text_before_transitive(a.display(), b.display(), c.display());
    }
    if a.shown_before(b) && b.shown_before(a) {
        lemma_text_before_transitive(a.display(), b.display(), a.display());
    }
}

/// The same keys in the order in which they are listed. Keys that are
/// equal keep the order they came in.
pub fn sort_for_display(keys: &Vec<LogicalKey>) -> (sorted: Vec<LogicalKey>)
    ensures
        in_display_order(sorted@),
        sorted@.to_multiset() == keys@.to_multiset(),
{
    let mut sorted: Vec<LogicalKey> = Vec::new();
    let mut n: usize = 0;
    assert(keys@.subrange(0, 0) =~= Seq::<LogicalKey>::empty());
    while n < keys.len()
        invariant
            n <= keys@.len(),
            sorted@.len() == n,
            in_display_order(sorted@),
            sorted@.to_multiset() == keys@.subrange(0, n as int).to_multiset(),
        decreases keys@.len() - n,
    {
        let key = keys[n];
        let mut p: usize = 0;
        while p < sorted.len() && !key.is_shown_before(&sorted[p])
            invariant
                p <= sorted@.len(),
                forall|i: int| 0 <= i < p ==> !key.shown_before(#[trigger] sorted@[i]),
            decreases sorted@.len() - p,
        {
            p += 1;
        }
        let ghost before = sorted@;
        sorted.insert(p, key);
        proof {
            assert forall|i: int, j: int| 0 <= i < j < sorted@.len() implies !(
            #[trigger] sorted@[j]).shown_before(#[trigger] sorted@[i]) by {
                if j == p {
                    assert(sorted@[i] == before[i]);
                } else if i == p {
                    assert(sorted@[j] == before[j - 1]);
                    if j - 1 > p {
                        assert(!before[j - 1].shown_before(before[p as int]));
                    }
                    law_listing_order_is_total(key, before[p as int], before[j - 1]);
                    law_listing_order_is_total(before[j - 1], key, before[p as int]);
                    law_listing_order_is_total(before[p as int], before[j - 1], key);
                } else if j < p {
                    assert(sorted@[i] == before[i] && sorted@[j] == before[j]);
                } else if i < p {
                    assert(sorted@[i] == before[i] && sorted@[j] == before[j - 1]);
                } else {
                    assert(sorted@[i] == before[i - 1] && sorted@[j] == before[j - 1]);
                }
            }
            assert(keys@.subrange(0, n + 1) =~= keys@.subrange(0, n as int).push(key));
            vstd::seq_lib::to_multiset_insert(before, p as int, key);
            vstd::seq_lib::to_multiset_build(keys@.subrange(0, n as int), key);
        }
        n += 1;
    }
    assert(keys@.subrange(0, n as int) =~= keys@);
    sorted
}

impl<V> KeyMap<V> {
    /// The keys of the map in the order of its entries.
    pub fn keys(&self) -> (keys: Vec<LogicalKey>)
        ensures
            keys@ == self@.map_values(|e: (LogicalKey, V)| e.0),
    {
        let n = self.len();
        let mut keys: Vec<LogicalKey> = Vec::new();
        let mut i: usize = 0;
        while i < n
            invariant
                i <= n,
                n == self@.len(),
                keys@.len() == i,
                forall|j: int| 0 <= j < i ==> keys@[j] == self@[j].0,
            decreases n - i,
        {
            keys.push(self.key_at(i));
            i += 1;
        }
        assert(keys@ =~= self@.map_values(|e: (LogicalKey, V)| e.0));
        keys
    }

    /// The keys of the map in the order in which they are listed.
    pub fn keys_for_display(&self) -> (keys: Vec<LogicalKey>)
        ensures
            in_display_order(keys@),
            keys@.to_multiset() == self@.map_values(|e: (LogicalKey, V)| e.0).to_multiset(),
    {
        sort_for_display(&self.keys())
    }
}

} // verus!
