use crate::key_map::{distinct_keys, has_key, index_of, lemma_upsert, upsert, KeyMap};
use crate::keys::LogicalKey;
use vstd::prelude::*;

verus! {

/// The entry at place `i` holds `button` for a key other than `key`.
pub open spec fn conflicts_at(
    bindings: Seq<(LogicalKey, u32)>,
    key: LogicalKey,
    button: u32,
    i: int,
) -> bool {
    0 <= i < bindings.len() && bindings[i].1 == button && bindings[i].0 != key
}

/// The place of the first entry from `start` on that holds `button` for a
/// key other than `key`.
pub open spec fn first_conflict_from(
    bindings: Seq<(LogicalKey, u32)>,
    key: LogicalKey,
    button: u32,
    start: int,
) -> Option<int>
    decreases bindings.len() - start,
{
    if start < 0 || start >= bindings.len() {
        None
    } else if conflicts_at(bindings, key, button, start) {
        Some(start)
    } else {
        first_conflict_from(bindings, key, button, start + 1)
    }
}

/// The place of the first entry that holds `button` for a key other than
/// `key`.
pub open spec fn first_conflict(
    bindings: Seq<(LogicalKey, u32)>,
    key: LogicalKey,
    button: u32,
) -> Option<int> {
    first_conflict_from(bindings, key, button, 0)
}

/// The bindings after `key` was bound to `button`: the first other key that
/// held `button` is unbound (mask 0) and keeps its place, then `key` holds
/// `button`.
pub open spec fn bind_key(bindings: Seq<(LogicalKey, u32)>, key: LogicalKey, button: u32) -> Seq<
    (LogicalKey, u32),
> {
    match first_conflict(bindings, key, button) {
        Some(i) => upsert(bindings.update(i, (bindings[i].0, 0u32)), key, button),
        None => upsert(bindings, key, button),
    }
}

/// No two keys hold the same nonzero mask.
pub open spec fn unique_bindings(bindings: Seq<(LogicalKey, u32)>) -> bool {
    forall|i: int, j: int|
        0 <= i < bindings.len() && 0 <= j < bindings.len() && i != j && (
        #[trigger] bindings[i]).1 != 0 ==> bindings[i].1 != (#[trigger] bindings[j]).1
}

/// What the search for the first conflict finds.
pub proof fn lemma_first_conflict_from(
    bindings: Seq<(LogicalKey, u32)>,
    key: LogicalKey,
    button: u32,
    start: int,
)
    requires
        0 <= start,
    ensures
        match first_conflict_from(bindings, key, button, start) {
            Some(i) => start <= i && conflicts_at(bindings, key, button, i) && forall|j: int|
                start <= j < i ==> !conflicts_at(bindings, key, button, j),
            None => forall|j: int| start <= j ==> !conflicts_at(bindings, key, button, j),
        },
    decreases bindings.len() - start,
{
    if start < bindings.len() && !conflicts_at(bindings, key, button, start) {
        lemma_first_conflict_from(bindings, key, button, start + 1);
    }
}

/// Binding a key keeps the keys distinct and, where no two keys shared a
/// nonzero mask before, none do after.
pub proof fn law_bind_key_keeps_masks_unique(
    bindings: Seq<(LogicalKey, u32)>,
    key: LogicalKey,
    button: u32,
)
    requires
        distinct_keys(bindings),
        unique_bindings(bindings),
    ensures
        distinct_keys(bind_key(bindings, key, button)),
        unique_bindings(bind_key(bindings, key, button)),
{
    lemma_first_conflict_from(bindings, key, button, 0);
    let cleared = match first_conflict(bindings, key, button) {
        Some(i) => bindings.update(i, (bindings[i].0, 0u32)),
        None => bindings,
    };
    assert(cleared.len() == bindings.len());
    assert forall|i: int| 0 <= i < cleared.len() implies (#[trigger] cleared[i]).0
        == bindings[i].0 && (cleared[i].1 == bindings[i].1 || cleared[i].1 == 0) by {}
    assert(distinct_keys(cleared)) by {
        assert forall|i: int, j: int| 0 <= i < j < cleared.len() implies (#[trigger] cleared[i]).0
            != (#[trigger] cleared[j]).0 by {
            assert(bindings[i].0 != bindings[j].0);
        }
    }
    // No entry under another key still holds a nonzero `button`.
    assert forall|i: int|
        0 <= i < cleared.len() && (#[trigger] cleared[i]).0 != key && button
            != 0 implies cleared[i].1 != button by {
        if cleared[i].1 == button {
            assert(conflicts_at(bindings, key, button, i));
            let c = first_conflict(bindings, key, button).unwrap();
            if c != i {
                assert(bindings[c].1 != bindings[i].1);
            }
        }
    }
    assert(unique_bindings(cleared)) by {
        assert forall|i: int, j: int|
            0 <= i < cleared.len() && 0 <= j < cleared.len() && i != j && (
            #[trigger] cleared[i]).1 != 0 implies cleared[i].1 != (#[trigger] cleared[j]).1 by {
            assert(bindings[i].1 != bindings[j].1);
        }
    }
    lemma_upsert(cleared, key, button);
    let bound = upsert(cleared, key, button);
    assert(bound == bind_key(bindings, key, button));
    if has_key(cleared, key) {
        let p = index_of(cleared, key);
        assert(0 <= p < cleared.len() && cleared[p].0 == key);
        assert forall|i: int, j: int|
            0 <= i < bound.len() && 0 <= j < bound.len() && i != j && (#[trigger] bound[i]).1
                != 0 implies bound[i].1 != (#[trigger] bound[j]).1 by {
            if i != p {
                assert(bound[i] == cleared[i]);
            }
            if j != p {
                assert(bound[j] == cleared[j]);
            }
            if i != p && j != p {
                assert(cleared[i].1 != cleared[j].1);
            } else if i == p {
                assert(cleared[j].0 != cleared[p].0);
            } else {
                assert(cleared[i].0 != cleared[p].0);
            }
        }
    } else {
        let p = cleared.len() as int;
        assert forall|i: int, j: int|
            0 <= i < bound.len() && 0 <= j < bound.len() && i != j && (#[trigger] bound[i]).1
                != 0 implies bound[i].1 != (#[trigger] bound[j]).1 by {
            if i != p {
                assert(bound[i] == cleared[i]);
            }
            if j != p {
                assert(bound[j] == cleared[j]);
            }
            if i != p && j != p {
                assert(cleared[i].1 != cleared[j].1);
            }
        }
    }
}

/// The bindings after a run of `bind_key` calls, oldest first; each call
/// names a key and the mask it is bound to.
pub open spec fn bind_keys(bindings: Seq<(LogicalKey, u32)>, calls: Seq<(LogicalKey, u32)>) -> Seq<
    (LogicalKey, u32),
>
    decreases calls.len(),
{
    if calls.len() == 0 {
        bindings
    } else {
        bind_key(bind_keys(bindings, calls.drop_last()), calls.last().0, calls.last().1)
    }
}

/// Starting from bindings in which no two keys share a nonzero mask, no run
/// of `bind_key` calls, however long, leads to bindings in which two do.
pub proof fn law_bindings_stay_unique(
    bindings: Seq<(LogicalKey, u32)>,
    calls: Seq<(LogicalKey, u32)>,
)
    requires
        distinct_keys(bindings),
        unique_bindings(bindings),
    ensures
        distinct_keys(bind_keys(bindings, calls)),
        unique_bindings(bind_keys(bindings, calls)),
    decreases calls.len(),
{
    if calls.len() > 0 {
        law_bindings_stay_unique(bindings, calls.drop_last());
        law_bind_key_keeps_masks_unique(
            bind_keys(bindings, calls.drop_last()),
            calls.last().0,
            calls.last().1,
        );
    }
}

impl KeyMap<u32> {
    /// The place of the first entry that holds `button` for a key other
    /// than `key`.
    pub fn find_conflict(&self, key: &LogicalKey, button: u32) -> (r: Option<usize>)
        ensures
            match r {
                Some(i) => first_conflict(self@, *key, button) == Some(i as int) && i
                    < self@.len(),
                None => first_conflict(self@, *key, button).is_none(),
            },
    {
        let mut i: usize = 0;
        let n = self.len();
        while i < n
            invariant
                i <= n,
                n == self@.len(),
                first_conflict(self@, *key, button) == first_conflict_from(
                    self@,
                    *key,
                    button,
                    i as int,
                ),
            decreases n - i,
        {
            if *self.value_at(i) == button && self.key_at(i) != *key {
                return Some(i);
            }
            i += 1;
        }
        None
    }

    /// Binds `key` to `button`. The first other key that held `button` is
    /// unbound: it stays in the map with mask 0.
    pub fn bind(&mut self, key: LogicalKey, button: u32)
        ensures
            final(self)@ == bind_key(old(self)@, key, button),
    {
        match self.find_conflict(&key, button) {
            Some(i) => {
                self.set_value_at(i, 0);
            },
            None => {},
        }
        self.insert(key, button);
    }
}

} // verus!
