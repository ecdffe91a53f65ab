//! In-memory model of one namespace of the expiring key-value store.
//!
//! The running system keeps sessions and transient OAuth state in a remote
//! cache with per-entry time-to-live.  This module models one namespace of
//! that store as a value: every operation takes the current time in seconds
//! and the contracts state exactly which keys are readable when.

use vstd::prelude::*;

verus! {

/// One stored entry: a key, its value, and the moment at which it expires.
pub struct StoreEntry {
    pub key: String,
    pub value: String,
    pub expires_at: u64,
}

/// What a sequence of entries associates with `key`: the value and its
/// expiry moment, taken from the first entry whose key matches.
pub open spec fn find_in(s: Seq<StoreEntry>, key: Seq<char>) -> Option<(Seq<char>, u64)>
    decreases s.len(),
{
    if s.len() == 0 {
        None
    } else if s[0].key@ == key {
        Some((s[0].value@, s[0].expires_at))
    } else {
        find_in(s.drop_first(), key)
    }
}

/// The value readable at time `now`, given what the store associates with a
/// key: an entry is live strictly before its expiry moment.
pub open spec fn live_value(found: Option<(Seq<char>, u64)>, now: u64) -> Option<Seq<char>> {
    match found {
        Some(ve) => if now < ve.1 {
            Some(ve.0)
        } else {
            None
        },
        None => None,
    }
}

/// One namespace of the expiring key-value store, held in memory.
pub struct ExpiringStore {
    entries: Vec<StoreEntry>,
}

impl ExpiringStore {
    /// What this namespace associates with `key`.
    pub closed spec fn spec_find(self, key: Seq<char>) -> Option<(Seq<char>, u64)> {
        find_in(self.entries@, key)
    }

    /// Keys are unique: each key is held by at most one entry.
    pub closed spec fn wf(self) -> bool {
        forall|i: int, j: int|
            0 <= i < j < self.entries@.len() ==> #[trigger] self.entries@[i].key@
                != #[trigger] self.entries@[j].key@
    }

    /// An empty namespace.
    pub fn new() -> (s: Self)
        ensures
            s.wf(),
            forall|k: Seq<char>| s.spec_find(k) is None,
    {
        let s = ExpiringStore { entries: Vec::new() };
        proof {
            assert forall|k: Seq<char>| s.spec_find(k) is None by {
                assert(s.entries@.len() == 0);
            }
        }
        s
    }

    /// Index of the entry holding `key`, if any.
    fn position_of(&self, key: &String) -> (r: Option<usize>)
        ensures
            match r {
                Some(i) => i < self.entries@.len() && self.entries@[i as int].key@ == key@
                    && forall|j: int| 0 <= j < i ==> #[trigger] self.entries@[j].key@ != key@,
                None => forall|j: int|
                    0 <= j < self.entries@.len() ==> #[trigger] self.entries@[j].key@ != key@,
            },
    {
        let mut i: usize = 0;
        while i < self.entries.len()
            invariant
                i <= self.entries@.len(),
                forall|j: int| 0 <= j < i ==> #[trigger] self.entries@[j].key@ != key@,
            decreases self.entries@.len() - i,
        {
            if self.entries[i].key == *key {
                return Some(i);
            }
            i = i + 1;
        }
        None
    }

    /// Remove the entry holding `key`, if any; every other key keeps its
    /// association.
    fn remove_key(&mut self, key: &String)
        requires
            old(self).wf(),
        ensures
            final(self).wf(),
            final(self).spec_find(key@) is None,
            forall|k: Seq<char>|
                k != key@ ==> #[trigger] final(self).spec_find(k) == old(self).spec_find(k),
    {
        let pos = self.position_of(key);
        match pos {
            Some(i) => {
                proof {
                    let s = self.entries@;
                    let t = s.remove(i as int);
                    lemma_find_remove(s, i as int);
                    assert forall|a: int, b: int| 0 <= a < b < t.len() implies #[trigger] t[a].key@
                        != #[trigger] t[b].key@ by {
                        assert(t[a] == if a < i { s[a] } else { s[a + 1] });
                        assert(t[b] == if b < i { s[b] } else { s[b + 1] });
                    }
                    assert forall|j: int| 0 <= j < t.len() implies #[trigger] t[j].key@ != key@ by {
                        assert(t[j] == if j < i { s[j] } else { s[j + 1] });
                    }
                    lemma_absent_iff_none(t, key@);
                }
                self.entries.remove(i);
            },
            None => {
                proof {
                    lemma_absent_iff_none(self.entries@, key@);
                }
            },
        }
    }

    /// Store `value` under `key` for `ttl_seconds` seconds from `now`,
    /// replacing any earlier association of `key`.
    pub fn set_ex(&mut self, key: String, value: String, ttl_seconds: u64, now: u64)
        requires
            old(self).wf(),
            now + ttl_seconds <= u64::MAX,
        ensures
            final(self).wf(),
            final(self).spec_find(key@) == Some((value@, (now + ttl_seconds) as u64)),
            forall|k: Seq<char>|
                k != key@ ==> #[trigger] final(self).spec_find(k) == old(self).spec_find(k),
    {
        self.remove_key(&key);
        let ghost mid = *self;
        let expires_at = now + ttl_seconds;
        let ghost pre = self.entries@;
        let ghost gkey = key@;
        proof {
            lemma_absent_iff_none(pre, gkey);
        }
        self.entries.push(StoreEntry { key, value, expires_at });
        proof {
            let s = self.entries@;
            let e = s.last();
            assert(s =~= pre.push(e));
            lemma_find_push(pre, e);
            assert forall|k: Seq<char>| k != gkey implies #[trigger] self.spec_find(k)
                == mid.spec_find(k) by {
                assert(find_in(s, k) == find_in(pre.push(e), k));
                assert(mid.spec_find(k) == find_in(pre, k));
            }
            assert forall|a: int, b: int| 0 <= a < b < s.len() implies #[trigger] s[a].key@
                != #[trigger] s[b].key@ by {
                if b < pre.len() {
                    assert(pre[a].key@ != pre[b].key@);
                } else {
                    assert(s[b] == e);
                    assert(pre[a].key@ != gkey);
                }
            }
        }
    }

    /// The value stored under `key`, if it has not expired by `now`.
    pub fn get(&self, key: &String, now: u64) -> (r: Option<String>)
        ensures
            r.deep_view() == live_value(self.spec_find(key@), now),
    {
        let pos = self.position_of(key);
        match pos {
            Some(i) => {
                proof {
                    lemma_find_at(self.entries@, i as int, key@);
                }
                let entry = &self.entries[i];
                if now < entry.expires_at {
                    Some(entry.value.clone())
                } else {
                    None
                }
            },
            None => {
                proof {
                    lemma_absent_iff_none(self.entries@, key@);
                }
                None
            },
        }
    }

    /// Atomically read and delete: return the unexpired value stored under
    /// `key` and remove the entry, leaving every other key untouched.
    pub fn get_del(&mut self, key: &String, now: u64) -> (r: Option<String>)
        requires
            old(self).wf(),
        ensures
            final(self).wf(),
            final(self).spec_find(key@) is None,
            forall|k: Seq<char>|
                k != key@ ==> #[trigger] final(self).spec_find(k) == old(self).spec_find(k),
            r.deep_view() == live_value(old(self).spec_find(key@), now),
    {
        let value = self.get(key, now);
        self.remove_key(key);
        value
    }
}

/// A key is not found exactly when no entry holds it.
proof fn lemma_absent_iff_none(s: Seq<StoreEntry>, key: Seq<char>)
    ensures
        (find_in(s, key) is None) <==> (forall|j: int|
            0 <= j < s.len() ==> #[trigger] s[j].key@ != key),
    decreases s.len(),
{
    if s.len() > 0 {
        lemma_absent_iff_none(s.drop_first(), key);
        if s[0].key@ == key {
        } else {
            if forall|j: int| 0 <= j < s.len() ==> #[trigger] s[j].key@ != key {
                assert forall|j: int|
                    0 <= j < s.drop_first().len() implies #[trigger] s.drop_first()[j].key@
                        != key by {
                    assert(s.drop_first()[j] == s[j + 1]);
                }
            } else {
                let j = choose|j: int| 0 <= j < s.len() && #[trigger] s[j].key@ == key;
                assert(s.drop_first()[j - 1] == s[j]);
                assert(!(find_in(s.drop_first(), key) is None));
            }
        }
    }
}

/// If every entry before position `i` misses `key` and the entry at `i`
/// holds it, the find resolves to that entry.
proof fn lemma_find_at(s: Seq<StoreEntry>, i: int, key: Seq<char>)
    requires
        0 <= i < s.len(),
        s[i].key@ == key,
        forall|j: int| 0 <= j < i ==> #[trigger] s[j].key@ != key,
    ensures
        find_in(s, key) == Some((s[i].value@, s[i].expires_at)),
    decreases i,
{
    if i > 0 {
        assert forall|j: int| 0 <= j < i - 1 implies #[trigger] s.drop_first()[j].key@ != key by {
            assert(s.drop_first()[j] == s[j + 1]);
        }
        assert(s.drop_first()[i - 1] == s[i]);
        lemma_find_at(s.drop_first(), i - 1, key);
    }
}

/// Appending an entry leaves every earlier association in place and binds
/// the new key only where it was absent.
proof fn lemma_find_push(s: Seq<StoreEntry>, e: StoreEntry)
    ensures
        find_in(s.push(e), e.key@) == if find_in(s, e.key@) is Some {
            find_in(s, e.key@)
        } else {
            Some((e.value@, e.expires_at))
        },
        forall|k: Seq<char>| k != e.key@ ==> #[trigger] find_in(s.push(e), k) == find_in(s, k),
    decreases s.len(),
{
    if s.len() == 0 {
        assert(s.push(e)[0] == e);
        assert(s.push(e).drop_first() =~= Seq::<StoreEntry>::empty());
        assert forall|k: Seq<char>| k != e.key@ implies #[trigger] find_in(s.push(e), k)
            == find_in(s, k) by {
            assert(find_in(s.push(e), k) == find_in(Seq::<StoreEntry>::empty(), k));
        }
    } else {
        assert(s.push(e)[0] == s[0]);
        assert(s.push(e).drop_first() =~= s.drop_first().push(e));
        lemma_find_push(s.drop_first(), e);
        assert forall|k: Seq<char>| k != e.key@ implies #[trigger] find_in(s.push(e), k)
            == find_in(s, k) by {
            if s[0].key@ != k {
                assert(find_in(s.push(e), k) == find_in(s.drop_first().push(e), k));
                assert(find_in(s, k) == find_in(s.drop_first(), k));
            }
        }
        if s[0].key@ != e.key@ {
            assert(find_in(s.push(e), e.key@) == find_in(s.drop_first().push(e), e.key@));
        }
    }
}

/// Removing the entry at position `i` leaves every other key's association
/// in place.
proof fn lemma_find_remove(s: Seq<StoreEntry>, i: int)
    requires
        0 <= i < s.len(),
    ensures
        forall|k: Seq<char>|
            k != s[i].key@ ==> #[trigger] find_in(s.remove(i), k) == find_in(s, k),
    decreases i,
{
    if i == 0 {
        assert(s.remove(0) =~= s.drop_first());
    } else {
        lemma_find_remove(s.drop_first(), i - 1);
        assert(s.remove(i)[0] == s[0]);
        assert(s.remove(i).drop_first() =~= s.drop_first().remove(i - 1));
        assert(s.drop_first()[i - 1] == s[i]);
        assert forall|k: Seq<char>| k != s[i].key@ implies #[trigger] find_in(s.remove(i), k)
            == find_in(s, k) by {
            if s[0].key@ != k {
                assert(find_in(s.remove(i), k) == find_in(s.drop_first().remove(i - 1), k));
                assert(find_in(s, k) == find_in(s.drop_first(), k));
            }
        }
    }
}

} // verus!
