//! Key-value storage surface.
//!
//! The native SDK keeps a process-wide persistent string store.  This
//! module gives the binding's storage surface a verified in-memory
//! store with the same shape: `set`, `get`, `remove` and `clear`, each
//! validating its text before touching the entries and reporting
//! absence as an optional result rather than an error.  Its view is the
//! map of the entries it holds, so every operation's effect is stated
//! exactly.

use vstd::prelude::*;
use vstd::map::*;
use vstd::string::StringExecFns;

use crate::LumiError;
use crate::text::contains_nul;
use crate::text::has_interior_nul;

verus! {

/// A key-value string store.  Keys are unique; a key is present exactly
/// when some entry holds it.
pub struct Store {
    entries: Vec<(String, String)>,
}

impl View for Store {
    type V = Map<Seq<char>, Seq<char>>;

    closed spec fn view(&self) -> Map<Seq<char>, Seq<char>> {
        Map::new(
            |k: Seq<char>| self.has_key(k),
            |k: Seq<char>| self.value_for(k),
        )
    }
}

impl Store {
    /// Some entry holds the key `k`.
    spec fn has_key(&self, k: Seq<char>) -> bool {
        exists|i: int| 0 <= i < self.entries@.len() && self.entries@[i].0@ == k
    }

    /// The value of the entry that holds `k` (meaningful only when the
    /// keys are unique and some entry holds `k`).
    spec fn value_for(&self, k: Seq<char>) -> Seq<char> {
        let i = choose|i: int| 0 <= i < self.entries@.len() && self.entries@[i].0@ == k;
        self.entries@[i].1@
    }

    /// Well-formedness: no two entries hold the same key.
    pub closed spec fn wf(&self) -> bool {
        forall|i: int, j: int|
            #![trigger self.entries@[i], self.entries@[j]]
            0 <= i < self.entries@.len() && 0 <= j < self.entries@.len() && i != j
                ==> self.entries@[i].0@ != self.entries@[j].0@
    }

    /// The entry at a valid index is visible in the view, with its value.
    proof fn lemma_entry_in_view(&self, i: int)
        requires
            self.wf(),
            0 <= i < self.entries@.len(),
        ensures
            self@.contains_key(self.entries@[i].0@),
            self@[self.entries@[i].0@] == self.entries@[i].1@,
    {
        let k = self.entries@[i].0@;
        assert(self.has_key(k));
        let j = choose|j: int| 0 <= j < self.entries@.len() && self.entries@[j].0@ == k;
        assert(j == i);
    }

    /// Builds an empty store.
    pub fn new() -> (s: Store)
        ensures
            s.wf(),
            s@ == Map::<Seq<char>, Seq<char>>::empty(),
    {
        let s = Store { entries: Vec::new() };
        proof {
            assert(s@ =~= Map::<Seq<char>, Seq<char>>::empty());
        }
        s
    }

    /// Looks a key up.  A key that cannot cross the native boundary is
    /// reported as absent without consulting the entries, as the native
    /// store could never have received it; otherwise the result is the
    /// stored value exactly when the key is present.
    pub fn get(&self, key: &str) -> (r: Option<String>)
        requires
            self.wf(),
        ensures
            has_interior_nul(key@) ==> r is None,
            !has_interior_nul(key@) ==> match r {
                Some(v) => self@.contains_key(key@) && v@ == self@[key@],
                None => !self@.contains_key(key@),
            },
    {
        if contains_nul(key) {
            return None;
        }
        let key_string = String::from_str(key);
        let n = self.entries.len();
        let mut i: usize = 0;
        while i < n
            invariant
                self.wf(),
                n == self.entries@.len(),
                i <= n,
                key_string@ == key@,
                !has_interior_nul(key@),
                forall|j: int|
                    #![trigger self.entries@[j]]
                    0 <= j < i ==> self.entries@[j].0@ != key@,
            decreases n - i,
        {
            if self.entries[i].0 == key_string {
                let v = self.entries[i].1.clone();
                proof {
                    self.lemma_entry_in_view(i as int);
                }
                return Some(v);
            }
            i += 1;
        }
        proof {
            assert(!self.has_key(key@));
        }
        None
    }

    /// Drops the entry holding `key`, if any.
    fn delete_key(&mut self, key: &String)
        requires
            old(self).wf(),
        ensures
            final(self).wf(),
            final(self)@ == old(self)@.remove(key@),
    {
        let n = self.entries.len();
        let mut i: usize = 0;
        while i < n
            invariant
                self.entries@ == old(self).entries@,
                old(self).wf(),
                n == self.entries@.len(),
                i <= n,
                forall|j: int|
                    #![trigger self.entries@[j]]
                    0 <= j < i ==> self.entries@[j].0@ != key@,
            decreases n - i,
        {
            if self.entries[i].0 == *key {
                self.entries.remove(i);
                proof {
                    let s_old = old(self).entries@;
                    let s_new = self.entries@;
                    let at = i as int;
                    s_old.remove_ensures(at);
                    assert(forall|j: int|
                        0 <= j < s_new.len() ==> #[trigger] s_new[j] == (if j < at {
                            s_old[j]
                        } else {
                            s_old[j + 1]
                        }));
                    assert(self.wf());
                    assert forall|k: Seq<char>| self@.contains_key(k) implies old(
                        self,
                    )@.remove(key@).contains_key(k) && self@[k] == old(self)@[k] by {
                        let j = choose|j: int|
                            0 <= j < s_new.len() && #[trigger] s_new[j].0@ == k;
                        let jo: int = if j < at {
                            j
                        } else {
                            j + 1
                        };
                        assert(s_old[jo].0@ == k);
                        assert(k != key@);
                        self.lemma_entry_in_view(j);
                        old(self).lemma_entry_in_view(jo);
                    }
                    assert forall|k: Seq<char>|
                        old(self)@.contains_key(k) && k != key@ implies self@.contains_key(k) by {
                        let jo = choose|jo: int|
                            0 <= jo < s_old.len() && #[trigger] s_old[jo].0@ == k;
                        let j: int = if jo < at {
                            jo
                        } else {
                            jo - 1
                        };
                        assert(s_new[j].0@ == k);
                    }
                    assert(self@ =~= old(self)@.remove(key@));
                }
                return;
            }
            i += 1;
        }
        proof {
            assert(!old(self).has_key(key@));
            assert(self@ =~= old(self)@.remove(key@));
        }
    }

    /// Writes `value` under `key`.  Text that cannot cross the native
    /// boundary is rejected locally with `InvalidArgument` and the
    /// entries stay as they were; otherwise the key now maps to the
    /// value, replacing any earlier entry.
    pub fn set(&mut self, key: &str, value: &str) -> (r: Result<(), LumiError>)
        requires
            old(self).wf(),
        ensures
            final(self).wf(),
            has_interior_nul(key@) || has_interior_nul(value@) ==> r == Err::<
                (),
                LumiError,
            >(LumiError::InvalidArgument) && final(self)@ == old(self)@,
            !(has_interior_nul(key@) || has_interior_nul(value@)) ==> r == Ok::<
                (),
                LumiError,
            >(()) && final(self)@ == old(self)@.insert(key@, value@),
    {
        if contains_nul(key) || contains_nul(value) {
            return Err(LumiError::InvalidArgument);
        }
        let key_string = String::from_str(key);
        self.delete_key(&key_string);
        let ghost mid = *self;
        self.entries.push((key_string, String::from_str(value)));
        proof {
            let s_mid = mid.entries@;
            let s_new = self.entries@;
            let last = s_mid.len() as int;
            assert(s_new[last].0@ == key@ && s_new[last].1@ == value@);
            assert forall|j: int| 0 <= j < last implies #[trigger] s_new[j].0@ != key@ by {
                if s_mid[j].0@ == key@ {
                    assert(mid.has_key(key@));
                    assert(mid@.contains_key(key@));
                }
            }
            assert(self.wf());
            assert forall|k: Seq<char>| self@.contains_key(k) && k != key@ implies mid@.contains_key(
                k,
            ) && self@[k] == mid@[k] by {
                let j = choose|j: int| 0 <= j < s_new.len() && #[trigger] s_new[j].0@ == k;
                assert(s_mid[j].0@ == k);
                self.lemma_entry_in_view(j);
                mid.lemma_entry_in_view(j);
            }
            assert forall|k: Seq<char>| mid@.contains_key(k) implies self@.contains_key(k) by {
                let j = choose|j: int| 0 <= j < s_mid.len() && #[trigger] s_mid[j].0@ == k;
                assert(s_new[j].0@ == k);
            }
            self.lemma_entry_in_view(last);
            assert_maps_equal!(self@, old(self)@.insert(key@, value@), k => {
                if k == key@ {
                    assert(self@.contains_key(key@));
                    assert(self@[key@] == value@);
                } else {
                    assert(mid@.contains_key(k) == old(self)@.contains_key(k));
                    if self@.contains_key(k) {
                        assert(mid@.contains_key(k));
                        assert(self@[k] == mid@[k]);
                        assert(mid@[k] == old(self)@[k]);
                    }
                    if mid@.contains_key(k) {
                        assert(self@.contains_key(k));
                    }
                }
            });
        }
        Ok(())
    }

    /// Drops `key` and whatever it mapped to.  Text that cannot cross
    /// the native boundary is rejected locally with `InvalidArgument`;
    /// otherwise the key is absent afterwards, whether or not it was
    /// present before.
    pub fn remove(&mut self, key: &str) -> (r: Result<(), LumiError>)
        requires
            old(self).wf(),
        ensures
            final(self).wf(),
            has_interior_nul(key@) ==> r == Err::<(), LumiError>(LumiError::InvalidArgument)
                && final(self)@ == old(self)@,
            !has_interior_nul(key@) ==> r == Ok::<(), LumiError>(()) && final(self)@ == old(
                self,
            )@.remove(key@),
    {
        if contains_nul(key) {
            return Err(LumiError::InvalidArgument);
        }
        let key_string = String::from_str(key);
        self.delete_key(&key_string);
        Ok(())
    }

    /// Empties the store: every key reads as absent afterwards.
    pub fn clear(&mut self) -> (r: Result<(), LumiError>)
        ensures
            final(self).wf(),
            final(self)@ == Map::<Seq<char>, Seq<char>>::empty(),
            r == Ok::<(), LumiError>(()),
    {
        self.entries.clear();
        proof {
            assert(self@ =~= Map::<Seq<char>, Seq<char>>::empty());
        }
        Ok(())
    }
}

/// After a successful `set` of `key` to `value`, whose effect on the
/// store's view is `m.insert(key, value)`, a `get` of the same key
/// finds it and returns exactly the value just written.
pub proof fn lemma_set_then_get(m: Map<Seq<char>, Seq<char>>, key: Seq<char>, value: Seq<char>)
    ensures
        m.insert(key, value).contains_key(key),
        m.insert(key, value)[key] == value,
{
}

/// After a successful `remove` of `key`, whose effect on the store's
/// view is `m.remove(key)`, a `get` of the same key reports absence.
pub proof fn lemma_remove_then_get(m: Map<Seq<char>, Seq<char>>, key: Seq<char>)
    ensures
        !m.remove(key).contains_key(key),
{
}

/// After `clear`, whose effect leaves the empty view, a `get` of any
/// key at all, previously set or not, reports absence.
pub proof fn lemma_clear_then_get(key: Seq<char>)
    ensures
        !Map::<Seq<char>, Seq<char>>::empty().contains_key(key),
{
}

} // verus!
