//! The credential store: a key-value cache with per-key expiry.
//!
//! It backs token blacklisting (a key per revoked token) and one-time-code
//! storage (a key per email). Presence of a live entry means revoked or
//! pending; absence means nothing, and expiry is silent: an entry whose
//! `expires_at` has passed behaves exactly as an absent one.

use vstd::prelude::*;
use crate::token::Token;

verus! {

/// A key in the credential store.
pub enum CredKey {
    /// Revocation entry, keyed by the raw token it revokes.
    Session(Token),
    /// One-time code, keyed by the email it was sent to.
    OneTimeCode(String),
}

/// The mathematical form of a key: the token itself, or the email's
/// characters.
pub enum CredKeyView {
    Session(Token),
    OneTimeCode(Seq<char>),
}

impl View for CredKey {
    type V = CredKeyView;

    open spec fn view(&self) -> CredKeyView {
        match self {
            CredKey::Session(t) => CredKeyView::Session(*t),
            CredKey::OneTimeCode(e) => CredKeyView::OneTimeCode(e@),
        }
    }
}

impl PartialEq for CredKey {
    fn eq(&self, other: &CredKey) -> (r: bool) {
        match (self, other) {
            (CredKey::Session(a), CredKey::Session(b)) => *a == *b,
            (CredKey::OneTimeCode(a), CredKey::OneTimeCode(b)) => *a == *b,
            _ => false,
        }
    }
}

impl vstd::std_specs::cmp::PartialEqSpecImpl for CredKey {
    open spec fn obeys_eq_spec() -> bool {
        true
    }

    open spec fn eq_spec(&self, other: &CredKey) -> bool {
        self@ == other@
    }
}

/// One stored binding: a key, its value, and the instant it stops existing.
pub struct CredEntry {
    pub key: CredKey,
    pub value: u64,
    pub expires_at: i64,
}

/// The store itself. The view is the map from key views to (value, expiry)
/// pairs; keys are unique.
pub struct CredStore {
    pub entries: Vec<CredEntry>,
}

/// The map a sequence of entries denotes.
pub open spec fn entries_map(s: Seq<CredEntry>) -> Map<CredKeyView, (u64, i64)>
    decreases s.len(),
{
    if s.len() == 0 {
        Map::empty()
    } else {
        entries_map(s.drop_last()).insert(s.last().key@, (s.last().value, s.last().expires_at))
    }
}

impl View for CredStore {
    type V = Map<CredKeyView, (u64, i64)>;

    open spec fn view(&self) -> Map<CredKeyView, (u64, i64)> {
        entries_map(self.entries@)
    }
}

/// A key in a map denoted by a sequence of entries stands for some entry.
proof fn lemma_entries_map_contains(s: Seq<CredEntry>, k: CredKeyView)
    ensures
        entries_map(s).contains_key(k) <==> exists|i: int| 0 <= i < s.len() && s[i].key@ == k,
    decreases s.len(),
{
    if s.len() > 0 {
        lemma_entries_map_contains(s.drop_last(), k);
        if s.last().key@ != k && entries_map(s).contains_key(k) {
            let i = choose|i: int| 0 <= i < s.len() - 1 && s.drop_last()[i].key@ == k;
            assert(s[i].key@ == k);
        }
        if exists|i: int| 0 <= i < s.len() && s[i].key@ == k {
            let i = choose|i: int| 0 <= i < s.len() && s[i].key@ == k;
            if i < s.len() - 1 {
                assert(s.drop_last()[i].key@ == k);
            }
        }
    }
}

/// With unique keys, the map's binding for a key is the entry that carries it.
proof fn lemma_entries_map_get(s: Seq<CredEntry>, i: int)
    requires
        unique_keys(s),
        0 <= i < s.len(),
    ensures
        entries_map(s).contains_key(s[i].key@),
        entries_map(s)[s[i].key@] == (s[i].value, s[i].expires_at),
    decreases s.len(),
{
    lemma_entries_map_contains(s, s[i].key@);
    if i < s.len() - 1 {
        assert(forall|a: int, b: int|
            0 <= a < b < s.len() - 1 ==> s.drop_last()[a].key@ != s.drop_last()[b].key@);
        lemma_entries_map_get(s.drop_last(), i);
        assert(s.last().key@ != s[i].key@);
    }
}

/// No two entries carry the same key.
pub open spec fn unique_keys(s: Seq<CredEntry>) -> bool {
    forall|i: int, j: int| 0 <= i < j < s.len() ==> s[i].key@ != s[j].key@
}

/// Updating the entry that carries a key, keeping the key, denotes an insert.
proof fn lemma_entries_map_update(s: Seq<CredEntry>, i: int, e: CredEntry)
    requires
        unique_keys(s),
        0 <= i < s.len(),
        e.key@ == s[i].key@,
    ensures
        entries_map(s.update(i, e)) == entries_map(s).insert(e.key@, (e.value, e.expires_at)),
    decreases s.len(),
{
    let s2 = s.update(i, e);
    if i == s.len() - 1 {
        assert(s2.drop_last() =~= s.drop_last());
        assert(entries_map(s2) =~= entries_map(s).insert(e.key@, (e.value, e.expires_at)));
    } else {
        assert(s2.drop_last() =~= s.drop_last().update(i, e));
        assert(forall|a: int, b: int|
            0 <= a < b < s.len() - 1 ==> s.drop_last()[a].key@ != s.drop_last()[b].key@);
        lemma_entries_map_update(s.drop_last(), i, e);
        assert(s.last().key@ != e.key@);
        assert(entries_map(s2) =~= entries_map(s).insert(e.key@, (e.value, e.expires_at)));
    }
}

/// Removing the entry that carries a key denotes a map removal.
proof fn lemma_entries_map_remove(s: Seq<CredEntry>, i: int)
    requires
        unique_keys(s),
        0 <= i < s.len(),
    ensures
        entries_map(s.remove(i)) == entries_map(s).remove(s[i].key@),
    decreases s.len(),
{
    let k = s[i].key@;
    let s2 = s.remove(i);
    if i == s.len() - 1 {
        assert(s2 =~= s.drop_last());
        lemma_entries_map_contains(s.drop_last(), k);
        assert(!entries_map(s.drop_last()).contains_key(k));
        assert(entries_map(s2) =~= entries_map(s).remove(k));
    } else {
        assert(s2.drop_last() =~= s.drop_last().remove(i));
        assert(forall|a: int, b: int|
            0 <= a < b < s.len() - 1 ==> s.drop_last()[a].key@ != s.drop_last()[b].key@);
        lemma_entries_map_remove(s.drop_last(), i);
        assert(s.last().key@ != k);
        assert(entries_map(s2) =~= entries_map(s).remove(k));
    }
}

impl CredStore {
    /// Keys are unique, so the view binds each stored key exactly once.
    pub open spec fn well_formed(&self) -> bool {
        unique_keys(self.entries@)
    }

    /// Whether the store holds a binding for `key` that is still live at
    /// `now`: presence = revoked or pending, and expiry is the only removal
    /// the store performs by itself.
    pub open spec fn spec_live(&self, key: CredKeyView, now: i64) -> bool {
        self@.contains_key(key) && self@[key].1 > now
    }

    /// An empty store.
    pub fn new() -> (s: CredStore)
        ensures
            s.well_formed(),
            s@ == Map::<CredKeyView, (u64, i64)>::empty(),
    {
        CredStore { entries: Vec::new() }
    }

    fn find_index(&self, key: &CredKey) -> (r: Option<usize>)
        requires
            self.well_formed(),
        ensures
            match r {
                Some(i) => i < self.entries@.len() && self.entries@[i as int].key@ == key@,
                None => forall|i: int| 0 <= i < self.entries@.len()
                    ==> self.entries@[i].key@ != key@,
            },
    {
        let n = self.entries.len();
        let mut i: usize = 0;
        while i < n
            invariant
                n == self.entries@.len(),
                i <= n,
                forall|j: int| 0 <= j < i ==> self.entries@[j].key@ != key@,
            decreases n - i,
        {
            if self.entries[i].key == *key {
                return Some(i);
            }
            i = i + 1;
        }
        None
    }

    /// Sets `key` to `value` until `now + ttl_seconds`, replacing any earlier
    /// binding. Idempotent under concurrent retries: the outcome is the final
    /// binding regardless of how many times it runs.
    pub fn set(&mut self, key: CredKey, value: u64, ttl_seconds: i64, now: i64)
        requires
            old(self).well_formed(),
            0 <= now,
            0 <= ttl_seconds,
            now + ttl_seconds <= i64::MAX,
        ensures
            final(self).well_formed(),
            final(self)@ == old(self)@.insert(key@, (value, (now + ttl_seconds) as i64)),
    {
        let expires_at = now + ttl_seconds;
        match self.find_index(&key) {
            Some(i) => {
                let ghost s0 = self.entries@;
                let e = CredEntry { key, value, expires_at };
                proof {
                    lemma_entries_map_update(s0, i as int, e);
                }
                self.entries.set(i, e);
                assert(forall|a: int, b: int|
                    0 <= a < b < self.entries@.len()
                        ==> self.entries@[a].key@ != self.entries@[b].key@);
            },
            None => {
                let ghost s0 = self.entries@;
                self.entries.push(CredEntry { key, value, expires_at });
                proof {
                    assert(self.entries@.drop_last() =~= s0);
                }
            },
        }
    }

    /// Removes the binding for `key`, if any.
    pub fn delete(&mut self, key: &CredKey)
        requires
            old(self).well_formed(),
        ensures
            final(self).well_formed(),
            final(self)@ == old(self)@.remove(key@),
    {
        match self.find_index(key) {
            Some(i) => {
                let ghost s0 = self.entries@;
                proof {
                    lemma_entries_map_remove(s0, i as int);
                }
                self.entries.remove(i);
                assert(forall|a: int, b: int|
                    0 <= a < b < self.entries@.len()
                        ==> self.entries@[a].key@ != self.entries@[b].key@);
            },
            None => {
                proof {
                    lemma_entries_map_contains(self.entries@, key@);
                    assert(self@ =~= self@.remove(key@));
                }
            },
        }
    }

    /// The value bound to `key`, if the binding is still live at `now`.
    /// An expired binding answers as an absent one.
    pub fn get_live(&self, key: &CredKey, now: i64) -> (r: Option<u64>)
        requires
            self.well_formed(),
        ensures
            r == if self.spec_live(key@, now) {
                Some(self@[key@].0)
            } else {
                None::<u64>
            },
    {
        match self.find_index(key) {
            Some(i) => {
                proof {
                    lemma_entries_map_get(self.entries@, i as int);
                }
                let e = &self.entries[i];
                if e.expires_at > now {
                    Some(e.value)
                } else {
                    None
                }
            },
            None => {
                proof {
                    lemma_entries_map_contains(self.entries@, key@);
                }
                None
            },
        }
    }

    /// Whether a live binding for `key` exists at `now`.
    pub fn exists_live(&self, key: &CredKey, now: i64) -> (r: bool)
        requires
            self.well_formed(),
        ensures
            r == self.spec_live(key@, now),
    {
        self.get_live(key, now).is_some()
    }
}

} // verus!
