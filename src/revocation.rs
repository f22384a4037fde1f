//! The revocation store: a time-ordered set of revoked tokens.
//!
//! Entries are kept in ascending order of expiry inside a
//! `sorted_vec::SortedVec`. A token is revoked while an entry for it is
//! present; the periodic purge drops the prefix of entries that have
//! expired.

use crate::claims::TokenClaims;
use sorted_vec::SortedVec;
use vstd::prelude::*;

verus! {

/// One revoked token and the instant (seconds since the epoch) at which it
/// expires naturally.
pub type EntryModel = (u64, Seq<char>);

#[verifier::external_type_specification]
#[verifier::external_body]
#[verifier::reject_recursive_types(T)]
pub struct ExSortedVec<T: Ord>(SortedVec<T>);

/// What a sorted vector of revocation entries holds, in its order.
pub uninterp spec fn sorted_entries(v: SortedVec<(u64, String)>) -> Seq<EntryModel>;

/// Entries are in non-decreasing order of expiry.
pub open spec fn expiry_sorted(s: Seq<EntryModel>) -> bool {
    forall|i: int, j: int| 0 <= i <= j < s.len() ==> s[i].0 <= s[j].0
}

/// Relies on `SortedVec::new`: the new vector is empty.
#[verifier::external_body]
fn sorted_new() -> (r: SortedVec<(u64, String)>)
    ensures
        sorted_entries(r) == Seq::<EntryModel>::empty(),
{
    SortedVec::new()
}

/// Relies on `SortedVec::insert`: the element is placed at the position
/// that a binary search finds, so the vector stays sorted (tuples order by
/// expiry first).
#[verifier::external_body]
fn sorted_insert(v: &mut SortedVec<(u64, String)>, e: (u64, String))
    ensures
        exists|i: int|
            0 <= i <= sorted_entries(*old(v)).len() && sorted_entries(*final(v))
                == sorted_entries(*old(v)).insert(i, (e.0, e.1@)),
        expiry_sorted(sorted_entries(*old(v))) ==> expiry_sorted(sorted_entries(*final(v))),
{
    v.insert(e);
}

/// Relies on `Vec::len` through `SortedVec`'s `Deref`.
#[verifier::external_body]
fn sorted_len(v: &SortedVec<(u64, String)>) -> (r: usize)
    ensures
        r == sorted_entries(*v).len(),
{
    v.len()
}

/// Relies on indexing the `Vec` that `SortedVec` dereferences to.
#[verifier::external_body]
fn sorted_get(v: &SortedVec<(u64, String)>, i: usize) -> (r: &(u64, String))
    requires
        i < sorted_entries(*v).len(),
    ensures
        (r.0, r.1@) == sorted_entries(*v)[i as int],
{
    &v[i]
}

/// Relies on `SortedVec::remove_index`, which removes through `Vec::remove`.
#[verifier::external_body]
fn sorted_remove_index(v: &mut SortedVec<(u64, String)>, i: usize)
    requires
        i < sorted_entries(*old(v)).len(),
    ensures
        sorted_entries(*final(v)) == sorted_entries(*old(v)).remove(i as int),
{
    v.remove_index(i);
}

/// Relies on `SortedVec::clear`: the vector is left empty.
#[verifier::external_body]
fn sorted_clear(v: &mut SortedVec<(u64, String)>)
    ensures
        sorted_entries(*final(v)) == Seq::<EntryModel>::empty(),
{
    v.clear();
}

/// Whether some entry of `s` holds the token `t`.
pub open spec fn holds_token(s: Seq<EntryModel>, t: Seq<char>) -> bool {
    exists|i: int| 0 <= i < s.len() && s[i].1 == t
}

/// The number of leading entries of `s` that expired strictly before `now`.
pub open spec fn expired_prefix(s: Seq<EntryModel>, now: u64) -> nat
    decreases s.len(),
{
    if s.len() > 0 && s[0].0 < now {
        1 + expired_prefix(s.drop_first(), now)
    } else {
        0
    }
}

/// What the store holds after a purge at `now`.
pub open spec fn purged(s: Seq<EntryModel>, now: u64) -> Seq<EntryModel> {
    s.skip(expired_prefix(s, now) as int)
}

/// A revoked token and its natural expiry, in seconds since the epoch.
/// Entries order by expiry alone, and compare equal when their expiries do.
pub struct JwtData {
    pub expires: u64,
    pub token: String,
}

impl JwtData {
    pub fn new(expires: u64, token: String) -> (r: JwtData)
        ensures
            r.expires == expires,
            r.token@ == token@,
    {
        JwtData { expires, token }
    }

    /// The entry that revokes `token`, whose claims are `claims`, until the
    /// token expires.
    pub fn new_from_claims<T>(claims: TokenClaims<T>, token: String) -> (r: JwtData)
        ensures
            r.expires == claims.expires_at,
            r.token@ == token@,
    {
        JwtData { expires: claims.expires_at, token }
    }
}

impl PartialEq for JwtData {
    fn eq(&self, other: &JwtData) -> (r: bool) {
        self.expires == other.expires
    }
}

impl vstd::std_specs::cmp::PartialEqSpecImpl for JwtData {
    open spec fn obeys_eq_spec() -> bool {
        true
    }

    open spec fn eq_spec(&self, other: &JwtData) -> bool {
        self.expires == other.expires
    }
}

/// The store of revoked tokens.
pub struct RevocationStore {
    entries: SortedVec<(u64, String)>,
}

impl View for RevocationStore {
    type V = Seq<EntryModel>;

    closed spec fn view(&self) -> Seq<EntryModel> {
        sorted_entries(self.entries)
    }
}

impl RevocationStore {
    /// The store keeps its entries in order of expiry. Every store is
    /// built by [`RevocationStore::new`] and changed only by methods that
    /// keep this.
    pub open spec fn wf(&self) -> bool {
        expiry_sorted(self@)
    }

    /// An empty store.
    pub fn new() -> (r: RevocationStore)
        ensures
            r@ == Seq::<EntryModel>::empty(),
            r.wf(),
    {
        RevocationStore { entries: sorted_new() }
    }

    /// The number of entries held.
    pub fn len(&self) -> (r: usize)
        ensures
            r == self@.len(),
    {
        sorted_len(&self.entries)
    }

    /// Revokes `token` until `expires`. Inserting a token that is already
    /// held adds a second entry and is otherwise harmless.
    pub fn insert(&mut self, expires: u64, token: String)
        requires
            old(self).wf(),
        ensures
            final(self).wf(),
            exists|i: int|
                0 <= i <= old(self)@.len() && final(self)@ == old(self)@.insert(
                    i,
                    (expires, token@),
                ),
            holds_token(final(self)@, token@),
    {
        let ghost t = token@;
        sorted_insert(&mut self.entries, (expires, token));
        proof {
            let i = choose|i: int|
                0 <= i <= old(self)@.len() && self@ == old(self)@.insert(i, (expires, t));
            lemma_revoke_holds(old(self)@, t, expires, i);
        }
    }

    /// Whether an entry for `token` is held, by a scan over all entries.
    pub fn contains(&self, token: &String) -> (r: bool)
        ensures
            r == holds_token(self@, token@),
    {
        let n = sorted_len(&self.entries);
        let mut i: usize = 0;
        while i < n
            invariant
                n == self@.len(),
                i <= n,
                forall|j: int| 0 <= j < i ==> self@[j].1 != token@,
            decreases n - i,
        {
            let e = sorted_get(&self.entries, i);
            if e.1 == *token {
                return true;
            }
            i = i + 1;
        }
        false
    }

    /// Drops every entry that expired strictly before `now`. The entries are
    /// in order of expiry, so these form a prefix: the scan counts it, stops
    /// at the first live entry, and removes that many from the front.
    pub fn purge_expired(&mut self, now: u64)
        requires
            old(self).wf(),
        ensures
            final(self).wf(),
            final(self)@ == purged(old(self)@, now),
    {
        let ghost s0 = self@;
        let n = sorted_len(&self.entries);
        let mut count: usize = 0;
        assert(s0.skip(0) =~= s0);
        while count < n
            invariant
                n == s0.len(),
                self@ == s0,
                count <= n,
                expired_prefix(s0, now) == count + expired_prefix(s0.skip(count as int), now),
            ensures
                count == n || s0[count as int].0 >= now,
                count <= n,
                expired_prefix(s0, now) == count + expired_prefix(s0.skip(count as int), now),
            decreases n - count,
        {
            let e = sorted_get(&self.entries, count);
            if e.0 < now {
                proof {
                    let rest = s0.skip(count as int);
                    assert(rest.drop_first() =~= s0.skip(count + 1));
                }
                count = count + 1;
            } else {
                break;
            }
        }
        proof {
            let rest = s0.skip(count as int);
            if count < n {
                assert(rest[0] == s0[count as int]);
            } else {
                assert(rest.len() == 0);
            }
            assert(expired_prefix(rest, now) == 0);
            assert(expired_prefix(s0, now) == count);
        }
        let mut removed: usize = 0;
        while removed < count
            invariant
                removed <= count,
                count <= s0.len(),
                self@ == s0.skip(removed as int),
            decreases count - removed,
        {
            sorted_remove_index(&mut self.entries, 0);
            assert(self@ =~= s0.skip(removed + 1));
            removed = removed + 1;
        }
        assert(expiry_sorted(self@));
    }

    /// Forgets every revocation, leaving the store empty.
    pub fn clear(&mut self)
        ensures
            final(self)@ == Seq::<EntryModel>::empty(),
            final(self).wf(),
    {
        sorted_clear(&mut self.entries);
    }
}

proof fn lemma_purged_live(s: Seq<EntryModel>, now: u64)
    requires
        expiry_sorted(s),
    ensures
        expired_prefix(s, now) <= s.len(),
        forall|j: int| 0 <= j < purged(s, now).len() ==> purged(s, now)[j].0 >= now,
    decreases s.len(),
{
    if s.len() > 0 && s[0].0 < now {
        let t = s.drop_first();
        assert(expiry_sorted(t));
        lemma_purged_live(t, now);
        assert(purged(s, now) =~= purged(t, now));
    } else {
        assert(purged(s, now) =~= s);
    }
}

/// A purge at any instant after a token's expiry evicts it: once every
/// entry for `token` expires at `t0`, a purge at `now > t0` leaves no entry
/// for it.
pub proof fn lemma_purge_evicts(s: Seq<EntryModel>, token: Seq<char>, t0: u64, now: u64)
    requires
        expiry_sorted(s),
        forall|i: int| 0 <= i < s.len() && s[i].1 == token ==> s[i].0 == t0,
        t0 < now,
    ensures
        !holds_token(purged(s, now), token),
{
    lemma_purged_live(s, now);
    let p = purged(s, now);
    let k = expired_prefix(s, now) as int;
    assert forall|j: int| 0 <= j < p.len() implies p[j].1 != token by {
        assert(p[j] == s[j + k]);
    }
}

/// Revoking a token twice leaves it revoked; the second entry is a
/// harmless duplicate.
pub proof fn lemma_revoke_twice(s: Seq<EntryModel>, token: Seq<char>, e1: u64, e2: u64, i: int, j: int)
    requires
        0 <= i <= s.len(),
        0 <= j <= s.len() + 1,
    ensures
        holds_token(s.insert(i, (e1, token)).insert(j, (e2, token)), token),
{
    let s2 = s.insert(i, (e1, token)).insert(j, (e2, token));
    assert(s2[j] == (e2, token));
}

/// Revoking a token makes it revoked.
pub proof fn lemma_revoke_holds(s: Seq<EntryModel>, token: Seq<char>, expires: u64, i: int)
    requires
        0 <= i <= s.len(),
    ensures
        holds_token(s.insert(i, (expires, token)), token),
{
    assert(s.insert(i, (expires, token))[i] == (expires, token));
}

} // verus!
