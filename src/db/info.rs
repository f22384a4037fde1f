//! Free-form key/value information attached to contacts.

use std::collections::HashMap;
use vstd::prelude::*;

verus! {

/// One value under one key of one contact.
pub struct InfoFragment {
    pub key: String,
    pub value: String,
    pub contact_id: i64,
}

impl InfoFragment {
    pub fn new(other_key: String, value: String, contact: i64) -> (r: InfoFragment)
        ensures
            r.key@ == other_key@,
            r.value@ == value@,
            r.contact_id == contact,
    {
        InfoFragment { key: other_key, value, contact_id: contact }
    }
}

/// All values under one key of one contact.
pub struct InfoSection {
    pub name: String,
    pub contact: i64,
}

/// A record that belongs to one contact.
pub trait ForContact {
    spec fn contact_of(&self) -> i64;

    fn contact_id(&self) -> (r: i64)
        ensures
            r == self.contact_of(),
    ;
}

impl ForContact for InfoFragment {
    open spec fn contact_of(&self) -> i64 {
        self.contact_id
    }

    fn contact_id(&self) -> (r: i64) {
        self.contact_id
    }
}

impl ForContact for InfoSection {
    open spec fn contact_of(&self) -> i64 {
        self.contact
    }

    fn contact_id(&self) -> (r: i64) {
        self.contact
    }
}

/// Records whose contacts the acting user has been found to hold.
pub struct Jurisdiction<V: ForContact>(Vec<V>);

/// Whether some record of `items` belongs to the contact `c`.
pub open spec fn covers<V: ForContact>(items: Seq<V>, c: i64) -> bool {
    exists|i: int| 0 <= i < items.len() && items[i].contact_of() == c
}

impl<V: ForContact> View for Jurisdiction<V> {
    type V = Seq<V>;

    closed spec fn view(&self) -> Seq<V> {
        self.0@
    }
}

impl<V: ForContact> Jurisdiction<V> {
    /// The contacts whose relation to the acting user must be checked
    /// before `items` form a jurisdiction: each contact that a record
    /// belongs to, once, in order of first appearance.
    pub fn contacts(items: &Vec<V>) -> (r: Vec<i64>)
        ensures
            r@.no_duplicates(),
            forall|c: i64| r@.contains(c) <==> covers(items@, c),
    {
        let mut out: Vec<i64> = Vec::new();
        let mut i: usize = 0;
        while i < items.len()
            invariant
                i <= items@.len(),
                out@.no_duplicates(),
                forall|c: i64| out@.contains(c) <==> covers(items@.take(i as int), c),
            decreases items.len() - i,
        {
            let c = items[i].contact_id();
            let mut k: usize = 0;
            let mut seen = false;
            while k < out.len()
                invariant
                    k <= out@.len(),
                    seen <==> exists|m: int| 0 <= m < k && out@[m] == c,
                decreases out.len() - k,
            {
                if out[k] == c {
                    seen = true;
                }
                k = k + 1;
            }
            proof {
                let before = items@.take(i as int);
                let after = items@.take(i + 1);
                assert(after =~= before.push(items@[i as int]));
                assert forall|d: i64| covers(after, d) <==> (covers(before, d) || d == c) by {
                    if covers(after, d) {
                        let j = choose|j: int| 0 <= j < after.len() && after[j].contact_of() == d;
                        if j < i {
                            assert(before[j] == after[j]);
                        }
                    }
                    if covers(before, d) {
                        let j = choose|j: int| 0 <= j < before.len() && before[j].contact_of() == d;
                        assert(after[j] == before[j]);
                    }
                    if d == c {
                        assert(after[i as int] == items@[i as int]);
                    }
                }
            }
            let ghost prev = out@;
            if !seen {
                out.push(c);
            }
            proof {
                assert(seen <==> prev.contains(c));
                assert forall|d: i64| out@.contains(d) <==> (prev.contains(d) || d == c) by {
                    if prev.contains(d) {
                        let m = choose|m: int| 0 <= m < prev.len() && prev[m] == d;
                        assert(out@[m] == d);
                    }
                    if !seen && d == c {
                        assert(out@[prev.len() as int] == c);
                    }
                    if out@.contains(d) && !seen {
                        let m = choose|m: int| 0 <= m < out@.len() && out@[m] == d;
                        if m < prev.len() {
                            assert(prev[m] == d);
                        }
                    }
                }
                let after = items@.take(i + 1);
                let before = items@.take(i as int);
                assert forall|d: i64| out@.contains(d) <==> covers(after, d) by {
                    assert(out@.contains(d) <==> (prev.contains(d) || d == c));
                    assert(prev.contains(d) <==> covers(before, d));
                    assert(covers(after, d) <==> (covers(before, d) || d == c));
                }
                if !seen {
                    assert forall|x: int, y: int| 0 <= x < y < out@.len() implies out@[x] != out@[y] by {
                        if y == prev.len() {
                            assert(prev[x] == out@[x]);
                        }
                    }
                }
            }
            i = i + 1;
        }
        assert(items@.take(items@.len() as int) =~= items@);
        out
    }

    /// The jurisdiction over `items`, once the relation of the acting user
    /// to each of [`Jurisdiction::contacts`] has been found.
    pub fn new(items: Vec<V>) -> (r: Jurisdiction<V>)
        ensures
            r@ == items@,
    {
        Jurisdiction(items)
    }

    /// The records of the jurisdiction.
    pub fn items(&self) -> (r: &Vec<V>)
        ensures
            r@ == self@,
    {
        &self.0
    }
}

/// Information by key: each key with its values.
pub type BareInfo = HashMap<String, Vec<String>>;

/// The values under the key `k` in `frags`, in order.
pub open spec fn values_under(frags: Seq<InfoFragment>, k: Seq<char>) -> Seq<Seq<char>>
    decreases frags.len(),
{
    if frags.len() == 0 {
        Seq::empty()
    } else {
        let rest = values_under(frags.drop_last(), k);
        if frags.last().key@ == k {
            rest.push(frags.last().value@)
        } else {
            rest
        }
    }
}

/// Whether some fragment of `frags` is under the key `k`.
pub open spec fn has_key(frags: Seq<InfoFragment>, k: Seq<char>) -> bool {
    exists|i: int| 0 <= i < frags.len() && frags[i].key@ == k
}

/// The values of a group, as sequences of characters.
pub open spec fn group_view(values: Vec<String>) -> Seq<Seq<char>> {
    values@.map_values(|v: String| v@)
}

proof fn lemma_no_key_no_values(frags: Seq<InfoFragment>, k: Seq<char>)
    requires
        !has_key(frags, k),
    ensures
        values_under(frags, k) == Seq::<Seq<char>>::empty(),
    decreases frags.len(),
{
    if frags.len() > 0 {
        let init = frags.drop_last();
        assert(!has_key(init, k)) by {
            if has_key(init, k) {
                let i = choose|i: int| 0 <= i < init.len() && init[i].key@ == k;
                assert(frags[i] == init[i]);
            }
        }
        lemma_no_key_no_values(init, k);
        assert(frags[frags.len() - 1] == frags.last());
    }
}

/// Groups fragments by key: each key that some fragment has, once, in
/// order of first appearance, with all the values under it in order.
pub fn group_by_key(frags: &Vec<InfoFragment>) -> (r: Vec<(String, Vec<String>)>)
    ensures
        forall|a: int, b: int| 0 <= a < b < r@.len() ==> r@[a].0@ != r@[b].0@,
        forall|j: int| 0 <= j < r@.len() ==> group_view(r@[j].1) == values_under(frags@, r@[j].0@),
        forall|k: Seq<char>| has_key(frags@, k) <==> exists|j: int| 0 <= j < r@.len() && r@[j].0@ == k,
{
    let mut out: Vec<(String, Vec<String>)> = Vec::new();
    let mut i: usize = 0;
    while i < frags.len()
        invariant
            i <= frags@.len(),
            forall|a: int, b: int| 0 <= a < b < out@.len() ==> out@[a].0@ != out@[b].0@,
            forall|j: int|
                0 <= j < out@.len() ==> group_view(out@[j].1) == values_under(
                    frags@.take(i as int),
                    out@[j].0@,
                ),
            forall|k: Seq<char>|
                has_key(frags@.take(i as int), k) <==> exists|j: int|
                    0 <= j < out@.len() && out@[j].0@ == k,
        decreases frags.len() - i,
    {
        let key = frags[i].key.clone();
        let value = frags[i].value.clone();
        let ghost before = frags@.take(i as int);
        let ghost after = frags@.take(i + 1);
        proof {
            assert(after.drop_last() =~= before);
            assert(after.last() == frags@[i as int]);
            assert forall|k: Seq<char>| has_key(after, k) <==> (has_key(before, k) || k == key@) by {
                if has_key(after, k) {
                    let x = choose|x: int| 0 <= x < after.len() && after[x].key@ == k;
                    if x < i {
                        assert(before[x] == after[x]);
                    }
                }
                if has_key(before, k) {
                    let x = choose|x: int| 0 <= x < before.len() && before[x].key@ == k;
                    assert(after[x] == before[x]);
                }
                if k == key@ {
                    assert(after[i as int] == frags@[i as int]);
                }
            }
        }
        let mut j: usize = 0;
        let mut found = false;
        while j < out.len()
            invariant
                j <= out@.len(),
                !found ==> forall|m: int| 0 <= m < j ==> out@[m].0@ != key@,
                found ==> j < out@.len() && out@[j as int].0@ == key@,
            ensures
                found ==> j < out@.len() && out@[j as int].0@ == key@,
                !found ==> forall|m: int| 0 <= m < out@.len() ==> out@[m].0@ != key@,
            decreases out.len() - j,
        {
            if out[j].0 == key {
                found = true;
                break;
            }
            j = j + 1;
        }
        let ghost prev = out@;
        if found {
            let (k, mut g) = out.remove(j);
            g.push(value);
            out.insert(j, (k, g));
            proof {
                assert forall|m: int| 0 <= m < out@.len() implies group_view(out@[m].1)
                    == values_under(after, out@[m].0@) by {
                    if m == j {
                        assert(group_view(out@[m].1) =~= group_view(prev[m].1).push(value@));
                    } else {
                        assert(out@[m] == prev[m]);
                    }
                }
                assert forall|k: Seq<char>| has_key(after, k) <==> exists|x: int|
                    0 <= x < out@.len() && out@[x].0@ == k by {
                    if has_key(after, k) && k != key@ {
                        let x = choose|x: int| 0 <= x < prev.len() && prev[x].0@ == k;
                        assert(out@[x] == prev[x]);
                    }
                    if k == key@ {
                        assert(out@[j as int].0@ == key@);
                    }
                    if exists|x: int| 0 <= x < out@.len() && out@[x].0@ == k {
                        let x = choose|x: int| 0 <= x < out@.len() && out@[x].0@ == k;
                        assert(out@[x].0@ == prev[x].0@);
                    }
                }
                assert forall|a: int, b: int| 0 <= a < b < out@.len() implies out@[a].0@
                    != out@[b].0@ by {
                    assert(out@[a].0@ == prev[a].0@);
                    assert(out@[b].0@ == prev[b].0@);
                }
            }
        } else {
            proof {
                assert(!has_key(before, key@));
                lemma_no_key_no_values(before, key@);
            }
            let mut g: Vec<String> = Vec::new();
            g.push(value);
            out.push((key, g));
            proof {
                assert forall|m: int| 0 <= m < out@.len() implies group_view(out@[m].1)
                    == values_under(after, out@[m].0@) by {
                    if m == prev.len() {
                        assert(group_view(out@[m].1) =~= seq![value@]);
                        assert(values_under(before, key@).push(value@) =~= seq![value@]);
                    } else {
                        assert(out@[m] == prev[m]);
                    }
                }
                assert forall|k: Seq<char>| has_key(after, k) <==> exists|x: int|
                    0 <= x < out@.len() && out@[x].0@ == k by {
                    if has_key(after, k) && k != key@ {
                        let x = choose|x: int| 0 <= x < prev.len() && prev[x].0@ == k;
                        assert(out@[x] == prev[x]);
                    }
                    if k == key@ {
                        assert(out@[prev.len() as int].0@ == key@);
                    }
                    if exists|x: int| 0 <= x < out@.len() && out@[x].0@ == k {
                        let x = choose|x: int| 0 <= x < out@.len() && out@[x].0@ == k;
                        if x < prev.len() {
                            assert(out@[x] == prev[x]);
                        }
                    }
                }
                assert forall|a: int, b: int| 0 <= a < b < out@.len() implies out@[a].0@
                    != out@[b].0@ by {
                    if b < prev.len() {
                        assert(out@[a] == prev[a]);
                        assert(out@[b] == prev[b]);
                    } else {
                        assert(out@[a] == prev[a]);
                    }
                }
            }
        }
        i = i + 1;
    }
    assert(frags@.take(frags@.len() as int) =~= frags@);
    out
}

/// All the information of one contact.
pub struct Info {
    pub contact_id: i64,
    pub info: BareInfo,
}

} // verus!
