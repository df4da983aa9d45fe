//! The field catalog: tag-ascending table of tag numbers and case-normalized
//! field names, with the fail-fast checks on duplicate tag numbers and
//! colliding symbolic names.

use vstd::prelude::*;

use crate::casing::upper_camel_of;
use crate::dictionary::Field;

verus! {

/// One catalog row: a field's tag number and its symbolic name.
#[derive(Debug)]
pub struct CatalogEntry {
    pub number: u16,
    pub name: String,
}

/// Whether two fields share one tag number.
pub open spec fn spec_has_dup_number(s: Seq<Field>) -> bool {
    exists|j: int, k: int|
        #![trigger s[j].number, s[k].number]
        0 <= j < k < s.len() && s[j].number == s[k].number
}

/// Whether two field names normalize to the same symbolic name.
pub open spec fn spec_has_dup_symbol(s: Seq<Field>) -> bool {
    exists|j: int, k: int|
        #![trigger upper_camel_of(s[j].name@), upper_camel_of(s[k].name@)]
        0 <= j < k < s.len() && upper_camel_of(s[j].name@) == upper_camel_of(s[k].name@)
}

/// Reports whether two fields share one tag number.
pub(crate) fn has_dup_number(fields: &Vec<Field>) -> (r: bool)
    ensures
        r == spec_has_dup_number(fields@),
{
    let n = fields.len();
    let mut j: usize = 0;
    while j < n
        invariant
            n == fields@.len(),
            j <= n,
            forall|a: int, b: int|
                #![trigger fields@[a].number, fields@[b].number]
                0 <= a < b < n && a < j ==> fields@[a].number != fields@[b].number,
        decreases n - j,
    {
        let mut k: usize = j + 1;
        while k < n
            invariant
                n == fields@.len(),
                j < n,
                j < k <= n,
                forall|b: int|
                    j < b < k ==> fields@[j as int].number != #[trigger] fields@[b].number,
        decreases n - k,
        {
            if fields[j].number == fields[k].number {
                assert(spec_has_dup_number(fields@));
                return true;
            }
            k += 1;
        }
        j += 1;
    }
    false
}

/// Reports whether two field names normalize to the same symbolic name, given
/// the already-normalized name of each field.
pub(crate) fn has_dup_symbol(fields: &Vec<Field>, symbols: &Vec<String>) -> (r: bool)
    requires
        symbols@.len() == fields@.len(),
        forall|k: int|
            0 <= k < fields@.len() ==> #[trigger] symbols@[k]@ == upper_camel_of(
                fields@[k].name@,
            ),
    ensures
        r == spec_has_dup_symbol(fields@),
{
    let n = symbols.len();
    let mut j: usize = 0;
    while j < n
        invariant
            n == fields@.len(),
            symbols@.len() == fields@.len(),
            forall|k: int|
                0 <= k < fields@.len() ==> #[trigger] symbols@[k]@ == upper_camel_of(
                    fields@[k].name@,
                ),
            j <= n,
            forall|a: int, b: int|
                #![trigger upper_camel_of(fields@[a].name@), upper_camel_of(fields@[b].name@)]
                0 <= a < b < n && a < j ==> upper_camel_of(fields@[a].name@) != upper_camel_of(
                    fields@[b].name@,
                ),
        decreases n - j,
    {
        let mut k: usize = j + 1;
        while k < n
            invariant
                n == fields@.len(),
                symbols@.len() == fields@.len(),
                forall|t: int|
                    0 <= t < fields@.len() ==> #[trigger] symbols@[t]@ == upper_camel_of(
                        fields@[t].name@,
                    ),
                j < n,
                j < k <= n,
                forall|b: int|
                    j < b < k ==> upper_camel_of(fields@[j as int].name@) != #[trigger] upper_camel_of(
                        fields@[b].name@,
                    ),
            decreases n - k,
        {
            if symbols[j] == symbols[k] {
                assert(upper_camel_of(fields@[j as int].name@) == upper_camel_of(
                    fields@[k as int].name@,
                ));
                assert(spec_has_dup_symbol(fields@));
                return true;
            }
            k += 1;
        }
        j += 1;
    }
    false
}

/// Sorts catalog rows by tag number, strictly ascending. The rows and nothing
/// else come out: the output is a permutation of the input.
#[verifier::rlimit(100)]
#[verifier::loop_isolation(false)]
pub(crate) fn sort_entries(entries: Vec<CatalogEntry>) -> (r: Vec<CatalogEntry>)
    requires
        forall|j: int, k: int|
            #![trigger entries@[j].number, entries@[k].number]
            0 <= j < k < entries@.len() ==> entries@[j].number != entries@[k].number,
    ensures
        r@.len() == entries@.len(),
        forall|j: int, k: int|
            #![trigger r@[j].number, r@[k].number]
            0 <= j < k < r@.len() ==> r@[j].number < r@[k].number,
        r@.to_multiset() == entries@.to_multiset(),
{
    broadcast use vstd::seq_lib::group_to_multiset_ensures;
    broadcast use vstd::multiset::group_multiset_axioms;

    let ghost orig = entries@;
    let mut rem = entries;
    let mut r: Vec<CatalogEntry> = Vec::new();
    proof {
        assert(r@.to_multiset().add(rem@.to_multiset()) =~= orig.to_multiset());
    }
    while rem.len() > 0
        invariant
            r@.len() + rem@.len() == orig.len(),
            r@.to_multiset().add(rem@.to_multiset()) == orig.to_multiset(),
            forall|j: int, k: int|
                #![trigger rem@[j].number, rem@[k].number]
                0 <= j < k < rem@.len() ==> rem@[j].number != rem@[k].number,
            forall|j: int, k: int|
                #![trigger r@[j].number, r@[k].number]
                0 <= j < k < r@.len() ==> r@[j].number < r@[k].number,
            forall|j: int, k: int|
                #![trigger r@[j].number, rem@[k].number]
                0 <= j < r@.len() && 0 <= k < rem@.len() ==> r@[j].number < rem@[k].number,
        decreases rem@.len(),
    {
        let mut min: usize = 0;
        let mut t: usize = 1;
        while t < rem.len()
            invariant
                rem@.len() > 0,
                (min as int) < rem@.len(),
                1 <= t <= rem@.len(),
                forall|q: int| 0 <= q < t ==> rem@[min as int].number <= #[trigger] rem@[q].number,
            decreases rem@.len() - t,
        {
            if rem[t].number < rem[min].number {
                min = t;
            }
            t += 1;
        }
        let ghost rem_before = rem@;
        let ghost r_before = r@;
        let e = rem.remove(min);
        proof {
            assert(e == rem_before[min as int]);
            assert forall|k: int| 0 <= k < rem@.len() implies rem@[k] == (if k < min as int {
                rem_before[k]
            } else {
                rem_before[k + 1]
            }) by {
                assert(rem@ == rem_before.remove(min as int));
            }
            // the removed row is the strict minimum of what remains
            assert forall|k: int| 0 <= k < rem@.len() implies e.number < #[trigger] rem@[k].number by {
                let o = if k < min as int {
                    k
                } else {
                    k + 1
                };
                assert(rem@[k] == rem_before[o]);
                assert(rem_before[min as int].number <= rem_before[o].number);
                if o < min as int {
                    assert(rem_before[o].number != rem_before[min as int].number);
                } else {
                    assert(rem_before[min as int].number != rem_before[o].number);
                }
            }
        }
        r.push(e);
        proof {
            assert(rem@.to_multiset() =~= rem_before.to_multiset().remove(e));
            assert(r@.to_multiset() =~= r_before.to_multiset().insert(e));
            assert(rem_before.to_multiset().count(e) > 0);
            assert(r@.to_multiset().add(rem@.to_multiset()) =~= orig.to_multiset());
        }
    }
    proof {
        assert(rem@.to_multiset() =~= vstd::multiset::Multiset::empty());
        assert(r@.to_multiset() =~= orig.to_multiset());
    }
    r
}

/// Every row of the sorted catalog is a row of the input, and the other way
/// round: what a permutation keeps.
pub proof fn lemma_permutation_contains<A>(a: Seq<A>, b: Seq<A>, k: int)
    requires
        a.to_multiset() == b.to_multiset(),
        0 <= k < a.len(),
    ensures
        exists|j: int| 0 <= j < b.len() && #[trigger] b[j] == a[k],
{
    broadcast use vstd::seq_lib::group_to_multiset_ensures;

    assert(a.contains(a[k]));
    assert(a.to_multiset().count(a[k]) > 0);
    assert(b.to_multiset().count(a[k]) > 0);
    assert(b.contains(a[k]));
    let j = choose|j: int| 0 <= j < b.len() && b[j] == a[k];
    assert(b[j] == a[k]);
}

} // verus!
