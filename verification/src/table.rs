//! Building the sorted disjoint range tables and querying them.
//!
//! The build consumes an unordered collection of records: it removes
//! records whose first address was already seen (keeping the first one
//! inserted), keeps the records of the regional registries for the
//! requested family, turns each into a `(first, last, country_index)`
//! triple, and sorts the triples.  If two of the resulting ranges
//! overlap, the whole build fails: a table whose disjointness is in
//! doubt cannot be trusted by the binary search.

use vstd::prelude::*;

use vstd::relations::sorted_by;
use vstd::relations::total_ordering;
use vstd::seq_lib::lemma_seq_contains;
use vstd::seq_lib::lemma_sorted_unique;

use crate::country::spec_country_index;
use crate::record::Record;
use crate::registry::Registry;

verus! {

/// Error aborting a table build: two deduplicated source ranges overlap.
#[derive(Debug, Copy, Clone, Hash, PartialEq, Eq, Structural)]
pub enum BuildError {
    Overlapping,
}

/// Two records collide iff they are in the same family and their blocks
/// start at the same address.
pub open spec fn same_first(a: Record, b: Record) -> bool {
    a.is_v4() == b.is_v4() && a.spec_first() == b.spec_first()
}

/// Some record of `s` collides with `r`.
pub open spec fn contains_first(s: Seq<Record>, r: Record) -> bool {
    exists|j: int| 0 <= j < s.len() && same_first(s[j], r)
}

/// Keep-first deduplication by first address: a record is dropped iff an
/// earlier record of the same family starts at the same address.
pub open spec fn spec_dedup(s: Seq<Record>) -> Seq<Record>
    decreases s.len(),
{
    if s.len() == 0 {
        Seq::empty()
    } else {
        let prefix = spec_dedup(s.drop_last());
        if contains_first(s.drop_last(), s.last()) {
            prefix
        } else {
            prefix.push(s.last())
        }
    }
}

/// IPv4 records indexed in the lookup table: everything but the root
/// registry's delegation records.
pub open spec fn v4_selected(r: Record) -> bool {
    r.is_v4() && r.src_registry != Registry::Iana
}

/// IPv6 records indexed in the lookup table.
pub open spec fn v6_selected(r: Record) -> bool {
    !r.is_v4() && r.src_registry != Registry::Iana
}

pub open spec fn spec_select_v4(s: Seq<Record>) -> Seq<Record>
    decreases s.len(),
{
    if s.len() == 0 {
        Seq::empty()
    } else {
        let prefix = spec_select_v4(s.drop_last());
        if v4_selected(s.last()) {
            prefix.push(s.last())
        } else {
            prefix
        }
    }
}

pub open spec fn spec_select_v6(s: Seq<Record>) -> Seq<Record>
    decreases s.len(),
{
    if s.len() == 0 {
        Seq::empty()
    } else {
        let prefix = spec_select_v6(s.drop_last());
        if v6_selected(s.last()) {
            prefix.push(s.last())
        } else {
            prefix
        }
    }
}

/// The table triple of one IPv4 record.
pub open spec fn v4_triple(r: Record) -> (u32, u32, u8) {
    (r.spec_first() as u32, r.spec_last() as u32, spec_country_index(r.country) as u8)
}

/// The table triple of one IPv6 record.
pub open spec fn v6_triple(r: Record) -> (u128, u128, u8) {
    (r.spec_first() as u128, r.spec_last() as u128, spec_country_index(r.country) as u8)
}

/// Lexicographic order on IPv4 entries: a total order, so a sorted
/// arrangement of given entries is unique.
pub open spec fn entry_le_v4(a: (u32, u32, u8), b: (u32, u32, u8)) -> bool {
    ||| a.0 < b.0
    ||| (a.0 == b.0 && a.1 < b.1)
    ||| (a.0 == b.0 && a.1 == b.1 && a.2 <= b.2)
}

pub open spec fn v4_le() -> spec_fn((u32, u32, u8), (u32, u32, u8)) -> bool {
    |a: (u32, u32, u8), b: (u32, u32, u8)| entry_le_v4(a, b)
}

/// Lexicographic order on IPv6 entries.
pub open spec fn entry_le_v6(a: (u128, u128, u8), b: (u128, u128, u8)) -> bool {
    ||| a.0 < b.0
    ||| (a.0 == b.0 && a.1 < b.1)
    ||| (a.0 == b.0 && a.1 == b.1 && a.2 <= b.2)
}

pub open spec fn v6_le() -> spec_fn((u128, u128, u8), (u128, u128, u8)) -> bool {
    |a: (u128, u128, u8), b: (u128, u128, u8)| entry_le_v6(a, b)
}

pub proof fn lemma_v4_le_total()
    ensures
        total_ordering(v4_le()),
{
}

pub proof fn lemma_v6_le_total()
    ensures
        total_ordering(v6_le()),
{
}

/// The IPv4 entries of a record collection, before sorting.
pub open spec fn spec_v4_entries(records: Seq<Record>) -> Seq<(u32, u32, u8)> {
    spec_select_v4(spec_dedup(records)).map_values(|r: Record| v4_triple(r))
}

/// The IPv6 entries of a record collection, before sorting.
pub open spec fn spec_v6_entries(records: Seq<Record>) -> Seq<(u128, u128, u8)> {
    spec_select_v6(spec_dedup(records)).map_values(|r: Record| v6_triple(r))
}

/// The canonical IPv4 table of a record collection: its entries, sorted.
pub open spec fn spec_v4_table(records: Seq<Record>) -> Seq<(u32, u32, u8)> {
    spec_v4_entries(records).sort_by(v4_le())
}

/// The canonical IPv6 table of a record collection.
pub open spec fn spec_v6_table(records: Seq<Record>) -> Seq<(u128, u128, u8)> {
    spec_v6_entries(records).sort_by(v6_le())
}

/// Adjacent entries do not touch: together with the order by first
/// address this is the table invariant the binary search relies on.
pub open spec fn spec_adjacent_ok_v4(t: Seq<(u32, u32, u8)>) -> bool {
    forall|k: int| 0 <= k < t.len() - 1 ==> (#[trigger] t[k]).1 < t[k + 1].0
}

pub open spec fn spec_adjacent_ok_v6(t: Seq<(u128, u128, u8)>) -> bool {
    forall|k: int| 0 <= k < t.len() - 1 ==> (#[trigger] t[k]).1 < t[k + 1].0
}

/// The invariant of a built IPv4 table: every entry is a non-empty
/// interval, and the entries are strictly increasing and disjoint.
pub open spec fn table_wf_v4(t: Seq<(u32, u32, u8)>) -> bool {
    &&& forall|i: int| 0 <= i < t.len() ==> (#[trigger] t[i]).0 <= t[i].1
    &&& spec_adjacent_ok_v4(t)
}

/// The invariant of a built IPv6 table.
pub open spec fn table_wf_v6(t: Seq<(u128, u128, u8)>) -> bool {
    &&& forall|i: int| 0 <= i < t.len() ==> (#[trigger] t[i]).0 <= t[i].1
    &&& spec_adjacent_ok_v6(t)
}

/// Entries of a well-formed table are pairwise disjoint: no pair of
/// distinct entries intersects.
pub proof fn lemma_table_disjoint_v4(t: Seq<(u32, u32, u8)>)
    requires
        table_wf_v4(t),
    ensures
        forall|i: int, j: int|
            0 <= i < j < t.len() ==> (#[trigger] t[i]).1 < (#[trigger] t[j]).0,
{
    assert forall|i: int, j: int| 0 <= i < j < t.len() implies (#[trigger] t[i]).1 < (
    #[trigger] t[j]).0 by {
        lemma_entry_order_v4(t, i, j);
    }
}

proof fn lemma_entry_order_v4(t: Seq<(u32, u32, u8)>, i: int, j: int)
    requires
        table_wf_v4(t),
        0 <= i < j < t.len(),
    ensures
        t[i].1 < t[j].0,
    decreases j - i,
{
    if j == i + 1 {
    } else {
        lemma_entry_order_v4(t, i, j - 1);
    }
}

pub proof fn lemma_table_disjoint_v6(t: Seq<(u128, u128, u8)>)
    requires
        table_wf_v6(t),
    ensures
        forall|i: int, j: int|
            0 <= i < j < t.len() ==> (#[trigger] t[i]).1 < (#[trigger] t[j]).0,
{
    assert forall|i: int, j: int| 0 <= i < j < t.len() implies (#[trigger] t[i]).1 < (
    #[trigger] t[j]).0 by {
        lemma_entry_order_v6(t, i, j);
    }
}

proof fn lemma_entry_order_v6(t: Seq<(u128, u128, u8)>, i: int, j: int)
    requires
        table_wf_v6(t),
        0 <= i < j < t.len(),
    ensures
        t[i].1 < t[j].0,
    decreases j - i,
{
    if j == i + 1 {
    } else {
        lemma_entry_order_v6(t, i, j - 1);
    }
}

/// Entries of a well-formed table are strictly increasing by first
/// address.
pub proof fn lemma_table_ordered_v4(t: Seq<(u32, u32, u8)>)
    requires
        table_wf_v4(t),
    ensures
        forall|i: int, j: int|
            0 <= i < j < t.len() ==> (#[trigger] t[i]).0 < (#[trigger] t[j]).0,
{
    lemma_table_disjoint_v4(t);
}

pub proof fn lemma_table_ordered_v6(t: Seq<(u128, u128, u8)>)
    requires
        table_wf_v6(t),
    ensures
        forall|i: int, j: int|
            0 <= i < j < t.len() ==> (#[trigger] t[i]).0 < (#[trigger] t[j]).0,
{
    lemma_table_disjoint_v6(t);
}

/// Whether two records of the same collection start the same range.
fn records_same_first(a: &Record, b: &Record) -> (r: bool)
    requires
        a.wf(),
        b.wf(),
    ensures
        r == same_first(*a, *b),
{
    let fa = a.first();
    let fb = b.first();
    fa == fb
}

/// Keep-first deduplication by first address.
fn dedup_records(records: &Vec<Record>) -> (out: Vec<Record>)
    requires
        forall|i: int| 0 <= i < records@.len() ==> (#[trigger] records@[i]).wf(),
    ensures
        out@ == spec_dedup(records@),
        forall|i: int| 0 <= i < out@.len() ==> (#[trigger] out@[i]).wf(),
{
    let mut out: Vec<Record> = Vec::new();
    let mut i: usize = 0;
    proof {
        assert(records@.take(0) =~= Seq::<Record>::empty());
    }
    while i < records.len()
        invariant
            i <= records@.len(),
            forall|k: int| 0 <= k < records@.len() ==> (#[trigger] records@[k]).wf(),
            out@ == spec_dedup(records@.take(i as int)),
            forall|k: int| 0 <= k < out@.len() ==> (#[trigger] out@[k]).wf(),
        decreases records@.len() - i,
    {
        let r = records[i];
        let mut dup = false;
        let mut j: usize = 0;
        while j < i
            invariant
                j <= i < records@.len(),
                forall|k: int| 0 <= k < records@.len() ==> (#[trigger] records@[k]).wf(),
                r == records@[i as int],
                dup == contains_first(records@.take(j as int), r),
            decreases i - j,
        {
            let ghost pre = records@.take(j as int);
            let same = records_same_first(&records[j], &r);
            proof {
                assert(records@.take(j + 1).drop_last() =~= pre);
                assert(records@.take(j + 1).last() == records@[j as int]);
                if same {
                    assert(records@.take(j + 1)[j as int] == records@[j as int]);
                    assert(contains_first(records@.take(j + 1), r));
                } else if !dup {
                    assert forall|k: int|
                        0 <= k < j + 1 implies !same_first(
                        #[trigger] records@.take(j + 1)[k],
                        r,
                    ) by {
                        if k < j {
                            assert(records@.take(j + 1)[k] == pre[k]);
                        }
                    }
                }
            }
            if same {
                dup = true;
            }
            j = j + 1;
        }
        proof {
            assert(records@.take(i + 1).drop_last() =~= records@.take(i as int));
            assert(records@.take(i + 1).last() == records@[i as int]);
        }
        if !dup {
            out.push(r);
        }
        i = i + 1;
    }
    proof {
        assert(records@.take(records@.len() as int) =~= records@);
    }
    out
}

/// Keeps the IPv4 records of the regional registries.
fn select_v4(records: &Vec<Record>) -> (out: Vec<Record>)
    requires
        forall|i: int| 0 <= i < records@.len() ==> (#[trigger] records@[i]).wf(),
    ensures
        out@ == spec_select_v4(records@),
        forall|i: int| 0 <= i < out@.len() ==> (#[trigger] out@[i]).wf(),
        forall|i: int| 0 <= i < out@.len() ==> v4_selected(#[trigger] out@[i]),
{
    let mut out: Vec<Record> = Vec::new();
    let mut i: usize = 0;
    proof {
        assert(records@.take(0) =~= Seq::<Record>::empty());
    }
    while i < records.len()
        invariant
            i <= records@.len(),
            forall|k: int| 0 <= k < records@.len() ==> (#[trigger] records@[k]).wf(),
            out@ == spec_select_v4(records@.take(i as int)),
            forall|k: int| 0 <= k < out@.len() ==> (#[trigger] out@[k]).wf(),
            forall|k: int| 0 <= k < out@.len() ==> v4_selected(#[trigger] out@[k]),
        decreases records@.len() - i,
    {
        let r = records[i];
        proof {
            assert(records@.take(i + 1).drop_last() =~= records@.take(i as int));
            assert(records@.take(i + 1).last() == records@[i as int]);
        }
        if r.is_ipv4() && !matches!(r.src_registry, Registry::Iana) {
            out.push(r);
        }
        i = i + 1;
    }
    proof {
        assert(records@.take(records@.len() as int) =~= records@);
    }
    out
}

/// Keeps the IPv6 records of the regional registries.
fn select_v6(records: &Vec<Record>) -> (out: Vec<Record>)
    requires
        forall|i: int| 0 <= i < records@.len() ==> (#[trigger] records@[i]).wf(),
    ensures
        out@ == spec_select_v6(records@),
        forall|i: int| 0 <= i < out@.len() ==> (#[trigger] out@[i]).wf(),
        forall|i: int| 0 <= i < out@.len() ==> v6_selected(#[trigger] out@[i]),
{
    let mut out: Vec<Record> = Vec::new();
    let mut i: usize = 0;
    proof {
        assert(records@.take(0) =~= Seq::<Record>::empty());
    }
    while i < records.len()
        invariant
            i <= records@.len(),
            forall|k: int| 0 <= k < records@.len() ==> (#[trigger] records@[k]).wf(),
            out@ == spec_select_v6(records@.take(i as int)),
            forall|k: int| 0 <= k < out@.len() ==> (#[trigger] out@[k]).wf(),
            forall|k: int| 0 <= k < out@.len() ==> v6_selected(#[trigger] out@[k]),
        decreases records@.len() - i,
    {
        let r = records[i];
        proof {
            assert(records@.take(i + 1).drop_last() =~= records@.take(i as int));
            assert(records@.take(i + 1).last() == records@[i as int]);
        }
        if r.is_ipv6() && !matches!(r.src_registry, Registry::Iana) {
            out.push(r);
        }
        i = i + 1;
    }
    proof {
        assert(records@.take(records@.len() as int) =~= records@);
    }
    out
}

/// Turns IPv4 records into table triples.
fn v4_triples(records: &Vec<Record>) -> (out: Vec<(u32, u32, u8)>)
    requires
        forall|i: int| 0 <= i < records@.len() ==> (#[trigger] records@[i]).wf(),
        forall|i: int| 0 <= i < records@.len() ==> (#[trigger] records@[i]).is_v4(),
    ensures
        out@ == records@.map_values(|r: Record| v4_triple(r)),
        forall|i: int| 0 <= i < out@.len() ==> (#[trigger] out@[i]).0 <= out@[i].1,
{
    let mut out: Vec<(u32, u32, u8)> = Vec::new();
    let mut i: usize = 0;
    proof {
        assert(records@.take(0).map_values(|r: Record| v4_triple(r)) =~= Seq::<(
            u32,
            u32,
            u8,
        )>::empty());
    }
    while i < records.len()
        invariant
            i <= records@.len(),
            forall|k: int| 0 <= k < records@.len() ==> (#[trigger] records@[k]).wf(),
            forall|k: int| 0 <= k < records@.len() ==> (#[trigger] records@[k]).is_v4(),
            out@ == records@.take(i as int).map_values(|r: Record| v4_triple(r)),
            forall|k: int| 0 <= k < out@.len() ==> (#[trigger] out@[k]).0 <= out@[k].1,
        decreases records@.len() - i,
    {
        let r = &records[i];
        let first = match r.first() {
            crate::block::IpNumber::V4(x) => x,
            crate::block::IpNumber::V6(_) => {
                proof {
                    assert(false);
                }
                0
            },
        };
        let last = match r.last() {
            crate::block::IpNumber::V4(x) => x,
            crate::block::IpNumber::V6(_) => {
                proof {
                    assert(false);
                }
                0
            },
        };
        let cc = r.country().index();
        out.push((first, last, cc));
        proof {
            crate::block::lemma_block_bounds(records@[i as int].ip_block);
            assert(records@.take(i + 1).map_values(|rr: Record| v4_triple(rr)) =~= records@.take(
                i as int,
            ).map_values(|rr: Record| v4_triple(rr)).push(v4_triple(records@[i as int])));
        }
        i = i + 1;
    }
    proof {
        assert(records@.take(records@.len() as int) =~= records@);
    }
    out
}

/// Turns IPv6 records into table triples.
fn v6_triples(records: &Vec<Record>) -> (out: Vec<(u128, u128, u8)>)
    requires
        forall|i: int| 0 <= i < records@.len() ==> (#[trigger] records@[i]).wf(),
        forall|i: int| 0 <= i < records@.len() ==> !(#[trigger] records@[i]).is_v4(),
    ensures
        out@ == records@.map_values(|r: Record| v6_triple(r)),
        forall|i: int| 0 <= i < out@.len() ==> (#[trigger] out@[i]).0 <= out@[i].1,
{
    let mut out: Vec<(u128, u128, u8)> = Vec::new();
    let mut i: usize = 0;
    proof {
        assert(records@.take(0).map_values(|r: Record| v6_triple(r)) =~= Seq::<(
            u128,
            u128,
            u8,
        )>::empty());
    }
    while i < records.len()
        invariant
            i <= records@.len(),
            forall|k: int| 0 <= k < records@.len() ==> (#[trigger] records@[k]).wf(),
            forall|k: int| 0 <= k < records@.len() ==> !(#[trigger] records@[k]).is_v4(),
            out@ == records@.take(i as int).map_values(|r: Record| v6_triple(r)),
            forall|k: int| 0 <= k < out@.len() ==> (#[trigger] out@[k]).0 <= out@[k].1,
        decreases records@.len() - i,
    {
        let r = &records[i];
        let first = match r.first() {
            crate::block::IpNumber::V4(_) => {
                proof {
                    assert(false);
                }
                0
            },
            crate::block::IpNumber::V6(x) => x,
        };
        let last = match r.last() {
            crate::block::IpNumber::V4(_) => {
                proof {
                    assert(false);
                }
                0
            },
            crate::block::IpNumber::V6(x) => x,
        };
        let cc = r.country().index();
        out.push((first, last, cc));
        proof {
            crate::block::lemma_block_bounds(records@[i as int].ip_block);
            assert(records@.take(i + 1).map_values(|rr: Record| v6_triple(rr)) =~= records@.take(
                i as int,
            ).map_values(|rr: Record| v6_triple(rr)).push(v6_triple(records@[i as int])));
        }
        i = i + 1;
    }
    proof {
        assert(records@.take(records@.len() as int) =~= records@);
    }
    out
}

fn entry_le_v4_exec(a: &(u32, u32, u8), b: &(u32, u32, u8)) -> (r: bool)
    ensures
        r == entry_le_v4(*a, *b),
{
    if a.0 != b.0 {
        a.0 < b.0
    } else if a.1 != b.1 {
        a.1 < b.1
    } else {
        a.2 <= b.2
    }
}

fn entry_le_v6_exec(a: &(u128, u128, u8), b: &(u128, u128, u8)) -> (r: bool)
    ensures
        r == entry_le_v6(*a, *b),
{
    if a.0 != b.0 {
        a.0 < b.0
    } else if a.1 != b.1 {
        a.1 < b.1
    } else {
        a.2 <= b.2
    }
}

/// Sorts IPv4 entries by insertion, preserving the collection of entries.
fn sort_entries_v4(entries: &Vec<(u32, u32, u8)>) -> (out: Vec<(u32, u32, u8)>)
    ensures
        sorted_by(out@, v4_le()),
        out@.to_multiset() == entries@.to_multiset(),
{
    broadcast use vstd::seq_lib::group_to_multiset_ensures;

    let mut out: Vec<(u32, u32, u8)> = Vec::new();
    let mut i: usize = 0;
    proof {
        assert(entries@.take(0) =~= Seq::<(u32, u32, u8)>::empty());
        assert(Seq::<(u32, u32, u8)>::empty().to_multiset() =~= out@.to_multiset());
    }
    while i < entries.len()
        invariant
            i <= entries@.len(),
            sorted_by(out@, v4_le()),
            out@.to_multiset() == entries@.take(i as int).to_multiset(),
        decreases entries@.len() - i,
    {
        let x = entries[i];
        let mut j: usize = 0;
        while j < out.len() && entry_le_v4_exec(&out[j], &x)
            invariant
                j <= out@.len(),
                forall|k: int| 0 <= k < j ==> entry_le_v4(#[trigger] out@[k], x),
            decreases out@.len() - j,
        {
            j = j + 1;
        }
        let ghost pre = out@;
        out.insert(j, x);
        proof {
            pre.insert_ensures(j as int, x);
            assert(out@ == pre.insert(j as int, x));
            assert forall|a: int, b: int| 0 <= a < b < out@.len() implies v4_le()(
                out@[a],
                out@[b],
            ) by {
                if b < j {
                    assert(out@[a] == pre[a] && out@[b] == pre[b]);
                    assert(v4_le()(pre[a], pre[b]));
                } else if a > j {
                    assert(out@[a] == pre[a - 1] && out@[b] == pre[b - 1]);
                    assert(v4_le()(pre[a - 1], pre[b - 1]));
                } else if a < j && b == j {
                    assert(out@[a] == pre[a]);
                    assert(entry_le_v4(pre[a], x));
                } else if a < j && b > j {
                    assert(out@[a] == pre[a] && out@[b] == pre[b - 1]);
                    if b - 1 == j {
                        assert(entry_le_v4(pre[a], x));
                        assert(!entry_le_v4(pre[j as int], x));
                        assert(entry_le_v4(x, pre[j as int]));
                    } else {
                        assert(v4_le()(pre[a], pre[b - 1]));
                    }
                } else if a == j && b > j {
                    assert(out@[b] == pre[b - 1]);
                    assert(!entry_le_v4(pre[j as int], x));
                    assert(entry_le_v4(x, pre[j as int]));
                    if b - 1 > j {
                        assert(v4_le()(pre[j as int], pre[b - 1]));
                    }
                }
            }
            vstd::seq_lib::to_multiset_insert(pre, j as int, x);
            assert(out@.to_multiset() == pre.to_multiset().insert(x));
            assert(entries@.take(i + 1).drop_last() =~= entries@.take(i as int));
            assert(entries@.take(i + 1) =~= entries@.take(i as int).push(entries@[i as int]));
            vstd::seq_lib::to_multiset_build(entries@.take(i as int), entries@[i as int]);
        }
        i = i + 1;
    }
    proof {
        assert(entries@.take(entries@.len() as int) =~= entries@);
    }
    out
}

/// Sorts IPv6 entries by insertion, preserving the collection of entries.
fn sort_entries_v6(entries: &Vec<(u128, u128, u8)>) -> (out: Vec<(u128, u128, u8)>)
    ensures
        sorted_by(out@, v6_le()),
        out@.to_multiset() == entries@.to_multiset(),
{
    broadcast use vstd::seq_lib::group_to_multiset_ensures;

    let mut out: Vec<(u128, u128, u8)> = Vec::new();
    let mut i: usize = 0;
    proof {
        assert(entries@.take(0) =~= Seq::<(u128, u128, u8)>::empty());
        assert(Seq::<(u128, u128, u8)>::empty().to_multiset() =~= out@.to_multiset());
    }
    while i < entries.len()
        invariant
            i <= entries@.len(),
            sorted_by(out@, v6_le()),
            out@.to_multiset() == entries@.take(i as int).to_multiset(),
        decreases entries@.len() - i,
    {
        let x = entries[i];
        let mut j: usize = 0;
        while j < out.len() && entry_le_v6_exec(&out[j], &x)
            invariant
                j <= out@.len(),
                forall|k: int| 0 <= k < j ==> entry_le_v6(#[trigger] out@[k], x),
            decreases out@.len() - j,
        {
            j = j + 1;
        }
        let ghost pre = out@;
        out.insert(j, x);
        proof {
            pre.insert_ensures(j as int, x);
            assert(out@ == pre.insert(j as int, x));
            assert forall|a: int, b: int| 0 <= a < b < out@.len() implies v6_le()(
                out@[a],
                out@[b],
            ) by {
                if b < j {
                    assert(out@[a] == pre[a] && out@[b] == pre[b]);
                    assert(v6_le()(pre[a], pre[b]));
                } else if a > j {
                    assert(out@[a] == pre[a - 1] && out@[b] == pre[b - 1]);
                    assert(v6_le()(pre[a - 1], pre[b - 1]));
                } else if a < j && b == j {
                    assert(out@[a] == pre[a]);
                    assert(entry_le_v6(pre[a], x));
                } else if a < j && b > j {
                    assert(out@[a] == pre[a] && out@[b] == pre[b - 1]);
                    if b - 1 == j {
                        assert(entry_le_v6(pre[a], x));
                        assert(!entry_le_v6(pre[j as int], x));
                        assert(entry_le_v6(x, pre[j as int]));
                    } else {
                        assert(v6_le()(pre[a], pre[b - 1]));
                    }
                } else if a == j && b > j {
                    assert(out@[b] == pre[b - 1]);
                    assert(!entry_le_v6(pre[j as int], x));
                    assert(entry_le_v6(x, pre[j as int]));
                    if b - 1 > j {
                        assert(v6_le()(pre[j as int], pre[b - 1]));
                    }
                }
            }
            vstd::seq_lib::to_multiset_insert(pre, j as int, x);
            assert(out@.to_multiset() == pre.to_multiset().insert(x));
            assert(entries@.take(i + 1).drop_last() =~= entries@.take(i as int));
            assert(entries@.take(i + 1) =~= entries@.take(i as int).push(entries@[i as int]));
            vstd::seq_lib::to_multiset_build(entries@.take(i as int), entries@[i as int]);
        }
        i = i + 1;
    }
    proof {
        assert(entries@.take(entries@.len() as int) =~= entries@);
    }
    out
}

fn check_adjacent_v4(t: &Vec<(u32, u32, u8)>) -> (ok: bool)
    ensures
        ok == spec_adjacent_ok_v4(t@),
{
    let mut k: usize = 0;
    if t.len() == 0 {
        return true;
    }
    while k < t.len() - 1
        invariant
            t@.len() >= 1,
            k <= t@.len() - 1,
            forall|m: int| 0 <= m < k ==> (#[trigger] t@[m]).1 < t@[m + 1].0,
        decreases t@.len() - k,
    {
        if t[k].1 >= t[k + 1].0 {
            return false;
        }
        k = k + 1;
    }
    true
}

fn check_adjacent_v6(t: &Vec<(u128, u128, u8)>) -> (ok: bool)
    ensures
        ok == spec_adjacent_ok_v6(t@),
{
    let mut k: usize = 0;
    if t.len() == 0 {
        return true;
    }
    while k < t.len() - 1
        invariant
            t@.len() >= 1,
            k <= t@.len() - 1,
            forall|m: int| 0 <= m < k ==> (#[trigger] t@[m]).1 < t@[m + 1].0,
        decreases t@.len() - k,
    {
        if t[k].1 >= t[k + 1].0 {
            return false;
        }
        k = k + 1;
    }
    true
}

/// Every value of `t` keeps a property that holds of every entry of `s`,
/// when the two hold the same entries.
proof fn lemma_entry_wf_transfer_v4(s: Seq<(u32, u32, u8)>, t: Seq<(u32, u32, u8)>)
    requires
        s.to_multiset() == t.to_multiset(),
        forall|i: int| 0 <= i < s.len() ==> (#[trigger] s[i]).0 <= s[i].1,
    ensures
        forall|i: int| 0 <= i < t.len() ==> (#[trigger] t[i]).0 <= t[i].1,
{
    broadcast use vstd::seq_lib::group_to_multiset_ensures;
    broadcast use lemma_seq_contains;

    assert forall|i: int| 0 <= i < t.len() implies (#[trigger] t[i]).0 <= t[i].1 by {
        let v = t[i];
        assert(t.contains(v));
        assert(t.to_multiset().count(v) > 0);
        assert(s.contains(v));
        let k = choose|k: int| 0 <= k < s.len() && s[k] == v;
        assert(s[k].0 <= s[k].1);
    }
}

proof fn lemma_entry_wf_transfer_v6(s: Seq<(u128, u128, u8)>, t: Seq<(u128, u128, u8)>)
    requires
        s.to_multiset() == t.to_multiset(),
        forall|i: int| 0 <= i < s.len() ==> (#[trigger] s[i]).0 <= s[i].1,
    ensures
        forall|i: int| 0 <= i < t.len() ==> (#[trigger] t[i]).0 <= t[i].1,
{
    broadcast use vstd::seq_lib::group_to_multiset_ensures;
    broadcast use lemma_seq_contains;

    assert forall|i: int| 0 <= i < t.len() implies (#[trigger] t[i]).0 <= t[i].1 by {
        let v = t[i];
        assert(t.contains(v));
        assert(t.to_multiset().count(v) > 0);
        assert(s.contains(v));
        let k = choose|k: int| 0 <= k < s.len() && s[k] == v;
        assert(s[k].0 <= s[k].1);
    }
}

/// Builds the IPv4 lookup table of a record collection: deduplicates by
/// first address, keeps the regional registries' IPv4 records, sorts the
/// resulting `(first, last, country_index)` triples by first address, and
/// fails if any two of the sorted ranges overlap.
pub fn build_ipv4_table(records: &Vec<Record>) -> (r: Result<Vec<(u32, u32, u8)>, BuildError>)
    requires
        forall|i: int| 0 <= i < records@.len() ==> (#[trigger] records@[i]).wf(),
    ensures
        match r {
            Ok(t) => t@ == spec_v4_table(records@) && table_wf_v4(t@),
            Err(e) => e == BuildError::Overlapping,
        },
        r is Ok <==> spec_adjacent_ok_v4(spec_v4_table(records@)),
{
    let deduped = dedup_records(records);
    let selected = select_v4(&deduped);
    let entries = v4_triples(&selected);
    let table = sort_entries_v4(&entries);
    proof {
        lemma_v4_le_total();
        spec_v4_entries(records@).lemma_sort_by_ensures(v4_le());
        lemma_sorted_unique(table@, spec_v4_table(records@), v4_le());
        lemma_entry_wf_transfer_v4(entries@, table@);
    }
    let ok = check_adjacent_v4(&table);
    if ok {
        Ok(table)
    } else {
        Err(BuildError::Overlapping)
    }
}

/// Builds the IPv6 lookup table of a record collection.
pub fn build_ipv6_table(records: &Vec<Record>) -> (r: Result<Vec<(u128, u128, u8)>, BuildError>)
    requires
        forall|i: int| 0 <= i < records@.len() ==> (#[trigger] records@[i]).wf(),
    ensures
        match r {
            Ok(t) => t@ == spec_v6_table(records@) && table_wf_v6(t@),
            Err(e) => e == BuildError::Overlapping,
        },
        r is Ok <==> spec_adjacent_ok_v6(spec_v6_table(records@)),
{
    let deduped = dedup_records(records);
    let selected = select_v6(&deduped);
    let entries = v6_triples(&selected);
    let table = sort_entries_v6(&entries);
    proof {
        lemma_v6_le_total();
        spec_v6_entries(records@).lemma_sort_by_ensures(v6_le());
        lemma_sorted_unique(table@, spec_v6_table(records@), v6_le());
        lemma_entry_wf_transfer_v6(entries@, table@);
    }
    let ok = check_adjacent_v6(&table);
    if ok {
        Ok(table)
    } else {
        Err(BuildError::Overlapping)
    }
}

/// Round trip through the two components: the table built from a single
/// IPv4 record holds exactly that record's triple, and the greedy
/// decomposition of the record's interval recombines to the original
/// `[first, last]` interval — the first block starts at `first` and the
/// last block ends at `last`.
pub proof fn lemma_single_record_round_trip(rec: Record, blocks: Seq<crate::block::Ipv4Cidr>)
    requires
        rec.wf(),
        v4_selected(rec),
        crate::range::is_chain(blocks, rec.spec_first(), rec.spec_last() + 1, rec.spec_last() + 1),
    ensures
        spec_v4_table(seq![rec]) == seq![v4_triple(rec)],
        blocks.len() > 0,
        blocks[0].spec_first() == rec.spec_first(),
        blocks[blocks.len() - 1].spec_last() == rec.spec_last(),
{
    let s = seq![rec];
    assert(s.drop_last() =~= Seq::<Record>::empty());
    assert(!contains_first(s.drop_last(), rec));
    assert(spec_dedup(s) =~= s) by {
        reveal_with_fuel(spec_dedup, 3);
    }
    assert(spec_select_v4(s) =~= s) by {
        reveal_with_fuel(spec_select_v4, 3);
    }
    let entries = spec_v4_entries(s);
    assert(entries =~= seq![v4_triple(rec)]);
    lemma_v4_le_total();
    entries.lemma_sort_by_ensures(v4_le());
    assert(sorted_by(entries, v4_le()));
    lemma_sorted_unique(entries, spec_v4_table(s), v4_le());
    crate::block::lemma_block_bounds(rec.ip_block);
    if blocks.len() == 0 {
        assert(false);
    }
    crate::range::lemma_chain_endpoints(
        blocks,
        rec.spec_first(),
        rec.spec_last() + 1,
        rec.spec_last() + 1,
    );
}

/// Binary search over a well-formed IPv4 table: returns the entry whose
/// range contains `addr`, or nothing when no range does.
pub fn locate_v4(table: &Vec<(u32, u32, u8)>, addr: u32) -> (r: Option<(u32, u32, u8)>)
    requires
        table_wf_v4(table@),
    ensures
        match r {
            Some(e) => {
                &&& exists|i: int| 0 <= i < table@.len() && table@[i] == e
                &&& e.0 <= addr <= e.1
                &&& forall|i: int|
                    0 <= i < table@.len() && (#[trigger] table@[i]).0 <= addr <= table@[i].1
                        ==> table@[i] == e
            },
            None => forall|i: int|
                0 <= i < table@.len() ==> !((#[trigger] table@[i]).0 <= addr <= table@[i].1),
        },
{
    proof {
        lemma_table_disjoint_v4(table@);
    }
    let mut lo: usize = 0;
    let mut hi: usize = table.len();
    while lo < hi
        invariant
            table_wf_v4(table@),
            forall|i: int, j: int|
                0 <= i < j < table@.len() ==> (#[trigger] table@[i]).1 < (#[trigger] table@[j]).0,
            lo <= hi <= table@.len(),
            forall|i: int| 0 <= i < lo ==> (#[trigger] table@[i]).1 < addr,
            forall|i: int| hi <= i < table@.len() ==> addr < (#[trigger] table@[i]).0,
        decreases hi - lo,
    {
        let mid = lo + (hi - lo) / 2;
        let e = table[mid];
        if addr > e.1 {
            lo = mid + 1;
        } else if addr >= e.0 {
            proof {
                assert(table@[mid as int] == e);
                assert forall|i: int|
                    0 <= i < table@.len() && (#[trigger] table@[i]).0 <= addr <= table@[i].1
                        implies table@[i] == e by {
                    if i < mid {
                        assert(table@[i].1 < table@[mid as int].0);
                    } else if i > mid {
                        assert(table@[mid as int].1 < table@[i].0);
                    }
                }
            }
            return Some(e);
        } else {
            hi = mid;
        }
    }
    None
}

/// Binary search over a well-formed IPv6 table.
pub fn locate_v6(table: &Vec<(u128, u128, u8)>, addr: u128) -> (r: Option<(u128, u128, u8)>)
    requires
        table_wf_v6(table@),
    ensures
        match r {
            Some(e) => {
                &&& exists|i: int| 0 <= i < table@.len() && table@[i] == e
                &&& e.0 <= addr <= e.1
                &&& forall|i: int|
                    0 <= i < table@.len() && (#[trigger] table@[i]).0 <= addr <= table@[i].1
                        ==> table@[i] == e
            },
            None => forall|i: int|
                0 <= i < table@.len() ==> !((#[trigger] table@[i]).0 <= addr <= table@[i].1),
        },
{
    proof {
        lemma_table_disjoint_v6(table@);
    }
    let mut lo: usize = 0;
    let mut hi: usize = table.len();
    while lo < hi
        invariant
            table_wf_v6(table@),
            forall|i: int, j: int|
                0 <= i < j < table@.len() ==> (#[trigger] table@[i]).1 < (#[trigger] table@[j]).0,
            lo <= hi <= table@.len(),
            forall|i: int| 0 <= i < lo ==> (#[trigger] table@[i]).1 < addr,
            forall|i: int| hi <= i < table@.len() ==> addr < (#[trigger] table@[i]).0,
        decreases hi - lo,
    {
        let mid = lo + (hi - lo) / 2;
        let e = table[mid];
        if addr > e.1 {
            lo = mid + 1;
        } else if addr >= e.0 {
            proof {
                assert(table@[mid as int] == e);
                assert forall|i: int|
                    0 <= i < table@.len() && (#[trigger] table@[i]).0 <= addr <= table@[i].1
                        implies table@[i] == e by {
                    if i < mid {
                        assert(table@[i].1 < table@[mid as int].0);
                    } else if i > mid {
                        assert(table@[mid as int].1 < table@[i].0);
                    }
                }
            }
            return Some(e);
        } else {
            hi = mid;
        }
    }
    None
}

} // verus!
