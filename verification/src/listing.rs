//! The order in which a directory's entries are shown: directories first,
//! then by name without regard to case.

use crate::file_info::FileInfo;
use crate::text::{
    lemma_lex_less_total, lemma_lex_less_transitive, lex_less, lowercase, str_order, to_lowercase,
};
use std::cmp::Ordering;
use vstd::prelude::*;

verus! {

/// `a` is shown strictly before `b`: a directory before a file, and among
/// two of a kind the one whose lowercase name sorts first.
pub open spec fn comes_before(a: FileInfo, b: FileInfo) -> bool {
    if a.is_dir != b.is_dir {
        a.is_dir
    } else {
        lex_less(lowercase(a.name@), lowercase(b.name@))
    }
}

/// Neither of `a` and `b` is shown before the other for its own sake: they
/// are of a kind and their names differ in case at most.
pub open spec fn same_rank(a: FileInfo, b: FileInfo) -> bool {
    a.is_dir == b.is_dir && lowercase(a.name@) == lowercase(b.name@)
}

/// The order of the listing is a total order on ranks: of any two entries
/// exactly one comes before the other unless they are of the same rank, and
/// coming before is transitive.
pub open spec fn listing_order_is_total() -> bool {
    &&& forall|a: FileInfo, b: FileInfo|
        same_rank(a, b) ==> !#[trigger] comes_before(a, b) && !comes_before(b, a)
    &&& forall|a: FileInfo, b: FileInfo|
        !same_rank(a, b) ==> (#[trigger] comes_before(a, b) <==> !comes_before(b, a))
    &&& forall|a: FileInfo, b: FileInfo, c: FileInfo|
        #[trigger] comes_before(a, b) && #[trigger] comes_before(b, c) ==> comes_before(a, c)
}

/// The order of the listing is total.
pub proof fn lemma_listing_order_is_total()
    ensures
        listing_order_is_total(),
{
    assert forall|a: FileInfo, b: FileInfo| same_rank(a, b) implies !#[trigger] comes_before(a, b)
        && !comes_before(b, a) by {
        lemma_lex_less_total(lowercase(a.name@), lowercase(b.name@));
    }
    assert forall|a: FileInfo, b: FileInfo| !same_rank(a, b) implies (#[trigger] comes_before(a, b)
        <==> !comes_before(b, a)) by {
        lemma_lex_less_total(lowercase(a.name@), lowercase(b.name@));
    }
    assert forall|a: FileInfo, b: FileInfo, c: FileInfo| #[trigger]
        comes_before(a, b) && #[trigger] comes_before(b, c) implies comes_before(a, c) by {
        if a.is_dir == b.is_dir && b.is_dir == c.is_dir {
            lemma_lex_less_transitive(
                lowercase(a.name@),
                lowercase(b.name@),
                lowercase(c.name@),
            );
        }
    }
}

/// `from` tells where each entry of `shown` stood in `entries`, and `shown`
/// is `entries` sorted without swapping entries of the same rank:
/// position `i` of `shown` holds what position `from[i]` of `entries` held,
/// no position is used twice, nothing is shown after something that it
/// comes before, and entries of the same rank keep their order.
pub open spec fn arranges(from: Seq<int>, entries: Seq<FileInfo>, shown: Seq<FileInfo>) -> bool {
    &&& from.len() == entries.len()
    &&& shown.len() == entries.len()
    &&& forall|i: int|
        0 <= i < from.len() ==> 0 <= #[trigger] from[i] < entries.len() && shown[i]
            == entries[from[i]]
    &&& forall|i: int, j: int| 0 <= i < j < from.len() ==> #[trigger] from[i] != #[trigger] from[j]
    &&& forall|i: int, j: int|
        0 <= i < j < shown.len() ==> !comes_before(#[trigger] shown[j], #[trigger] shown[i])
    &&& forall|i: int, j: int|
        0 <= i < j < shown.len() && same_rank(#[trigger] shown[i], #[trigger] shown[j])
            ==> from[i] < from[j]
}

/// `shown` is the listing of `entries`: the same entries, in listing order,
/// those of the same rank in the order in which they were found.
pub open spec fn is_listing_of(shown: Seq<FileInfo>, entries: Seq<FileInfo>) -> bool {
    exists|from: Seq<int>| arranges(from, entries, shown)
}

/// Compares two entries for the listing.
pub fn listing_order(a: &FileInfo, b: &FileInfo) -> (order: Ordering)
    ensures
        order == Ordering::Less <==> comes_before(*a, *b),
        order == Ordering::Greater <==> comes_before(*b, *a),
        order == Ordering::Equal <==> same_rank(*a, *b),
{
    if a.is_dir && !b.is_dir {
        Ordering::Less
    } else if !a.is_dir && b.is_dir {
        Ordering::Greater
    } else {
        let lower_a = to_lowercase(a.name.as_str());
        let lower_b = to_lowercase(b.name.as_str());
        str_order(lower_a.as_str(), lower_b.as_str())
    }
}

/// Calls `slice::sort_by` with [`listing_order`] as the comparison.
/// Trusted: as the standard library documents it, the sort puts the
/// elements in ascending order and is stable. It is owed a total order,
/// which the caller proves.
#[verifier::external_body]
fn sort_by_listing_order(entries: &mut Vec<FileInfo>)
    requires
        listing_order_is_total(),
    ensures
        is_listing_of(final(entries)@, old(entries)@),
{
    entries.sort_by(|a, b| listing_order(a, b));
}

/// Puts the entries of a directory in the order in which they are shown:
/// directories first, then by lowercase name. Entries that differ in
/// neither keep the order in which they came.
pub fn sort_for_listing(entries: &mut Vec<FileInfo>)
    ensures
        is_listing_of(final(entries)@, old(entries)@),
        final(entries).len() == old(entries).len(),
        forall|i: int, j: int|
            0 <= i < j < final(entries).len() && (#[trigger] final(entries)[j]).is_dir ==> (
            #[trigger] final(entries)[i]).is_dir,
{
    proof {
        lemma_listing_order_is_total();
    }
    sort_by_listing_order(entries);
    proof {
        let from = choose|from: Seq<int>| arranges(from, old(entries)@, entries@);
        assert(arranges(from, old(entries)@, entries@));
    }
}

} // verus!
