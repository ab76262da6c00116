//! The one-to-one tables between process handles and stream handles.
//!
//! The tables themselves are `bimap::BiMap` values. Nothing about that crate
//! is proved here: each function below states, without proof, what the
//! crate's method does to the pairs a table holds.

use vstd::prelude::*;
use bimap::BiMap;
use bimap::BiHashMap;

verus! {

/// `bimap::BiHashMap`, of which `bimap::BiMap` is the form with the
/// default hashers. Nothing inside a table is visible to a proof.
#[verifier::external_type_specification]
#[verifier::external_body]
#[verifier::reject_recursive_types(L)]
#[verifier::reject_recursive_types(R)]
#[verifier::reject_recursive_types(LS)]
#[verifier::reject_recursive_types(RS)]
pub struct ExBiHashMap<L, R, LS, RS>(BiHashMap<L, R, LS, RS>);

/// The pairs held by a table, as a map from the left value of each pair
/// (a process handle) to its right value (a stream handle).
pub uninterp spec fn pairs(m: BiMap<u64, u64>) -> Map<u64, u64>;

/// `BiHashMap::new`: the new table holds no pair.
#[verifier::external_body]
pub(crate) fn new_table() -> (table: BiMap<u64, u64>)
    ensures
        pairs(table) =~= Map::empty(),
{
    BiMap::new()
}

/// `BiHashMap::get_by_left`: the right value paired with `left`, if `left`
/// is in the table.
#[verifier::external_body]
pub(crate) fn get_by_left(m: &BiMap<u64, u64>, left: u64) -> (r: Option<u64>)
    ensures
        r == (if pairs(*m).contains_key(left) {
            Some(pairs(*m)[left])
        } else {
            None
        }),
{
    m.get_by_left(&left).copied()
}

/// `BiHashMap::get_by_right`: a left value paired with `right`, if there is
/// one.
#[verifier::external_body]
pub(crate) fn get_by_right(m: &BiMap<u64, u64>, right: u64) -> (r: Option<u64>)
    ensures
        match r {
            Some(left) => pairs(*m).contains_key(left) && pairs(*m)[left] == right,
            None => forall|l: u64| pairs(*m).contains_key(l) ==> pairs(*m)[l] != right,
        },
{
    m.get_by_right(&right).copied()
}

/// What `BiHashMap::insert` leaves in a table: every earlier pair that
/// shares neither side with the new pair, and the new pair.
pub open spec fn inserted(old_pairs: Map<u64, u64>, left: u64, right: u64) -> Map<u64, u64> {
    Map::new(
        |l: u64| l == left || (old_pairs.contains_key(l) && old_pairs[l] != right),
        |l: u64| if l == left { right } else { old_pairs[l] },
    )
}

/// `BiHashMap::insert`: pairs that share a side with the new pair are
/// dropped, then the new pair is added.
#[verifier::external_body]
pub(crate) fn insert(m: &mut BiMap<u64, u64>, left: u64, right: u64)
    ensures
        pairs(*final(m)) == inserted(pairs(*old(m)), left, right),
{
    let _ = m.insert(left, right);
}

/// Where neither side of the new pair is in the table, inserting adds the
/// pair and keeps every other.
pub proof fn lemma_inserted_fresh(old_pairs: Map<u64, u64>, left: u64, right: u64)
    requires
        !old_pairs.contains_key(left),
        forall|l: u64| old_pairs.contains_key(l) ==> old_pairs[l] != right,
    ensures
        inserted(old_pairs, left, right) == old_pairs.insert(left, right),
{
}

} // verus!
