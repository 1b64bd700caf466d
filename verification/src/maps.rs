//! The concurrent maps and sets that hold the bot's state.

use dashmap::{DashMap, DashSet};
use vstd::prelude::*;

verus! {

/// `dashmap::DashMap`: a hash map.
///
/// It can change through a shared reference. The functions that change one
/// here take it by a mutable reference all the same, so that a value that is
/// borrowed stays what it is.
#[verifier::external_type_specification]
#[verifier::external_body]
#[verifier::reject_recursive_types(K)]
#[verifier::reject_recursive_types(V)]
#[verifier::reject_recursive_types(S)]
pub struct ExDashMap<K, V, S>(DashMap<K, V, S>);

/// `dashmap::DashSet`: a hash set. What is said of [`DashMap`] holds here too.
#[verifier::external_type_specification]
#[verifier::external_body]
#[verifier::reject_recursive_types(K)]
#[verifier::reject_recursive_types(S)]
pub struct ExDashSet<K, S>(DashSet<K, S>);

/// Whether `list` holds the entries of `m`, each once, in some order.
pub open spec fn lists_entries<K, V>(list: Seq<(K, V)>, m: Map<K, V>) -> bool {
    &&& forall|i: int| 0 <= i < list.len() ==> m.contains_pair((#[trigger] list[i]).0, list[i].1)
    &&& forall|i: int, j: int|
        0 <= i < j < list.len() ==> (#[trigger] list[i]).0 != (#[trigger] list[j]).0
    &&& forall|k: K| #[trigger]
        m.contains_key(k) ==> exists|i: int| 0 <= i < list.len() && (#[trigger] list[i]).0 == k
}

/// What a sequence holds once something was added to it.
pub proof fn lemma_push_contains<A>(list: Seq<A>, last: A, x: A)
    ensures
        list.push(last).contains(x) <==> list.contains(x) || x == last,
{
    let after = list.push(last);
    if list.contains(x) {
        let j = choose|j: int| 0 <= j < list.len() && list[j] == x;
        assert(after[j] == x);
    }
    assert(after[list.len() as int] == last);
    if after.contains(x) {
        let j = choose|j: int| 0 <= j < after.len() && after[j] == x;
        if j < list.len() {
            assert(list[j] == x);
        }
    }
}

} // verus!
