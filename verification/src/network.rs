//! Whether the network can be reached.
use vstd::prelude::*;
use crate::text::{strings2, views};

verus! {

/// The addresses probed, in order.
pub open spec fn endpoints_spec() -> Seq<Seq<char>> {
    seq!["https://connectivitycheck.gstatic.com/generate_204"@, "https://github.com"@]
}

pub fn endpoints() -> (r: Vec<String>)
    ensures
        views(r@) == endpoints_spec(),
{
    strings2("https://connectivitycheck.gstatic.com/generate_204", "https://github.com")
}

/// Offline: no probe answered. `reachable` holds the probes' results in the
/// order of `endpoints()`; probing may stop at the first that answered.
pub fn is_offline(reachable: &Vec<bool>) -> (r: bool)
    ensures
        r == forall|i: int| 0 <= i < reachable@.len() ==> !reachable@[i],
{
    let mut i: usize = 0;
    while i < reachable.len()
        invariant
            i <= reachable@.len(),
            forall|j: int| 0 <= j < i ==> !reachable@[j],
        decreases reachable.len() - i,
    {
        if reachable[i] {
            return false;
        }
        i = i + 1;
    }
    true
}

} // verus!
