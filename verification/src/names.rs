//! Layer and extension names, and membership of requested names in the sets
//! the host or an adapter reports as available.  Names are compared as whole
//! strings: the chain treats an absent name as a fatal environment mismatch,
//! never as something to approximate.

use vstd::prelude::*;

verus! {

/// The character sequences of a list of names.
pub open spec fn name_views(list: Seq<String>) -> Seq<Seq<char>> {
    list.map_values(|s: String| s@)
}

/// `name` occurs in `avail`.
pub open spec fn contains_name(avail: Seq<Seq<char>>, name: Seq<char>) -> bool {
    exists|i: int| 0 <= i < avail.len() && avail[i] == name
}

/// Every name of `req` occurs in `avail`.
pub open spec fn all_contained(req: Seq<Seq<char>>, avail: Seq<Seq<char>>) -> bool {
    forall|i: int| 0 <= i < req.len() ==> contains_name(avail, #[trigger] req[i])
}

/// A one-name request is available exactly when that name is.
pub proof fn lemma_singleton_contained(name: Seq<char>, avail: Seq<Seq<char>>)
    ensures
        all_contained(seq![name], avail) <==> contains_name(avail, name),
{
    if all_contained(seq![name], avail) {
        assert(contains_name(avail, seq![name][0]));
    }
    if contains_name(avail, name) {
        assert forall|i: int| 0 <= i < seq![name].len() implies contains_name(
            avail,
            #[trigger] seq![name][i],
        ) by {
            assert(seq![name][i] == name);
        }
    }
}

/// Whether `name` occurs in `avail`.
pub fn list_contains(avail: &Vec<String>, name: &String) -> (r: bool)
    ensures
        r == contains_name(name_views(avail@), name@),
{
    let mut j: usize = 0;
    while j < avail.len()
        invariant
            j <= avail.len(),
            forall|k: int| 0 <= k < j ==> name_views(avail@)[k] != name@,
        decreases avail.len() - j,
    {
        if avail[j] == *name {
            assert(name_views(avail@)[j as int] == name@);
            return true;
        }
        j += 1;
    }
    false
}

/// Whether every requested name is available.
pub fn all_available(req: &Vec<String>, avail: &Vec<String>) -> (r: bool)
    ensures
        r == all_contained(name_views(req@), name_views(avail@)),
{
    let mut i: usize = 0;
    while i < req.len()
        invariant
            i <= req.len(),
            forall|k: int| 0 <= k < i ==> contains_name(
                name_views(avail@),
                #[trigger] name_views(req@)[k],
            ),
        decreases req.len() - i,
    {
        if !list_contains(avail, &req[i]) {
            assert(!contains_name(name_views(avail@), name_views(req@)[i as int]));
            return false;
        }
        i += 1;
    }
    true
}

} // verus!
