//! Mounting the routes of a description under a path prefix.

use vstd::prelude::*;
use vstd::string::StringExecFns;
use openapiv3::{PathItem, Paths, ReferenceOr};
use crate::document::{keyed, keys, paths_with_routes, replace_routes, route_entries, routes};

verus! {

/// The routes `entries` with `prefix` put in front of every route path;
/// entries and order are kept.
pub open spec fn prefixed<V>(entries: Seq<(Seq<char>, V)>, prefix: Seq<char>) -> Seq<
    (Seq<char>, V),
> {
    Seq::new(entries.len(), |i: int| (prefix + entries[i].0, entries[i].1))
}

/// Two route paths that are equal after the same prefix are equal.
pub proof fn lemma_prefix_cancels(prefix: Seq<char>, a: Seq<char>, b: Seq<char>)
    requires
        prefix + a == prefix + b,
    ensures
        a == b,
{
    assert(a =~= (prefix + a).subrange(prefix.len() as int, (prefix + a).len() as int));
    assert(b =~= (prefix + b).subrange(prefix.len() as int, (prefix + b).len() as int));
}

/// Prefixing is exact on the route paths and merges none: the rewritten
/// routes are as many as there were, their route paths are exactly the
/// former ones with the prefix in front, each once, and under each stands the
/// entry that stood under the former path.
pub proof fn lemma_prefixed_routes<V>(entries: Seq<(Seq<char>, V)>, prefix: Seq<char>)
    requires
        keys(entries).no_duplicates(),
    ensures
        prefixed(entries, prefix).len() == entries.len(),
        keys(prefixed(entries, prefix)).no_duplicates(),
        keys(prefixed(entries, prefix)).to_set() == keys(entries).to_set().map(
            |k: Seq<char>| prefix + k,
        ),
        keys(prefixed(entries, prefix)).to_set().len() == keys(entries).to_set().len(),
        forall|i: int|
            0 <= i < entries.len() ==> (#[trigger] prefixed(entries, prefix)[i]) == (
                prefix + entries[i].0,
                entries[i].1,
            ),
{
    let old_keys = keys(entries);
    let new_keys = keys(prefixed(entries, prefix));
    assert forall|i: int, j: int|
        0 <= i < new_keys.len() && 0 <= j < new_keys.len() && i != j implies new_keys[i]
        != new_keys[j] by {
        if new_keys[i] == new_keys[j] {
            lemma_prefix_cancels(prefix, old_keys[i], old_keys[j]);
        }
    }
    let f = |k: Seq<char>| prefix + k;
    assert(new_keys =~= old_keys.map_values(f));
    old_keys.lemma_to_set_map_commutes(f);
    old_keys.unique_seq_to_set();
    new_keys.unique_seq_to_set();
}

/// Puts `path_prefix` in front of every route path of `entries`.
pub fn rewrite_entries<V>(entries: Vec<(String, V)>, path_prefix: &str) -> (rewritten: Vec<
    (String, V),
>)
    ensures
        rewritten@.len() == entries@.len(),
        keyed(rewritten@) == prefixed(keyed(entries@), path_prefix@),
{
    let ghost given = entries@;
    let mut rewritten: Vec<(String, V)> = Vec::new();
    for entry in it: entries
        invariant
            it.seq() == given,
            rewritten@.len() == it.index(),
            forall|i: int|
                0 <= i < rewritten@.len() ==> (#[trigger] rewritten@[i]).0@ == path_prefix@
                    + given[i].0@ && rewritten@[i].1 == given[i].1,
    {
        let (path, item) = entry;
        let mut new_path = path_prefix.to_owned();
        new_path.append(path.as_str());
        rewritten.push((new_path, item));
    }
    assert(keyed(rewritten@) =~= prefixed(keyed(given), path_prefix@));
    rewritten
}

/// The route table `paths` with `path_prefix` in front of every route path.
/// Every entry is carried over as it is, under its rewritten path and at its
/// place in the order; no route is dropped and no two are merged. The table
/// is taken by value: whoever keeps a copy of it keeps it as it was.
pub fn rewrite_paths(paths: Paths, path_prefix: &str) -> (new_paths: Paths)
    ensures
        routes(new_paths) == prefixed(routes(paths), path_prefix@),
        new_paths == paths_with_routes(paths, prefixed(routes(paths), path_prefix@)),
        routes(new_paths).len() == routes(paths).len(),
        keys(routes(new_paths)).no_duplicates(),
        keys(routes(new_paths)).to_set() == keys(routes(paths)).to_set().map(
            |k: Seq<char>| path_prefix@ + k,
        ),
        keys(routes(new_paths)).to_set().len() == keys(routes(paths)).to_set().len(),
{
    let entries = route_entries(&paths);
    let rewritten = rewrite_entries(entries, path_prefix);
    proof {
        lemma_prefixed_routes(routes(paths), path_prefix@);
    }
    let mut new_paths = paths;
    replace_routes(&mut new_paths, rewritten);
    new_paths
}

} // verus!
