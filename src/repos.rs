use crate::model::RepoConfig;
use indexmap::IndexMap;
use vstd::prelude::*;

verus! {

#[verifier::external_type_specification]
#[verifier::external_body]
#[verifier::reject_recursive_types(K)]
#[verifier::reject_recursive_types(V)]
#[verifier::reject_recursive_types(S)]
pub struct ExIndexMap<K, V, S>(IndexMap<K, V, S>);

/// The entries of a repository table, keyed by repository identifier, in the
/// order in which their keys were first inserted.
pub uninterp spec fn repo_entries(m: IndexMap<u128, RepoConfig>) -> Seq<(u128, RepoConfig)>;

/// Some entry of `s` has key `k`.
pub open spec fn has_key(s: Seq<(u128, RepoConfig)>, k: u128) -> bool {
    exists|i: int| 0 <= i < s.len() && (#[trigger] s[i]).0 == k
}

/// No two entries of `s` share a key.
pub open spec fn keys_distinct(s: Seq<(u128, RepoConfig)>) -> bool {
    forall|i: int, j: int|
        0 <= i < s.len() && 0 <= j < s.len() && i != j ==> (#[trigger] s[i]).0 != (#[trigger] s[j]).0
}

/// The position of the entry with key `k`, where there is one.
pub open spec fn key_index(s: Seq<(u128, RepoConfig)>, k: u128) -> int {
    choose|i: int| 0 <= i < s.len() && (#[trigger] s[i]).0 == k
}

/// The value stored under `k`, if any.
pub open spec fn lookup(s: Seq<(u128, RepoConfig)>, k: u128) -> Option<RepoConfig> {
    if has_key(s, k) {
        Some(s[key_index(s, k)].1)
    } else {
        None
    }
}

/// The entries after inserting `v` under `k`: an existing key keeps its
/// place and takes the new value, a new key goes last.
pub open spec fn inserted(s: Seq<(u128, RepoConfig)>, k: u128, v: RepoConfig) -> Seq<(u128, RepoConfig)> {
    if has_key(s, k) {
        s.update(key_index(s, k), (k, v))
    } else {
        s.push((k, v))
    }
}

/// Relies on `IndexMap::new`: a new map has no entries.
#[verifier::external_body]
pub(crate) fn repos_new() -> (r: IndexMap<u128, RepoConfig>)
    ensures
        repo_entries(r) == Seq::<(u128, RepoConfig)>::empty(),
{
    IndexMap::new()
}

/// Relies on `IndexMap::len`: the number of entries.
#[verifier::external_body]
pub(crate) fn repos_len(m: &IndexMap<u128, RepoConfig>) -> (r: usize)
    ensures
        r == repo_entries(*m).len(),
{
    m.len()
}

/// Relies on `IndexMap::get_index`: the entry at a position of the order.
#[verifier::external_body]
pub(crate) fn repos_get_index(m: &IndexMap<u128, RepoConfig>, i: usize) -> (r: Option<(u128, &RepoConfig)>)
    ensures
        r is Some <==> i < repo_entries(*m).len(),
        r matches Some(p) ==> p.0 == repo_entries(*m)[i as int].0 && *p.1 == repo_entries(*m)[i as int].1,
{
    m.get_index(i).map(|(k, v)| (*k, v))
}

/// Relies on `IndexMap::get`: the value stored under a key, if any.
#[verifier::external_body]
pub(crate) fn repos_get(m: &IndexMap<u128, RepoConfig>, k: u128) -> (r: Option<&RepoConfig>)
    ensures
        match r {
            Some(v) => exists|i: int|
                0 <= i < repo_entries(*m).len() && #[trigger] repo_entries(*m)[i] == (k, *v),
            None => !has_key(repo_entries(*m), k),
        },
{
    m.get(&k)
}

/// Relies on `IndexMap::insert`: an existing key keeps its place and takes
/// the new value, whose predecessor is handed back; a new key goes last.
#[verifier::external_body]
pub(crate) fn repos_insert(m: &mut IndexMap<u128, RepoConfig>, k: u128, v: RepoConfig) -> (r: Option<RepoConfig>)
    ensures
        forall|i: int|
            0 <= i < repo_entries(*old(m)).len() && #[trigger] repo_entries(*old(m))[i].0 == k
                ==> repo_entries(*final(m)) == repo_entries(*old(m)).update(i, (k, v))
                && r == Some(repo_entries(*old(m))[i].1),
        !has_key(repo_entries(*old(m)), k) ==> repo_entries(*final(m)) == repo_entries(*old(m)).push((k, v))
            && r is None,
{
    m.insert(k, v)
}

} // verus!
