//! The hash map from names to positions, hashed with FNV.

use vstd::prelude::*;
use fnv::FnvHashMap;

verus! {

/// The hasher of the `fnv` crate, which the map's hasher builder makes.
#[verifier::external_type_specification]
#[verifier::external_body]
pub struct ExFnvHasher(fnv::FnvHasher);

/// The hasher builder of std that `fnv::FnvBuildHasher` is an alias of.
#[verifier::external_type_specification]
#[verifier::external_body]
#[verifier::reject_recursive_types(H)]
pub struct ExBuildHasherDefault<H>(core::hash::BuildHasherDefault<H>);

/// What a map from names to positions holds: for each name in it, as a
/// character sequence, the position stored under it.
pub uninterp spec fn name_index_entries(m: FnvHashMap<String, usize>) -> Map<Seq<char>, usize>;

/// An empty map.
///
/// Calls `Default::default` of `fnv::FnvHashMap`, which is std's `HashMap`
/// with the FNV hasher: the contract claims that the new map holds no name.
#[verifier::external_body]
pub(crate) fn name_index_new() -> (m: FnvHashMap<String, usize>)
    ensures
        forall|n: Seq<char>| !name_index_entries(m).contains_key(n),
{
    FnvHashMap::default()
}

/// The position stored under `name`.
///
/// Calls `HashMap::get` on a `fnv::FnvHashMap`: the contract claims that the
/// result is the value stored under the key with the characters of `name`,
/// and nothing where the map holds no such key.
#[verifier::external_body]
pub(crate) fn name_index_get<'a>(m: &'a FnvHashMap<String, usize>, name: &str) -> (r: Option<
    &'a usize,
>)
    ensures
        r == (if name_index_entries(*m).contains_key(name@) {
            Some(&name_index_entries(*m)[name@])
        } else {
            None
        }),
{
    m.get(name)
}

/// Stores `at` under `name`.
///
/// Calls `HashMap::insert` on a `fnv::FnvHashMap`: the contract claims that
/// afterwards the map holds `at` under the characters of `name` and is
/// unchanged under every other name, and that the result is the position
/// that was stored under `name` before, if there was one.
#[verifier::external_body]
pub(crate) fn name_index_insert(m: &mut FnvHashMap<String, usize>, name: String, at: usize) -> (r:
    Option<usize>)
    ensures
        name_index_entries(*final(m)) == name_index_entries(*old(m)).insert(name@, at),
        r == (if name_index_entries(*old(m)).contains_key(name@) {
            Some(name_index_entries(*old(m))[name@])
        } else {
            None
        }),
{
    m.insert(name, at)
}

} // verus!
