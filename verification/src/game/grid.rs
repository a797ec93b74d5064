//! The hash map that holds the track, and what this library takes on trust
//! about it.
//!
//! `ahash::AHashMap` is a thin wrapper around the standard `HashMap` with
//! another hasher: each of its methods that is used here hands the call on to
//! the standard map. Nothing in this file is proved. The contracts restate
//! what the documentation of the standard map says of a map whose keys are
//! `usize`, for which hashing and equality agree.

use crate::game::level::Tile;
use ahash::AHashMap;
use vstd::prelude::*;

verus! {

/// `ahash::AHashMap`, of which the verifier sees nothing but the name.
#[verifier::external_type_specification]
#[verifier::external_body]
#[verifier::reject_recursive_types(K)]
#[verifier::reject_recursive_types(V)]
#[verifier::reject_recursive_types(S)]
pub struct ExAHashMap<K, V, S>(ahash::AHashMap<K, V, S>);

/// `ahash::RandomState`, the hasher of the map, of which the verifier sees
/// nothing but the name.
#[verifier::external_type_specification]
#[verifier::external_body]
pub struct ExRandomState(ahash::RandomState);

/// What a track holds: for each flattened index that has a tile, that tile.
/// It stands for the entries of the `AHashMap`; the three functions below say
/// how `with_hasher`, `insert` and `get` read and change them.
pub uninterp spec fn grid_tiles(grid: AHashMap<usize, Tile>) -> Map<usize, Tile>;

/// `AHashMap::with_hasher`, over a hasher that `RandomState::with_seeds`
/// makes from four fixed numbers: a map with no entry. Neither call reads
/// anything from the system, so neither can fail; the hasher only decides
/// where the map keeps an entry, not what the map holds.
#[verifier::external_body]
pub(crate) fn grid_new() -> (grid: AHashMap<usize, Tile>)
    ensures
        grid_tiles(grid) == (Map::<usize, Tile>::empty()),
{
    AHashMap::with_hasher(ahash::RandomState::with_seeds(0, 0, 0, 0))
}

/// `AHashMap::insert`: afterwards the map holds `tile` under `index`, in
/// place of what it held there before, and every other entry is as it was.
/// The tile that was replaced, which `insert` returns, is dropped.
#[verifier::external_body]
pub(crate) fn grid_insert(grid: &mut AHashMap<usize, Tile>, index: usize, tile: Tile)
    ensures
        grid_tiles(*final(grid)) == grid_tiles(*old(grid)).insert(index, tile),
{
    grid.insert(index, tile);
}

/// `AHashMap::get`: a copy of the tile held under `index`, or nothing if the
/// map has no entry there.
#[verifier::external_body]
pub(crate) fn grid_get(grid: &AHashMap<usize, Tile>, index: usize) -> (found: Option<Tile>)
    ensures
        found == (if grid_tiles(*grid).dom().contains(index) {
            Some(grid_tiles(*grid)[index])
        } else {
            None
        }),
{
    grid.get(&index).copied()
}

} // verus!
