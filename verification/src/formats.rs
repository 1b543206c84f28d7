//! Choice of the encoding to fetch.

use crate::catalog::{FileCatalog, FileHandle};
use linear_map::LinearMap;
use vstd::prelude::*;

verus! {

#[verifier::external_type_specification]
#[verifier::external_body]
#[verifier::reject_recursive_types(K)]
#[verifier::reject_recursive_types(V)]
pub struct ExLinearMap<K, V>(LinearMap<K, V>);

/// What a `linear_map::LinearMap` maps each of its keys to.
pub uninterp spec fn linear_map_contents(m: FileCatalog) -> Map<i32, FileHandle>;

/// `LinearMap::get`: the value of a key that the map holds, nothing for
/// any other key.
#[verifier::external_body]
fn linear_map_get(m: &FileCatalog, key: i32) -> (r: Option<FileHandle>)
    ensures
        r == lookup(linear_map_contents(*m), key),
{
    m.get(&key).copied()
}

/// Format code of Ogg Vorbis at 96 kbit/s.
pub const OGG_VORBIS_96: i32 = 0;

/// Format code of Ogg Vorbis at 160 kbit/s.
pub const OGG_VORBIS_160: i32 = 1;

/// Format code of Ogg Vorbis at 320 kbit/s.
pub const OGG_VORBIS_320: i32 = 2;

/// The file that `files` holds for `format`, if any.
pub open spec fn lookup(files: Map<i32, FileHandle>, format: i32) -> Option<FileHandle> {
    if files.contains_key(format) {
        Some(files[format])
    } else {
        None
    }
}

/// The file of the best Ogg Vorbis encoding on offer: 320 kbit/s before
/// 160 before 96. Nothing where none of the three is on offer.
pub open spec fn preferred(files: Map<i32, FileHandle>) -> Option<FileHandle> {
    if files.contains_key(OGG_VORBIS_320) {
        Some(files[OGG_VORBIS_320])
    } else if files.contains_key(OGG_VORBIS_160) {
        Some(files[OGG_VORBIS_160])
    } else if files.contains_key(OGG_VORBIS_96) {
        Some(files[OGG_VORBIS_96])
    } else {
        None
    }
}

/// Picks the file to fetch by the fixed order of preference.
pub fn get_usable_file_id(files: &FileCatalog) -> (r: Option<FileHandle>)
    ensures
        r == preferred(linear_map_contents(*files)),
{
    match linear_map_get(files, OGG_VORBIS_320) {
        Some(file) => Some(file),
        None => match linear_map_get(files, OGG_VORBIS_160) {
            Some(file) => Some(file),
            None => linear_map_get(files, OGG_VORBIS_96),
        },
    }
}

} // verus!
