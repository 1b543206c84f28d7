//! Plain data describing catalog entities.

use linear_map::LinearMap;
use vstd::prelude::*;

verus! {

/// An opaque, globally unique identifier of a catalog entity.
pub type CatalogId = u128;

/// The handle of one encoded file of a track or an episode.
pub type FileHandle = [u8; 20];

/// The key that decrypts one file.
pub type KeyMaterial = [u8; 16];

/// The encodings of an item: from the catalog's format code to the file.
pub type FileCatalog = LinearMap<i32, FileHandle>;

/// Name and publisher of a show, the grouping of an episode.
#[derive(Clone, Debug, PartialEq, Eq)]
pub struct ShowInfo {
    pub name: String,
    pub publisher: String,
}

/// A leaf of the work list: a track or an episode, with the grouping
/// that was already known when it was listed.
#[derive(Clone, Debug, PartialEq, Eq)]
pub enum WorkItem {
    Track { album: Option<String> },
    Episode { show: Option<ShowInfo> },
}

/// The kinds of reference that a line of input can hold.
#[derive(Clone, Copy, Debug, PartialEq, Eq, Structural)]
pub enum RefKind {
    Playlist,
    Track,
    Album,
    Episode,
    Show,
}

/// A parsed reference: a kind and the id it points to.
#[derive(Clone, Copy, Debug, PartialEq, Eq, Structural)]
pub struct Reference {
    pub kind: RefKind,
    pub id: CatalogId,
}

/// An album as the catalog describes it.
#[derive(Debug, PartialEq, Eq)]
pub struct AlbumMetadata {
    pub name: String,
    pub tracks: Vec<CatalogId>,
}

/// A playlist as the catalog describes it.
#[derive(Debug, PartialEq, Eq)]
pub struct PlaylistMetadata {
    pub tracks: Vec<CatalogId>,
}

/// A show as the catalog describes it: episodes come newest first.
#[derive(Debug, PartialEq, Eq)]
pub struct ShowMetadata {
    pub name: String,
    pub publisher: String,
    pub episodes: Vec<CatalogId>,
}

/// A track as the catalog describes it.
#[derive(Debug, PartialEq, Eq)]
pub struct TrackMetadata {
    pub id: CatalogId,
    pub name: String,
    pub available: bool,
    pub files: FileCatalog,
    pub artists: Vec<CatalogId>,
    pub album: CatalogId,
    pub alternatives: Vec<CatalogId>,
}

/// An episode as the catalog describes it.
#[derive(Debug, PartialEq, Eq)]
pub struct EpisodeMetadata {
    pub id: CatalogId,
    pub name: String,
    pub available: bool,
    pub files: FileCatalog,
    pub show: CatalogId,
}

} // verus!
