//! Expansion of references into leaves of the work list.

use crate::catalog::{AlbumMetadata, CatalogId, PlaylistMetadata, RefKind, Reference, ShowInfo, ShowMetadata, WorkItem};
use crate::worklist::{
    append_new, distinct_keys, keys_of, lemma_first_occurrence_order, lemma_first_occurrences_of_distinct,
    lemma_listing_order, upsert, upsert_all, WorkList,
};
use vstd::prelude::*;

verus! {

/// What the catalog answered when a container reference was looked up.
#[derive(Debug, PartialEq, Eq)]
pub enum Fetched {
    /// Nothing was asked: the reference is a leaf.
    Nothing,
    Album(AlbumMetadata),
    Playlist(PlaylistMetadata),
    Show(ShowMetadata),
    /// The lookup failed.
    Failed,
}

/// Why a reference could not be expanded.
#[derive(Clone, Copy, Debug, PartialEq, Eq, Structural)]
pub enum ExpandError {
    /// The container could not be fetched.
    Unreachable,
    /// What was fetched is not what the reference names.
    Mismatch,
}

/// Whether a reference of this kind names a container, to be fetched
/// before it can be expanded.
pub open spec fn is_container(kind: RefKind) -> bool {
    kind == RefKind::Album || kind == RefKind::Playlist || kind == RefKind::Show
}

/// The leaves of an album: its tracks in the album's order, each with the
/// album's name.
pub open spec fn album_leaves(album: AlbumMetadata) -> Seq<(CatalogId, WorkItem)> {
    Seq::new(album.tracks@.len(), |i: int| (album.tracks@[i], WorkItem::Track { album: Some(album.name) }))
}

/// The leaves of a playlist: its tracks in the playlist's order, grouping
/// unknown.
pub open spec fn playlist_leaves(playlist: PlaylistMetadata) -> Seq<(CatalogId, WorkItem)> {
    Seq::new(playlist.tracks@.len(), |i: int| (playlist.tracks@[i], WorkItem::Track { album: None }))
}

/// The leaves of a show: its episodes, last of the catalog's list first,
/// each with the show's name and publisher.
pub open spec fn show_leaves(show: ShowMetadata) -> Seq<(CatalogId, WorkItem)> {
    Seq::new(
        show.episodes@.len(),
        |i: int| (
            show.episodes@[show.episodes@.len() - 1 - i],
            WorkItem::Episode { show: Some(ShowInfo { name: show.name, publisher: show.publisher }) },
        ),
    )
}

/// The leaves that a reference stands for, given the catalog's answer, or
/// the reason why there are none.
pub open spec fn leaves_of(reference: Reference, fetched: Fetched) -> Result<Seq<(CatalogId, WorkItem)>, ExpandError> {
    match (reference.kind, fetched) {
        (RefKind::Track, Fetched::Nothing) => Ok(seq![(reference.id, WorkItem::Track { album: None })]),
        (RefKind::Episode, Fetched::Nothing) => Ok(seq![(reference.id, WorkItem::Episode { show: None })]),
        (RefKind::Album, Fetched::Album(album)) => Ok(album_leaves(album)),
        (RefKind::Playlist, Fetched::Playlist(playlist)) => Ok(playlist_leaves(playlist)),
        (RefKind::Show, Fetched::Show(show)) => Ok(show_leaves(show)),
        (RefKind::Album, Fetched::Failed) => Err(ExpandError::Unreachable),
        (RefKind::Playlist, Fetched::Failed) => Err(ExpandError::Unreachable),
        (RefKind::Show, Fetched::Failed) => Err(ExpandError::Unreachable),
        _ => Err(ExpandError::Mismatch),
    }
}

/// Tells whether the catalog has to be asked before `kind` is expanded.
pub fn needs_fetch(kind: RefKind) -> (r: bool)
    ensures
        r == is_container(kind),
{
    match kind {
        RefKind::Album | RefKind::Playlist | RefKind::Show => true,
        RefKind::Track | RefKind::Episode => false,
    }
}

impl WorkList {
    /// Lists every track of an album, in the album's order, with the
    /// album's name as grouping.
    pub fn add_album(&mut self, album: &AlbumMetadata)
        requires
            old(self).wf(),
        ensures
            final(self).wf(),
            final(self)@ == upsert_all(old(self)@, album_leaves(*album)),
    {
        let ghost leaves = album_leaves(*album);
        let mut i: usize = 0;
        while i < album.tracks.len()
            invariant
                0 <= i <= album.tracks@.len(),
                leaves == album_leaves(*album),
                self.wf(),
                self@ == upsert_all(old(self)@, leaves.take(i as int)),
            decreases album.tracks@.len() - i,
        {
            let id = album.tracks[i];
            let name = album.name.clone();
            proof {
                assert(leaves.take(i + 1).drop_last() =~= leaves.take(i as int));
                assert(leaves.take(i + 1).last() == (id, WorkItem::Track { album: Some(name) }));
            }
            self.insert(id, WorkItem::Track { album: Some(name) });
            i += 1;
        }
        proof {
            assert(leaves.take(i as int) =~= leaves);
        }
    }

    /// Lists every track of a playlist, in the playlist's order.
    pub fn add_playlist(&mut self, playlist: &PlaylistMetadata)
        requires
            old(self).wf(),
        ensures
            final(self).wf(),
            final(self)@ == upsert_all(old(self)@, playlist_leaves(*playlist)),
    {
        let ghost leaves = playlist_leaves(*playlist);
        let mut i: usize = 0;
        while i < playlist.tracks.len()
            invariant
                0 <= i <= playlist.tracks@.len(),
                leaves == playlist_leaves(*playlist),
                self.wf(),
                self@ == upsert_all(old(self)@, leaves.take(i as int)),
            decreases playlist.tracks@.len() - i,
        {
            let id = playlist.tracks[i];
            proof {
                assert(leaves.take(i + 1).drop_last() =~= leaves.take(i as int));
                assert(leaves.take(i + 1).last() == (id, WorkItem::Track { album: None }));
            }
            self.insert(id, WorkItem::Track { album: None });
            i += 1;
        }
        proof {
            assert(leaves.take(i as int) =~= leaves);
        }
    }

    /// Lists every episode of a show, oldest first: the catalog's list is
    /// walked from its end. Each episode carries the show's name and
    /// publisher.
    pub fn add_show(&mut self, show: &ShowMetadata)
        requires
            old(self).wf(),
        ensures
            final(self).wf(),
            final(self)@ == upsert_all(old(self)@, show_leaves(*show)),
    {
        let ghost leaves = show_leaves(*show);
        let n = show.episodes.len();
        let mut i: usize = 0;
        while i < n
            invariant
                0 <= i <= n,
                n == show.episodes@.len(),
                leaves == show_leaves(*show),
                self.wf(),
                self@ == upsert_all(old(self)@, leaves.take(i as int)),
            decreases n - i,
        {
            let id = show.episodes[n - 1 - i];
            let info = ShowInfo { name: show.name.clone(), publisher: show.publisher.clone() };
            proof {
                assert(leaves.take(i + 1).drop_last() =~= leaves.take(i as int));
                assert(leaves.take(i + 1).last() == (id, WorkItem::Episode { show: Some(info) }));
            }
            self.insert(id, WorkItem::Episode { show: Some(info) });
            i += 1;
        }
        proof {
            assert(leaves.take(i as int) =~= leaves);
        }
    }
}

/// Expands one reference into the work list. A leaf is listed as it is; a
/// container is replaced by its leaves, taken from the catalog's answer.
/// On an error the list stays as it was.
pub fn expand(list: &mut WorkList, reference: Reference, fetched: &Fetched) -> (r: Result<(), ExpandError>)
    requires
        old(list).wf(),
    ensures
        final(list).wf(),
        match leaves_of(reference, *fetched) {
            Ok(leaves) => r.is_ok() && final(list)@ == upsert_all(old(list)@, leaves) && keys_of(final(list)@)
                == append_new(keys_of(old(list)@), keys_of(leaves)),
            Err(e) => r == Err::<(), ExpandError>(e) && final(list)@ == old(list)@,
        },
{
    proof {
        if let Ok(leaves) = leaves_of(reference, *fetched) {
            lemma_listing_order(list@, leaves);
        }
    }
    match (reference.kind, fetched) {
        (RefKind::Track, Fetched::Nothing) => {
            proof {
                lemma_single(list@, reference.id, WorkItem::Track { album: None });
            }
            list.insert(reference.id, WorkItem::Track { album: None });
            Ok(())
        },
        (RefKind::Episode, Fetched::Nothing) => {
            proof {
                lemma_single(list@, reference.id, WorkItem::Episode { show: None });
            }
            list.insert(reference.id, WorkItem::Episode { show: None });
            Ok(())
        },
        (RefKind::Album, Fetched::Album(album)) => {
            list.add_album(album);
            Ok(())
        },
        (RefKind::Playlist, Fetched::Playlist(playlist)) => {
            list.add_playlist(playlist);
            Ok(())
        },
        (RefKind::Show, Fetched::Show(show)) => {
            list.add_show(show);
            Ok(())
        },
        (RefKind::Album, Fetched::Failed) => Err(ExpandError::Unreachable),
        (RefKind::Playlist, Fetched::Failed) => Err(ExpandError::Unreachable),
        (RefKind::Show, Fetched::Failed) => Err(ExpandError::Unreachable),
        _ => Err(ExpandError::Mismatch),
    }
}

proof fn lemma_single(s: Seq<(CatalogId, WorkItem)>, id: CatalogId, item: WorkItem)
    ensures
        upsert_all(s, seq![(id, item)]) == upsert(s, id, item),
{
    let one = seq![(id, item)];
    assert(one.drop_last() =~= Seq::<(CatalogId, WorkItem)>::empty());
    assert(upsert_all(s, one.drop_last()) == s);
    assert(one.last() == (id, item));
}

/// The leaves of a show are the catalog's episodes in reverse.
pub proof fn lemma_show_leaves_reversed(show: ShowMetadata)
    ensures
        keys_of(show_leaves(show)) == show.episodes@.reverse(),
{
    assert(keys_of(show_leaves(show)) =~= show.episodes@.reverse());
}

/// A show whose episodes are pairwise different, expanded into an empty
/// list, gives exactly the catalog's episode order reversed.
pub proof fn lemma_show_is_chronological(show: ShowMetadata)
    requires
        show.episodes@.no_duplicates(),
    ensures
        distinct_keys(upsert_all(Seq::empty(), show_leaves(show))),
        keys_of(upsert_all(Seq::empty(), show_leaves(show))) == show.episodes@.reverse(),
{
    lemma_show_leaves_reversed(show);
    lemma_first_occurrence_order(show_leaves(show));
    let r = show.episodes@.reverse();
    assert(r.no_duplicates()) by {
        assert forall|i: int, j: int| 0 <= i < r.len() && 0 <= j < r.len() && i != j implies r[i] != r[j] by {
            assert(r[i] == show.episodes@[r.len() - 1 - i]);
            assert(r[j] == show.episodes@[r.len() - 1 - j]);
        }
    }
    lemma_first_occurrences_of_distinct(r);
}

} // verus!
