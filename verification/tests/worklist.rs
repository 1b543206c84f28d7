use oggfetch::catalog::{AlbumMetadata, PlaylistMetadata, RefKind, Reference, ShowInfo, ShowMetadata, WorkItem};
use oggfetch::expand::{expand, needs_fetch, ExpandError, Fetched};
use oggfetch::reference::{parse_line, Line};
use oggfetch::worklist::WorkList;

fn entries(list: &WorkList) -> Vec<(u128, WorkItem)> {
    let mut out = Vec::new();
    let mut i = 0;
    while let Some((id, item)) = list.get(i) {
        out.push((id, item.clone()));
        i += 1;
    }
    assert_eq!(out.len(), list.len());
    out
}

fn track(album: Option<&str>) -> WorkItem {
    WorkItem::Track { album: album.map(|s| s.to_string()) }
}

#[test]
fn new_list_is_empty() {
    let list = WorkList::new();
    assert_eq!(list.len(), 0);
    assert!(list.get(0).is_none());
}

#[test]
fn order_is_first_occurrence() {
    let mut list = WorkList::new();
    for id in [5u128, 9, 5, 2, 9, 7] {
        list.insert(id, track(None));
    }
    let ids: Vec<u128> = entries(&list).into_iter().map(|e| e.0).collect();
    assert_eq!(ids, vec![5, 9, 2, 7]);
}

#[test]
fn relisting_updates_item_but_not_position() {
    let mut list = WorkList::new();
    list.insert(1, track(None));
    list.insert(2, track(None));
    list.insert(3, track(None));
    list.insert(2, WorkItem::Episode { show: None });
    list.insert(1, track(Some("Blue")));
    assert_eq!(
        entries(&list),
        vec![(1, track(Some("Blue"))), (2, WorkItem::Episode { show: None }), (3, track(None))]
    );
}

#[test]
fn get_past_the_end_is_none() {
    let mut list = WorkList::new();
    list.insert(4, track(None));
    assert_eq!(list.get(0), Some((4, &track(None))));
    assert!(list.get(1).is_none());
}

#[test]
fn album_with_repeated_track() {
    let line = parse_line("album:AAA1");
    let reference = match line {
        Ok(Line::Reference(r)) => r,
        other => panic!("no reference: {:?}", other),
    };
    assert_eq!(reference, Reference { kind: RefKind::Album, id: 8720425 });
    assert_eq!(parse_line("done\n"), Ok(Line::Done));
    assert!(needs_fetch(reference.kind));
    let album = AlbumMetadata { name: "First".to_string(), tracks: vec![3411, 3412, 3411] };
    let mut list = WorkList::new();
    assert_eq!(expand(&mut list, reference, &Fetched::Album(album)), Ok(()));
    assert_eq!(entries(&list), vec![(3411, track(Some("First"))), (3412, track(Some("First")))]);
}

#[test]
fn playlist_keeps_order_without_grouping() {
    let playlist = PlaylistMetadata { tracks: vec![30, 10, 20, 10] };
    let mut list = WorkList::new();
    let reference = Reference { kind: RefKind::Playlist, id: 77 };
    assert_eq!(expand(&mut list, reference, &Fetched::Playlist(playlist)), Ok(()));
    assert_eq!(entries(&list), vec![(30, track(None)), (10, track(None)), (20, track(None))]);
}

#[test]
fn show_is_reversed_once() {
    let show = ShowMetadata { name: "Pod".to_string(), publisher: "Pub".to_string(), episodes: vec![103, 102, 101] };
    let mut list = WorkList::new();
    let reference = Reference { kind: RefKind::Show, id: 3349 };
    assert_eq!(expand(&mut list, reference, &Fetched::Show(show)), Ok(()));
    let info = ShowInfo { name: "Pod".to_string(), publisher: "Pub".to_string() };
    let episode = WorkItem::Episode { show: Some(info) };
    assert_eq!(entries(&list), vec![(101, episode.clone()), (102, episode.clone()), (103, episode)]);
}

#[test]
fn empty_show_adds_nothing() {
    let show = ShowMetadata { name: "Pod".to_string(), publisher: "Pub".to_string(), episodes: vec![] };
    let mut list = WorkList::new();
    list.add_show(&show);
    assert_eq!(list.len(), 0);
}

#[test]
fn leaves_are_listed_directly() {
    let mut list = WorkList::new();
    assert!(!needs_fetch(RefKind::Track));
    assert!(!needs_fetch(RefKind::Episode));
    assert!(needs_fetch(RefKind::Playlist));
    assert!(needs_fetch(RefKind::Show));
    assert_eq!(expand(&mut list, Reference { kind: RefKind::Track, id: 8 }, &Fetched::Nothing), Ok(()));
    assert_eq!(expand(&mut list, Reference { kind: RefKind::Episode, id: 6 }, &Fetched::Nothing), Ok(()));
    assert_eq!(entries(&list), vec![(8, track(None)), (6, WorkItem::Episode { show: None })]);
}

#[test]
fn album_context_reaches_a_track_listed_before() {
    let mut list = WorkList::new();
    assert_eq!(expand(&mut list, Reference { kind: RefKind::Track, id: 2 }, &Fetched::Nothing), Ok(()));
    let album = AlbumMetadata { name: "Late".to_string(), tracks: vec![1, 2] };
    list.add_album(&album);
    assert_eq!(entries(&list), vec![(2, track(Some("Late"))), (1, track(Some("Late")))]);
}

#[test]
fn failed_container_is_an_error() {
    let mut list = WorkList::new();
    list.insert(1, track(None));
    for kind in [RefKind::Album, RefKind::Playlist, RefKind::Show] {
        let r = expand(&mut list, Reference { kind, id: 9 }, &Fetched::Failed);
        assert_eq!(r, Err(ExpandError::Unreachable));
    }
    assert_eq!(entries(&list), vec![(1, track(None))]);
}

#[test]
fn wrong_answer_is_a_mismatch() {
    let mut list = WorkList::new();
    let playlist = PlaylistMetadata { tracks: vec![1] };
    let r = expand(&mut list, Reference { kind: RefKind::Album, id: 9 }, &Fetched::Playlist(playlist));
    assert_eq!(r, Err(ExpandError::Mismatch));
    let r = expand(&mut list, Reference { kind: RefKind::Track, id: 9 }, &Fetched::Failed);
    assert_eq!(r, Err(ExpandError::Mismatch));
    let r = expand(&mut list, Reference { kind: RefKind::Show, id: 9 }, &Fetched::Nothing);
    assert_eq!(r, Err(ExpandError::Mismatch));
    assert_eq!(list.len(), 0);
}
