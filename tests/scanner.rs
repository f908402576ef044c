use harmony::album::AlbumRecord;
use harmony::api::{list_len, AlbumListParameters, AlbumListType};
use harmony::catalog::{ArtistRecord, CatalogOp, FileRecord};
use harmony::epub::EpubMetadata;
use harmony::scanner::{
    file_kind, fresh_ids, plan_album_cleanup, plan_book, plan_file_cleanup, plan_track,
    scan_audio, scan_book, scan_step, trim_names, AlbumTrackCount, FileKind, ScanStep, TrackInfo,
};

fn s(v: &[&str]) -> Vec<String> {
    v.iter().map(|x| x.to_string()).collect()
}

fn info() -> TrackInfo {
    TrackInfo {
        album_name: " Record ".to_string(),
        title: "  Song ".to_string(),
        artists: s(&["First ", "Second"]),
        album_artists: Some(s(&[" First"])),
        musicbrainz_id: None,
        picture: Some(vec![7, 7]),
    }
}

fn file(id: u128, path: &str, modified: i64, track: Option<u128>, book: Option<u128>) -> FileRecord {
    FileRecord { id, path: path.to_string(), last_modified: modified, track_id: track, book_id: book }
}

#[test]
fn extension_dispatch() {
    assert_eq!(file_kind(Some("flac")), FileKind::Audio);
    assert_eq!(file_kind(Some("epub")), FileKind::Book);
    assert_eq!(file_kind(Some("FLAC")), FileKind::Other);
    assert_eq!(file_kind(Some("mp3")), FileKind::Other);
    assert_eq!(file_kind(None), FileKind::Other);
}

#[test]
fn unchanged_file_is_skipped() {
    let stored = Some(file(1, "/m/a.flac", 500, Some(2), None));
    assert_eq!(scan_step(&stored, 500), ScanStep::Skip);
    assert_eq!(scan_step(&stored, 499), ScanStep::Skip);
    assert_eq!(scan_step(&stored, 501), ScanStep::Process);
    assert_eq!(scan_step(&None, 0), ScanStep::Process);
    let ops = scan_audio(&stored, "/m/a.flac", 500, &info(), &vec![], &vec![]);
    assert!(ops.is_empty());
    let meta = EpubMetadata { title: None, identifier: None, language: None, creator: None, cover: None };
    assert!(scan_book(&stored, "/m/a.flac", 400, &meta, &vec![]).is_empty());
}

#[test]
fn names_are_trimmed() {
    assert_eq!(trim_names(&s(&["  a b ", "\tc\n", ""])), s(&["a b", "c", ""]));
}

#[test]
fn new_audio_file_creates_rows() {
    let fresh: Vec<u128> = vec![100, 101, 102, 103, 104, 105];
    let known = vec![ArtistRecord { id: 9, name: "Second".to_string() }];
    let ops = plan_track(&None, "/m/a.flac", 1000, &info(), &known, &vec![], &fresh);
    assert_eq!(ops.len(), 6);
    assert!(matches!(&ops[0], CatalogOp::CreateArtist { id: 100, name } if name == "First"));
    assert!(matches!(&ops[1], CatalogOp::CreateAlbum { id: 101, name, last_modified: 1000, artists, .. }
        if name == "Record" && *artists == vec![100]));
    assert!(matches!(&ops[2], CatalogOp::SaveTrack { id: 102, create: true, title, album_id: 101, artists, .. }
        if title == "Song" && *artists == vec![100, 9]));
    assert!(matches!(&ops[3], CatalogOp::SetAlbumPicture { album_id: 101, picture: Some(p) } if *p == vec![7, 7]));
    assert!(matches!(&ops[4], CatalogOp::SaveFile { id: 103, create: true, path, last_modified: 1000, track_id: Some(102), book_id: None }
        if path == "/m/a.flac"));
    assert!(matches!(&ops[5], CatalogOp::SetAlbumModified { album_id: 101, last_modified: 1000 }));
}

#[test]
fn changed_audio_file_updates_track_in_place() {
    let fresh: Vec<u128> = vec![100, 101, 102, 103, 104, 105];
    let known = vec![
        ArtistRecord { id: 8, name: "First".to_string() },
        ArtistRecord { id: 9, name: "Second".to_string() },
    ];
    let albums = vec![AlbumRecord {
        id: 50,
        name: "Record".to_string(),
        musicbrainz_id: None,
        artists: s(&["First"]),
    }];
    let stored = Some(file(1, "/m/a.flac", 1000, Some(2), None));
    let ops = plan_track(&stored, "/m/a.flac", 2000, &info(), &known, &albums, &fresh);
    assert_eq!(ops.len(), 4);
    assert!(matches!(&ops[0], CatalogOp::SaveTrack { id: 2, create: false, album_id: 50, artists, .. }
        if *artists == vec![8, 9]));
    assert!(matches!(&ops[2], CatalogOp::SaveFile { id: 1, create: false, last_modified: 2000, track_id: Some(2), .. }));
    assert!(matches!(&ops[3], CatalogOp::SetAlbumModified { album_id: 50, last_modified: 2000 }));
}

#[test]
fn random_ids_are_drawn() {
    let ids = fresh_ids(4);
    assert_eq!(ids.len(), 4);
    assert_ne!(ids[0], ids[1]);
    let ops = scan_audio(&None, "/m/b.flac", 5, &info(), &vec![], &vec![]);
    assert_eq!(ops.len(), 7);
}

#[test]
fn book_file_creates_and_updates() {
    let meta = EpubMetadata {
        title: Some("Tale".to_string()),
        identifier: None,
        language: None,
        creator: Some(" Dickens ".to_string()),
        cover: Some(vec![1]),
    };
    let fresh: Vec<u128> = vec![10, 11, 12];
    let ops = plan_book(&None, "/b/t.epub", 3, &meta, &vec![], &fresh);
    assert_eq!(ops.len(), 3);
    assert!(matches!(&ops[0], CatalogOp::CreateArtist { id: 10, name } if name == "Dickens"));
    assert!(matches!(&ops[1], CatalogOp::SaveBook { id: 11, create: true, title, artists, .. }
        if title == "Tale" && *artists == vec![10]));
    assert!(matches!(&ops[2], CatalogOp::SaveFile { id: 12, create: true, track_id: None, book_id: Some(11), .. }));
    let stored = Some(file(4, "/b/t.epub", 1, None, Some(40)));
    let known = vec![ArtistRecord { id: 77, name: "Dickens".to_string() }];
    let again = plan_book(&stored, "/b/t.epub", 3, &meta, &known, &fresh);
    assert_eq!(again.len(), 2);
    assert!(matches!(&again[0], CatalogOp::SaveBook { id: 40, create: false, artists, .. } if *artists == vec![77]));
    assert!(matches!(&again[1], CatalogOp::SaveFile { id: 4, create: false, book_id: Some(40), .. }));
}

#[test]
fn cleanup_removes_gone_files_and_empty_albums() {
    let files = vec![
        file(1, "/music/a.flac", 1, Some(11), None),
        file(2, "/music/b.flac", 1, Some(12), None),
        file(3, "/books/c.epub", 1, None, Some(13)),
        file(4, "/music/d.epub", 1, None, Some(14)),
    ];
    let exists = vec![true, false, false, false];
    let ops = plan_file_cleanup("/music", &files, &exists);
    assert_eq!(ops.len(), 4);
    assert!(matches!(ops[0], CatalogOp::DeleteFile { id: 2 }));
    assert!(matches!(ops[1], CatalogOp::DeleteTrack { id: 12 }));
    assert!(matches!(ops[2], CatalogOp::DeleteFile { id: 4 }));
    assert!(matches!(ops[3], CatalogOp::DeleteBook { id: 14 }));
    let counts = vec![
        AlbumTrackCount { album_id: 50, tracks: 1 },
        AlbumTrackCount { album_id: 51, tracks: 0 },
    ];
    let album_ops = plan_album_cleanup(&counts);
    assert_eq!(album_ops.len(), 1);
    assert!(matches!(album_ops[0], CatalogOp::DeleteAlbum { id: 51 }));
    assert!(plan_file_cleanup("/music", &files, &vec![true; 4]).is_empty());
}

#[test]
fn listing_length_defaults_to_ten() {
    assert_eq!(list_len(None), 10);
    assert_eq!(list_len(Some(3)), 3);
    let p = AlbumListParameters { list_type: AlbumListType::Newest, size: Some(25), offset: None };
    assert_eq!(p.len(), 25);
}
