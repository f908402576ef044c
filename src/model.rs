//! A model of the catalog store, what each write does to it, and what the
//! scan's writes achieve.
use vstd::prelude::*;

use crate::album::AlbumView;
use crate::catalog::{FileView, OpView};
use crate::epub::EpubView;
use crate::scanner::{
    album_cleanup, album_part, book_plan, file_cleanup, removal_ops, resolve_names, step_of,
    track_plan, under_root, AlbumTrackCount, ScanStep, TrackInfoView,
};
use crate::text::trimmed;

verus! {

pub struct FileRow {
    pub id: u128,
    pub last_modified: i64,
    pub track_id: Option<u128>,
    pub book_id: Option<u128>,
}

pub struct TrackRow {
    pub title: Seq<char>,
    pub picture: Option<Seq<u8>>,
    pub album_id: u128,
    pub artists: Seq<u128>,
}

pub struct AlbumRow {
    pub name: Seq<char>,
    pub musicbrainz_id: Option<Seq<char>>,
    pub last_modified: i64,
    pub picture: Option<Seq<u8>>,
    pub artists: Seq<u128>,
}

pub struct BookRow {
    pub title: Seq<char>,
    pub picture: Option<Seq<u8>>,
    pub artists: Seq<u128>,
}

/// The catalog: file rows keyed by path (so a path has at most one row),
/// and the other rows keyed by id.
pub struct Catalog {
    pub files: Map<Seq<char>, FileRow>,
    pub tracks: Map<u128, TrackRow>,
    pub albums: Map<u128, AlbumRow>,
    pub books: Map<u128, BookRow>,
    pub artists: Map<u128, Seq<char>>,
}

/// The row that the catalog holds for `path`, as the scan reads it.
pub open spec fn stored_file(c: Catalog, path: Seq<char>) -> Option<FileView> {
    if c.files.contains_key(path) {
        let f = c.files[path];
        Some(
            FileView {
                id: f.id,
                path,
                last_modified: f.last_modified,
                track_id: f.track_id,
                book_id: f.book_id,
            },
        )
    } else {
        None
    }
}

/// What one write does to the catalog. A write to an album that is not there
/// changes nothing.
pub open spec fn apply_op(c: Catalog, op: OpView) -> Catalog {
    match op {
        OpView::CreateArtist { id, name } => Catalog { artists: c.artists.insert(id, name), ..c },
        OpView::CreateAlbum { id, name, musicbrainz_id, last_modified, artists } => Catalog {
            albums: c.albums.insert(
                id,
                AlbumRow { name, musicbrainz_id, last_modified, picture: None, artists },
            ),
            ..c
        },
        OpView::SaveTrack { id, create, title, picture, album_id, artists } => Catalog {
            tracks: c.tracks.insert(id, TrackRow { title, picture, album_id, artists }),
            ..c
        },
        OpView::SetAlbumPicture { album_id, picture } => if c.albums.contains_key(album_id) {
            Catalog {
                albums: c.albums.insert(album_id, AlbumRow { picture, ..c.albums[album_id] }),
                ..c
            }
        } else {
            c
        },
        OpView::SaveBook { id, create, title, picture, artists } => Catalog {
            books: c.books.insert(id, BookRow { title, picture, artists }),
            ..c
        },
        OpView::SaveFile { id, create, path, last_modified, track_id, book_id } => Catalog {
            files: c.files.insert(path, FileRow { id, last_modified, track_id, book_id }),
            ..c
        },
        OpView::SetAlbumModified { album_id, last_modified } => if c.albums.contains_key(
            album_id,
        ) {
            Catalog {
                albums: c.albums.insert(
                    album_id,
                    AlbumRow { last_modified, ..c.albums[album_id] },
                ),
                ..c
            }
        } else {
            c
        },
        OpView::DeleteFile { id } => Catalog {
            files: Map::new(
                |p: Seq<char>| c.files.contains_key(p) && c.files[p].id != id,
                |p: Seq<char>| c.files[p],
            ),
            ..c
        },
        OpView::DeleteTrack { id } => Catalog { tracks: c.tracks.remove(id), ..c },
        OpView::DeleteBook { id } => Catalog { books: c.books.remove(id), ..c },
        OpView::DeleteAlbum { id } => Catalog { albums: c.albums.remove(id), ..c },
    }
}

/// The writes applied in order.
pub open spec fn apply_ops(c: Catalog, ops: Seq<OpView>) -> Catalog
    decreases ops.len(),
{
    if ops.len() == 0 {
        c
    } else {
        apply_op(apply_ops(c, ops.drop_last()), ops.last())
    }
}

/// Whether a write leaves the track and file rows alone.
pub open spec fn keeps_tracks_and_files(op: OpView) -> bool {
    ||| op is CreateArtist
    ||| op is CreateAlbum
    ||| op is SetAlbumPicture
    ||| op is SetAlbumModified
}

/// Whether a write only deletes.
pub open spec fn is_delete(op: OpView) -> bool {
    ||| op is DeleteFile
    ||| op is DeleteTrack
    ||| op is DeleteBook
    ||| op is DeleteAlbum
}

proof fn lemma_keeps(c: Catalog, ops: Seq<OpView>)
    requires
        forall|j: int| 0 <= j < ops.len() ==> keeps_tracks_and_files(#[trigger] ops[j]),
    ensures
        apply_ops(c, ops).tracks == c.tracks,
        apply_ops(c, ops).files == c.files,
    decreases ops.len(),
{
    if ops.len() > 0 {
        assert(keeps_tracks_and_files(ops[ops.len() - 1]));
        lemma_keeps(c, ops.drop_last());
    }
}

proof fn lemma_resolve_creates_artists(
    known: Seq<(u128, Seq<char>)>,
    names: Seq<Seq<char>>,
    fresh: Seq<u128>,
    start: int,
)
    ensures
        forall|j: int|
            0 <= j < resolve_names(known, names, fresh, start).ops.len() ==> (#[trigger] resolve_names(
                known,
                names,
                fresh,
                start,
            ).ops[j]) is CreateArtist,
    decreases names.len(),
{
    if names.len() > 0 {
        lemma_resolve_creates_artists(known, names.drop_last(), fresh, start);
    }
}

/// Applies the last four writes of a plan one by one.
proof fn lemma_apply_last_four(c: Catalog, head: Seq<OpView>, w: OpView, x: OpView, y: OpView, z: OpView)
    ensures
        apply_ops(c, head + seq![w, x, y, z]) == apply_op(
            apply_op(apply_op(apply_op(apply_ops(c, head), w), x), y),
            z,
        ),
{
    let s = head + seq![w, x, y, z];
    let s3 = head + seq![w, x, y];
    let s2 = head + seq![w, x];
    let s1 = head + seq![w];
    assert(s.drop_last() =~= s3);
    assert(s3.drop_last() =~= s2);
    assert(s2.drop_last() =~= s1);
    assert(s1.drop_last() =~= head);
    assert(s.last() == z);
    assert(s3.last() == y);
    assert(s2.last() == x);
    assert(s1.last() == w);
    assert(apply_ops(c, s1) == apply_op(apply_ops(c, head), w));
    assert(apply_ops(c, s2) == apply_op(apply_ops(c, s1), x));
    assert(apply_ops(c, s3) == apply_op(apply_ops(c, s2), y));
    assert(apply_ops(c, s) == apply_op(apply_ops(c, s3), z));
}

proof fn lemma_apply_last_two(c: Catalog, head: Seq<OpView>, w: OpView, x: OpView)
    ensures
        apply_ops(c, head + seq![w, x]) == apply_op(apply_op(apply_ops(c, head), w), x),
{
    let s = head + seq![w, x];
    let s1 = head + seq![w];
    assert(s.drop_last() =~= s1);
    assert(s1.drop_last() =~= head);
    assert(s.last() == x);
    assert(s1.last() == w);
    assert(apply_ops(c, s1) == apply_op(apply_ops(c, head), w));
    assert(apply_ops(c, s) == apply_op(apply_ops(c, s1), x));
}

/// An audio file scanned a second time with the same modification time is
/// skipped, so it causes no write: after the writes of the first scan (or
/// none, where the first scan skipped it too), the catalog holds the file
/// with that modification time.
pub proof fn rescan_of_unchanged_audio_file_is_skipped(
    c: Catalog,
    path: Seq<char>,
    modified: i64,
    info: TrackInfoView,
    known: Seq<(u128, Seq<char>)>,
    albums: Seq<AlbumView>,
    fresh: Seq<u128>,
)
    ensures
        ({
            let stored = stored_file(c, path);
            let plan = if step_of(stored, modified) == ScanStep::Skip {
                Seq::empty()
            } else {
                track_plan(stored, path, modified, info, known, albums, fresh)
            };
            step_of(stored_file(apply_ops(c, plan), path), modified) == ScanStep::Skip
        }),
{
    let stored = stored_file(c, path);
    if step_of(stored, modified) == ScanStep::Skip {
        assert(apply_ops(c, Seq::empty()) == c);
    } else {
        let plan = track_plan(stored, path, modified, info, known, albums, fresh);
        let name = trimmed(info.album_name);
        let a = album_part(
            name,
            crate::scanner::trim_all(info.artists),
            match info.album_artists {
                Some(x) => Some(crate::scanner::trim_all(x)),
                None => None,
            },
            info.musicbrainz_id,
            modified,
            known,
            albums,
            fresh,
        );
        let r = resolve_names(a.known, crate::scanner::trim_all(info.artists), fresh, a.next);
        let head = a.ops + r.ops;
        assert(plan =~= head + seq![plan[plan.len() - 4], plan[plan.len() - 3], plan[plan.len() - 2], plan[plan.len() - 1]]);
        lemma_apply_last_four(c, head, plan[plan.len() - 4], plan[plan.len() - 3], plan[plan.len() - 2], plan[plan.len() - 1]);
    }
}

/// A book file scanned a second time with the same modification time is
/// skipped, so it causes no write.
pub proof fn rescan_of_unchanged_book_file_is_skipped(
    c: Catalog,
    path: Seq<char>,
    modified: i64,
    meta: EpubView,
    known: Seq<(u128, Seq<char>)>,
    fresh: Seq<u128>,
)
    ensures
        ({
            let stored = stored_file(c, path);
            let plan = if step_of(stored, modified) == ScanStep::Skip {
                Seq::empty()
            } else {
                book_plan(stored, path, modified, meta, known, fresh)
            };
            step_of(stored_file(apply_ops(c, plan), path), modified) == ScanStep::Skip
        }),
{
    let stored = stored_file(c, path);
    if step_of(stored, modified) == ScanStep::Skip {
        assert(apply_ops(c, Seq::empty()) == c);
    } else {
        let plan = book_plan(stored, path, modified, meta, known, fresh);
        let authors = match meta.creator {
            Some(x) => seq![trimmed(x)],
            None => Seq::empty(),
        };
        let r = resolve_names(known, authors, fresh, 0);
        assert(plan =~= r.ops + seq![plan[plan.len() - 2], plan[plan.len() - 1]]);
        lemma_apply_last_two(c, r.ops, plan[plan.len() - 2], plan[plan.len() - 1]);
    }
}

proof fn lemma_album_part_keeps(
    name: Seq<char>,
    artists: Seq<Seq<char>>,
    album_artists: Option<Seq<Seq<char>>>,
    musicbrainz_id: Option<Seq<char>>,
    modified: i64,
    known: Seq<(u128, Seq<char>)>,
    albums: Seq<AlbumView>,
    fresh: Seq<u128>,
)
    ensures
        ({
            let a = album_part(
                name,
                artists,
                album_artists,
                musicbrainz_id,
                modified,
                known,
                albums,
                fresh,
            );
            forall|j: int| 0 <= j < a.ops.len() ==> keeps_tracks_and_files(#[trigger] a.ops[j])
        }),
{
    let names = match album_artists {
        Some(aa) => aa,
        None => Seq::empty(),
    };
    lemma_resolve_creates_artists(known, names, fresh, 0);
}

/// Scanning again an audio file whose row already holds a track, after the
/// file changed on disk, updates that track and that file row in place: no
/// track or file row is added or removed, the other tracks stay as they
/// were, and the track takes the file's new title.
pub proof fn rescan_of_changed_audio_file_updates_in_place(
    c: Catalog,
    path: Seq<char>,
    modified: i64,
    info: TrackInfoView,
    known: Seq<(u128, Seq<char>)>,
    albums: Seq<AlbumView>,
    fresh: Seq<u128>,
    t: u128,
)
    requires
        c.files.contains_key(path),
        c.files[path].track_id == Some(t),
        c.files[path].last_modified < modified,
        c.tracks.contains_key(t),
    ensures
        ({
            let c2 = apply_ops(
                c,
                track_plan(stored_file(c, path), path, modified, info, known, albums, fresh),
            );
            &&& c2.tracks.dom() == c.tracks.dom()
            &&& c2.files.dom() == c.files.dom()
            &&& c2.tracks[t].title == trimmed(info.title)
            &&& forall|u: u128| #[trigger] c.tracks.contains_key(u) && u != t ==> c2.tracks[u] == c.tracks[u]
            &&& c2.files[path] == FileRow {
                id: c.files[path].id,
                last_modified: modified,
                track_id: Some(t),
                book_id: None,
            }
        }),
{
    let stored = stored_file(c, path);
    let plan = track_plan(stored, path, modified, info, known, albums, fresh);
    let artists = crate::scanner::trim_all(info.artists);
    let album_artists = match info.album_artists {
        Some(x) => Some(crate::scanner::trim_all(x)),
        None => None,
    };
    let a = album_part(
        trimmed(info.album_name),
        artists,
        album_artists,
        info.musicbrainz_id,
        modified,
        known,
        albums,
        fresh,
    );
    let r = resolve_names(a.known, artists, fresh, a.next);
    let head = a.ops + r.ops;
    lemma_album_part_keeps(
        trimmed(info.album_name),
        artists,
        album_artists,
        info.musicbrainz_id,
        modified,
        known,
        albums,
        fresh,
    );
    lemma_resolve_creates_artists(a.known, artists, fresh, a.next);
    assert forall|j: int| 0 <= j < head.len() implies keeps_tracks_and_files(#[trigger] head[j]) by {
        if j < a.ops.len() {
            assert(head[j] == a.ops[j]);
        } else {
            assert(head[j] == r.ops[j - a.ops.len()]);
        }
    }
    lemma_keeps(c, head);
    let w = plan[plan.len() - 4];
    let x = plan[plan.len() - 3];
    let y = plan[plan.len() - 2];
    let z = plan[plan.len() - 1];
    assert(plan =~= head + seq![w, x, y, z]);
    lemma_apply_last_four(c, head, w, x, y, z);
    let c1 = apply_ops(c, head);
    let c2 = apply_op(c1, w);
    let c3 = apply_op(c2, x);
    let c4 = apply_op(c3, y);
    assert(c2.tracks.dom() =~= c.tracks.dom());
    assert(c4.files.dom() =~= c.files.dom());
}

proof fn lemma_deletes(c: Catalog, ops: Seq<OpView>)
    requires
        forall|j: int| 0 <= j < ops.len() ==> is_delete(#[trigger] ops[j]),
    ensures
        ({
            let d = apply_ops(c, ops);
            &&& forall|u: u128| #[trigger]
                d.tracks.contains_key(u) ==> c.tracks.contains_key(u) && d.tracks[u] == c.tracks[u]
            &&& forall|p: Seq<char>| #[trigger]
                d.files.contains_key(p) ==> c.files.contains_key(p) && d.files[p] == c.files[p]
            &&& forall|j: int|
                0 <= j < ops.len() ==> (#[trigger] ops[j] matches OpView::DeleteTrack { id }
                    ==> !d.tracks.contains_key(id))
            &&& forall|j: int, p: Seq<char>|
                0 <= j < ops.len() && #[trigger] d.files.contains_key(p) ==> (#[trigger] ops[j] matches OpView::DeleteFile {
                    id,
                } ==> d.files[p].id != id)
            &&& forall|j: int|
                0 <= j < ops.len() ==> (#[trigger] ops[j] matches OpView::DeleteAlbum { id }
                    ==> !d.albums.contains_key(id))
        }),
    decreases ops.len(),
{
    if ops.len() > 0 {
        let init = ops.drop_last();
        assert forall|j: int| 0 <= j < init.len() implies is_delete(#[trigger] init[j]) by {
            assert(init[j] == ops[j]);
        }
        lemma_deletes(c, init);
        let m = apply_ops(c, init);
        let d = apply_ops(c, ops);
        let last = ops.last();
        assert(is_delete(ops[ops.len() - 1]));
        assert forall|j: int|
            0 <= j < ops.len() implies (#[trigger] ops[j] matches OpView::DeleteTrack { id }
            ==> !d.tracks.contains_key(id)) by {
            if j < init.len() {
                assert(init[j] == ops[j]);
            }
        }
        assert forall|j: int, p: Seq<char>|
            0 <= j < ops.len() && #[trigger] d.files.contains_key(p) implies (#[trigger] ops[j] matches OpView::DeleteFile {
            id,
        } ==> d.files[p].id != id) by {
            if j < init.len() {
                assert(init[j] == ops[j]);
                assert(m.files.contains_key(p));
            }
        }
        assert forall|j: int|
            0 <= j < ops.len() implies (#[trigger] ops[j] matches OpView::DeleteAlbum { id }
            ==> !d.albums.contains_key(id)) by {
            if j < init.len() {
                assert(init[j] == ops[j]);
            }
        }
    }
}

proof fn lemma_file_cleanup(root: Seq<char>, files: Seq<FileView>, exists: Seq<bool>, i: int)
    requires
        files.len() <= exists.len(),
    ensures
        forall|j: int|
            0 <= j < file_cleanup(root, files, exists).len() ==> is_delete(
                #[trigger] file_cleanup(root, files, exists)[j],
            ),
        0 <= i < files.len() && under_root(files[i].path, root) && !exists[i] ==> {
            let ops = file_cleanup(root, files, exists);
            &&& exists|j: int|
                0 <= j < ops.len() && #[trigger] ops[j] == OpView::DeleteFile { id: files[i].id }
            &&& files[i].track_id matches Some(t) ==> exists|j: int|
                0 <= j < ops.len() && #[trigger] ops[j] == OpView::DeleteTrack { id: t }
        },
    decreases files.len(),
{
    if files.len() > 0 {
        let n = files.len() - 1;
        let init = files.drop_last();
        lemma_file_cleanup(root, init, exists, i);
        let rest = file_cleanup(root, init, exists);
        let ops = file_cleanup(root, files, exists);
        if under_root(files[n].path, root) && !exists[n] {
            let extra = removal_ops(files[n]);
            assert(ops == rest + extra);
            assert forall|j: int| 0 <= j < ops.len() implies is_delete(#[trigger] ops[j]) by {
                if j < rest.len() {
                    assert(ops[j] == rest[j]);
                } else {
                    assert(ops[j] == extra[j - rest.len()]);
                }
            }
            if 0 <= i < files.len() && under_root(files[i].path, root) && !exists[i] {
                if i == n {
                    assert(ops[rest.len() as int] == OpView::DeleteFile { id: files[i].id });
                    if let Some(t) = files[i].track_id {
                        assert(ops[rest.len() as int + 1] == OpView::DeleteTrack { id: t });
                    }
                } else {
                    assert(init[i] == files[i]);
                    let j0 = choose|j: int|
                        0 <= j < rest.len() && #[trigger] rest[j] == OpView::DeleteFile {
                            id: init[i].id,
                        };
                    assert(ops[j0] == rest[j0]);
                    if let Some(t) = files[i].track_id {
                        let j1 = choose|j: int|
                            0 <= j < rest.len() && #[trigger] rest[j] == OpView::DeleteTrack { id: t };
                        assert(ops[j1] == rest[j1]);
                    }
                }
            }
        } else {
            if 0 <= i < files.len() && under_root(files[i].path, root) && !exists[i] {
                assert(i != n);
                assert(init[i] == files[i]);
            }
        }
    }
}

proof fn lemma_album_cleanup(counts: Seq<AlbumTrackCount>, k: int)
    ensures
        forall|j: int|
            0 <= j < album_cleanup(counts).len() ==> is_delete(#[trigger] album_cleanup(counts)[j]),
        0 <= k < counts.len() && counts[k].tracks == 0 ==> (exists|j: int|
            0 <= j < album_cleanup(counts).len() && #[trigger] album_cleanup(counts)[j]
                == (OpView::DeleteAlbum { id: counts[k].album_id })),
    decreases counts.len(),
{
    if counts.len() > 0 {
        let init = counts.drop_last();
        lemma_album_cleanup(init, k);
        let rest = album_cleanup(init);
        let ops = album_cleanup(counts);
        assert forall|j: int| 0 <= j < ops.len() implies is_delete(#[trigger] ops[j]) by {
            if j < rest.len() {
                assert(ops[j] == rest[j]);
            }
        }
        if 0 <= k < counts.len() && counts[k].tracks == 0 {
            if k == counts.len() - 1 {
                assert(ops[rest.len() as int] == OpView::DeleteAlbum { id: counts[k].album_id });
            } else {
                assert(init[k] == counts[k]);
                let j0 = choose|j: int|
                    0 <= j < rest.len() && #[trigger] rest[j] == OpView::DeleteAlbum {
                        id: init[k].album_id,
                    };
                assert(ops[j0] == rest[j0]);
            }
        }
    }
}

/// The cleanup removes a file row whose file is gone from disk, and the
/// track it held; and where that track was the last of its album, the album
/// goes in the second pass. `counts` is what the store reports after the
/// first pass: the album has no track left exactly when its count is zero.
pub proof fn cleanup_removes_gone_file_and_emptied_album(
    c: Catalog,
    root: Seq<char>,
    files: Seq<FileView>,
    exists: Seq<bool>,
    i: int,
    t: u128,
    counts: Seq<AlbumTrackCount>,
    k: int,
)
    requires
        files.len() == exists.len(),
        0 <= i < files.len(),
        under_root(files[i].path, root),
        !exists[i],
        c.files.contains_key(files[i].path),
        c.files[files[i].path].id == files[i].id,
        files[i].track_id == Some(t),
        c.tracks.contains_key(t),
        forall|u: u128|
            #[trigger] c.tracks.contains_key(u) && u != t ==> c.tracks[u].album_id
                != c.tracks[t].album_id,
        0 <= k < counts.len(),
        counts[k].album_id == c.tracks[t].album_id,
        ({
            let c1 = apply_ops(c, file_cleanup(root, files, exists));
            (counts[k].tracks == 0) == forall|u: u128| #[trigger]
                c1.tracks.contains_key(u) ==> c1.tracks[u].album_id != counts[k].album_id
        }),
    ensures
        ({
            let c1 = apply_ops(c, file_cleanup(root, files, exists));
            let c2 = apply_ops(c1, album_cleanup(counts));
            &&& !c1.files.contains_key(files[i].path)
            &&& !c1.tracks.contains_key(t)
            &&& !c2.albums.contains_key(c.tracks[t].album_id)
        }),
{
    let ops = file_cleanup(root, files, exists);
    lemma_file_cleanup(root, files, exists, i);
    lemma_deletes(c, ops);
    let c1 = apply_ops(c, ops);
    let jf = choose|j: int| 0 <= j < ops.len() && #[trigger] ops[j] == OpView::DeleteFile { id: files[i].id };
    let jt = choose|j: int| 0 <= j < ops.len() && #[trigger] ops[j] == OpView::DeleteTrack { id: t };
    assert(ops[jt] matches OpView::DeleteTrack { id } ==> !c1.tracks.contains_key(id));
    if c1.files.contains_key(files[i].path) {
        assert(ops[jf] matches OpView::DeleteFile { id } ==> c1.files[files[i].path].id != id);
    }
    let a = c.tracks[t].album_id;
    assert forall|u: u128| #[trigger] c1.tracks.contains_key(u) implies c1.tracks[u].album_id != a by {
        assert(c.tracks.contains_key(u));
    }
    let aops = album_cleanup(counts);
    lemma_album_cleanup(counts, k);
    lemma_deletes(c1, aops);
    let ja = choose|j: int| 0 <= j < aops.len() && #[trigger] aops[j] == OpView::DeleteAlbum { id: counts[k].album_id };
    assert(aops[ja] matches OpView::DeleteAlbum { id } ==> !apply_ops(c1, aops).albums.contains_key(id));
}

/// Where every file under the root is still on disk, the first pass of the
/// cleanup writes nothing.
pub proof fn cleanup_of_present_files_writes_nothing(
    root: Seq<char>,
    files: Seq<FileView>,
    exists: Seq<bool>,
)
    requires
        files.len() <= exists.len(),
        forall|i: int| 0 <= i < files.len() ==> #[trigger] exists[i],
    ensures
        file_cleanup(root, files, exists) == Seq::<OpView>::empty(),
    decreases files.len(),
{
    if files.len() > 0 {
        cleanup_of_present_files_writes_nothing(root, files.drop_last(), exists);
        assert(exists[files.len() - 1]);
    }
}

/// Where every album still holds a track, the second pass of the cleanup
/// writes nothing.
pub proof fn cleanup_of_filled_albums_writes_nothing(counts: Seq<AlbumTrackCount>)
    requires
        forall|i: int| 0 <= i < counts.len() ==> #[trigger] counts[i].tracks > 0,
    ensures
        album_cleanup(counts) == Seq::<OpView>::empty(),
    decreases counts.len(),
{
    if counts.len() > 0 {
        assert forall|i: int| 0 <= i < counts.drop_last().len() implies #[trigger] counts.drop_last()[i].tracks > 0 by {
            assert(counts.drop_last()[i] == counts[i]);
        }
        cleanup_of_filled_albums_writes_nothing(counts.drop_last());
        assert(counts[counts.len() - 1].tracks > 0);
    }
}

/// After the writes for an audio file, the file row holds the track, and the
/// track's album (where the catalog holds it) carries the track's picture and
/// the file's modification time.
pub proof fn track_writes_reach_the_album(
    c: Catalog,
    path: Seq<char>,
    modified: i64,
    info: TrackInfoView,
    known: Seq<(u128, Seq<char>)>,
    albums: Seq<AlbumView>,
    fresh: Seq<u128>,
)
    ensures
        ({
            let c2 = apply_ops(
                c,
                track_plan(stored_file(c, path), path, modified, info, known, albums, fresh),
            );
            &&& c2.files.contains_key(path)
            &&& c2.files[path].last_modified == modified
            &&& c2.files[path].track_id matches Some(t) && c2.tracks.contains_key(t) && {
                let a = c2.tracks[t].album_id;
                c2.albums.contains_key(a) ==> c2.albums[a].picture == c2.tracks[t].picture
                    && c2.albums[a].last_modified == modified
            }
        }),
{
    let stored = stored_file(c, path);
    let plan = track_plan(stored, path, modified, info, known, albums, fresh);
    let artists = crate::scanner::trim_all(info.artists);
    let album_artists = match info.album_artists {
        Some(x) => Some(crate::scanner::trim_all(x)),
        None => None,
    };
    let a = album_part(
        trimmed(info.album_name),
        artists,
        album_artists,
        info.musicbrainz_id,
        modified,
        known,
        albums,
        fresh,
    );
    let r = resolve_names(a.known, artists, fresh, a.next);
    let head = a.ops + r.ops;
    let w = plan[plan.len() - 4];
    let x = plan[plan.len() - 3];
    let y = plan[plan.len() - 2];
    let z = plan[plan.len() - 1];
    assert(plan =~= head + seq![w, x, y, z]);
    lemma_apply_last_four(c, head, w, x, y, z);
}

} // verus!
