//! The decisions of the library scan. The caller walks the tree, reads each
//! file and performs the catalog lookups; this module decides, from what was
//! read and found, which writes the catalog store is to perform.
use vstd::prelude::*;

use crate::album::{album_find, found_album, opt_strings, AlbumRecord, albums_view};
use crate::catalog::{
    artists_view, opt_bytes, opt_file, ops_view, ArtistRecord, CatalogOp, FileRecord, OpView,
};
use crate::epub::{opt_chars, EpubMetadata};
use crate::flac::{FlacMetadata, FlacPictureType};
use crate::text::{chars_of, trim, trimmed};
use crate::track::{
    album_artist_key, album_id_key, album_key, artist_key, chosen_picture, first_value,
    strings_view, title_key, values_of, MetadataError, TrackMetadata,
};

verus! {

/// The kind of a file, from its extension (compared case-sensitively).
#[derive(Debug, Clone, Copy, PartialEq, Eq, Structural)]
pub enum FileKind {
    Audio,
    Book,
    Other,
}

pub open spec fn kind_of(extension: Option<Seq<char>>) -> FileKind {
    match extension {
        Some(e) => if e == seq!['f', 'l', 'a', 'c'] {
            FileKind::Audio
        } else if e == seq!['e', 'p', 'u', 'b'] {
            FileKind::Book
        } else {
            FileKind::Other
        },
        None => FileKind::Other,
    }
}

fn chars_equal(a: &Vec<char>, b: &Vec<char>) -> (r: bool)
    ensures
        r == (a@ == b@),
{
    if a.len() != b.len() {
        return false;
    }
    let mut i: usize = 0;
    while i < a.len()
        invariant
            a@.len() == b@.len(),
            i <= a@.len(),
            forall|j: int| 0 <= j < i ==> a@[j] == b@[j],
        decreases a@.len() - i,
    {
        if a[i] != b[i] {
            return false;
        }
        i = i + 1;
    }
    assert(a@ =~= b@);
    true
}

/// Which parser a file goes to: `flac` files are audio, `epub` files are
/// books, and any other file is skipped.
pub fn file_kind(extension: Option<&str>) -> (r: FileKind)
    ensures
        r == kind_of(
            match extension {
                Some(e) => Some(e@),
                None => None,
            },
        ),
{
    match extension {
        None => FileKind::Other,
        Some(e) => {
            let c = chars_of(e);
            let flac = vec!['f', 'l', 'a', 'c'];
            let epub = vec!['e', 'p', 'u', 'b'];
            assert(flac@ =~= seq!['f', 'l', 'a', 'c']);
            assert(epub@ =~= seq!['e', 'p', 'u', 'b']);
            if chars_equal(&c, &flac) {
                FileKind::Audio
            } else if chars_equal(&c, &epub) {
                FileKind::Book
            } else {
                FileKind::Other
            }
        },
    }
}

/// Whether a file found on disk is to be read again.
#[derive(Debug, Clone, Copy, PartialEq, Eq, Structural)]
pub enum ScanStep {
    /// The catalog holds the file as it is on disk: nothing to do.
    Skip,
    /// The file is new, or changed since it was last scanned.
    Process,
}

pub open spec fn step_of(stored: Option<crate::catalog::FileView>, modified: i64) -> ScanStep {
    match stored {
        Some(f) => if modified <= f.last_modified {
            ScanStep::Skip
        } else {
            ScanStep::Process
        },
        None => ScanStep::Process,
    }
}

/// A file is skipped when the catalog holds it with a modification time no
/// older than the one on disk.
pub fn scan_step(stored: &Option<FileRecord>, modified: i64) -> (r: ScanStep)
    ensures
        r == step_of(opt_file(*stored), modified),
{
    match stored.as_ref() {
        Some(f) => if modified <= f.last_modified {
            ScanStep::Skip
        } else {
            ScanStep::Process
        },
        None => ScanStep::Process,
    }
}

/// Artists named by a file, resolved against the known artists.
pub struct Resolved {
    /// The id of each name, in order.
    pub ids: Seq<u128>,
    /// The known artists, with those created appended.
    pub known: Seq<(u128, Seq<char>)>,
    /// The artists created, in order.
    pub ops: Seq<OpView>,
    /// The index of the next unused fresh id.
    pub next: int,
}

/// The first known artist at or after `i` named `name`.
pub open spec fn known_index_from(known: Seq<(u128, Seq<char>)>, name: Seq<char>, i: int) -> Option<
    int,
>
    decreases known.len() - i,
{
    if i < 0 || i >= known.len() {
        None
    } else if known[i].1 == name {
        Some(i)
    } else {
        known_index_from(known, name, i + 1)
    }
}

/// Each name is the known artist of that name, or else a new artist that
/// takes the next fresh id (and is known from then on).
pub open spec fn resolve_names(
    known: Seq<(u128, Seq<char>)>,
    names: Seq<Seq<char>>,
    fresh: Seq<u128>,
    start: int,
) -> Resolved
    decreases names.len(),
{
    if names.len() == 0 {
        Resolved { ids: Seq::empty(), known, ops: Seq::empty(), next: start }
    } else {
        let r = resolve_names(known, names.drop_last(), fresh, start);
        let name = names.last();
        match known_index_from(r.known, name, 0) {
            Some(i) => Resolved { ids: r.ids.push(r.known[i].0), known: r.known, ops: r.ops, next: r.next },
            None => Resolved {
                ids: r.ids.push(fresh[r.next]),
                known: r.known.push((fresh[r.next], name)),
                ops: r.ops.push(OpView::CreateArtist { id: fresh[r.next], name }),
                next: r.next + 1,
            },
        }
    }
}

proof fn lemma_resolve_next(
    known: Seq<(u128, Seq<char>)>,
    names: Seq<Seq<char>>,
    fresh: Seq<u128>,
    start: int,
)
    ensures
        start <= resolve_names(known, names, fresh, start).next <= start + names.len(),
        resolve_names(known, names, fresh, start).ids.len() == names.len(),
    decreases names.len(),
{
    if names.len() > 0 {
        lemma_resolve_next(known, names.drop_last(), fresh, start);
    }
}

/// The id of the first artist in `known` named `name`.
fn find_artist(known: &Vec<ArtistRecord>, name: &String) -> (r: Option<u128>)
    ensures
        match known_index_from(artists_view(known@), name@, 0) {
            Some(k) => 0 <= k < known@.len() && r == Some(known@[k].id),
            None => r is None,
        },
{
    let ghost kv = artists_view(known@);
    let mut j: usize = 0;
    while j < known.len()
        invariant
            j <= known@.len(),
            kv == artists_view(known@),
            known_index_from(kv, name@, 0) == known_index_from(kv, name@, j as int),
        decreases known@.len() - j,
    {
        assert(kv[j as int] == known@[j as int]@);
        if known[j].name == *name {
            return Some(known[j].id);
        }
        j = j + 1;
    }
    None
}

/// Resolves `names` against `known`, taking fresh ids from `fresh` at `*next`
/// on; appends each new artist to `known` and its creation to `ops`.
fn resolve_artists(
    names: &Vec<String>,
    known: &mut Vec<ArtistRecord>,
    ops: &mut Vec<CatalogOp>,
    fresh: &Vec<u128>,
    next: &mut usize,
) -> (r: Vec<u128>)
    requires
        *old(next) + names@.len() <= fresh@.len(),
    ensures
        ({
            let res = resolve_names(
                artists_view(old(known)@),
                strings_view(names@),
                fresh@,
                *old(next) as int,
            );
            &&& r@ == res.ids
            &&& artists_view(final(known)@) == res.known
            &&& ops_view(final(ops)@) == ops_view(old(ops)@) + res.ops
            &&& *final(next) == res.next
        }),
{
    let ghost k0 = artists_view(known@);
    let ghost o0 = ops_view(ops@);
    let ghost n0 = *next as int;
    let ghost sv = strings_view(names@);
    let fresh_len = fresh.len();
    let mut out: Vec<u128> = Vec::new();
    let mut i: usize = 0;
    assert(sv.take(0) =~= Seq::<Seq<char>>::empty());
    assert(o0 + Seq::<OpView>::empty() =~= o0);
    while i < names.len()
        invariant
            i <= names@.len(),
            sv == strings_view(names@),
            n0 + names@.len() <= fresh@.len(),
            fresh_len == fresh@.len(),
            ({
                let res = resolve_names(k0, sv.take(i as int), fresh@, n0);
                &&& out@ == res.ids
                &&& artists_view(known@) == res.known
                &&& ops_view(ops@) == o0 + res.ops
                &&& *next == res.next
            }),
        decreases names@.len() - i,
    {
        proof {
            assert(sv.take(i + 1).drop_last() =~= sv.take(i as int));
            lemma_resolve_next(k0, sv.take(i as int), fresh@, n0);
        }
        let ghost kv = artists_view(known@);
        let found = find_artist(known, &names[i]);
        match found {
            Some(id) => {
                proof {
                    let k = known_index_from(kv, sv[i as int], 0)->0;
                    assert(kv[k] == known@[k]@);
                }
                out.push(id);
            },
            None => {
                let id = fresh[*next];
                let ghost ob = ops@;
                known.push(ArtistRecord { id, name: names[i].clone() });
                ops.push(CatalogOp::CreateArtist { id, name: names[i].clone() });
                proof {
                    assert(artists_view(known@) =~= kv.push((id, sv[i as int])));
                    assert(ops_view(ops@) =~= ops_view(ob).push(OpView::CreateArtist { id, name: sv[i as int] }));
                }
                out.push(id);
                *next = *next + 1;
            },
        }
        i = i + 1;
    }
    assert(sv.take(names@.len() as int) =~= sv);
    out
}

pub open spec fn trim_all(names: Seq<Seq<char>>) -> Seq<Seq<char>> {
    names.map_values(|n: Seq<char>| trimmed(n))
}

/// Each name without its leading and trailing white space.
pub fn trim_names(names: &Vec<String>) -> (r: Vec<String>)
    ensures
        strings_view(r@) == trim_all(strings_view(names@)),
{
    let mut out: Vec<String> = Vec::new();
    let mut i: usize = 0;
    while i < names.len()
        invariant
            i <= names@.len(),
            strings_view(out@) == trim_all(strings_view(names@)).take(i as int),
        decreases names@.len() - i,
    {
        let t = trim(names[i].as_str());
        let ghost before = out@;
        out.push(t);
        proof {
            assert(strings_view(out@) =~= strings_view(before).push(t@));
            assert(trim_all(strings_view(names@)).take(i + 1) =~= trim_all(strings_view(names@)).take(
                i as int,
            ).push(trimmed(names@[i as int]@)));
        }
        i = i + 1;
    }
    assert(trim_all(strings_view(names@)).take(names@.len() as int) =~= trim_all(
        strings_view(names@),
    ));
    out
}

fn copy_string(s: &String) -> (r: String)
    ensures
        r@ == s@,
{
    s.clone()
}

fn copy_opt_string(s: &Option<String>) -> (r: Option<String>)
    ensures
        opt_chars(r) == opt_chars(*s),
{
    match s {
        Some(v) => Some(v.clone()),
        None => None,
    }
}

fn copy_strings(v: &Vec<String>) -> (r: Vec<String>)
    ensures
        strings_view(r@) == strings_view(v@),
{
    let mut out: Vec<String> = Vec::new();
    let mut i: usize = 0;
    while i < v.len()
        invariant
            i <= v@.len(),
            strings_view(out@) == strings_view(v@).take(i as int),
        decreases v@.len() - i,
    {
        let ghost before = out@;
        out.push(v[i].clone());
        proof {
            assert(strings_view(out@) =~= strings_view(before).push(v@[i as int]@));
            assert(strings_view(v@).take(i + 1) =~= strings_view(v@).take(i as int).push(
                v@[i as int]@,
            ));
        }
        i = i + 1;
    }
    assert(strings_view(v@).take(v@.len() as int) =~= strings_view(v@));
    out
}

fn copy_opt_strings(v: &Option<Vec<String>>) -> (r: Option<Vec<String>>)
    ensures
        opt_strings(r) == opt_strings(*v),
{
    match v {
        Some(x) => Some(copy_strings(x)),
        None => None,
    }
}

fn copy_opt_bytes(v: &Option<Vec<u8>>) -> (r: Option<Vec<u8>>)
    ensures
        opt_bytes(r) == opt_bytes(*v),
{
    match v {
        Some(x) => Some(crate::bytes::copy_range(x.as_slice(), 0, x.len())),
        None => None,
    }
}

fn copy_artists(v: &Vec<ArtistRecord>) -> (r: Vec<ArtistRecord>)
    ensures
        artists_view(r@) == artists_view(v@),
{
    let mut out: Vec<ArtistRecord> = Vec::new();
    let mut i: usize = 0;
    while i < v.len()
        invariant
            i <= v@.len(),
            artists_view(out@) == artists_view(v@).take(i as int),
        decreases v@.len() - i,
    {
        let a = ArtistRecord { id: v[i].id, name: v[i].name.clone() };
        let ghost before = out@;
        out.push(a);
        proof {
            assert(artists_view(out@) =~= artists_view(before).push(v@[i as int]@));
            assert(artists_view(v@).take(i + 1) =~= artists_view(v@).take(i as int).push(
                v@[i as int]@,
            ));
        }
        i = i + 1;
    }
    assert(artists_view(v@).take(v@.len() as int) =~= artists_view(v@));
    out
}

/// What the scan reads of an audio file.
#[derive(Debug, Clone)]
pub struct TrackInfo {
    pub album_name: String,
    pub title: String,
    pub artists: Vec<String>,
    pub album_artists: Option<Vec<String>>,
    pub musicbrainz_id: Option<String>,
    pub picture: Option<Vec<u8>>,
}

pub struct TrackInfoView {
    pub album_name: Seq<char>,
    pub title: Seq<char>,
    pub artists: Seq<Seq<char>>,
    pub album_artists: Option<Seq<Seq<char>>>,
    pub musicbrainz_id: Option<Seq<char>>,
    pub picture: Option<Seq<u8>>,
}

impl View for TrackInfo {
    type V = TrackInfoView;

    open spec fn view(&self) -> TrackInfoView {
        TrackInfoView {
            album_name: self.album_name@,
            title: self.title@,
            artists: strings_view(self.artists@),
            album_artists: opt_strings(self.album_artists),
            musicbrainz_id: opt_chars(self.musicbrainz_id),
            picture: opt_bytes(self.picture),
        }
    }
}

/// The track data of a file with tag fields `fields` and pictures `pics`:
/// the album name, title and artists must be there; the picture is the front
/// cover where there is one.
pub open spec fn track_info_of(
    fields: Seq<(Seq<char>, Seq<char>)>,
    pics: Seq<crate::flac::PictureView>,
) -> Result<TrackInfoView, MetadataError> {
    match first_value(fields, album_key()) {
        None => Err(MetadataError::MissingAlbum),
        Some(album_name) => match first_value(fields, title_key()) {
            None => Err(MetadataError::MissingTitle),
            Some(title) => if values_of(fields, artist_key()).len() == 0 {
                Err(MetadataError::MissingArtist)
            } else {
                let aa = values_of(fields, album_artist_key());
                Ok(
                    TrackInfoView {
                        album_name,
                        title,
                        artists: values_of(fields, artist_key()),
                        album_artists: if aa.len() == 0 {
                            None
                        } else {
                            Some(aa)
                        },
                        musicbrainz_id: first_value(fields, album_id_key()),
                        picture: chosen_picture(pics, FlacPictureType::FrontCover),
                    },
                )
            },
        },
    }
}

/// Reads what the scan needs from an audio file's metadata.
pub fn track_info(meta: &FlacMetadata) -> (r: Result<TrackInfo, MetadataError>)
    ensures
        match r {
            Ok(t) => track_info_of(meta.fields(), meta.picture_list()) == Ok::<
                TrackInfoView,
                MetadataError,
            >(t@),
            Err(e) => track_info_of(meta.fields(), meta.picture_list()) == Err::<
                TrackInfoView,
                MetadataError,
            >(e),
        },
{
    let album_name = match meta.get_album_name() {
        Ok(a) => a,
        Err(e) => {
            return Err(e);
        },
    };
    let title = match meta.get_track_name() {
        Ok(t) => t,
        Err(e) => {
            return Err(e);
        },
    };
    let artists = match meta.get_artists() {
        Ok(a) => a,
        Err(e) => {
            return Err(e);
        },
    };
    let album_artists = meta.get_album_artists();
    let musicbrainz_id = meta.get_musicbrainz_album_id();
    let picture = meta.get_picture_data(FlacPictureType::FrontCover);
    Ok(TrackInfo { album_name, title, artists, album_artists, musicbrainz_id, picture })
}

/// The album of a file, and what it took to find or make it.
pub struct AlbumPart {
    pub album_id: u128,
    pub known: Seq<(u128, Seq<char>)>,
    pub ops: Seq<OpView>,
    pub next: int,
}

/// The album found by `found_album`; where there is none, a new album with
/// the next fresh id, after the album artists have been resolved.
pub open spec fn album_part(
    name: Seq<char>,
    artists: Seq<Seq<char>>,
    album_artists: Option<Seq<Seq<char>>>,
    musicbrainz_id: Option<Seq<char>>,
    modified: i64,
    known: Seq<(u128, Seq<char>)>,
    albums: Seq<crate::album::AlbumView>,
    fresh: Seq<u128>,
) -> AlbumPart {
    match found_album(albums, name, artists, album_artists, musicbrainz_id) {
        Some(a) => AlbumPart { album_id: a, known, ops: Seq::empty(), next: 0 },
        None => {
            let names = match album_artists {
                Some(aa) => aa,
                None => Seq::empty(),
            };
            let r = resolve_names(known, names, fresh, 0);
            let id = fresh[r.next];
            AlbumPart {
                album_id: id,
                known: r.known,
                ops: r.ops.push(
                    OpView::CreateAlbum {
                        id,
                        name,
                        musicbrainz_id,
                        last_modified: modified,
                        artists: r.ids,
                    },
                ),
                next: r.next + 1,
            }
        },
    }
}

pub open spec fn names_len(v: Option<Seq<Seq<char>>>) -> nat {
    match v {
        Some(x) => x.len(),
        None => 0,
    }
}

fn plan_album(
    name: &String,
    artists: &Vec<String>,
    album_artists: &Option<Vec<String>>,
    musicbrainz_id: &Option<String>,
    modified: i64,
    albums: &Vec<AlbumRecord>,
    known: &mut Vec<ArtistRecord>,
    ops: &mut Vec<CatalogOp>,
    fresh: &Vec<u128>,
    next: &mut usize,
) -> (r: u128)
    requires
        *old(next) == 0,
        names_len(opt_strings(*album_artists)) + 1 <= fresh@.len(),
    ensures
        ({
            let a = album_part(
                name@,
                strings_view(artists@),
                opt_strings(*album_artists),
                opt_chars(*musicbrainz_id),
                modified,
                artists_view(old(known)@),
                albums_view(albums@),
                fresh@,
            );
            &&& r == a.album_id
            &&& artists_view(final(known)@) == a.known
            &&& ops_view(final(ops)@) == ops_view(old(ops)@) + a.ops
            &&& *final(next) == a.next
            &&& a.next <= names_len(opt_strings(*album_artists)) + 1
        }),
{
    let found = album_find(
        name.as_str(),
        artists,
        copy_opt_strings(album_artists),
        copy_opt_string(musicbrainz_id),
        albums,
    );
    match found {
        Some(a) => {
            assert(ops_view(ops@) =~= ops_view(ops@) + Seq::<OpView>::empty());
            a
        },
        None => {
            let names = match album_artists {
                Some(aa) => copy_strings(aa),
                None => Vec::new(),
            };
            assert(strings_view(names@) =~= match opt_strings(*album_artists) {
                Some(aa) => aa,
                None => Seq::empty(),
            });
            let ghost o0 = ops_view(ops@);
            let ids = resolve_artists(&names, known, ops, fresh, next);
            proof {
                lemma_resolve_next(
                    artists_view(old(known)@),
                    strings_view(names@),
                    fresh@,
                    0,
                );
            }
            let _fresh_len = fresh.len();
            let id = fresh[*next];
            let ghost o1 = ops@;
            ops.push(
                CatalogOp::CreateAlbum {
                    id,
                    name: copy_string(name),
                    musicbrainz_id: copy_opt_string(musicbrainz_id),
                    last_modified: modified,
                    artists: ids,
                },
            );
            assert(ops_view(ops@) =~= ops_view(o1).push(ops@.last()@));
            *next = *next + 1;
            id
        },
    }
}

/// How many fresh ids the writes for a track may take: one per artist and
/// album artist, and one each for the album, the track and the file.
pub open spec fn track_ids_needed(info: TrackInfoView) -> nat {
    info.artists.len() + names_len(info.album_artists) + 3
}

/// The writes for an audio file that is to be read again: its album (found,
/// or created with its album artists), its artists, its track (updated in
/// place where the file row already holds one, else created), the album's
/// picture, the file row (updated where there is one, else created), and the
/// album's modification time. Names are trimmed; fresh ids are taken from
/// `fresh` in order.
pub open spec fn track_plan(
    stored: Option<crate::catalog::FileView>,
    path: Seq<char>,
    modified: i64,
    info: TrackInfoView,
    known: Seq<(u128, Seq<char>)>,
    albums: Seq<crate::album::AlbumView>,
    fresh: Seq<u128>,
) -> Seq<OpView> {
    let name = trimmed(info.album_name);
    let artists = trim_all(info.artists);
    let album_artists = match info.album_artists {
        Some(a) => Some(trim_all(a)),
        None => None,
    };
    let a = album_part(
        name,
        artists,
        album_artists,
        info.musicbrainz_id,
        modified,
        known,
        albums,
        fresh,
    );
    let r = resolve_names(a.known, artists, fresh, a.next);
    let existing_track = match stored {
        Some(f) => f.track_id,
        None => None,
    };
    let track_id = match existing_track {
        Some(t) => t,
        None => fresh[r.next],
    };
    let n = if existing_track is Some {
        r.next
    } else {
        r.next + 1
    };
    let file_id = match stored {
        Some(f) => f.id,
        None => fresh[n],
    };
    a.ops + r.ops + seq![
        OpView::SaveTrack {
            id: track_id,
            create: existing_track is None,
            title: trimmed(info.title),
            picture: info.picture,
            album_id: a.album_id,
            artists: r.ids,
        },
        OpView::SetAlbumPicture { album_id: a.album_id, picture: info.picture },
        OpView::SaveFile {
            id: file_id,
            create: stored is None,
            path,
            last_modified: modified,
            track_id: Some(track_id),
            book_id: None,
        },
        OpView::SetAlbumModified { album_id: a.album_id, last_modified: modified },
    ]
}

/// The writes for an audio file that is to be read again (see `track_plan`).
/// `known` holds the artists of the catalog named by the file (trimmed), and
/// `albums` the albums with the file's external id or album name.
pub fn plan_track(
    stored: &Option<FileRecord>,
    path: &str,
    modified: i64,
    info: &TrackInfo,
    known: &Vec<ArtistRecord>,
    albums: &Vec<AlbumRecord>,
    fresh: &Vec<u128>,
) -> (r: Vec<CatalogOp>)
    requires
        track_ids_needed(info@) <= fresh@.len(),
    ensures
        ops_view(r@) == track_plan(
            opt_file(*stored),
            path@,
            modified,
            info@,
            artists_view(known@),
            albums_view(albums@),
            fresh@,
        ),
{
    let name = trim(info.album_name.as_str());
    let artists = trim_names(&info.artists);
    let album_artists = match &info.album_artists {
        Some(a) => Some(trim_names(a)),
        None => None,
    };
    assert(opt_strings(album_artists) == match info@.album_artists {
        Some(a) => Some(trim_all(a)),
        None => None::<Seq<Seq<char>>>,
    });
    assert(artists@.len() == strings_view(artists@).len());
    assert(names_len(opt_strings(album_artists)) == names_len(info@.album_artists));
    let mut known_now = copy_artists(known);
    let mut ops: Vec<CatalogOp> = Vec::new();
    let mut next: usize = 0;
    // the fresh ids' count bounds every index taken below
    let _fresh_len = fresh.len();
    let album_id = plan_album(
        &name,
        &artists,
        &album_artists,
        &info.musicbrainz_id,
        modified,
        albums,
        &mut known_now,
        &mut ops,
        fresh,
        &mut next,
    );
    let ghost a_next = next;
    let ghost k_before = artists_view(known_now@);
    let track_artists = resolve_artists(&artists, &mut known_now, &mut ops, fresh, &mut next);
    proof {
        lemma_resolve_next(k_before, strings_view(artists@), fresh@, a_next as int);
    }
    let existing_track = match stored {
        Some(f) => f.track_id,
        None => None,
    };
    let track_id = match existing_track {
        Some(t) => t,
        None => {
            let t = fresh[next];
            next = next + 1;
            t
        },
    };
    let file_id = match stored {
        Some(f) => f.id,
        None => fresh[next],
    };
    let ghost o0 = ops@;
    ops.push(
        CatalogOp::SaveTrack {
            id: track_id,
            create: existing_track.is_none(),
            title: trim(info.title.as_str()),
            picture: copy_opt_bytes(&info.picture),
            album_id,
            artists: track_artists,
        },
    );
    ops.push(CatalogOp::SetAlbumPicture { album_id, picture: copy_opt_bytes(&info.picture) });
    ops.push(
        CatalogOp::SaveFile {
            id: file_id,
            create: stored.is_none(),
            path: path.to_owned(),
            last_modified: modified,
            track_id: Some(track_id),
            book_id: None,
        },
    );
    ops.push(CatalogOp::SetAlbumModified { album_id, last_modified: modified });
    proof {
        let k = o0.len() as int;
        assert(ops_view(ops@) =~= ops_view(o0) + seq![
            ops@[k]@,
            ops@[k + 1]@,
            ops@[k + 2]@,
            ops@[k + 3]@,
        ]);
    }
    ops
}

/// Relies on uuid's `Uuid::new_v4`: a random id. Nothing is promised of its
/// value.
#[verifier::external_body]
fn new_id() -> (r: u128) {
    uuid::Uuid::new_v4().as_u128()
}

/// `n` random ids for new rows.
pub fn fresh_ids(n: usize) -> (r: Vec<u128>)
    ensures
        r@.len() == n,
{
    let mut v: Vec<u128> = Vec::new();
    let mut i: usize = 0;
    while i < n
        invariant
            i <= n,
            v@.len() == i,
        decreases n - i,
    {
        v.push(new_id());
        i = i + 1;
    }
    v
}

/// The writes for an audio file found on disk with modification time
/// `modified`: none where `scan_step` skips it, else those of `track_plan`,
/// with new rows taking random ids.
pub fn scan_audio(
    stored: &Option<FileRecord>,
    path: &str,
    modified: i64,
    info: &TrackInfo,
    known: &Vec<ArtistRecord>,
    albums: &Vec<AlbumRecord>,
) -> (r: Vec<CatalogOp>)
    requires
        track_ids_needed(info@) <= usize::MAX,
    ensures
        step_of(opt_file(*stored), modified) == ScanStep::Skip ==> r@.len() == 0,
        step_of(opt_file(*stored), modified) == ScanStep::Process ==> exists|fresh: Seq<u128>|
            #![trigger track_plan(opt_file(*stored), path@, modified, info@, artists_view(known@), albums_view(albums@), fresh)]
            fresh.len() == track_ids_needed(info@) && ops_view(r@) == track_plan(
                opt_file(*stored),
                path@,
                modified,
                info@,
                artists_view(known@),
                albums_view(albums@),
                fresh,
            ),
{
    if scan_step(stored, modified) == ScanStep::Skip {
        return Vec::new();
    }
    let aa = match &info.album_artists {
        Some(a) => a.len(),
        None => 0,
    };
    assert(info@.artists.len() == info.artists@.len());
    assert(names_len(info@.album_artists) == aa);
    let fresh = fresh_ids(info.artists.len() + aa + 3);
    plan_track(stored, path, modified, info, known, albums, &fresh)
}

/// The writes for a book file that is to be read again: its author (the
/// creator, trimmed), the book (updated in place where the file row already
/// holds one, else created; an absent title is empty), then the file row.
pub open spec fn book_plan(
    stored: Option<crate::catalog::FileView>,
    path: Seq<char>,
    modified: i64,
    meta: crate::epub::EpubView,
    known: Seq<(u128, Seq<char>)>,
    fresh: Seq<u128>,
) -> Seq<OpView> {
    let authors = match meta.creator {
        Some(c) => seq![trimmed(c)],
        None => Seq::empty(),
    };
    let r = resolve_names(known, authors, fresh, 0);
    let existing_book = match stored {
        Some(f) => f.book_id,
        None => None,
    };
    let book_id = match existing_book {
        Some(b) => b,
        None => fresh[r.next],
    };
    let n = if existing_book is Some {
        r.next
    } else {
        r.next + 1
    };
    let file_id = match stored {
        Some(f) => f.id,
        None => fresh[n],
    };
    r.ops + seq![
        OpView::SaveBook {
            id: book_id,
            create: existing_book is None,
            title: match meta.title {
                Some(t) => t,
                None => Seq::empty(),
            },
            picture: meta.cover,
            artists: r.ids,
        },
        OpView::SaveFile {
            id: file_id,
            create: stored is None,
            path,
            last_modified: modified,
            track_id: None,
            book_id: Some(book_id),
        },
    ]
}

/// The writes for a book file that is to be read again (see `book_plan`);
/// `known` holds the catalog's artist named by the book's creator, if any.
pub fn plan_book(
    stored: &Option<FileRecord>,
    path: &str,
    modified: i64,
    meta: &EpubMetadata,
    known: &Vec<ArtistRecord>,
    fresh: &Vec<u128>,
) -> (r: Vec<CatalogOp>)
    requires
        3 <= fresh@.len(),
    ensures
        ops_view(r@) == book_plan(
            opt_file(*stored),
            path@,
            modified,
            meta@,
            artists_view(known@),
            fresh@,
        ),
{
    let mut authors: Vec<String> = Vec::new();
    if let Some(c) = &meta.creator {
        authors.push(trim(c.as_str()));
    }
    assert(strings_view(authors@) =~= match meta@.creator {
        Some(c) => seq![trimmed(c)],
        None => Seq::<Seq<char>>::empty(),
    });
    let mut known_now = copy_artists(known);
    let mut ops: Vec<CatalogOp> = Vec::new();
    let mut next: usize = 0;
    let ghost k0 = artists_view(known_now@);
    assert(ops_view(ops@) =~= Seq::<OpView>::empty());
    let book_artists = resolve_artists(&authors, &mut known_now, &mut ops, fresh, &mut next);
    proof {
        lemma_resolve_next(k0, strings_view(authors@), fresh@, 0);
    }
    let existing_book = match stored {
        Some(f) => f.book_id,
        None => None,
    };
    let book_id = match existing_book {
        Some(b) => b,
        None => {
            let b = fresh[next];
            next = next + 1;
            b
        },
    };
    let file_id = match stored {
        Some(f) => f.id,
        None => fresh[next],
    };
    let title = match &meta.title {
        Some(t) => copy_string(t),
        None => String::new(),
    };
    let ghost o0 = ops@;
    ops.push(
        CatalogOp::SaveBook {
            id: book_id,
            create: existing_book.is_none(),
            title,
            picture: copy_opt_bytes(&meta.cover),
            artists: book_artists,
        },
    );
    ops.push(
        CatalogOp::SaveFile {
            id: file_id,
            create: stored.is_none(),
            path: path.to_owned(),
            last_modified: modified,
            track_id: None,
            book_id: Some(book_id),
        },
    );
    proof {
        let k = o0.len() as int;
        assert(ops_view(ops@) =~= ops_view(o0) + seq![ops@[k]@, ops@[k + 1]@]);
    }
    ops
}

/// The writes for a book file found on disk with modification time
/// `modified`: none where `scan_step` skips it, else those of `book_plan`,
/// with new rows taking random ids.
pub fn scan_book(
    stored: &Option<FileRecord>,
    path: &str,
    modified: i64,
    meta: &EpubMetadata,
    known: &Vec<ArtistRecord>,
) -> (r: Vec<CatalogOp>)
    ensures
        step_of(opt_file(*stored), modified) == ScanStep::Skip ==> r@.len() == 0,
        step_of(opt_file(*stored), modified) == ScanStep::Process ==> exists|fresh: Seq<u128>|
            #![trigger book_plan(opt_file(*stored), path@, modified, meta@, artists_view(known@), fresh)]
            fresh.len() == 3 && ops_view(r@) == book_plan(
                opt_file(*stored),
                path@,
                modified,
                meta@,
                artists_view(known@),
                fresh,
            ),
{
    if scan_step(stored, modified) == ScanStep::Skip {
        return Vec::new();
    }
    let fresh = fresh_ids(3);
    plan_book(stored, path, modified, meta, known, &fresh)
}

/// Whether `path` lies under `root`: `root` is a prefix of it.
pub open spec fn under_root(path: Seq<char>, root: Seq<char>) -> bool {
    root.len() <= path.len() && path.subrange(0, root.len() as int) == root
}

/// The writes that remove one file row whose file is gone: the row, then
/// the track or book that it held.
pub open spec fn removal_ops(f: crate::catalog::FileView) -> Seq<OpView> {
    seq![OpView::DeleteFile { id: f.id }] + match f.track_id {
        Some(t) => seq![OpView::DeleteTrack { id: t }],
        None => Seq::empty(),
    } + match f.book_id {
        Some(b) => seq![OpView::DeleteBook { id: b }],
        None => Seq::empty(),
    }
}

/// The first pass of the cleanup: for each file row under `root` whose file
/// no longer exists (`exists[i]` false), in order, the writes of
/// `removal_ops`.
pub open spec fn file_cleanup(
    root: Seq<char>,
    files: Seq<crate::catalog::FileView>,
    exists: Seq<bool>,
) -> Seq<OpView>
    decreases files.len(),
{
    if files.len() == 0 {
        Seq::empty()
    } else {
        let i = files.len() - 1;
        let rest = file_cleanup(root, files.drop_last(), exists);
        if under_root(files[i].path, root) && !exists[i] {
            rest + removal_ops(files[i])
        } else {
            rest
        }
    }
}

fn starts_with(path: &Vec<char>, root: &Vec<char>) -> (r: bool)
    ensures
        r == under_root(path@, root@),
{
    if root.len() > path.len() {
        return false;
    }
    let mut i: usize = 0;
    while i < root.len()
        invariant
            root@.len() <= path@.len(),
            i <= root@.len(),
            forall|j: int| 0 <= j < i ==> path@[j] == root@[j],
        decreases root@.len() - i,
    {
        if path[i] != root[i] {
            assert(path@.subrange(0, root@.len() as int)[i as int] != root@[i as int]);
            return false;
        }
        i = i + 1;
    }
    assert(path@.subrange(0, root@.len() as int) =~= root@);
    true
}

/// The first pass of the cleanup, run before the walk: removes the rows of
/// the files under `root` that are gone from disk. `exists[i]` tells whether
/// the file of `files[i]` is still on disk.
pub fn plan_file_cleanup(root: &str, files: &Vec<FileRecord>, exists: &Vec<bool>) -> (r: Vec<
    CatalogOp,
>)
    requires
        files@.len() == exists@.len(),
    ensures
        ops_view(r@) == file_cleanup(root@, crate::catalog::files_view(files@), exists@),
{
    let root_chars = chars_of(root);
    let ghost fv = crate::catalog::files_view(files@);
    let mut ops: Vec<CatalogOp> = Vec::new();
    let mut i: usize = 0;
    assert(fv.take(0) =~= Seq::<crate::catalog::FileView>::empty());
    while i < files.len()
        invariant
            i <= files@.len(),
            files@.len() == exists@.len(),
            root_chars@ == root@,
            fv == crate::catalog::files_view(files@),
            ops_view(ops@) == file_cleanup(root@, fv.take(i as int), exists@),
        decreases files@.len() - i,
    {
        let f = &files[i];
        assert(fv.take(i + 1).drop_last() =~= fv.take(i as int));
        assert(fv.take(i + 1)[i as int] == f@);
        if starts_with(&chars_of(f.path.as_str()), &root_chars) && !exists[i] {
            let ghost o0 = ops_view(ops@);
            let ghost n0 = ops@.len();
            ops.push(CatalogOp::DeleteFile { id: f.id });
            if let Some(t) = f.track_id {
                ops.push(CatalogOp::DeleteTrack { id: t });
            }
            if let Some(b) = f.book_id {
                ops.push(CatalogOp::DeleteBook { id: b });
            }
            assert(ops_view(ops@) =~= o0 + removal_ops(f@));
        }
        i = i + 1;
    }
    assert(fv.take(files@.len() as int) =~= fv);
    ops
}

/// An album and how many tracks it holds.
#[derive(Debug, Clone, Copy)]
pub struct AlbumTrackCount {
    pub album_id: u128,
    pub tracks: u64,
}

/// The second pass of the cleanup: each album that holds no track, in order.
pub open spec fn album_cleanup(counts: Seq<AlbumTrackCount>) -> Seq<OpView>
    decreases counts.len(),
{
    if counts.len() == 0 {
        Seq::empty()
    } else {
        let rest = album_cleanup(counts.drop_last());
        if counts.last().tracks == 0 {
            rest.push(OpView::DeleteAlbum { id: counts.last().album_id })
        } else {
            rest
        }
    }
}

/// The second pass of the cleanup, run once the first pass is written:
/// removes the albums left without tracks.
pub fn plan_album_cleanup(counts: &Vec<AlbumTrackCount>) -> (r: Vec<CatalogOp>)
    ensures
        ops_view(r@) == album_cleanup(counts@),
{
    let mut ops: Vec<CatalogOp> = Vec::new();
    let mut i: usize = 0;
    assert(counts@.take(0) =~= Seq::<AlbumTrackCount>::empty());
    while i < counts.len()
        invariant
            i <= counts@.len(),
            ops_view(ops@) == album_cleanup(counts@.take(i as int)),
        decreases counts@.len() - i,
    {
        assert(counts@.take(i + 1).drop_last() =~= counts@.take(i as int));
        if counts[i].tracks == 0 {
            let ghost o0 = ops@;
            ops.push(CatalogOp::DeleteAlbum { id: counts[i].album_id });
            assert(ops_view(ops@) =~= ops_view(o0).push(OpView::DeleteAlbum { id: counts[i as int].album_id }));
        }
        i = i + 1;
    }
    assert(counts@.take(counts@.len() as int) =~= counts@);
    ops
}

} // verus!
