//! The catalog as the scan sees it: the rows it reads, the writes it asks
//! the store for, and a model of what those writes do.
use vstd::prelude::*;

use crate::epub::opt_chars;

verus! {

/// A file row: a path on disk, its modification time as last scanned, and
/// the track or book that it holds.
#[derive(Debug, Clone)]
pub struct FileRecord {
    pub id: u128,
    pub path: String,
    /// Nanoseconds since the Unix epoch.
    pub last_modified: i64,
    pub track_id: Option<u128>,
    pub book_id: Option<u128>,
}

pub struct FileView {
    pub id: u128,
    pub path: Seq<char>,
    pub last_modified: i64,
    pub track_id: Option<u128>,
    pub book_id: Option<u128>,
}

impl View for FileRecord {
    type V = FileView;

    open spec fn view(&self) -> FileView {
        FileView {
            id: self.id,
            path: self.path@,
            last_modified: self.last_modified,
            track_id: self.track_id,
            book_id: self.book_id,
        }
    }
}

pub open spec fn opt_file(f: Option<FileRecord>) -> Option<FileView> {
    match f {
        Some(r) => Some(r@),
        None => None,
    }
}

pub open spec fn files_view(v: Seq<FileRecord>) -> Seq<FileView> {
    v.map_values(|f: FileRecord| f@)
}

/// An artist row.
#[derive(Debug, Clone)]
pub struct ArtistRecord {
    pub id: u128,
    pub name: String,
}

impl View for ArtistRecord {
    type V = (u128, Seq<char>);

    open spec fn view(&self) -> (u128, Seq<char>) {
        (self.id, self.name@)
    }
}

pub open spec fn artists_view(v: Seq<ArtistRecord>) -> Seq<(u128, Seq<char>)> {
    v.map_values(|a: ArtistRecord| a@)
}

/// One write that the scan asks of the catalog store. `create` tells a new
/// row from an update of the row with that id.
#[derive(Debug, Clone)]
pub enum CatalogOp {
    CreateArtist { id: u128, name: String },
    CreateAlbum {
        id: u128,
        name: String,
        musicbrainz_id: Option<String>,
        last_modified: i64,
        artists: Vec<u128>,
    },
    SaveTrack {
        id: u128,
        create: bool,
        title: String,
        picture: Option<Vec<u8>>,
        album_id: u128,
        artists: Vec<u128>,
    },
    /// An album takes the picture of the track last written to it.
    SetAlbumPicture { album_id: u128, picture: Option<Vec<u8>> },
    SaveBook { id: u128, create: bool, title: String, picture: Option<Vec<u8>>, artists: Vec<u128> },
    SaveFile {
        id: u128,
        create: bool,
        path: String,
        last_modified: i64,
        track_id: Option<u128>,
        book_id: Option<u128>,
    },
    /// An album takes the modification time of the file last written for one
    /// of its tracks.
    SetAlbumModified { album_id: u128, last_modified: i64 },
    DeleteFile { id: u128 },
    DeleteTrack { id: u128 },
    DeleteBook { id: u128 },
    DeleteAlbum { id: u128 },
}

pub enum OpView {
    CreateArtist { id: u128, name: Seq<char> },
    CreateAlbum {
        id: u128,
        name: Seq<char>,
        musicbrainz_id: Option<Seq<char>>,
        last_modified: i64,
        artists: Seq<u128>,
    },
    SaveTrack {
        id: u128,
        create: bool,
        title: Seq<char>,
        picture: Option<Seq<u8>>,
        album_id: u128,
        artists: Seq<u128>,
    },
    SetAlbumPicture { album_id: u128, picture: Option<Seq<u8>> },
    SaveBook {
        id: u128,
        create: bool,
        title: Seq<char>,
        picture: Option<Seq<u8>>,
        artists: Seq<u128>,
    },
    SaveFile {
        id: u128,
        create: bool,
        path: Seq<char>,
        last_modified: i64,
        track_id: Option<u128>,
        book_id: Option<u128>,
    },
    SetAlbumModified { album_id: u128, last_modified: i64 },
    DeleteFile { id: u128 },
    DeleteTrack { id: u128 },
    DeleteBook { id: u128 },
    DeleteAlbum { id: u128 },
}

pub open spec fn opt_bytes(v: Option<Vec<u8>>) -> Option<Seq<u8>> {
    match v {
        Some(b) => Some(b@),
        None => None,
    }
}

impl View for CatalogOp {
    type V = OpView;

    open spec fn view(&self) -> OpView {
        match *self {
            CatalogOp::CreateArtist { id, name } => OpView::CreateArtist { id, name: name@ },
            CatalogOp::CreateAlbum { id, name, musicbrainz_id, last_modified, artists } => {
                OpView::CreateAlbum {
                    id,
                    name: name@,
                    musicbrainz_id: opt_chars(musicbrainz_id),
                    last_modified,
                    artists: artists@,
                }
            },
            CatalogOp::SaveTrack { id, create, title, picture, album_id, artists } => {
                OpView::SaveTrack {
                    id,
                    create,
                    title: title@,
                    picture: opt_bytes(picture),
                    album_id,
                    artists: artists@,
                }
            },
            CatalogOp::SetAlbumPicture { album_id, picture } => OpView::SetAlbumPicture {
                album_id,
                picture: opt_bytes(picture),
            },
            CatalogOp::SaveBook { id, create, title, picture, artists } => OpView::SaveBook {
                id,
                create,
                title: title@,
                picture: opt_bytes(picture),
                artists: artists@,
            },
            CatalogOp::SaveFile { id, create, path, last_modified, track_id, book_id } => {
                OpView::SaveFile { id, create, path: path@, last_modified, track_id, book_id }
            },
            CatalogOp::SetAlbumModified { album_id, last_modified } => OpView::SetAlbumModified {
                album_id,
                last_modified,
            },
            CatalogOp::DeleteFile { id } => OpView::DeleteFile { id },
            CatalogOp::DeleteTrack { id } => OpView::DeleteTrack { id },
            CatalogOp::DeleteBook { id } => OpView::DeleteBook { id },
            CatalogOp::DeleteAlbum { id } => OpView::DeleteAlbum { id },
        }
    }
}

pub open spec fn ops_view(v: Seq<CatalogOp>) -> Seq<OpView> {
    v.map_values(|o: CatalogOp| o@)
}

} // verus!
