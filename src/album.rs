//! Deciding whether newly read album data names an album already in the
//! catalog.
use vstd::prelude::*;

use crate::epub::opt_chars;
use crate::track::strings_view;

verus! {

/// An album of the catalog, with the names of its album artists.
#[derive(Debug, Clone)]
pub struct AlbumRecord {
    pub id: u128,
    pub name: String,
    pub musicbrainz_id: Option<String>,
    pub artists: Vec<String>,
}

pub struct AlbumView {
    pub id: u128,
    pub name: Seq<char>,
    pub musicbrainz_id: Option<Seq<char>>,
    pub artists: Seq<Seq<char>>,
}

impl View for AlbumRecord {
    type V = AlbumView;

    open spec fn view(&self) -> AlbumView {
        AlbumView {
            id: self.id,
            name: self.name@,
            musicbrainz_id: opt_chars(self.musicbrainz_id),
            artists: strings_view(self.artists@),
        }
    }
}

pub open spec fn albums_view(v: Seq<AlbumRecord>) -> Seq<AlbumView> {
    v.map_values(|a: AlbumRecord| a@)
}

pub open spec fn opt_strings(v: Option<Vec<String>>) -> Option<Seq<Seq<char>>> {
    match v {
        Some(x) => Some(strings_view(x@)),
        None => None,
    }
}

pub open spec fn has_name(names: Seq<Seq<char>>, n: Seq<char>) -> bool {
    exists|i: int| 0 <= i < names.len() && names[i] == n
}

/// Whether an album with the artist names `existing` is the album that a file
/// with `artists` and `album_artists` belongs to. With album artists, the two
/// lists have the same length and each album artist is among `existing`;
/// without, one of `artists` is among `existing`.
pub open spec fn album_matches(
    artists: Seq<Seq<char>>,
    album_artists: Option<Seq<Seq<char>>>,
    existing: Seq<Seq<char>>,
) -> bool {
    match album_artists {
        Some(aa) => aa.len() == existing.len() && forall|i: int|
            0 <= i < aa.len() ==> #[trigger] has_name(existing, aa[i]),
        None => exists|i: int| 0 <= i < artists.len() && #[trigger] has_name(existing, artists[i]),
    }
}

fn name_in(names: &Vec<String>, n: &String) -> (r: bool)
    ensures
        r == has_name(strings_view(names@), n@),
{
    let mut i: usize = 0;
    while i < names.len()
        invariant
            i <= names@.len(),
            forall|j: int| 0 <= j < i ==> names@[j]@ != n@,
        decreases names@.len() - i,
    {
        if names[i] == *n {
            assert(strings_view(names@)[i as int] == n@);
            return true;
        }
        i = i + 1;
    }
    assert forall|j: int| 0 <= j < names@.len() implies strings_view(names@)[j] != n@ by {
        assert(strings_view(names@)[j] == names@[j]@);
    }
    false
}

/// Whether `album` is the album of a file with these artists and album
/// artists.
pub fn album_match(
    artists: &Vec<String>,
    album_artists: &Option<Vec<String>>,
    album: &AlbumRecord,
) -> (r: bool)
    ensures
        r == album_matches(strings_view(artists@), opt_strings(*album_artists), album@.artists),
{
    let existing = &album.artists;
    match album_artists.as_ref() {
        Some(aa) => {
            if aa.len() != existing.len() {
                return false;
            }
            let mut i: usize = 0;
            while i < aa.len()
                invariant
                    i <= aa@.len(),
                    *album_artists == Some(*aa),
                    aa@.len() == existing@.len(),
                    existing@ == album.artists@,
                    forall|j: int|
                        0 <= j < i ==> #[trigger] has_name(
                            strings_view(existing@),
                            strings_view(aa@)[j],
                        ),
                decreases aa@.len() - i,
            {
                if !name_in(existing, &aa[i]) {
                    assert(!has_name(strings_view(existing@), strings_view(aa@)[i as int]));
                    return false;
                }
                i = i + 1;
            }
            true
        },
        None => {
            let mut i: usize = 0;
            while i < artists.len()
                invariant
                    i <= artists@.len(),
                    album_artists is None,
                    existing@ == album.artists@,
                    forall|j: int|
                        0 <= j < i ==> !#[trigger] has_name(
                            strings_view(existing@),
                            strings_view(artists@)[j],
                        ),
                decreases artists@.len() - i,
            {
                if name_in(existing, &artists[i]) {
                    assert(has_name(strings_view(existing@), strings_view(artists@)[i as int]));
                    return true;
                }
                i = i + 1;
            }
            false
        },
    }
}

/// The first album at or after `i` whose external identifier is `id`.
pub open spec fn id_index_from(albums: Seq<AlbumView>, id: Seq<char>, i: int) -> Option<int>
    decreases albums.len() - i,
{
    if i < 0 || i >= albums.len() {
        None
    } else if albums[i].musicbrainz_id == Some(id) {
        Some(i)
    } else {
        id_index_from(albums, id, i + 1)
    }
}

/// The first album at or after `i` named `name` that `album_matches` accepts.
pub open spec fn name_index_from(
    albums: Seq<AlbumView>,
    name: Seq<char>,
    artists: Seq<Seq<char>>,
    album_artists: Option<Seq<Seq<char>>>,
    i: int,
) -> Option<int>
    decreases albums.len() - i,
{
    if i < 0 || i >= albums.len() {
        None
    } else if albums[i].name == name && album_matches(artists, album_artists, albums[i].artists) {
        Some(i)
    } else {
        name_index_from(albums, name, artists, album_artists, i + 1)
    }
}

/// The album of the catalog that a file belongs to: the first with the
/// file's external identifier, where it has one and such an album exists;
/// otherwise the first with the same name that `album_matches` accepts.
pub open spec fn found_album(
    albums: Seq<AlbumView>,
    name: Seq<char>,
    artists: Seq<Seq<char>>,
    album_artists: Option<Seq<Seq<char>>>,
    external_id: Option<Seq<char>>,
) -> Option<u128> {
    let by_name = match name_index_from(albums, name, artists, album_artists, 0) {
        Some(i) => Some(albums[i].id),
        None => None,
    };
    match external_id {
        Some(id) => match id_index_from(albums, id, 0) {
            Some(i) => Some(albums[i].id),
            None => by_name,
        },
        None => by_name,
    }
}

/// Looks among `albums` for the album that a file with this album name,
/// these artists and album artists, and this external identifier belongs to.
pub fn album_find(
    album_name: &str,
    artists: &Vec<String>,
    album_artists: Option<Vec<String>>,
    musicbrainz_album_id: Option<String>,
    albums: &Vec<AlbumRecord>,
) -> (r: Option<u128>)
    ensures
        r == found_album(
            albums_view(albums@),
            album_name@,
            strings_view(artists@),
            opt_strings(album_artists),
            opt_chars(musicbrainz_album_id),
        ),
{
    let ghost av = albums_view(albums@);
    if let Some(id) = musicbrainz_album_id {
        let mut i: usize = 0;
        while i < albums.len()
            invariant
                i <= albums@.len(),
                av == albums_view(albums@),
                musicbrainz_album_id == Some(id),
                id_index_from(av, id@, 0) == id_index_from(av, id@, i as int),
            decreases albums@.len() - i,
        {
            let same = match &albums[i].musicbrainz_id {
                Some(m) => *m == id,
                None => false,
            };
            assert(av[i as int] == albums@[i as int]@);
            if same {
                return Some(albums[i].id);
            }
            i = i + 1;
        }
    }
    let name = album_name.to_owned();
    let mut i: usize = 0;
    while i < albums.len()
        invariant
            i <= albums@.len(),
            av == albums_view(albums@),
            name@ == album_name@,
            found_album(
                av,
                album_name@,
                strings_view(artists@),
                opt_strings(album_artists),
                opt_chars(musicbrainz_album_id),
            ) == match name_index_from(
                av,
                name@,
                strings_view(artists@),
                opt_strings(album_artists),
                i as int,
            ) {
                Some(j) => Some(av[j].id),
                None => None::<u128>,
            },
        decreases albums@.len() - i,
    {
        assert(av[i as int] == albums@[i as int]@);
        if albums[i].name == name && album_match(artists, &album_artists, &albums[i]) {
            return Some(albums[i].id);
        }
        i = i + 1;
    }
    None
}

} // verus!
