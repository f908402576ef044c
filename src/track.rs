//! What the scan needs to know of a track, read from its tags and pictures.
use vstd::prelude::*;

use crate::bytes::copy_range;
use crate::flac::{tags_view, FlacMetadata, FlacPictureType, PictureView, pictures_view};
use crate::text::chars_of;

verus! {

/// A tag that a track cannot do without was not there.
#[derive(Debug, Clone, Copy, PartialEq, Eq, Structural)]
pub enum MetadataError {
    MissingAlbum,
    MissingTitle,
    MissingArtist,
}

/// Whether the tag key `k` is `name` (given in upper case), ignoring the case
/// of ASCII letters.
pub open spec fn key_matches(k: Seq<char>, name: Seq<char>) -> bool {
    &&& k.len() == name.len()
    &&& forall|i: int|
        0 <= i < k.len() ==> #[trigger] k[i] == name[i] || ('A' <= name[i] <= 'Z' && k[i] as u32
            == name[i] as u32 + 32)
}

/// The values of the fields whose key is `name`, in order.
pub open spec fn values_of(fields: Seq<(Seq<char>, Seq<char>)>, name: Seq<char>) -> Seq<Seq<char>>
    decreases fields.len(),
{
    if fields.len() == 0 {
        Seq::empty()
    } else {
        let rest = values_of(fields.drop_last(), name);
        if key_matches(fields.last().0, name) {
            rest.push(fields.last().1)
        } else {
            rest
        }
    }
}

/// The first value under `name`, if any.
pub open spec fn first_value(fields: Seq<(Seq<char>, Seq<char>)>, name: Seq<char>) -> Option<Seq<char>> {
    let v = values_of(fields, name);
    if v.len() == 0 {
        None
    } else {
        Some(v[0])
    }
}

/// The index of the first picture of kind `t` at or after `i`.
pub open spec fn picture_index_from(pics: Seq<PictureView>, t: FlacPictureType, i: int) -> Option<int>
    decreases pics.len() - i,
{
    if i < 0 || i >= pics.len() {
        None
    } else if pics[i].picture_type == t {
        Some(i)
    } else {
        picture_index_from(pics, t, i + 1)
    }
}

/// The picture data to use for a track: the first picture of the preferred
/// kind, else the first picture of any kind.
pub open spec fn chosen_picture(pics: Seq<PictureView>, t: FlacPictureType) -> Option<Seq<u8>> {
    match picture_index_from(pics, t, 0) {
        Some(i) => Some(pics[i].data),
        None => if pics.len() > 0 {
            Some(pics[0].data)
        } else {
            None
        },
    }
}

pub open spec fn strings_view(v: Seq<String>) -> Seq<Seq<char>> {
    v.map_values(|s: String| s@)
}

pub open spec fn album_key() -> Seq<char> {
    seq!['A', 'L', 'B', 'U', 'M']
}

pub open spec fn title_key() -> Seq<char> {
    seq!['T', 'I', 'T', 'L', 'E']
}

pub open spec fn artist_key() -> Seq<char> {
    seq!['A', 'R', 'T', 'I', 'S', 'T']
}

pub open spec fn album_artist_key() -> Seq<char> {
    seq!['A', 'L', 'B', 'U', 'M', 'A', 'R', 'T', 'I', 'S', 'T']
}

pub open spec fn album_id_key() -> Seq<char> {
    seq![
        'M', 'U', 'S', 'I', 'C', 'B', 'R', 'A', 'I', 'N', 'Z', '_', 'A', 'L', 'B', 'U', 'M', 'I', 'D'
    ]
}

/// The fields that the scan reads from a track's metadata.
pub trait TrackMetadata {
    /// The tag fields, in order.
    spec fn fields(&self) -> Seq<(Seq<char>, Seq<char>)>;

    /// The embedded pictures, in order.
    spec fn picture_list(&self) -> Seq<PictureView>;

    /// The first `ALBUM` value.
    fn get_album_name(&self) -> (r: Result<String, MetadataError>)
        ensures
            match r {
                Ok(s) => first_value(self.fields(), album_key()) == Some(s@),
                Err(e) => first_value(self.fields(), album_key()) is None && e
                    == MetadataError::MissingAlbum,
            },
    ;

    /// The first `TITLE` value.
    fn get_track_name(&self) -> (r: Result<String, MetadataError>)
        ensures
            match r {
                Ok(s) => first_value(self.fields(), title_key()) == Some(s@),
                Err(e) => first_value(self.fields(), title_key()) is None && e
                    == MetadataError::MissingTitle,
            },
    ;

    /// Every `ARTIST` value, in order; an error where there is none.
    fn get_artists(&self) -> (r: Result<Vec<String>, MetadataError>)
        ensures
            match r {
                Ok(v) => strings_view(v@) == values_of(self.fields(), artist_key()) && v@.len()
                    > 0,
                Err(e) => values_of(self.fields(), artist_key()).len() == 0 && e
                    == MetadataError::MissingArtist,
            },
    ;

    /// Every `ALBUMARTIST` value, in order; `None` where there is none.
    fn get_album_artists(&self) -> (r: Option<Vec<String>>)
        ensures
            match r {
                Some(v) => strings_view(v@) == values_of(self.fields(), album_artist_key())
                    && v@.len() > 0,
                None => values_of(self.fields(), album_artist_key()).len() == 0,
            },
    ;

    /// The first `MUSICBRAINZ_ALBUMID` value.
    fn get_musicbrainz_album_id(&self) -> (r: Option<String>)
        ensures
            match r {
                Some(s) => first_value(self.fields(), album_id_key()) == Some(s@),
                None => first_value(self.fields(), album_id_key()) is None,
            },
    ;

    /// The data of the first picture of kind `priority`, else of the first
    /// picture.
    fn get_picture_data(&self, priority: FlacPictureType) -> (r: Option<Vec<u8>>)
        ensures
            match r {
                Some(v) => chosen_picture(self.picture_list(), priority) == Some(v@),
                None => chosen_picture(self.picture_list(), priority) is None,
            },
    ;
}

/// Whether `key` is `name` (upper case), ignoring the case of ASCII letters.
fn key_is(key: &String, name: &Vec<char>) -> (r: bool)
    ensures
        r == key_matches(key@, name@),
{
    let k = chars_of(key.as_str());
    if k.len() != name.len() {
        return false;
    }
    let mut i: usize = 0;
    while i < k.len()
        invariant
            k@ == key@,
            k@.len() == name@.len(),
            i <= k@.len(),
            forall|j: int|
                0 <= j < i ==> #[trigger] k@[j] == name@[j] || ('A' <= name@[j] <= 'Z' && k@[j] as u32
                    == name@[j] as u32 + 32),
        decreases k@.len() - i,
    {
        let c = k[i];
        let n = name[i];
        if !(c == n || ('A' <= n && n <= 'Z' && c as u32 == n as u32 + 32)) {
            return false;
        }
        i = i + 1;
    }
    true
}

impl FlacMetadata {
    /// The values stored under `name` (upper case; the keys' ASCII case is
    /// ignored), in order.
    pub fn tag_values(&self, name: &str) -> (r: Vec<String>)
        ensures
            strings_view(r@) == values_of(tags_view(self.tags@), name@),
    {
        let name_chars = chars_of(name);
        let ghost fields = tags_view(self.tags@);
        let mut out: Vec<String> = Vec::new();
        let mut i: usize = 0;
        assert(strings_view(out@) =~= values_of(fields.take(0), name@));
        while i < self.tags.len()
            invariant
                i <= self.tags@.len(),
                fields == tags_view(self.tags@),
                name_chars@ == name@,
                strings_view(out@) == values_of(fields.take(i as int), name@),
            decreases self.tags@.len() - i,
        {
            assert(fields.take(i + 1).drop_last() =~= fields.take(i as int));
            if key_is(&self.tags[i].key, &name_chars) {
                let v = self.tags[i].value.clone();
                let ghost before = out@;
                out.push(v);
                assert(strings_view(out@) =~= strings_view(before).push(v@));
            }
            i = i + 1;
        }
        assert(fields.take(self.tags@.len() as int) =~= fields);
        out
    }
}

impl TrackMetadata for FlacMetadata {
    open spec fn fields(&self) -> Seq<(Seq<char>, Seq<char>)> {
        tags_view(self.tags@)
    }

    open spec fn picture_list(&self) -> Seq<PictureView> {
        pictures_view(self.pictures@)
    }

    fn get_album_name(&self) -> (r: Result<String, MetadataError>) {
        proof {
            reveal_strlit("ALBUM");
            assert("ALBUM"@ =~= album_key());
        }
        let v = self.tag_values("ALBUM");
        if v.len() == 0 {
            Err(MetadataError::MissingAlbum)
        } else {
            assert(strings_view(v@)[0] == v@[0]@);
            Ok(v[0].clone())
        }
    }

    fn get_track_name(&self) -> (r: Result<String, MetadataError>) {
        proof {
            reveal_strlit("TITLE");
            assert("TITLE"@ =~= title_key());
        }
        let v = self.tag_values("TITLE");
        if v.len() == 0 {
            Err(MetadataError::MissingTitle)
        } else {
            assert(strings_view(v@)[0] == v@[0]@);
            Ok(v[0].clone())
        }
    }

    fn get_artists(&self) -> (r: Result<Vec<String>, MetadataError>) {
        proof {
            reveal_strlit("ARTIST");
            assert("ARTIST"@ =~= artist_key());
        }
        let v = self.tag_values("ARTIST");
        if v.len() == 0 {
            Err(MetadataError::MissingArtist)
        } else {
            Ok(v)
        }
    }

    fn get_album_artists(&self) -> (r: Option<Vec<String>>) {
        proof {
            reveal_strlit("ALBUMARTIST");
            assert("ALBUMARTIST"@ =~= album_artist_key());
        }
        let v = self.tag_values("ALBUMARTIST");
        if v.len() == 0 {
            None
        } else {
            Some(v)
        }
    }

    fn get_musicbrainz_album_id(&self) -> (r: Option<String>) {
        proof {
            reveal_strlit("MUSICBRAINZ_ALBUMID");
            assert("MUSICBRAINZ_ALBUMID"@ =~= album_id_key());
        }
        let v = self.tag_values("MUSICBRAINZ_ALBUMID");
        if v.len() == 0 {
            None
        } else {
            assert(strings_view(v@)[0] == v@[0]@);
            Some(v[0].clone())
        }
    }

    fn get_picture_data(&self, priority: FlacPictureType) -> (r: Option<Vec<u8>>) {
        let ghost pics = pictures_view(self.pictures@);
        let mut i: usize = 0;
        while i < self.pictures.len()
            invariant
                i <= self.pictures@.len(),
                pics == pictures_view(self.pictures@),
                picture_index_from(pics, priority, 0) == picture_index_from(pics, priority, i as int),
            decreases self.pictures@.len() - i,
        {
            if self.pictures[i].picture_type == priority {
                let d = &self.pictures[i].data;
                return Some(copy_range(d.as_slice(), 0, d.len()));
            }
            i = i + 1;
        }
        if self.pictures.len() > 0 {
            let d = &self.pictures[0].data;
            Some(copy_range(d.as_slice(), 0, d.len()))
        } else {
            None
        }
    }
}

} // verus!
