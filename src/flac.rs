//! The metadata of a FLAC stream: the `fLaC` marker, then a chain of
//! metadata blocks, each behind a four-byte header.
use vstd::prelude::*;

use crate::bytes::{
    be_value, copy_range, le32_value, read_be_u16, read_be_u24, read_be_u32, read_be_u64,
    read_le_u32,
};
use crate::text::{decode_lossy, lossy_utf8};

verus! {

/// The kind of a metadata block, from the low seven bits of its header.
#[derive(Debug, Clone, Copy, PartialEq, Eq, Structural)]
pub enum FlacBlockType {
    StreamInfo,
    Padding,
    Application,
    SeekTable,
    VorbisComment,
    Cuesheet,
    Picture,
}

impl FlacBlockType {
    pub open spec fn spec_from_u8(value: u8) -> Option<FlacBlockType> {
        if value == 0 {
            Some(FlacBlockType::StreamInfo)
        } else if value == 1 {
            Some(FlacBlockType::Padding)
        } else if value == 2 {
            Some(FlacBlockType::Application)
        } else if value == 3 {
            Some(FlacBlockType::SeekTable)
        } else if value == 4 {
            Some(FlacBlockType::VorbisComment)
        } else if value == 5 {
            Some(FlacBlockType::Cuesheet)
        } else if value == 6 {
            Some(FlacBlockType::Picture)
        } else {
            None
        }
    }

    /// The block kind with code `value`; `None` for a code with no kind.
    pub fn from_u8(value: u8) -> (r: Option<FlacBlockType>)
        ensures
            r == Self::spec_from_u8(value),
    {
        match value {
            0 => Some(FlacBlockType::StreamInfo),
            1 => Some(FlacBlockType::Padding),
            2 => Some(FlacBlockType::Application),
            3 => Some(FlacBlockType::SeekTable),
            4 => Some(FlacBlockType::VorbisComment),
            5 => Some(FlacBlockType::Cuesheet),
            6 => Some(FlacBlockType::Picture),
            _ => None,
        }
    }
}

/// What a picture block says it shows.
#[derive(Debug, Clone, Copy, PartialEq, Eq, Structural)]
pub enum FlacPictureType {
    Other,
    PngIcon,
    GeneralIcon,
    FrontCover,
    BackCover,
    LinerNotes,
    MediaLabel,
    LeadArtist,
    Artist,
    Conductor,
    Orchestra,
    Composer,
    Lyricist,
    RecordingLocation,
    Recording,
    Performance,
    ScreenCapture,
    BrightlyColoredFish,
    Illustration,
    ArtistLogo,
    PublisherLogo,
}

impl FlacPictureType {
    pub open spec fn spec_from_u32(value: u32) -> FlacPictureType {
        if value == 1 {
            FlacPictureType::PngIcon
        } else if value == 2 {
            FlacPictureType::GeneralIcon
        } else if value == 3 {
            FlacPictureType::FrontCover
        } else if value == 4 {
            FlacPictureType::BackCover
        } else if value == 5 {
            FlacPictureType::LinerNotes
        } else if value == 6 {
            FlacPictureType::MediaLabel
        } else if value == 7 {
            FlacPictureType::LeadArtist
        } else if value == 8 {
            FlacPictureType::Artist
        } else if value == 9 {
            FlacPictureType::Conductor
        } else if value == 10 {
            FlacPictureType::Orchestra
        } else if value == 11 {
            FlacPictureType::Composer
        } else if value == 12 {
            FlacPictureType::Lyricist
        } else if value == 13 {
            FlacPictureType::RecordingLocation
        } else if value == 14 {
            FlacPictureType::Recording
        } else if value == 15 {
            FlacPictureType::Performance
        } else if value == 16 {
            FlacPictureType::ScreenCapture
        } else if value == 17 {
            FlacPictureType::BrightlyColoredFish
        } else if value == 18 {
            FlacPictureType::Illustration
        } else if value == 19 {
            FlacPictureType::ArtistLogo
        } else if value == 20 {
            FlacPictureType::PublisherLogo
        } else {
            FlacPictureType::Other
        }
    }

    /// The picture kind with code `value`; `Other` for a code with no kind.
    pub fn from_u32(value: u32) -> (r: FlacPictureType)
        ensures
            r == Self::spec_from_u32(value),
    {
        match value {
            0 => FlacPictureType::Other,
            1 => FlacPictureType::PngIcon,
            2 => FlacPictureType::GeneralIcon,
            3 => FlacPictureType::FrontCover,
            4 => FlacPictureType::BackCover,
            5 => FlacPictureType::LinerNotes,
            6 => FlacPictureType::MediaLabel,
            7 => FlacPictureType::LeadArtist,
            8 => FlacPictureType::Artist,
            9 => FlacPictureType::Conductor,
            10 => FlacPictureType::Orchestra,
            11 => FlacPictureType::Composer,
            12 => FlacPictureType::Lyricist,
            13 => FlacPictureType::RecordingLocation,
            14 => FlacPictureType::Recording,
            15 => FlacPictureType::Performance,
            16 => FlacPictureType::ScreenCapture,
            17 => FlacPictureType::BrightlyColoredFish,
            18 => FlacPictureType::Illustration,
            19 => FlacPictureType::ArtistLogo,
            20 => FlacPictureType::PublisherLogo,
            _ => FlacPictureType::Other,
        }
    }
}

/// Why a FLAC stream's metadata could not be read.
#[derive(Debug, Clone, Copy, PartialEq, Eq, Structural)]
pub enum FlacError {
    /// The data does not start with `fLaC`.
    BadMarker,
    /// A header or a block runs past the end of the data.
    Truncated,
    /// The chain of blocks ended without a STREAMINFO block.
    MissingStreamInfo,
}

/// The fixed-layout STREAMINFO block. `channels` and `bps` hold the channel
/// count and the bits per sample themselves, not the stored values less one.
#[derive(Debug, Clone, Copy)]
pub struct FlacStreamInfo {
    pub min_block_size: u16,
    pub max_block_size: u16,
    pub min_frame_size: u32,
    pub max_frame_size: u32,
    pub sample_rate: u32,
    pub channels: u8,
    pub bps: u8,
    pub total_samples: u64,
    pub checksum: [u8; 16],
}

pub struct StreamInfoView {
    pub min_block_size: nat,
    pub max_block_size: nat,
    pub min_frame_size: nat,
    pub max_frame_size: nat,
    pub sample_rate: nat,
    pub channels: nat,
    pub bps: nat,
    pub total_samples: nat,
    pub checksum: Seq<u8>,
}

impl View for FlacStreamInfo {
    type V = StreamInfoView;

    open spec fn view(&self) -> StreamInfoView {
        StreamInfoView {
            min_block_size: self.min_block_size as nat,
            max_block_size: self.max_block_size as nat,
            min_frame_size: self.min_frame_size as nat,
            max_frame_size: self.max_frame_size as nat,
            sample_rate: self.sample_rate as nat,
            channels: self.channels as nat,
            bps: self.bps as nat,
            total_samples: self.total_samples as nat,
            checksum: self.checksum@,
        }
    }
}

/// The sample rate: the high 20 bits of the packed 64-bit field.
pub open spec fn packed_sample_rate(packed: nat) -> nat {
    packed / 0x1000_0000_0000
}

/// The channel count: three bits below the sample rate, plus one.
pub open spec fn packed_channels(packed: nat) -> nat {
    (packed / 0x200_0000_0000) % 8 + 1
}

/// The bits per sample: five bits below the channels, plus one.
pub open spec fn packed_bps(packed: nat) -> nat {
    (packed / 0x10_0000_0000) % 32 + 1
}

/// The total sample count: the low 36 bits.
pub open spec fn packed_total_samples(packed: nat) -> nat {
    packed % 0x10_0000_0000
}

/// The STREAMINFO block whose 34 bytes start at `p`.
pub open spec fn streaminfo_at(d: Seq<u8>, p: int) -> StreamInfoView {
    let packed = be_value(d, p + 10, 8);
    StreamInfoView {
        min_block_size: be_value(d, p, 2),
        max_block_size: be_value(d, p + 2, 2),
        min_frame_size: be_value(d, p + 4, 3),
        max_frame_size: be_value(d, p + 7, 3),
        sample_rate: packed_sample_rate(packed),
        channels: packed_channels(packed),
        bps: packed_bps(packed),
        total_samples: packed_total_samples(packed),
        checksum: d.subrange(p + 18, p + 34),
    }
}

/// A picture block.
#[derive(Debug, Clone)]
pub struct FlacPicture {
    pub picture_type: FlacPictureType,
    pub media_type: String,
    pub description: String,
    pub width: u32,
    pub height: u32,
    pub color_depth: u32,
    pub colors: u32,
    pub data: Vec<u8>,
}

pub struct PictureView {
    pub picture_type: FlacPictureType,
    pub media_type: Seq<char>,
    pub description: Seq<char>,
    pub width: nat,
    pub height: nat,
    pub color_depth: nat,
    pub colors: nat,
    pub data: Seq<u8>,
}

impl View for FlacPicture {
    type V = PictureView;

    open spec fn view(&self) -> PictureView {
        PictureView {
            picture_type: self.picture_type,
            media_type: self.media_type@,
            description: self.description@,
            width: self.width as nat,
            height: self.height as nat,
            color_depth: self.color_depth as nat,
            colors: self.colors as nat,
            data: self.data@,
        }
    }
}

/// The picture block whose body starts at `p`, with the position just past it;
/// `None` where a field runs past the end of `d`.
pub open spec fn picture_at(d: Seq<u8>, p: int) -> Option<(PictureView, int)> {
    let media_start = p + 8;
    let media_end = media_start + be_value(d, p + 4, 4);
    let desc_start = media_end + 4;
    let desc_end = desc_start + be_value(d, media_end, 4);
    let data_start = desc_end + 20;
    let data_end = data_start + be_value(d, desc_end + 16, 4);
    if p + 8 > d.len() || desc_start > d.len() || data_start > d.len() || data_end > d.len() {
        None
    } else {
        Some(
            (
                PictureView {
                    picture_type: FlacPictureType::spec_from_u32(be_value(d, p, 4) as u32),
                    media_type: lossy_utf8(d.subrange(media_start, media_end)),
                    description: lossy_utf8(d.subrange(desc_start, desc_end)),
                    width: be_value(d, desc_end, 4),
                    height: be_value(d, desc_end + 4, 4),
                    color_depth: be_value(d, desc_end + 8, 4),
                    colors: be_value(d, desc_end + 12, 4),
                    data: d.subrange(data_start, data_end),
                },
                data_end,
            ),
        )
    }
}

/// One `KEY=VALUE` field of a comment block.
#[derive(Debug, Clone)]
pub struct TagField {
    pub key: String,
    pub value: String,
}

impl View for TagField {
    type V = (Seq<char>, Seq<char>);

    open spec fn view(&self) -> (Seq<char>, Seq<char>) {
        (self.key@, self.value@)
    }
}

/// The first index at or after `i` where `b` holds `x`.
pub open spec fn byte_index_from(b: Seq<u8>, x: u8, i: int) -> Option<int>
    decreases b.len() - i,
{
    if i < 0 || i >= b.len() {
        None
    } else if b[i] == x {
        Some(i)
    } else {
        byte_index_from(b, x, i + 1)
    }
}

/// A comment field split at its first `=`: the text before it is the key, the
/// text after it the value. A field without `=` is a key with an empty value.
pub open spec fn split_field(b: Seq<u8>) -> (Seq<char>, Seq<char>) {
    match byte_index_from(b, 0x3D, 0) {
        Some(i) => (lossy_utf8(b.subrange(0, i)), lossy_utf8(b.subrange(i + 1, b.len() as int))),
        None => (lossy_utf8(b), Seq::empty()),
    }
}

/// The length-prefixed comment field at `p`, with the position just past it.
pub open spec fn field_at(d: Seq<u8>, p: int) -> Option<((Seq<char>, Seq<char>), int)> {
    if p < 0 || p + 4 > d.len() || p + 4 + le32_value(d, p) > d.len() {
        None
    } else {
        let e = p + 4 + le32_value(d, p);
        Some((split_field(d.subrange(p + 4, e)), e))
    }
}

/// `n` comment fields from `p` on, appended to `acc`.
pub open spec fn fields_from(d: Seq<u8>, p: int, n: nat, acc: Seq<(Seq<char>, Seq<char>)>) -> Option<
    (Seq<(Seq<char>, Seq<char>)>, int),
>
    decreases n,
{
    if n == 0 {
        Some((acc, p))
    } else {
        match field_at(d, p) {
            None => None,
            Some((f, e)) => fields_from(d, e, (n - 1) as nat, acc.push(f)),
        }
    }
}

/// The comment block whose body starts at `p`: a vendor string, which is
/// dropped, then a count and that many fields.
pub open spec fn comments_at(d: Seq<u8>, p: int) -> Option<(Seq<(Seq<char>, Seq<char>)>, int)> {
    let q = p + 4 + le32_value(d, p);
    if p < 0 || p + 4 > d.len() || q + 4 > d.len() {
        None
    } else {
        fields_from(d, q + 4, le32_value(d, q), Seq::empty())
    }
}

pub open spec fn tags_view(v: Seq<TagField>) -> Seq<(Seq<char>, Seq<char>)> {
    v.map_values(|t: TagField| t@)
}

/// Reads the STREAMINFO block whose body starts at `p`.
fn parse_streaminfo(d: &[u8], p: usize) -> (r: Option<(FlacStreamInfo, usize)>)
    ensures
        match r {
            None => p + 34 > d@.len(),
            Some((si, e)) => p + 34 <= d@.len() && si@ == streaminfo_at(d@, p as int) && e == p
                + 34,
        },
{
    if d.len() < 34 || p > d.len() - 34 {
        return None;
    }
    let min_block_size = read_be_u16(d, p);
    let max_block_size = read_be_u16(d, p + 2);
    let min_frame_size = read_be_u24(d, p + 4);
    let max_frame_size = read_be_u24(d, p + 7);
    let packed = read_be_u64(d, p + 10);
    let sample_rate = packed / 0x1000_0000_0000;
    let channels = (packed / 0x200_0000_0000) % 8 + 1;
    let bps = (packed / 0x10_0000_0000) % 32 + 1;
    let total_samples = packed % 0x10_0000_0000;
    assert(sample_rate < 0x10_0000);
    let q = p + 18;
    let checksum: [u8; 16] = [
        d[q], d[q + 1], d[q + 2], d[q + 3], d[q + 4], d[q + 5], d[q + 6], d[q + 7],
        d[q + 8], d[q + 9], d[q + 10], d[q + 11], d[q + 12], d[q + 13], d[q + 14], d[q + 15],
    ];
    assert(checksum@ =~= d@.subrange(q as int, q + 16));
    let si = FlacStreamInfo {
        min_block_size,
        max_block_size,
        min_frame_size,
        max_frame_size,
        sample_rate: sample_rate as u32,
        channels: channels as u8,
        bps: bps as u8,
        total_samples,
        checksum,
    };
    Some((si, p + 34))
}

/// Reads the picture block whose body starts at `p`.
fn parse_picture(d: &[u8], p: usize) -> (r: Option<(FlacPicture, usize)>)
    ensures
        match r {
            None => picture_at(d@, p as int) is None,
            Some((pic, e)) => picture_at(d@, p as int) == Some((pic@, e as int)),
        },
{
    let len = d.len();
    if p > len || len - p < 8 {
        return None;
    }
    let picture_type = FlacPictureType::from_u32(read_be_u32(d, p));
    let media_len = read_be_u32(d, p + 4) as usize;
    let media_start = p + 8;
    if media_len > len - media_start || len - media_start - media_len < 4 {
        return None;
    }
    let media_end = media_start + media_len;
    let media_type = decode_lossy(copy_range(d, media_start, media_end).as_slice());
    let desc_len = read_be_u32(d, media_end) as usize;
    let desc_start = media_end + 4;
    if desc_len > len - desc_start || len - desc_start - desc_len < 20 {
        return None;
    }
    let desc_end = desc_start + desc_len;
    let description = decode_lossy(copy_range(d, desc_start, desc_end).as_slice());
    let width = read_be_u32(d, desc_end);
    let height = read_be_u32(d, desc_end + 4);
    let color_depth = read_be_u32(d, desc_end + 8);
    let colors = read_be_u32(d, desc_end + 12);
    let data_len = read_be_u32(d, desc_end + 16) as usize;
    let data_start = desc_end + 20;
    if data_len > len - data_start {
        return None;
    }
    let data_end = data_start + data_len;
    let data = copy_range(d, data_start, data_end);
    let pic = FlacPicture {
        picture_type,
        media_type,
        description,
        width,
        height,
        color_depth,
        colors,
        data,
    };
    Some((pic, data_end))
}

/// Reads the comment field at `p`.
fn parse_vorbis_field(d: &[u8], p: usize) -> (r: Option<(TagField, usize)>)
    ensures
        match r {
            None => field_at(d@, p as int) is None,
            Some((t, e)) => field_at(d@, p as int) == Some((t@, e as int)),
        },
{
    let len = d.len();
    if p > len || len - p < 4 {
        return None;
    }
    let size = read_le_u32(d, p) as usize;
    let start = p + 4;
    if size > len - start {
        return None;
    }
    let end = start + size;
    let ghost b = d@.subrange(start as int, end as int);
    let mut i: usize = start;
    while i < end && d[i] != 0x3D
        invariant
            start <= i <= end,
            end <= d@.len(),
            b == d@.subrange(start as int, end as int),
            byte_index_from(b, 0x3D, 0) == byte_index_from(b, 0x3D, i - start),
        decreases end - i,
    {
        i = i + 1;
    }
    let field = if i < end {
        assert(byte_index_from(b, 0x3D, 0) == Some(i - start));
        assert(d@.subrange(start as int, i as int) =~= b.subrange(0, i - start));
        assert(d@.subrange(i + 1, end as int) =~= b.subrange(i - start + 1, b.len() as int));
        TagField {
            key: decode_lossy(copy_range(d, start, i).as_slice()),
            value: decode_lossy(copy_range(d, i + 1, end).as_slice()),
        }
    } else {
        assert(byte_index_from(b, 0x3D, 0) is None);
        TagField { key: decode_lossy(copy_range(d, start, end).as_slice()), value: String::new() }
    };
    Some((field, end))
}

/// Reads the comment block whose body starts at `p`.
fn parse_vorbis_comments(d: &[u8], p: usize) -> (r: Option<(Vec<TagField>, usize)>)
    ensures
        match r {
            None => comments_at(d@, p as int) is None,
            Some((t, e)) => comments_at(d@, p as int) == Some((tags_view(t@), e as int)) && p + 8
                <= e <= d@.len(),
        },
{
    let len = d.len();
    if p > len || len - p < 4 {
        return None;
    }
    let vendor_len = read_le_u32(d, p) as usize;
    let vendor_end = p + 4;
    if vendor_len > len - vendor_end || len - vendor_end - vendor_len < 4 {
        return None;
    }
    let q = vendor_end + vendor_len;
    let count = read_le_u32(d, q);
    let mut pos = q + 4;
    let mut tags: Vec<TagField> = Vec::new();
    let mut i: u32 = 0;
    assert(tags_view(tags@) =~= Seq::empty());
    while i < count
        invariant
            i <= count,
            q + 4 <= pos <= d@.len(),
            q == p + 4 + vendor_len,
            len == d@.len(),
            comments_at(d@, p as int) == fields_from(
                d@,
                pos as int,
                (count - i) as nat,
                tags_view(tags@),
            ),
        decreases count - i,
    {
        match parse_vorbis_field(d, pos) {
            None => {
                return None;
            },
            Some((t, e)) => {
                proof {
                    assert(tags_view(tags@.push(t)) =~= tags_view(tags@).push(t@));
                }
                tags.push(t);
                pos = e;
            },
        }
        i = i + 1;
    }
    Some((tags, pos))
}

/// The header in front of each metadata block.
#[derive(Debug, Clone, Copy)]
struct FlacMetadataHeader {
    is_last: bool,
    block_type: Option<FlacBlockType>,
    block_size: u32,
}

/// Reads the block header at `p`.
fn parse_metadata_header(d: &[u8], p: usize) -> (r: Option<(FlacMetadataHeader, usize)>)
    ensures
        match r {
            None => p + 4 > d@.len(),
            Some((h, e)) => {
                &&& p + 4 <= d@.len()
                &&& e == p + 4
                &&& h.is_last == (d@[p as int] >= 128)
                &&& h.block_type == FlacBlockType::spec_from_u8((d@[p as int] % 128) as u8)
                &&& h.block_size as nat == be_value(d@, p + 1, 3)
            },
        },
{
    if d.len() < 4 || p > d.len() - 4 {
        return None;
    }
    let first = d[p];
    let header = FlacMetadataHeader {
        is_last: first >= 128,
        block_type: FlacBlockType::from_u8(first % 128),
        block_size: read_be_u24(d, p + 1),
    };
    Some((header, p + 4))
}

/// Everything that the metadata blocks say of a FLAC stream.
#[derive(Debug, Clone)]
pub struct FlacMetadata {
    pub stream_info: FlacStreamInfo,
    /// The comment fields in the order in which they are stored; a key may
    /// come more than once.
    pub tags: Vec<TagField>,
    pub pictures: Vec<FlacPicture>,
}

pub struct FlacMetadataView {
    pub stream_info: StreamInfoView,
    pub tags: Seq<(Seq<char>, Seq<char>)>,
    pub pictures: Seq<PictureView>,
}

pub open spec fn pictures_view(v: Seq<FlacPicture>) -> Seq<PictureView> {
    v.map_values(|p: FlacPicture| p@)
}

impl View for FlacMetadata {
    type V = FlacMetadataView;

    open spec fn view(&self) -> FlacMetadataView {
        FlacMetadataView {
            stream_info: self.stream_info@,
            tags: tags_view(self.tags@),
            pictures: pictures_view(self.pictures@),
        }
    }
}

/// What the blocks read so far have given.
pub struct MetadataDraft {
    pub stream_info: Option<StreamInfoView>,
    pub tags: Seq<(Seq<char>, Seq<char>)>,
    pub pictures: Seq<PictureView>,
}

/// Reads the block at `pos` into `acc`: a STREAMINFO block replaces the
/// stream info, a comment block replaces the tags, a picture block is
/// appended, and any other block is skipped by its declared length. Gives the
/// position just past the block.
#[verifier::opaque]
pub open spec fn block_step(d: Seq<u8>, pos: int, acc: MetadataDraft) -> Option<(int, MetadataDraft)> {
    let body = pos + 4;
    if pos < 0 || body > d.len() {
        None
    } else {
        match FlacBlockType::spec_from_u8((d[pos] % 128) as u8) {
            Some(FlacBlockType::StreamInfo) => if body + 34 <= d.len() {
                Some(
                    (
                        body + 34,
                        MetadataDraft {
                            stream_info: Some(streaminfo_at(d, body)),
                            tags: acc.tags,
                            pictures: acc.pictures,
                        },
                    ),
                )
            } else {
                None
            },
            Some(FlacBlockType::VorbisComment) => match comments_at(d, body) {
                Some((t, e)) => Some(
                    (e, MetadataDraft { stream_info: acc.stream_info, tags: t, pictures: acc.pictures }),
                ),
                None => None,
            },
            Some(FlacBlockType::Picture) => match picture_at(d, body) {
                Some((pic, e)) => Some(
                    (
                        e,
                        MetadataDraft {
                            stream_info: acc.stream_info,
                            tags: acc.tags,
                            pictures: acc.pictures.push(pic),
                        },
                    ),
                ),
                None => None,
            },
            _ => if body + be_value(d, pos + 1, 3) <= d.len() {
                Some((body + be_value(d, pos + 1, 3), acc))
            } else {
                None
            },
        }
    }
}

/// The blocks from `pos` on, up to and including the one marked last.
pub open spec fn blocks_from(d: Seq<u8>, pos: int, acc: MetadataDraft) -> Result<
    FlacMetadataView,
    FlacError,
>
    decreases d.len() - pos,
{
    match block_step(d, pos, acc) {
        None => Err(FlacError::Truncated),
        Some((next, acc2)) => if d[pos] >= 128 {
            match acc2.stream_info {
                Some(si) => Ok(
                    FlacMetadataView { stream_info: si, tags: acc2.tags, pictures: acc2.pictures },
                ),
                None => Err(FlacError::MissingStreamInfo),
            }
        } else if pos < next <= d.len() {
            blocks_from(d, next, acc2)
        } else {
            Err(FlacError::Truncated)
        },
    }
}

/// The metadata of a FLAC stream held in `d`.
pub open spec fn flac_metadata(d: Seq<u8>) -> Result<FlacMetadataView, FlacError> {
    if d.len() < 4 || d.subrange(0, 4) != seq![0x66u8, 0x4C, 0x61, 0x43] {
        Err(FlacError::BadMarker)
    } else {
        blocks_from(
            d,
            4,
            MetadataDraft { stream_info: None, tags: Seq::empty(), pictures: Seq::empty() },
        )
    }
}

pub open spec fn draft_of(
    si: Option<FlacStreamInfo>,
    tags: Seq<TagField>,
    pictures: Seq<FlacPicture>,
) -> MetadataDraft {
    MetadataDraft {
        stream_info: match si {
            Some(s) => Some(s@),
            None => None,
        },
        tags: tags_view(tags),
        pictures: pictures_view(pictures),
    }
}

/// The parts of the metadata read so far.
struct BlockParts {
    stream_info: Option<FlacStreamInfo>,
    tags: Vec<TagField>,
    pictures: Vec<FlacPicture>,
}

impl BlockParts {
    spec fn draft(&self) -> MetadataDraft {
        draft_of(self.stream_info, self.tags@, self.pictures@)
    }
}

/// Reads the block at `pos` into the parts read so far; gives whether the
/// header marks it last, the position just past it, and the new parts.
fn parse_block(d: &[u8], pos: usize, parts: BlockParts) -> (r: Option<(bool, usize, BlockParts)>)
    ensures
        match r {
            None => block_step(d@, pos as int, parts.draft()) is None,
            Some((last, next, new_parts)) => {
                &&& pos + 4 <= next <= d@.len()
                &&& last == (d@[pos as int] >= 128)
                &&& block_step(d@, pos as int, parts.draft()) == Some(
                    (next as int, new_parts.draft()),
                )
            },
        },
{
    reveal(block_step);
    let BlockParts { mut stream_info, mut tags, mut pictures } = parts;
    let (header, body) = match parse_metadata_header(d, pos) {
        None => {
            return None;
        },
        Some(x) => x,
    };
    let next = match header.block_type {
        Some(FlacBlockType::StreamInfo) => match parse_streaminfo(d, body) {
            None => {
                return None;
            },
            Some((si, e)) => {
                stream_info = Some(si);
                e
            },
        },
        Some(FlacBlockType::VorbisComment) => match parse_vorbis_comments(d, body) {
            None => {
                return None;
            },
            Some((t, e)) => {
                tags = t;
                e
            },
        },
        Some(FlacBlockType::Picture) => match parse_picture(d, body) {
            None => {
                return None;
            },
            Some((pic, e)) => {
                proof {
                    assert(pictures_view(pictures@.push(pic)) =~= pictures_view(pictures@).push(
                        pic@,
                    ));
                }
                pictures.push(pic);
                e
            },
        },
        _ => {
            let size = header.block_size as usize;
            if size > d.len() - body {
                return None;
            }
            body + size
        },
    };
    Some((header.is_last, next, BlockParts { stream_info, tags, pictures }))
}

/// Reads the metadata of a FLAC stream: the `fLaC` marker, then each block up
/// to the one whose header marks it last.
pub fn parse_flac_metadata(d: &[u8]) -> (r: Result<FlacMetadata, FlacError>)
    ensures
        match r {
            Ok(m) => flac_metadata(d@) == Ok::<FlacMetadataView, FlacError>(m@),
            Err(e) => flac_metadata(d@) == Err::<FlacMetadataView, FlacError>(e),
        },
{
    if d.len() < 4 || d[0] != 0x66 || d[1] != 0x4C || d[2] != 0x61 || d[3] != 0x43 {
        proof {
            if d@.len() >= 4 {
                assert(d@.subrange(0, 4)[0] == d@[0]);
                assert(d@.subrange(0, 4)[1] == d@[1]);
                assert(d@.subrange(0, 4)[2] == d@[2]);
                assert(d@.subrange(0, 4)[3] == d@[3]);
            }
        }
        return Err(FlacError::BadMarker);
    }
    assert(d@.subrange(0, 4) =~= seq![0x66u8, 0x4C, 0x61, 0x43]);
    let mut pos: usize = 4;
    let mut parts = BlockParts { stream_info: None, tags: Vec::new(), pictures: Vec::new() };
    proof {
        assert(tags_view(parts.tags@) =~= Seq::empty());
        assert(pictures_view(parts.pictures@) =~= Seq::empty());
    }
    loop
        invariant
            4 <= pos <= d@.len(),
            flac_metadata(d@) == blocks_from(d@, pos as int, parts.draft()),
        decreases d@.len() - pos,
    {
        match parse_block(d, pos, parts) {
            None => {
                return Err(FlacError::Truncated);
            },
            Some((last, next, new_parts)) => {
                if last {
                    match new_parts.stream_info {
                        Some(si) => {
                            return Ok(
                                FlacMetadata {
                                    stream_info: si,
                                    tags: new_parts.tags,
                                    pictures: new_parts.pictures,
                                },
                            );
                        },
                        None => {
                            return Err(FlacError::MissingStreamInfo);
                        },
                    }
                }
                pos = next;
                parts = new_parts;
            },
        }
    }
}

} // verus!
