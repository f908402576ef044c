use harmony::flac::{parse_flac_metadata, FlacBlockType, FlacError, FlacPictureType};
use harmony::track::{MetadataError, TrackMetadata};

fn header(block_type: u8, last: bool, len: usize) -> Vec<u8> {
    let first = if last { block_type | 0x80 } else { block_type };
    vec![first, (len >> 16) as u8, (len >> 8) as u8, len as u8]
}

fn streaminfo(packed: u64) -> Vec<u8> {
    let mut b = Vec::new();
    b.extend_from_slice(&4096u16.to_be_bytes());
    b.extend_from_slice(&4608u16.to_be_bytes());
    b.extend_from_slice(&[0x00, 0x00, 0x10]);
    b.extend_from_slice(&[0x00, 0x3A, 0x98]);
    b.extend_from_slice(&packed.to_be_bytes());
    b.extend_from_slice(&[
        0xD4, 0x1D, 0x8C, 0xD9, 0x8F, 0x00, 0xB2, 0x04, 0xE9, 0x80, 0x09, 0x98, 0xEC, 0xF8, 0x42,
        0x7E,
    ]);
    b
}

fn comments(fields: &[&[u8]]) -> Vec<u8> {
    let vendor = b"reference libFLAC 1.4.3";
    let mut b = Vec::new();
    b.extend_from_slice(&(vendor.len() as u32).to_le_bytes());
    b.extend_from_slice(vendor);
    b.extend_from_slice(&(fields.len() as u32).to_le_bytes());
    for f in fields {
        b.extend_from_slice(&(f.len() as u32).to_le_bytes());
        b.extend_from_slice(f);
    }
    b
}

fn picture(kind: u32, data: &[u8]) -> Vec<u8> {
    let mut b = Vec::new();
    b.extend_from_slice(&kind.to_be_bytes());
    b.extend_from_slice(&10u32.to_be_bytes());
    b.extend_from_slice(b"image/jpeg");
    b.extend_from_slice(&5u32.to_be_bytes());
    b.extend_from_slice(b"cover");
    b.extend_from_slice(&600u32.to_be_bytes());
    b.extend_from_slice(&500u32.to_be_bytes());
    b.extend_from_slice(&24u32.to_be_bytes());
    b.extend_from_slice(&0u32.to_be_bytes());
    b.extend_from_slice(&(data.len() as u32).to_be_bytes());
    b.extend_from_slice(data);
    b
}

/// 44100 Hz, 2 channels, 16 bits, 1 000 000 samples.
const CD_PACKED: u64 = (44100u64 << 44) | (1u64 << 41) | (15u64 << 36) | 1_000_000;

fn sample_file() -> Vec<u8> {
    let si = streaminfo(CD_PACKED);
    let tags = comments(&[
        b"TITLE=Song=One",
        b"artist=First",
        b"ARTIST=Second",
        b"ALBUM=Record",
        b"ALBUMARTIST=First",
        b"NOEQUALS",
    ]);
    let padding = vec![0u8; 7];
    let back = picture(4, &[1, 2, 3]);
    let front = picture(3, &[9, 8, 7, 6]);
    let mut d = b"fLaC".to_vec();
    d.extend(header(0, false, si.len()));
    d.extend(si);
    d.extend(header(4, false, tags.len()));
    d.extend(tags);
    d.extend(header(1, false, padding.len()));
    d.extend(padding);
    d.extend(header(6, false, back.len()));
    d.extend(back);
    d.extend(header(6, true, front.len()));
    d.extend(front);
    d
}

#[test]
fn streaminfo_of_cd_audio() {
    let m = parse_flac_metadata(&sample_file()).unwrap();
    let si = m.stream_info;
    assert_eq!(si.min_block_size, 4096);
    assert_eq!(si.max_block_size, 4608);
    assert_eq!(si.min_frame_size, 16);
    assert_eq!(si.max_frame_size, 15000);
    assert_eq!(si.sample_rate, 44100);
    assert_eq!(si.channels, 2);
    assert_eq!(si.bps, 16);
    assert_eq!(si.total_samples, 1_000_000);
    assert_eq!(si.checksum[0], 0xD4);
    assert_eq!(si.checksum[15], 0x7E);
}

#[test]
fn streaminfo_packed_field_bit_layout() {
    let mut d = b"fLaC".to_vec();
    d.extend(header(0, true, 34));
    d.extend(streaminfo(0x0ACA440000000001));
    let si = parse_flac_metadata(&d).unwrap().stream_info;
    assert_eq!(si.sample_rate, 0x0ACA4);
    assert_eq!(si.channels, 3);
    assert_eq!(si.bps, 1);
    assert_eq!(si.total_samples, 1);
}

#[test]
fn streaminfo_of_hi_res_audio() {
    let packed: u64 = (96000u64 << 44) | (5u64 << 41) | (23u64 << 36) | 0xF_FFFF_FFFF;
    let mut d = b"fLaC".to_vec();
    d.extend(header(0, true, 34));
    d.extend(streaminfo(packed));
    let si = parse_flac_metadata(&d).unwrap().stream_info;
    assert_eq!(si.sample_rate, 96000);
    assert_eq!(si.channels, 6);
    assert_eq!(si.bps, 24);
    assert_eq!(si.total_samples, 0xF_FFFF_FFFF);
}

#[test]
fn tags_keep_order_and_split_at_first_equals() {
    let m = parse_flac_metadata(&sample_file()).unwrap();
    assert_eq!(m.tags.len(), 6);
    assert_eq!(m.tags[0].key, "TITLE");
    assert_eq!(m.tags[0].value, "Song=One");
    assert_eq!(m.tags[1].key, "artist");
    assert_eq!(m.tags[5].key, "NOEQUALS");
    assert_eq!(m.tags[5].value, "");
    assert_eq!(m.tag_values("ARTIST"), vec!["First".to_string(), "Second".to_string()]);
}

#[test]
fn invalid_utf8_in_tag_is_replaced() {
    let mut d = b"fLaC".to_vec();
    d.extend(header(0, false, 34));
    d.extend(streaminfo(CD_PACKED));
    let tags = comments(&[b"TITLE=a\xFFb"]);
    d.extend(header(4, true, tags.len()));
    d.extend(tags);
    let m = parse_flac_metadata(&d).unwrap();
    assert_eq!(m.tags[0].value, "a\u{FFFD}b");
}

#[test]
fn pictures_are_read_in_order() {
    let m = parse_flac_metadata(&sample_file()).unwrap();
    assert_eq!(m.pictures.len(), 2);
    let p = &m.pictures[1];
    assert_eq!(p.picture_type, FlacPictureType::FrontCover);
    assert_eq!(p.media_type, "image/jpeg");
    assert_eq!(p.description, "cover");
    assert_eq!((p.width, p.height, p.color_depth, p.colors), (600, 500, 24, 0));
    assert_eq!(p.data, vec![9, 8, 7, 6]);
    assert_eq!(m.pictures[0].picture_type, FlacPictureType::BackCover);
}

#[test]
fn track_metadata_from_tags() {
    let m = parse_flac_metadata(&sample_file()).unwrap();
    assert_eq!(m.get_album_name().unwrap(), "Record");
    assert_eq!(m.get_track_name().unwrap(), "Song=One");
    assert_eq!(m.get_artists().unwrap(), vec!["First".to_string(), "Second".to_string()]);
    assert_eq!(m.get_album_artists(), Some(vec!["First".to_string()]));
    assert_eq!(m.get_musicbrainz_album_id(), None);
    assert_eq!(m.get_picture_data(FlacPictureType::FrontCover), Some(vec![9, 8, 7, 6]));
    assert_eq!(m.get_picture_data(FlacPictureType::Artist), Some(vec![1, 2, 3]));
}

#[test]
fn missing_tags_are_errors() {
    let mut d = b"fLaC".to_vec();
    d.extend(header(0, true, 34));
    d.extend(streaminfo(CD_PACKED));
    let m = parse_flac_metadata(&d).unwrap();
    assert_eq!(m.get_album_name(), Err(MetadataError::MissingAlbum));
    assert_eq!(m.get_track_name(), Err(MetadataError::MissingTitle));
    assert_eq!(m.get_artists(), Err(MetadataError::MissingArtist));
    assert_eq!(m.get_album_artists(), None);
    assert_eq!(m.get_picture_data(FlacPictureType::FrontCover), None);
}

#[test]
fn bad_marker_is_an_error() {
    assert_eq!(parse_flac_metadata(b"OggS\x00\x00").unwrap_err(), FlacError::BadMarker);
    assert_eq!(parse_flac_metadata(b"fLa").unwrap_err(), FlacError::BadMarker);
}

#[test]
fn truncated_block_is_an_error() {
    let mut d = b"fLaC".to_vec();
    d.extend(header(0, true, 34));
    d.extend(&streaminfo(CD_PACKED)[..20]);
    assert_eq!(parse_flac_metadata(&d).unwrap_err(), FlacError::Truncated);
    let mut e = b"fLaC".to_vec();
    e.extend(header(0, false, 34));
    e.extend(streaminfo(CD_PACKED));
    e.extend(header(1, true, 100));
    e.extend(vec![0u8; 10]);
    assert_eq!(parse_flac_metadata(&e).unwrap_err(), FlacError::Truncated);
    assert_eq!(parse_flac_metadata(b"fLaC").unwrap_err(), FlacError::Truncated);
}

#[test]
fn missing_streaminfo_is_an_error() {
    let mut d = b"fLaC".to_vec();
    d.extend(header(1, true, 3));
    d.extend([0u8, 0, 0]);
    assert_eq!(parse_flac_metadata(&d).unwrap_err(), FlacError::MissingStreamInfo);
}

#[test]
fn block_and_picture_codes() {
    assert_eq!(FlacBlockType::from_u8(0), Some(FlacBlockType::StreamInfo));
    assert_eq!(FlacBlockType::from_u8(4), Some(FlacBlockType::VorbisComment));
    assert_eq!(FlacBlockType::from_u8(6), Some(FlacBlockType::Picture));
    assert_eq!(FlacBlockType::from_u8(7), None);
    assert_eq!(FlacBlockType::from_u8(127), None);
    assert_eq!(FlacPictureType::from_u32(3), FlacPictureType::FrontCover);
    assert_eq!(FlacPictureType::from_u32(20), FlacPictureType::PublisherLogo);
    assert_eq!(FlacPictureType::from_u32(21), FlacPictureType::Other);
}
