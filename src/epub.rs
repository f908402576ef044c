//! The metadata of an EPUB book: a zip archive whose container descriptor
//! names the package document, from which the title, identifier, language,
//! creator and cover are scraped.
use vstd::prelude::*;
use vstd::utf8::{decode_utf8, valid_utf8};

use crate::search::{
    attr_value, find, find_attr_value, find_from, find_segment, segment_with,
};
use crate::text::{chars_of, copy_chars, decode_strict, string_of};

verus! {

/// What an EPUB book says of itself. Each field is absent where the book does
/// not give it.
#[derive(Debug, Clone)]
pub struct EpubMetadata {
    pub title: Option<String>,
    pub identifier: Option<String>,
    pub language: Option<String>,
    pub creator: Option<String>,
    pub cover: Option<Vec<u8>>,
}

pub struct EpubView {
    pub title: Option<Seq<char>>,
    pub identifier: Option<Seq<char>>,
    pub language: Option<Seq<char>>,
    pub creator: Option<Seq<char>>,
    pub cover: Option<Seq<u8>>,
}

pub open spec fn opt_chars(s: Option<String>) -> Option<Seq<char>> {
    match s {
        Some(v) => Some(v@),
        None => None,
    }
}

impl View for EpubMetadata {
    type V = EpubView;

    open spec fn view(&self) -> EpubView {
        EpubView {
            title: opt_chars(self.title),
            identifier: opt_chars(self.identifier),
            language: opt_chars(self.language),
            creator: opt_chars(self.creator),
            cover: match self.cover {
                Some(v) => Some(v@),
                None => None,
            },
        }
    }
}

/// The content of the first element named `name`: from the end of its first
/// start tag (found by the prefix `<name`) up to the first `</name>` after it.
pub open spec fn tag_content(s: Seq<char>, name: Seq<char>) -> Option<Seq<char>> {
    let open = seq!['<'] + name;
    let close = seq!['<', '/'] + name + seq!['>'];
    match find_from(s, open, 0) {
        None => None,
        Some(a) => match find_from(s, seq!['>'], a + open.len()) {
            None => None,
            Some(b) => match find_from(s, close, b + 1) {
                None => None,
                Some(c) => Some(s.subrange(b + 1, c)),
            },
        },
    }
}

/// The content of the first element named `tag_name` in `input`; `None`
/// where the element or its end tag is not there.
pub fn parse_tag(input: &str, tag_name: &str) -> (r: Option<String>)
    ensures
        opt_chars(r) == tag_content(input@, tag_name@),
{
    let s = chars_of(input);
    let name = chars_of(tag_name);
    let mut open: Vec<char> = vec!['<'];
    let mut close: Vec<char> = vec!['<', '/'];
    let mut i: usize = 0;
    while i < name.len()
        invariant
            i <= name@.len(),
            open@ == seq!['<'] + name@.subrange(0, i as int),
            close@ == seq!['<', '/'] + name@.subrange(0, i as int),
        decreases name@.len() - i,
    {
        open.push(name[i]);
        close.push(name[i]);
        i = i + 1;
        assert(open@ =~= seq!['<'] + name@.subrange(0, i as int));
        assert(close@ =~= seq!['<', '/'] + name@.subrange(0, i as int));
    }
    close.push('>');
    assert(open@ =~= seq!['<'] + tag_name@);
    assert(close@ =~= seq!['<', '/'] + tag_name@ + seq!['>']);
    let gt = vec!['>'];
    assert(gt@ =~= seq!['>']);
    let _text_len = s.len();
    let a = match find(&s, &open, 0) {
        None => {
            return None;
        },
        Some(a) => a,
    };
    let b = match find(&s, &gt, a + open.len()) {
        None => {
            return None;
        },
        Some(b) => b,
    };
    let c = match find(&s, &close, b + 1) {
        None => {
            return None;
        },
        Some(c) => c,
    };
    Some(string_of(copy_chars(s.as_slice(), b + 1, c).as_slice()))
}

pub open spec fn meta_open() -> Seq<char> {
    seq!['<', 'm', 'e', 't', 'a']
}

pub open spec fn cover_name_attr() -> Seq<char> {
    seq!['n', 'a', 'm', 'e', '=', '"', 'c', 'o', 'v', 'e', 'r', '"']
}

pub open spec fn content_attr() -> Seq<char> {
    seq!['c', 'o', 'n', 't', 'e', 'n', 't', '=', '"']
}

pub open spec fn item_open() -> Seq<char> {
    seq!['<', 'i', 't', 'e', 'm']
}

pub open spec fn href_attr() -> Seq<char> {
    seq!['h', 'r', 'e', 'f', '=', '"']
}

/// The `id="..."` attribute that marks the item with id `id`.
pub open spec fn id_attr(id: Seq<char>) -> Seq<char> {
    seq!['i', 'd', '=', '"'] + id + seq!['"']
}

/// The cover item's id: the `content` of the first `<meta` element that has
/// `name="cover"`.
pub open spec fn cover_id_of(s: Seq<char>) -> Option<Seq<char>> {
    match segment_with(s, meta_open(), cover_name_attr(), 0) {
        None => None,
        Some(seg) => attr_value(seg, content_attr()),
    }
}

/// The `href` of the first `<item` element with id `id`.
pub open spec fn cover_href_of(s: Seq<char>, id: Seq<char>) -> Option<Seq<char>> {
    match segment_with(s, item_open(), id_attr(id), 0) {
        None => None,
        Some(seg) => attr_value(seg, href_attr()),
    }
}

fn cover_id_chars(s: &Vec<char>) -> (r: Option<Vec<char>>)
    ensures
        match r {
            Some(v) => cover_id_of(s@) == Some(v@),
            None => cover_id_of(s@) is None,
        },
{
    let meta = vec!['<', 'm', 'e', 't', 'a'];
    let name = vec!['n', 'a', 'm', 'e', '=', '"', 'c', 'o', 'v', 'e', 'r', '"'];
    let content = vec!['c', 'o', 'n', 't', 'e', 'n', 't', '=', '"'];
    assert(meta@ =~= meta_open());
    assert(name@ =~= cover_name_attr());
    assert(content@ =~= content_attr());
    match find_segment(s, &meta, &name) {
        None => None,
        Some(seg) => find_attr_value(&seg, &content),
    }
}

fn cover_href_chars(s: &Vec<char>, id: &Vec<char>) -> (r: Option<Vec<char>>)
    ensures
        match r {
            Some(v) => cover_href_of(s@, id@) == Some(v@),
            None => cover_href_of(s@, id@) is None,
        },
{
    let item = vec!['<', 'i', 't', 'e', 'm'];
    let href = vec!['h', 'r', 'e', 'f', '=', '"'];
    assert(item@ =~= item_open());
    assert(href@ =~= href_attr());
    let mut needle: Vec<char> = vec!['i', 'd', '=', '"'];
    let mut i: usize = 0;
    while i < id.len()
        invariant
            i <= id@.len(),
            needle@ == seq!['i', 'd', '=', '"'] + id@.subrange(0, i as int),
        decreases id@.len() - i,
    {
        needle.push(id[i]);
        i = i + 1;
        assert(needle@ =~= seq!['i', 'd', '=', '"'] + id@.subrange(0, i as int));
    }
    needle.push('"');
    assert(needle@ =~= id_attr(id@));
    match find_segment(s, &item, &needle) {
        None => None,
        Some(seg) => find_attr_value(&seg, &href),
    }
}

/// The cover item id named by `<meta name="cover" content="ID"/>`.
pub fn parse_cover_id(input: &str) -> (r: Option<String>)
    ensures
        opt_chars(r) == cover_id_of(input@),
{
    match cover_id_chars(&chars_of(input)) {
        None => None,
        Some(v) => Some(string_of(v.as_slice())),
    }
}

/// The `href` of the item `<item id="cover_id" href="..." .../>`.
pub fn parse_cover_href(input: &str, cover_id: &str) -> (r: Option<String>)
    ensures
        opt_chars(r) == cover_href_of(input@, cover_id@),
{
    match cover_href_chars(&chars_of(input), &chars_of(cover_id)) {
        None => None,
        Some(v) => Some(string_of(v.as_slice())),
    }
}

/// The metadata that the package document `s` gives, and the `href` of its
/// cover item; the cover itself is not read here.
pub open spec fn package_metadata(s: Seq<char>) -> (EpubView, Option<Seq<char>>) {
    (
        EpubView {
            title: tag_content(s, "dc:title"@),
            identifier: tag_content(s, "dc:identifier"@),
            language: tag_content(s, "dc:language"@),
            creator: tag_content(s, "dc:creator"@),
            cover: None,
        },
        match cover_id_of(s) {
            Some(id) => cover_href_of(s, id),
            None => None,
        },
    )
}

/// Scrapes a package document: its `dc:` fields, and the `href` of the cover
/// item that a `<meta name="cover">` element names.
pub fn parse_epub_metadata(input: &str) -> (r: (EpubMetadata, Option<String>))
    ensures
        (r.0@, opt_chars(r.1)) == package_metadata(input@),
{
    let s = chars_of(input);
    let href = match cover_id_chars(&s) {
        Some(id) => match cover_href_chars(&s, &id) {
            Some(h) => Some(string_of(h.as_slice())),
            None => None,
        },
        None => None,
    };
    let meta = EpubMetadata {
        title: parse_tag(input, "dc:title"),
        identifier: parse_tag(input, "dc:identifier"),
        language: parse_tag(input, "dc:language"),
        creator: parse_tag(input, "dc:creator"),
        cover: None,
    };
    (meta, href)
}

/// What zip's reader gives for the entry `name` of the archive held in
/// `archive`: its bytes, or `None` where the archive or the entry cannot be
/// read.
pub uninterp spec fn zip_entry(archive: Seq<u8>, name: Seq<char>) -> Option<Seq<u8>>;

/// Relies on zip's `ZipArchive::new` over the bytes in memory, then
/// `ZipArchive::by_name` and reading the entry to its end: the bytes of the
/// entry named `name`, or `None` where the archive cannot be opened or the
/// entry found or read. The outcome depends on the arguments alone.
#[verifier::external_body]
fn archive_entry(archive: &[u8], name: &str) -> (r: Option<Vec<u8>>)
    ensures
        match r {
            Some(v) => zip_entry(archive@, name@) == Some(v@),
            None => zip_entry(archive@, name@) is None,
        },
{
    let mut zip = zip::ZipArchive::new(std::io::Cursor::new(archive)).ok()?;
    let mut entry = zip.by_name(name).ok()?;
    let mut data: Vec<u8> = Vec::new();
    std::io::Read::read_to_end(&mut entry, &mut data).ok()?;
    Some(data)
}

/// Why a book's metadata could not be read.
#[derive(Debug, Clone, Copy, PartialEq, Eq, Structural)]
pub enum EpubError {
    /// The archive cannot be opened, or has no container descriptor.
    MissingContainer,
    /// The container descriptor names no package document.
    MissingRootfile,
    /// The package document named is not in the archive.
    MissingPackage,
    /// The container descriptor or the package document is not UTF-8.
    NotText,
}

/// The index of the last `/` in `s` before `i`.
pub open spec fn last_slash_before(s: Seq<char>, i: int) -> Option<int>
    decreases i,
{
    if i <= 0 || i > s.len() {
        None
    } else if s[i - 1] == '/' {
        Some(i - 1)
    } else {
        last_slash_before(s, i - 1)
    }
}

/// `href` taken relative to the directory that holds the file at `base`.
pub open spec fn resolve_href(base: Seq<char>, href: Seq<char>) -> Seq<char> {
    match last_slash_before(base, base.len() as int) {
        Some(k) => base.subrange(0, k) + seq!['/'] + href,
        None => href,
    }
}

/// Computes `resolve_href`.
pub fn resolve_relative(base: &str, href: &str) -> (r: String)
    ensures
        r@ == resolve_href(base@, href@),
{
    let b = chars_of(base);
    let h = chars_of(href);
    let mut i: usize = b.len();
    while i > 0 && b[i - 1] != '/'
        invariant
            i <= b@.len(),
            b@ == base@,
            last_slash_before(b@, b@.len() as int) == last_slash_before(b@, i as int),
        decreases i,
    {
        i = i - 1;
    }
    if i == 0 {
        return string_of(h.as_slice());
    }
    let mut out = copy_chars(b.as_slice(), 0, i - 1);
    out.push('/');
    let mut j: usize = 0;
    let ghost head = out@;
    while j < h.len()
        invariant
            j <= h@.len(),
            out@ == head + h@.subrange(0, j as int),
        decreases h@.len() - j,
    {
        out.push(h[j]);
        j = j + 1;
        assert(out@ =~= head + h@.subrange(0, j as int));
    }
    assert(h@.subrange(0, h@.len() as int) =~= h@);
    string_of(out.as_slice())
}

/// The book held in the zip archive `archive`.
pub open spec fn epub_of(archive: Seq<u8>) -> Result<EpubView, EpubError> {
    match zip_entry(archive, "META-INF/container.xml"@) {
        None => Err(EpubError::MissingContainer),
        Some(c) => if !valid_utf8(c) {
            Err(EpubError::NotText)
        } else {
            match attr_value(decode_utf8(c), "full-path=\""@) {
                None => Err(EpubError::MissingRootfile),
                Some(opf_path) => match zip_entry(archive, opf_path) {
                    None => Err(EpubError::MissingPackage),
                    Some(opf) => if !valid_utf8(opf) {
                        Err(EpubError::NotText)
                    } else {
                        let (m, href) = package_metadata(decode_utf8(opf));
                        Ok(
                            EpubView {
                                cover: match href {
                                    Some(h) => zip_entry(archive, resolve_href(opf_path, h)),
                                    None => None,
                                },
                                ..m
                            },
                        )
                    },
                },
            }
        },
    }
}

/// Reads a book out of its zip archive: the container descriptor names the
/// package document, whose metadata is scraped; the cover item, where one is
/// named and present, is read from the archive relative to the package
/// document's directory.
pub fn parse_epub(archive: &[u8]) -> (r: Result<EpubMetadata, EpubError>)
    ensures
        match r {
            Ok(m) => epub_of(archive@) == Ok::<EpubView, EpubError>(m@),
            Err(e) => epub_of(archive@) == Err::<EpubView, EpubError>(e),
        },
{
    let container = match archive_entry(archive, "META-INF/container.xml") {
        None => {
            return Err(EpubError::MissingContainer);
        },
        Some(c) => c,
    };
    let container_text = match decode_strict(container) {
        None => {
            return Err(EpubError::NotText);
        },
        Some(t) => t,
    };
    let attr = chars_of("full-path=\"");
    let opf_path = match find_attr_value(&chars_of(container_text.as_str()), &attr) {
        None => {
            return Err(EpubError::MissingRootfile);
        },
        Some(p) => string_of(p.as_slice()),
    };
    let opf = match archive_entry(archive, opf_path.as_str()) {
        None => {
            return Err(EpubError::MissingPackage);
        },
        Some(o) => o,
    };
    let opf_text = match decode_strict(opf) {
        None => {
            return Err(EpubError::NotText);
        },
        Some(t) => t,
    };
    let (mut meta, href) = parse_epub_metadata(opf_text.as_str());
    if let Some(h) = href {
        let cover_path = resolve_relative(opf_path.as_str(), h.as_str());
        meta.cover = archive_entry(archive, cover_path.as_str());
    }
    Ok(meta)
}

} // verus!
