use std::io::{Cursor, Write};

use harmony::epub::{
    parse_cover_href, parse_cover_id, parse_epub, parse_epub_metadata, parse_tag,
    resolve_relative, EpubError,
};
use zip::write::SimpleFileOptions;
use zip::{CompressionMethod, ZipWriter};

const OPF: &str = r#"<?xml version="1.0"?>
<package xmlns="http://www.idpf.org/2007/opf" version="2.0">
  <metadata xmlns:dc="http://purl.org/dc/elements/1.1/">
    <dc:title id="t">A Tale of Two Cities</dc:title>
    <dc:identifier id="uid">urn:isbn:9780141439600</dc:identifier>
    <dc:language>en</dc:language>
    <dc:creator opf:role="aut">Charles Dickens</dc:creator>
    <meta name="generator" content="tool"/>
    <meta name="cover" content="cov1"/>
  </metadata>
  <manifest>
    <item id="text" href="text.xhtml" media-type="application/xhtml+xml"/>
    <item id="cov1" href="images/cover.jpg" media-type="image/jpeg"/>
  </manifest>
</package>"#;

fn container(path: &str) -> String {
    format!(
        r#"<?xml version="1.0"?><container version="1.0"><rootfiles><rootfile full-path="{}" media-type="application/oebps-package+xml"/></rootfiles></container>"#,
        path
    )
}

fn archive(entries: &[(&str, &[u8])]) -> Vec<u8> {
    let mut w = ZipWriter::new(Cursor::new(Vec::new()));
    let opts = SimpleFileOptions::default().compression_method(CompressionMethod::Stored);
    for (name, data) in entries {
        w.start_file(*name, opts).unwrap();
        w.write_all(data).unwrap();
    }
    w.finish().unwrap().into_inner()
}

#[test]
fn tag_content_is_scraped() {
    assert_eq!(parse_tag(OPF, "dc:title").as_deref(), Some("A Tale of Two Cities"));
    assert_eq!(parse_tag(OPF, "dc:language").as_deref(), Some("en"));
    assert_eq!(parse_tag(OPF, "dc:creator").as_deref(), Some("Charles Dickens"));
    assert_eq!(parse_tag(OPF, "dc:publisher"), None);
    assert_eq!(parse_tag("<dc:title>unclosed", "dc:title"), None);
}

#[test]
fn cover_id_and_href() {
    assert_eq!(parse_cover_id(OPF).as_deref(), Some("cov1"));
    assert_eq!(parse_cover_href(OPF, "cov1").as_deref(), Some("images/cover.jpg"));
    assert_eq!(parse_cover_href(OPF, "text").as_deref(), Some("text.xhtml"));
    assert_eq!(parse_cover_href(OPF, "missing"), None);
    assert_eq!(parse_cover_id("<meta name=\"generator\" content=\"x\"/>"), None);
}

#[test]
fn package_metadata_without_cover_file() {
    let (m, href) = parse_epub_metadata(OPF);
    assert_eq!(m.title.as_deref(), Some("A Tale of Two Cities"));
    assert_eq!(m.identifier.as_deref(), Some("urn:isbn:9780141439600"));
    assert_eq!(m.language.as_deref(), Some("en"));
    assert_eq!(m.creator.as_deref(), Some("Charles Dickens"));
    assert_eq!(m.cover, None);
    assert_eq!(href.as_deref(), Some("images/cover.jpg"));
}

#[test]
fn href_is_relative_to_package_directory() {
    assert_eq!(resolve_relative("OEBPS/content.opf", "images/cover.jpg"), "OEBPS/images/cover.jpg");
    assert_eq!(resolve_relative("content.opf", "cover.png"), "cover.png");
    assert_eq!(resolve_relative("a/b/c.opf", "x.jpg"), "a/b/x.jpg");
}

#[test]
fn book_cover_is_read_from_archive() {
    let cover: &[u8] = &[0xFF, 0xD8, 0xFF, 0xE0, 1, 2, 3];
    let c = container("OEBPS/content.opf");
    let data = archive(&[
        ("META-INF/container.xml", c.as_bytes()),
        ("OEBPS/content.opf", OPF.as_bytes()),
        ("OEBPS/images/cover.jpg", cover),
        ("images/cover.jpg", &[0u8]),
    ]);
    let m = parse_epub(&data).unwrap();
    assert_eq!(m.title.as_deref(), Some("A Tale of Two Cities"));
    assert_eq!(m.creator.as_deref(), Some("Charles Dickens"));
    assert_eq!(m.cover, Some(cover.to_vec()));
}

#[test]
fn missing_cover_entry_is_no_error() {
    let c = container("content.opf");
    let data = archive(&[("META-INF/container.xml", c.as_bytes()), ("content.opf", OPF.as_bytes())]);
    let m = parse_epub(&data).unwrap();
    assert_eq!(m.language.as_deref(), Some("en"));
    assert_eq!(m.cover, None);
}

#[test]
fn archive_errors() {
    assert_eq!(parse_epub(b"not a zip archive").unwrap_err(), EpubError::MissingContainer);
    let no_container = archive(&[("content.opf", OPF.as_bytes())]);
    assert_eq!(parse_epub(&no_container).unwrap_err(), EpubError::MissingContainer);
    let no_path = archive(&[("META-INF/container.xml", b"<container/>")]);
    assert_eq!(parse_epub(&no_path).unwrap_err(), EpubError::MissingRootfile);
    let c = container("OEBPS/content.opf");
    let no_package = archive(&[("META-INF/container.xml", c.as_bytes())]);
    assert_eq!(parse_epub(&no_package).unwrap_err(), EpubError::MissingPackage);
    let bad_text = archive(&[("META-INF/container.xml", &[0xFF, 0xFE, 0x00])]);
    assert_eq!(parse_epub(&bad_text).unwrap_err(), EpubError::NotText);
}
