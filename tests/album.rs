use harmony::album::{album_find, album_match, AlbumRecord};

fn s(v: &[&str]) -> Vec<String> {
    v.iter().map(|x| x.to_string()).collect()
}

fn album(id: u128, name: &str, mbid: Option<&str>, artists: &[&str]) -> AlbumRecord {
    AlbumRecord {
        id,
        name: name.to_string(),
        musicbrainz_id: mbid.map(|m| m.to_string()),
        artists: s(artists),
    }
}

#[test]
fn matcher_album_artists_and_overlap() {
    let a = album(1, "Duets", None, &["X", "Y"]);
    assert!(album_match(&s(&[]), &Some(s(&["X", "Y"])), &a));
    assert!(album_match(&s(&[]), &Some(s(&["Y", "X"])), &a));
    assert!(!album_match(&s(&[]), &Some(s(&["X"])), &a));
    assert!(!album_match(&s(&[]), &Some(s(&["X", "Z"])), &a));
    assert!(album_match(&s(&["Z", "X"]), &None, &a));
    assert!(!album_match(&s(&["Z"]), &None, &a));
    assert!(!album_match(&s(&["x"]), &None, &a));
}

#[test]
fn external_id_takes_precedence() {
    let albums = vec![
        album(1, "Duets", None, &["X", "Y"]),
        album(2, "Other", Some("mb-1"), &["Q"]),
    ];
    let found = album_find("Duets", &s(&["X"]), None, Some("mb-1".to_string()), &albums);
    assert_eq!(found, Some(2));
    let by_name = album_find("Duets", &s(&["X"]), None, Some("mb-2".to_string()), &albums);
    assert_eq!(by_name, Some(1));
}

#[test]
fn name_must_match_exactly() {
    let albums = vec![album(1, "Duets", None, &["X"]), album(3, "duets", None, &["X"])];
    assert_eq!(album_find("duets", &s(&["X"]), None, None, &albums), Some(3));
    assert_eq!(album_find("Duets ", &s(&["X"]), None, None, &albums), None);
    assert_eq!(album_find("Duets", &s(&["W"]), None, None, &albums), None);
}
