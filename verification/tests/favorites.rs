use tanoshi::favorites::{decode_title, remove_favorites, FavoriteRemoval};

#[test]
fn title_is_decoded() {
    assert_eq!(
        remove_favorites("ann".to_string(), "mangadex".to_string(), "T25lIFBpZWNl".to_string()),
        Some(FavoriteRemoval {
            user: "ann".to_string(),
            source: "mangadex".to_string(),
            title: "One Piece".to_string()
        })
    );
    assert_eq!(decode_title("T25lIFBpZWNl"), "One Piece");
}

#[test]
fn url_safe_alphabet_and_unicode() {
    let encoded = base64::encode_config("Ōkami? ~ü", base64::URL_SAFE_NO_PAD);
    let r = remove_favorites("u".to_string(), "s".to_string(), encoded).unwrap();
    assert_eq!(r.title, "Ōkami? ~ü");
}

#[test]
fn bad_titles_are_refused() {
    assert_eq!(remove_favorites("u".to_string(), "s".to_string(), "!!!".to_string()), None);
    assert_eq!(remove_favorites("u".to_string(), "s".to_string(), "T25lIFBpZWNl==".to_string()), None);
    assert_eq!(remove_favorites("u".to_string(), "s".to_string(), "__4".to_string()), None);
}
