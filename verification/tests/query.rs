use spotifyimport::query::{search_query, trim_album, ALBUM_TRIM_SUFFIXES};

#[test]
fn query_renders_each_field_under_its_qualifier() {
    assert_eq!(search_query("T", "A", "Example"), "track:T artist:A album:Example");
}

#[test]
fn query_trims_the_album() {
    assert_eq!(
        search_query("T", "A", "Example (Deluxe Edition)"),
        "track:T artist:A album:Example"
    );
}

#[test]
fn query_of_empty_fields_is_empty() {
    assert_eq!(search_query("", "", ""), "");
}

#[test]
fn query_leaves_out_an_empty_track() {
    assert_eq!(search_query("", "A", "B"), "artist:A album:B");
}

#[test]
fn query_leaves_out_an_empty_artist() {
    assert_eq!(search_query("T", "", "B"), "track:T album:B");
}

#[test]
fn query_leaves_out_an_empty_album() {
    assert_eq!(search_query("T", "A", ""), "track:T artist:A");
}

#[test]
fn query_leaves_out_an_album_that_is_all_annotation() {
    assert_eq!(search_query("T", "A", " - EP"), "track:T artist:A");
}

#[test]
fn query_keeps_a_qualifier_inside_a_value() {
    assert_eq!(search_query("track:x", "", ""), "track:track:x");
}

#[test]
fn query_keeps_spaces_and_other_scripts() {
    assert_eq!(
        search_query("Für Elise", "ベートーヴェン", "Klavier - Single"),
        "track:Für Elise artist:ベートーヴェン album:Klavier"
    );
}

#[test]
fn query_of_one_field_is_that_field_alone() {
    assert_eq!(search_query("T", "", ""), "track:T");
    assert_eq!(search_query("", "A", ""), "artist:A");
    assert_eq!(search_query("", "", "B"), "album:B");
    assert_eq!(search_query("T", "", "").chars().count(), 7);
}

#[test]
fn query_has_one_space_between_two_fields() {
    let query = search_query("T", "A", "B");
    assert_eq!(query, "track:T artist:A album:B");
    assert_eq!(query.matches(' ').count(), 2);
    assert!(!query.starts_with(' '));
    assert!(!query.ends_with(' '));
}

#[test]
fn query_keeps_the_spaces_of_a_value() {
    assert_eq!(search_query("T ", " A", ""), "track:T  artist: A");
    assert_eq!(search_query(" ", "", ""), "track: ");
}

#[test]
fn trim_removes_each_known_suffix() {
    for suffix in ALBUM_TRIM_SUFFIXES {
        let album = format!("Some Album{}", suffix);
        assert_eq!(trim_album(&album), "Some Album", "suffix {:?}", suffix);
    }
}

#[test]
fn trim_knows_ten_suffixes_in_order() {
    assert_eq!(
        ALBUM_TRIM_SUFFIXES,
        [
            " - EP",
            " - Single",
            " (Bonus Track Version)",
            " (Original Motion Picture Soundtrack)",
            " (Special Edition)",
            " (Deluxe Edition)",
            " (Deluxe Version)",
            " (Deluxe)",
            " (Deluxe Edition with Videos)",
            " (Extended Version)",
        ]
    );
}

#[test]
fn trim_removes_one_occurrence_only() {
    assert_eq!(trim_album("X (Deluxe) (Deluxe)"), "X (Deluxe)");
    assert_eq!(trim_album("X - EP - EP"), "X - EP");
}

#[test]
fn trim_removes_the_last_annotation_only() {
    assert_eq!(trim_album("X (Deluxe) - EP"), "X (Deluxe)");
    assert_eq!(trim_album("X - EP (Deluxe)"), "X - EP");
    assert_eq!(trim_album("X - Single (Extended Version)"), "X - Single");
}

#[test]
fn trim_keeps_an_album_without_annotation() {
    assert_eq!(trim_album("Example"), "Example");
    assert_eq!(trim_album(""), "");
}

#[test]
fn trim_wants_the_annotation_at_the_end() {
    assert_eq!(trim_album(" - EP and more"), " - EP and more");
    assert_eq!(trim_album("X (Deluxe) "), "X (Deluxe) ");
}

#[test]
fn trim_wants_the_whole_annotation() {
    assert_eq!(trim_album("X- EP"), "X- EP");
    assert_eq!(trim_album("(Deluxe)"), "(Deluxe)");
    assert_eq!(trim_album("X (deluxe)"), "X (deluxe)");
}

#[test]
fn trim_counts_characters_not_bytes() {
    assert_eq!(trim_album("Ændringer (Deluxe)"), "Ændringer");
    assert_eq!(trim_album("日本語 - EP"), "日本語");
}
