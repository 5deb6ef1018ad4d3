use spotifyimport::matcher::SearchReply;
use spotifyimport::mutator::{add_request, AddReply};
use spotifyimport::record::{CatalogTrack, Song};
use spotifyimport::worker::{after_add, after_search, Outcome, Step};

fn example() -> Song {
    Song {
        album_title: "Example (Deluxe Edition)".to_string(),
        artist_name: "A".to_string(),
        title: "T".to_string(),
        year: 2020,
        loved: true,
        ident: "x".to_string(),
    }
}

fn found(id: &str) -> SearchReply {
    SearchReply::Answered(
        200,
        Ok(vec![CatalogTrack { id: id.to_string(), uri: format!("spotify:track:{}", id) }]),
    )
}

#[test]
fn search_without_results_skips_the_record() {
    let step = after_search(example(), &SearchReply::Answered(200, Ok(vec![])), true, "tok");
    assert_eq!(
        step,
        Step::Done(Outcome::Skipped(example(), "search track: found zero tracks".to_string()))
    );
}

#[test]
fn search_without_results_skips_the_record_without_changes_too() {
    let step = after_search(example(), &SearchReply::Answered(200, Ok(vec![])), false, "tok");
    assert_eq!(
        step,
        Step::Done(Outcome::Skipped(example(), "search track: found zero tracks".to_string()))
    );
}

#[test]
fn search_with_a_bad_status_skips_the_record() {
    let step = after_search(example(), &SearchReply::Answered(401, Ok(vec![])), true, "tok");
    assert_eq!(
        step,
        Step::Done(Outcome::Skipped(example(), "search track: bad status code: 401".to_string()))
    );
}

#[test]
fn search_that_fails_skips_the_record() {
    let reply = SearchReply::Failed("build and execute request".to_string());
    let step = after_search(example(), &reply, true, "tok");
    assert_eq!(
        step,
        Step::Done(Outcome::Skipped(
            example(),
            "search track: build and execute request".to_string()
        ))
    );
}

#[test]
fn track_found_is_saved_next_where_changes_are_wanted() {
    let step = after_search(example(), &found("id1"), true, "tok");
    assert_eq!(step, Step::Save(example(), "id1".to_string(), add_request("id1", "tok")));
}

#[test]
fn track_found_counts_as_added_where_no_changes_are_wanted() {
    let step = after_search(example(), &found("id1"), false, "tok");
    assert_eq!(step, Step::Done(Outcome::Added(example(), "id1".to_string())));
}

#[test]
fn track_saved_is_added() {
    let outcome = after_add(example(), "id1".to_string(), &AddReply::Answered(200));
    assert_eq!(outcome, Outcome::Added(example(), "id1".to_string()));
}

#[test]
fn track_not_saved_is_skipped() {
    let outcome = after_add(example(), "id1".to_string(), &AddReply::Answered(403));
    assert_eq!(outcome, Outcome::Skipped(example(), "add track: bad status code: 403".to_string()));
}

#[test]
fn save_that_fails_is_skipped() {
    let outcome = after_add(example(), "id1".to_string(), &AddReply::Failed("no route".to_string()));
    assert_eq!(outcome, Outcome::Skipped(example(), "add track: no route".to_string()));
}
