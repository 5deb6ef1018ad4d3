use spotifyimport::collector::Collector;
use spotifyimport::http::HttpRequest;
use spotifyimport::matcher::{search_request, SearchReply};
use spotifyimport::mutator::AddReply;
use spotifyimport::record::{CatalogTrack, Scrobbled, Song};
use spotifyimport::source::RecordSource;
use spotifyimport::worker::{after_add, after_search, Outcome, Step};

fn song(n: u32) -> Song {
    Song {
        album_title: format!("Album {} (Deluxe)", n % 5),
        artist_name: format!("Artist {}", n % 3),
        title: format!("Title {}", n % 7),
        year: 2000 + n,
        loved: n % 2 == 0,
        ident: format!("ident-{}", n),
    }
}

fn batch() -> Scrobbled {
    Scrobbled { total: 40, songs: (0..40).map(song).collect() }
}

/// A remote that answers the same request in the same way every time.
fn search_answer(request: &HttpRequest) -> SearchReply {
    let q = &request.query[0].1;
    let sum: usize = q.bytes().map(usize::from).sum();
    match sum % 4 {
        0 => SearchReply::Answered(200, Ok(vec![])),
        1 => SearchReply::Answered(503, Err("no body".to_string())),
        2 => SearchReply::Failed("build and execute request".to_string()),
        _ => SearchReply::Answered(
            200,
            Ok(vec![CatalogTrack { id: format!("id-{}", sum), uri: String::new() }]),
        ),
    }
}

fn add_answer(request: &HttpRequest) -> AddReply {
    if request.query[0].1.ends_with('3') {
        AddReply::Answered(403)
    } else {
        AddReply::Answered(200)
    }
}

fn settle(record: Song) -> Outcome {
    let request = search_request(&record, "tok");
    match after_search(record, &search_answer(&request), true, "tok") {
        Step::Done(outcome) => outcome,
        Step::Save(record, id, request) => after_add(record, id, &add_answer(&request)),
    }
}

/// Runs a pool of `workers` workers whose turns come as `seed` has it, and
/// gives the outcomes in the order of their arrival.
fn run_pool(workers: usize, seed: u64) -> Vec<Outcome> {
    let mut source = RecordSource::new(batch());
    let mut at_work: Vec<Option<Song>> = (0..workers).map(|_| None).collect();
    let mut arrived = Vec::new();
    let mut state = seed;
    loop {
        let busy = at_work.iter().any(Option::is_some);
        if source.len() == 0 && !busy {
            break;
        }
        state = state.wrapping_mul(6364136223846793005).wrapping_add(1442695040888963407);
        let w = (state >> 33) as usize % workers;
        match at_work[w].take() {
            Some(record) => arrived.push(settle(record)),
            None => at_work[w] = source.next(),
        }
    }
    arrived
}

fn sorted(mut outcomes: Vec<Outcome>) -> Vec<String> {
    let mut lines: Vec<String> = outcomes.drain(..).map(|o| format!("{:?}", o)).collect();
    lines.sort();
    lines
}

#[test]
fn one_worker_hands_in_the_batch_in_order() {
    let arrived = run_pool(1, 7);
    let expected: Vec<Outcome> = batch().songs.into_iter().map(settle).collect();
    assert_eq!(arrived, expected);
}

#[test]
fn one_worker_and_sixteen_hand_in_the_same_outcomes() {
    let one = run_pool(1, 1);
    let sixteen = run_pool(16, 2);
    assert_eq!(one.len(), 40);
    assert_eq!(sixteen.len(), 40);
    assert_ne!(one, sixteen);
    assert_eq!(sorted(one), sorted(sixteen));
}

#[test]
fn turns_do_not_change_what_arrives() {
    let reference = sorted(run_pool(1, 0));
    for workers in [2usize, 3, 16, 64] {
        for seed in [11u64, 12, 13] {
            assert_eq!(sorted(run_pool(workers, seed)), reference);
        }
    }
}

#[test]
fn pools_of_any_size_count_alike() {
    let tally = |outcomes: Vec<Outcome>| {
        let mut collector = Collector::new();
        for outcome in outcomes {
            collector.record(outcome);
        }
        let (added, mut skipped) = collector.into_parts();
        skipped.sort_by(|a, b| a.ident.cmp(&b.ident));
        (added, skipped)
    };
    let (added, skipped) = tally(run_pool(1, 5));
    assert_eq!(added + skipped.len(), 40);
    assert!(added > 0 && !skipped.is_empty());
    assert_eq!(tally(run_pool(16, 6)), (added, skipped));
}
