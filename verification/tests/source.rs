use spotifyimport::record::{Scrobbled, Song};
use spotifyimport::source::RecordSource;

fn song(title: &str) -> Song {
    Song {
        album_title: "B".to_string(),
        artist_name: "A".to_string(),
        title: title.to_string(),
        year: 2001,
        loved: false,
        ident: title.to_string(),
    }
}

#[test]
fn source_hands_out_each_record_once_in_order() {
    let mut source = RecordSource::new(Scrobbled {
        total: 3,
        songs: vec![song("a"), song("b"), song("c")],
    });
    assert_eq!(source.len(), 3);
    assert_eq!(source.next(), Some(song("a")));
    assert_eq!(source.len(), 2);
    assert_eq!(source.next(), Some(song("b")));
    assert_eq!(source.next(), Some(song("c")));
    assert_eq!(source.len(), 0);
    assert_eq!(source.next(), None);
    assert_eq!(source.next(), None);
}

#[test]
fn source_of_an_empty_batch_is_exhausted() {
    let mut source = RecordSource::new(Scrobbled { total: 0, songs: vec![] });
    assert_eq!(source.len(), 0);
    assert_eq!(source.next(), None);
}

#[test]
fn source_keeps_the_declared_total() {
    let mut source = RecordSource::new(Scrobbled { total: 10, songs: vec![song("a")] });
    assert_eq!(source.total(), 10);
    assert_eq!(source.len(), 1);
    source.next();
    assert_eq!(source.total(), 10);
}

#[test]
fn source_hands_out_equal_records_as_often_as_they_come() {
    let mut source = RecordSource::new(Scrobbled { total: 2, songs: vec![song("a"), song("a")] });
    assert_eq!(source.next(), Some(song("a")));
    assert_eq!(source.next(), Some(song("a")));
    assert_eq!(source.next(), None);
}
