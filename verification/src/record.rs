//! The records of a listening history and the tracks of the catalog.

use vstd::prelude::*;

verus! {

/// One play of the listening history.
#[derive(Debug, PartialEq, Eq)]
pub struct Song {
    pub album_title: String,
    pub artist_name: String,
    pub title: String,
    pub year: u32,
    pub loved: bool,
    pub ident: String,
}

/// What a [`Song`] holds, its strings as characters.
pub struct SongView {
    pub album_title: Seq<char>,
    pub artist_name: Seq<char>,
    pub title: Seq<char>,
    pub year: u32,
    pub loved: bool,
    pub ident: Seq<char>,
}

impl View for Song {
    type V = SongView;

    open spec fn view(&self) -> SongView {
        SongView {
            album_title: self.album_title@,
            artist_name: self.artist_name@,
            title: self.title@,
            year: self.year,
            loved: self.loved,
            ident: self.ident@,
        }
    }
}

impl DeepView for Song {
    type V = SongView;

    open spec fn deep_view(&self) -> SongView {
        self@
    }
}

impl Clone for Song {
    fn clone(&self) -> (r: Song)
        ensures
            r@ == self@,
    {
        Song {
            album_title: self.album_title.clone(),
            artist_name: self.artist_name.clone(),
            title: self.title.clone(),
            year: self.year,
            loved: self.loved,
            ident: self.ident.clone(),
        }
    }
}

/// How a record reads in a message: title, artist and album in brackets.
pub open spec fn song_text(song: SongView) -> Seq<char> {
    "("@ + song.title + ", "@ + song.artist_name + ", "@ + song.album_title + ")"@
}

impl Song {
    /// The record as it is named in messages.
    pub fn describe(&self) -> (r: String)
        ensures
            r@ == song_text(self@),
    {
        let mut buf = String::new();
        buf.append("(");
        buf.append(self.title.as_str());
        buf.append(", ");
        buf.append(self.artist_name.as_str());
        buf.append(", ");
        buf.append(self.album_title.as_str());
        buf.append(")");
        assert(buf@ =~= song_text(self@));
        buf
    }
}

/// A listening history as it is handed in: the records, and how many the
/// sender says there are. The count is hearsay: it is reported, never relied
/// on.
#[derive(Debug, PartialEq, Eq)]
pub struct Scrobbled {
    pub total: u32,
    pub songs: Vec<Song>,
}

/// A track of the catalog, as a search names it.
#[derive(Debug, PartialEq, Eq)]
pub struct CatalogTrack {
    pub id: String,
    pub uri: String,
}

/// What a [`CatalogTrack`] holds, its strings as characters.
pub struct CatalogTrackView {
    pub id: Seq<char>,
    pub uri: Seq<char>,
}

impl View for CatalogTrack {
    type V = CatalogTrackView;

    open spec fn view(&self) -> CatalogTrackView {
        CatalogTrackView { id: self.id@, uri: self.uri@ }
    }
}

impl DeepView for CatalogTrack {
    type V = CatalogTrackView;

    open spec fn deep_view(&self) -> CatalogTrackView {
        self@
    }
}

} // verus!
