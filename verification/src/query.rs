//! The search query of a record: its title, artist and album, each under its
//! own qualifier, the album without the annotation that one catalog appends
//! and the other does not.

use vstd::prelude::*;
use crate::text::{ends_with, lemma_tail_char, str_ends_with, without_tail};

verus! {

/// Annotations that the source catalog appends to album titles and the target
/// catalog does not know. An album is checked against them in this order.
pub const ALBUM_TRIM_SUFFIXES: [&'static str; 10] = [
    " - EP",
    " - Single",
    " (Bonus Track Version)",
    " (Original Motion Picture Soundtrack)",
    " (Special Edition)",
    " (Deluxe Edition)",
    " (Deluxe Version)",
    " (Deluxe)",
    " (Deluxe Edition with Videos)",
    " (Extended Version)",
];

/// The characters of the `k`-th known annotation.
pub open spec fn noise_suffix(k: int) -> Seq<char>
    recommends
        0 <= k < 10,
{
    ALBUM_TRIM_SUFFIXES[k]@
}

/// `album` with the first annotation from position `k` of the list on that it
/// ends with removed, once; `album` itself if it ends with none of them.
pub open spec fn trimmed_from(album: Seq<char>, k: int) -> Seq<char>
    decreases 10 - k,
{
    if k < 0 || k >= 10 {
        album
    } else if ends_with(album, noise_suffix(k)) {
        without_tail(album, noise_suffix(k).len())
    } else {
        trimmed_from(album, k + 1)
    }
}

/// The album title as it is searched for: the first known annotation that the
/// title ends with is removed, once.
pub open spec fn trimmed_album(album: Seq<char>) -> Seq<char> {
    trimmed_from(album, 0)
}

/// A field of the query: none for an empty value, else one, the value under
/// its qualifier.
pub open spec fn query_field(qualifier: Seq<char>, value: Seq<char>) -> Seq<Seq<char>> {
    if value.len() == 0 {
        Seq::empty()
    } else {
        seq![qualifier + value]
    }
}

/// The fields of a query: those of track, artist and album that are not
/// empty, each under its qualifier, in this order.
pub open spec fn query_fields(track: Seq<char>, artist: Seq<char>, album: Seq<char>) -> Seq<
    Seq<char>,
> {
    query_field("track:"@, track) + query_field("artist:"@, artist) + query_field("album:"@, album)
}

/// The parts in their order, with one space between two of them: none before
/// the first, none after the last.
pub open spec fn joined(parts: Seq<Seq<char>>) -> Seq<char>
    decreases parts.len(),
{
    if parts.len() == 0 {
        Seq::empty()
    } else if parts.len() == 1 {
        parts[0]
    } else {
        joined(parts.drop_last()) + " "@ + parts.last()
    }
}

/// The query for a track, an artist and an album: its fields joined, the
/// album trimmed before.
pub open spec fn search_query_text(track: Seq<char>, artist: Seq<char>, album: Seq<char>) -> Seq<
    char,
> {
    joined(query_fields(track, artist, trimmed_album(album)))
}

/// Removes from `album` the first known annotation that it ends with.
pub fn trim_album<'a>(album: &'a str) -> (r: &'a str)
    ensures
        r@ == trimmed_album(album@),
{
    let n: usize = album.unicode_len();
    let mut k: usize = 0;
    while k < 10
        invariant
            k <= 10,
            n == album@.len(),
            trimmed_album(album@) == trimmed_from(album@, k as int),
        decreases 10 - k,
    {
        let suffix: &'static str = ALBUM_TRIM_SUFFIXES[k];
        if str_ends_with(album, suffix) {
            let m: usize = suffix.unicode_len();
            return album.substring_char(0, n - m);
        }
        k += 1;
    }
    album
}

/// Appends one field of the query to `buf`, after a space where `any` says
/// that a field stands there already, and tells whether one stands there now.
fn push_query_field(buf: &mut String, any: bool, qualifier: &str, value: &str) -> (r: bool)
    ensures
        r == (any || value@.len() > 0),
        final(buf)@ == if value@.len() == 0 {
            old(buf)@
        } else if any {
            old(buf)@ + " "@ + (qualifier@ + value@)
        } else {
            old(buf)@ + (qualifier@ + value@)
        },
{
    if value.is_empty() {
        return any;
    }
    if any {
        buf.append(" ");
    }
    buf.append(qualifier);
    buf.append(value);
    assert(buf@ =~= if any {
        old(buf)@ + " "@ + (qualifier@ + value@)
    } else {
        old(buf)@ + (qualifier@ + value@)
    });
    true
}

/// One more field at the end of a query goes after a space, or stands alone
/// where it is the first.
proof fn lemma_joined_add(parts: Seq<Seq<char>>, field: Seq<Seq<char>>)
    requires
        field.len() <= 1,
    ensures
        joined(parts + field) == if field.len() == 0 {
            joined(parts)
        } else if parts.len() == 0 {
            field[0]
        } else {
            joined(parts) + " "@ + field[0]
        },
{
    if field.len() == 0 {
        assert(parts + field =~= parts);
    } else {
        assert((parts + field).drop_last() =~= parts);
        assert((parts + field).last() == field[0]);
        if parts.len() == 0 {
            assert((parts + field)[0] == field[0]);
        }
    }
}

/// Builds the query that finds a track: the fields that are not empty, each
/// under its qualifier, in the order track, artist, album, with one space
/// between two fields and none after the last; an empty field leaves no
/// trace.
pub fn search_query(track: &str, artist: &str, album: &str) -> (r: String)
    ensures
        r@ == joined(query_fields(track@, artist@, trimmed_album(album@))),
{
    let album = trim_album(album);
    let ghost first = query_field("track:"@, track@);
    let ghost second = query_field("artist:"@, artist@);
    let ghost third = query_field("album:"@, album@);
    let mut buf = String::new();
    let any = push_query_field(&mut buf, false, "track:", track);
    proof {
        lemma_joined_add(Seq::empty(), first);
        assert(Seq::<Seq<char>>::empty() + first =~= first);
        assert(buf@ =~= joined(first));
    }
    let any = push_query_field(&mut buf, any, "artist:", artist);
    proof {
        lemma_joined_add(first, second);
    }
    let any = push_query_field(&mut buf, any, "album:", album);
    proof {
        lemma_joined_add(first + second, third);
    }
    buf
}

/// A query ends with its last field, not with a space after it: the query
/// of a single field is that field under its qualifier and nothing more.
pub proof fn lemma_single_field_stands_alone(qualifier: Seq<char>, value: Seq<char>)
    requires
        value.len() > 0,
    ensures
        joined(query_field(qualifier, value)) == qualifier + value,
{
}

/// The last character of each known annotation, and those before it that
/// tell it from the others.
proof fn lemma_suffix_tails(album: Seq<char>)
    ensures
        ends_with(album, noise_suffix(0)) ==> album.len() >= 5 && album[album.len() - 1] == 'P',
        ends_with(album, noise_suffix(1)) ==> album.len() >= 9 && album[album.len() - 1] == 'e',
        ends_with(album, noise_suffix(2)) ==> album.len() >= 22 && album[album.len() - 1] == ')'
            && album[album.len() - 2] == 'n' && album[album.len() - 5] == 's' && album[album.len()
            - 10] == 'k',
        ends_with(album, noise_suffix(3)) ==> album.len() >= 37 && album[album.len() - 1] == ')'
            && album[album.len() - 2] == 'k',
        ends_with(album, noise_suffix(4)) ==> album.len() >= 18 && album[album.len() - 1] == ')'
            && album[album.len() - 2] == 'n' && album[album.len() - 5] == 't' && album[album.len()
            - 10] == 'l',
        ends_with(album, noise_suffix(5)) ==> album.len() >= 17 && album[album.len() - 1] == ')'
            && album[album.len() - 2] == 'n' && album[album.len() - 5] == 't' && album[album.len()
            - 10] == 'e',
        ends_with(album, noise_suffix(6)) ==> album.len() >= 17 && album[album.len() - 1] == ')'
            && album[album.len() - 2] == 'n' && album[album.len() - 5] == 's' && album[album.len()
            - 10] == 'e',
        ends_with(album, noise_suffix(7)) ==> album.len() >= 9 && album[album.len() - 1] == ')'
            && album[album.len() - 2] == 'e',
        ends_with(album, noise_suffix(8)) ==> album.len() >= 29 && album[album.len() - 1] == ')'
            && album[album.len() - 2] == 's',
        ends_with(album, noise_suffix(9)) ==> album.len() >= 19 && album[album.len() - 1] == ')'
            && album[album.len() - 2] == 'n' && album[album.len() - 5] == 's' && album[album.len()
            - 10] == 'd',
{
    reveal_strlit(" - EP");
    reveal_strlit(" - Single");
    reveal_strlit(" (Bonus Track Version)");
    reveal_strlit(" (Original Motion Picture Soundtrack)");
    reveal_strlit(" (Special Edition)");
    reveal_strlit(" (Deluxe Edition)");
    reveal_strlit(" (Deluxe Version)");
    reveal_strlit(" (Deluxe)");
    reveal_strlit(" (Deluxe Edition with Videos)");
    reveal_strlit(" (Extended Version)");
    lemma_tail_char(album, noise_suffix(0), 0);
    lemma_tail_char(album, noise_suffix(1), 0);
    lemma_tail_char(album, noise_suffix(2), 0);
    lemma_tail_char(album, noise_suffix(2), 1);
    lemma_tail_char(album, noise_suffix(2), 4);
    lemma_tail_char(album, noise_suffix(2), 9);
    lemma_tail_char(album, noise_suffix(3), 0);
    lemma_tail_char(album, noise_suffix(3), 1);
    lemma_tail_char(album, noise_suffix(4), 0);
    lemma_tail_char(album, noise_suffix(4), 1);
    lemma_tail_char(album, noise_suffix(4), 4);
    lemma_tail_char(album, noise_suffix(4), 9);
    lemma_tail_char(album, noise_suffix(5), 0);
    lemma_tail_char(album, noise_suffix(5), 1);
    lemma_tail_char(album, noise_suffix(5), 4);
    lemma_tail_char(album, noise_suffix(5), 9);
    lemma_tail_char(album, noise_suffix(6), 0);
    lemma_tail_char(album, noise_suffix(6), 1);
    lemma_tail_char(album, noise_suffix(6), 4);
    lemma_tail_char(album, noise_suffix(6), 9);
    lemma_tail_char(album, noise_suffix(7), 0);
    lemma_tail_char(album, noise_suffix(7), 1);
    lemma_tail_char(album, noise_suffix(8), 0);
    lemma_tail_char(album, noise_suffix(8), 1);
    lemma_tail_char(album, noise_suffix(9), 0);
    lemma_tail_char(album, noise_suffix(9), 1);
    lemma_tail_char(album, noise_suffix(9), 4);
    lemma_tail_char(album, noise_suffix(9), 9);
}

/// No title ends with two of the known annotations.
pub proof fn lemma_one_suffix_at_most(album: Seq<char>, j: int, k: int)
    requires
        0 <= j < 10,
        0 <= k < 10,
        ends_with(album, noise_suffix(j)),
        ends_with(album, noise_suffix(k)),
    ensures
        j == k,
{
    lemma_suffix_tails(album);
}

/// A title that ends with a known annotation loses exactly that annotation,
/// once: what is left, followed by the annotation, is the title.
pub proof fn lemma_trim_removes_the_suffix(album: Seq<char>, k: int)
    requires
        0 <= k < 10,
        ends_with(album, noise_suffix(k)),
    ensures
        trimmed_album(album) == without_tail(album, noise_suffix(k).len()),
        trimmed_album(album) + noise_suffix(k) == album,
{
    assert forall|j: int| 0 <= j < 10 && j != k implies !ends_with(album, noise_suffix(j)) by {
        if ends_with(album, noise_suffix(j)) {
            lemma_one_suffix_at_most(album, j, k);
        }
    }
    reveal_with_fuel(trimmed_from, 11);
    assert(without_tail(album, noise_suffix(k).len()) + noise_suffix(k) =~= album);
}

/// A title that ends with none of the known annotations is searched for as
/// it is.
pub proof fn lemma_trim_keeps_other_titles(album: Seq<char>)
    requires
        forall|k: int| 0 <= k < 10 ==> !ends_with(album, #[trigger] noise_suffix(k)),
    ensures
        trimmed_album(album) == album,
{
    reveal_with_fuel(trimmed_from, 11);
}

} // verus!
