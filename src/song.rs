//! Songs and playlists.

use vstd::prelude::*;

use crate::errors::{opt_str_text, opt_text, MelodyErrors, MelodyErrorsKind};
use crate::paths::same_path_of;
use crate::text::aligned_of;
use crate::utils::{duration_text, fmt_duration};

verus! {

/// A song of the library: its tags, its length and its file, and how far it
/// has been played. Times are in milliseconds. The track number is kept for
/// later use; the tag reader does not fill it in, so it is `None` for every
/// song loaded from a file.
#[derive(Eq, Debug)]
pub struct Song {
    pub artist: Option<String>,
    pub album: Option<String>,
    pub title: Option<String>,
    pub track: Option<u32>,
    pub genre: Option<String>,
    pub duration: u64,
    pub file: String,
    pub elapsed: u64,
}

/// What a song holds, with its texts as sequences of characters.
pub struct SongView {
    pub artist: Option<Seq<char>>,
    pub album: Option<Seq<char>>,
    pub title: Option<Seq<char>>,
    pub track: Option<u32>,
    pub genre: Option<Seq<char>>,
    pub duration: u64,
    pub file: Seq<char>,
    pub elapsed: u64,
}

impl View for Song {
    type V = SongView;

    open spec fn view(&self) -> SongView {
        SongView {
            artist: opt_text(self.artist),
            album: opt_text(self.album),
            title: opt_text(self.title),
            track: self.track,
            genre: opt_text(self.genre),
            duration: self.duration,
            file: self.file@,
            elapsed: self.elapsed,
        }
    }
}

/// The views of a sequence of songs.
pub open spec fn views(s: Seq<Song>) -> Seq<SongView> {
    s.map_values(|t: Song| t@)
}

/// Whether two songs carry the same tags: artist, album, title, track and
/// length, and the genre too when `matching_genre` is set. A song's length
/// takes part as a tag: two songs of different lengths never match.
pub open spec fn songs_match(a: SongView, b: SongView, matching_genre: bool) -> bool {
    &&& a.artist == b.artist
    &&& a.album == b.album
    &&& a.title == b.title
    &&& a.track == b.track
    &&& (matching_genre ==> a.genre == b.genre)
    &&& a.duration == b.duration
}

/// Whether two songs match on all their tags and name the same file, or
/// match on all their tags and `same_path` waives the file.
pub open spec fn songs_exactly_match(a: SongView, b: SongView, same_path: bool) -> bool {
    songs_match(a, b, true) && (same_path_of(a.file, b.file) || same_path)
}

fn same_text(a: &Option<String>, b: &Option<String>) -> (r: bool)
    ensures
        r == (opt_text(*a) == opt_text(*b)),
{
    match (a, b) {
        (Some(x), Some(y)) => *x == *y,
        (None, None) => true,
        _ => false,
    }
}

fn clone_text(a: &Option<String>) -> (r: Option<String>)
    ensures
        r == *a,
{
    match a {
        Some(x) => Some(x.clone()),
        None => None,
    }
}

fn text_ref(a: &Option<String>) -> (r: Option<&str>)
    ensures
        opt_str_text(r) == opt_text(*a),
{
    match a {
        Some(x) => Some(x.as_str()),
        None => None,
    }
}

impl Clone for Song {
    fn clone(&self) -> (r: Self)
        ensures
            r == *self,
    {
        Song {
            artist: clone_text(&self.artist),
            album: clone_text(&self.album),
            title: clone_text(&self.title),
            track: self.track,
            genre: clone_text(&self.genre),
            duration: self.duration,
            file: self.file.clone(),
            elapsed: self.elapsed,
        }
    }
}

impl PartialEq for Song {
    fn eq(&self, o: &Song) -> (r: bool) {
        same_text(&self.artist, &o.artist) && same_text(&self.album, &o.album) && same_text(
            &self.title,
            &o.title,
        ) && match (self.track, o.track) {
            (Some(x), Some(y)) => x == y,
            (None, None) => true,
            _ => false,
        } && same_text(&self.genre, &o.genre) && self.duration == o.duration && self.file
            == o.file && self.elapsed == o.elapsed
    }
}

impl vstd::std_specs::cmp::PartialEqSpecImpl for Song {
    open spec fn obeys_eq_spec() -> bool {
        true
    }

    open spec fn eq_spec(&self, o: &Song) -> bool {
        self@ == o@
    }
}

impl Song {
    /// The artist of the song, if its tags name one.
    pub fn artist(&self) -> (r: Option<&str>)
        ensures
            opt_str_text(r) == self@.artist,
    {
        text_ref(&self.artist)
    }

    /// The album of the song, if its tags name one.
    pub fn album(&self) -> (r: Option<&str>)
        ensures
            opt_str_text(r) == self@.album,
    {
        text_ref(&self.album)
    }

    /// The title of the song, if its tags name one.
    pub fn title(&self) -> (r: Option<&str>)
        ensures
            opt_str_text(r) == self@.title,
    {
        text_ref(&self.title)
    }

    /// The track number of the song, if known.
    pub fn track(&self) -> (r: Option<u32>)
        ensures
            r == self@.track,
    {
        self.track
    }

    /// The genre of the song, if its tags name one.
    pub fn genre(&self) -> (r: Option<&str>)
        ensures
            opt_str_text(r) == self@.genre,
    {
        text_ref(&self.genre)
    }

    /// The length of the song, in milliseconds.
    pub fn duration(&self) -> (r: u64)
        ensures
            r == self@.duration,
    {
        self.duration
    }

    /// How far the song has been played, in milliseconds.
    pub fn elapsed(&self) -> (r: u64)
        ensures
            r == self@.elapsed,
    {
        self.elapsed
    }

    /// The path of the song's file.
    pub fn file(&self) -> (r: &str)
        ensures
            r@ == self@.file,
    {
        self.file.as_str()
    }

    /// Checks whether `s` carries the same tags as this song; the genre is
    /// compared only when `matching_genre` is set.
    pub fn matching_song(&self, s: &Song, matching_genre: bool) -> (r: bool)
        ensures
            r == songs_match(self@, s@, matching_genre),
    {
        if !same_text(&self.artist, &s.artist) {
            return false;
        }
        if !same_text(&self.album, &s.album) {
            return false;
        }
        if !same_text(&self.title, &s.title) {
            return false;
        }
        if self.track() != s.track() {
            return false;
        }
        if matching_genre && !same_text(&self.genre, &s.genre) {
            return false;
        }
        if self.duration != s.duration {
            return false;
        }
        true
    }

    /// Checks whether `s` carries all the same tags, genre included, and
    /// names the same file; `same_path` waives the file.
    pub fn exact_match(&self, s: &Song, same_path: bool) -> (r: bool)
        ensures
            r == songs_exactly_match(self@, s@, same_path),
            self@.file == s@.file ==> r == songs_match(self@, s@, true),
    {
        self.matching_song(s, true) && (same_path || crate::paths::same_path(
            self.file.as_str(),
            s.file.as_str(),
        ))
    }

    /// Builds the song of `file` from the tags read from it: those of its
    /// primary tag block, or else of the first block it has, and the length
    /// that its audio properties give. Fails with `FailedToReadTag` when the
    /// file has no tag block at all. The track number stays `None` and
    /// nothing has been played yet.
    pub fn from_tags(
        file: String,
        primary: Option<TagFields>,
        first: Option<TagFields>,
        duration: u64,
    ) -> (r: Result<Song, MelodyErrors>)
        ensures
            match (if primary is Some { primary } else { first }) {
                Some(tags) => r matches Ok(song) && song@ == tagged_song(tags, duration, file@),
                None => r matches Err(e) && e.spec_kind() == MelodyErrorsKind::FailedToReadTag
                    && e.spec_file() == Some(file@),
            },
    {
        let tags = match primary {
            Some(tags) => tags,
            None => match first {
                Some(tags) => tags,
                None => {
                    return Err(
                        MelodyErrors::new(
                            MelodyErrorsKind::FailedToReadTag,
                            "Failed to get file tags",
                            Some(file.as_str()),
                        ),
                    );
                },
            },
        };
        Ok(
            Song {
                artist: tags.artist,
                album: tags.album,
                title: tags.title,
                track: None,
                genre: tags.genre,
                duration,
                file,
                elapsed: 0,
            },
        )
    }

    /// One line that names the song: artist, album and title, each with a
    /// placeholder when unknown, and its length (`A - B - C (3m 5s)`).
    pub fn display(&self) -> (r: String)
        ensures
            r@ == song_line(self@),
    {
        let mut out = String::from_str(unknown_or(self.artist(), "Unknown Artist"));
        out.append(" - ");
        out.append(unknown_or(self.album(), "Unknown Album"));
        out.append(" - ");
        out.append(unknown_or(self.title(), "Unknown Title"));
        out.append(" (");
        out.append(fmt_duration(self.duration).as_str());
        out.append(")");
        out
    }
}

/// The tags read from one tag block of a file.
pub struct TagFields {
    pub artist: Option<String>,
    pub album: Option<String>,
    pub title: Option<String>,
    pub genre: Option<String>,
}

/// The song that a file's tags and length make, before any playing.
pub open spec fn tagged_song(tags: TagFields, duration: u64, file: Seq<char>) -> SongView {
    SongView {
        artist: opt_text(tags.artist),
        album: opt_text(tags.album),
        title: opt_text(tags.title),
        track: None,
        genre: opt_text(tags.genre),
        duration,
        file,
        elapsed: 0,
    }
}

/// A known text, or the placeholder for an unknown one.
pub open spec fn or_unknown(o: Option<Seq<char>>, placeholder: Seq<char>) -> Seq<char> {
    match o {
        Some(t) => t,
        None => placeholder,
    }
}

fn unknown_or<'a>(o: Option<&'a str>, placeholder: &'a str) -> (r: &'a str)
    ensures
        r@ == or_unknown(opt_str_text(o), placeholder@),
{
    match o {
        Some(t) => t,
        None => placeholder,
    }
}

/// The line that names a song: `artist - album - title (length)`.
pub open spec fn song_line(s: SongView) -> Seq<char> {
    or_unknown(s.artist, "Unknown Artist"@) + " - "@ + or_unknown(s.album, "Unknown Album"@)
        + " - "@ + or_unknown(s.title, "Unknown Title"@) + " ("@ + duration_text(s.duration)
        + ")"@
}


/// The songs of a sequence with every repeat of an earlier song left out,
/// in the order in which each was first seen.
pub open spec fn dedup_views(s: Seq<SongView>) -> Seq<SongView>
    decreases s.len(),
{
    if s.len() == 0 {
        seq![]
    } else {
        let d = dedup_views(s.drop_last());
        if d.contains(s.last()) {
            d
        } else {
            d.push(s.last())
        }
    }
}

/// What dedup keeps are the songs of the input, each once.
pub proof fn lemma_dedup_contents(s: Seq<SongView>)
    ensures
        dedup_views(s).no_duplicates(),
        forall|x: SongView| dedup_views(s).contains(x) <==> s.contains(x),
    decreases s.len(),
{
    if s.len() > 0 {
        lemma_dedup_contents(s.drop_last());
        let d = dedup_views(s.drop_last());
        assert forall|x: SongView|
            s.contains(x) <==> (s.drop_last().contains(x) || x == s.last()) by {
            if s.contains(x) {
                let i = choose|i: int| 0 <= i < s.len() && s[i] == x;
                if i < s.len() - 1 {
                    assert(s.drop_last()[i] == x);
                }
            }
            if x == s.last() {
                assert(s[s.len() - 1] == x);
            }
            if s.drop_last().contains(x) {
                let i = choose|i: int| 0 <= i < s.len() - 1 && s.drop_last()[i] == x;
                assert(s[i] == x);
            }
        }
        if !d.contains(s.last()) {
            assert forall|x: SongView|
                d.push(s.last()).contains(x) <==> (d.contains(x) || x == s.last()) by {
                if d.push(s.last()).contains(x) {
                    let i = choose|i: int| 0 <= i < d.len() + 1 && d.push(s.last())[i] == x;
                    if i < d.len() {
                        assert(d[i] == x);
                    }
                }
                if d.contains(x) {
                    let i = choose|i: int| 0 <= i < d.len() && d[i] == x;
                    assert(d.push(s.last())[i] == x);
                }
                if x == s.last() {
                    assert(d.push(s.last())[d.len() as int] == x);
                }
            }
        }
    }
}

/// A sequence without repeats is left as it is by dedup.
pub proof fn lemma_dedup_of_distinct(s: Seq<SongView>)
    requires
        s.no_duplicates(),
    ensures
        dedup_views(s) == s,
    decreases s.len(),
{
    if s.len() > 0 {
        let t = s.drop_last();
        assert(t.no_duplicates());
        lemma_dedup_of_distinct(t);
        lemma_dedup_contents(t);
        if t.contains(s.last()) {
            let i = choose|i: int| 0 <= i < t.len() && t[i] == s.last();
            assert(s[i] == s[s.len() - 1]);
        }
        assert(t.push(s.last()) =~= s);
    }
}

/// Dedup is idempotent: a second pass over its result changes nothing.
pub proof fn lemma_dedup_idempotent(s: Seq<SongView>)
    ensures
        dedup_views(dedup_views(s)) == dedup_views(s),
{
    lemma_dedup_contents(s);
    lemma_dedup_of_distinct(dedup_views(s));
}

/// What a scan found at the root path of a playlist.
pub enum ScanResult {
    /// Nothing exists at the path.
    Missing,
    /// The path is a file: the song loaded from it, or `None` when it could
    /// not be loaded.
    File(Option<Song>),
    /// The path is a directory: the songs loaded from the supported files
    /// under it, in the order of the walk; files that failed are left out.
    Directory(Vec<Song>),
}

/// A collection of songs, in order.
pub struct Playlist {
    pub tracks: Vec<Song>,
}

impl From<Vec<Song>> for Playlist {
    fn from(tracks: Vec<Song>) -> (r: Self) {
        Playlist { tracks }
    }
}

impl vstd::std_specs::convert::FromSpecImpl<Vec<Song>> for Playlist {
    open spec fn obeys_from_spec() -> bool {
        true
    }

    open spec fn from_spec(v: Vec<Song>) -> Playlist {
        Playlist { tracks: v }
    }
}

fn contains_song(v: &Vec<Song>, s: &Song) -> (r: bool)
    ensures
        r == views(v@).contains(s@),
{
    let mut i: usize = 0;
    while i < v.len()
        invariant
            i <= v.len(),
            forall|j: int| 0 <= j < i ==> v@[j]@ != s@,
        decreases v.len() - i,
    {
        if v[i] == *s {
            assert(views(v@)[i as int] == s@);
            return true;
        }
        i += 1;
    }
    assert forall|j: int| 0 <= j < views(v@).len() implies views(v@)[j] != s@ by {
        assert(views(v@)[j] == v@[j]@);
    }
    false
}

impl Playlist {
    /// The playlist of the given songs, each repeated song kept only where it
    /// is first seen. Songs repeat only when they are equal in every field,
    /// file included.
    pub fn from_tracks(tracks: Vec<Song>) -> (r: Playlist)
        ensures
            views(r.tracks@) == dedup_views(views(tracks@)),
    {
        let mut out: Vec<Song> = Vec::new();
        let mut i: usize = 0;
        while i < tracks.len()
            invariant
                i <= tracks.len(),
                views(out@) == dedup_views(views(tracks@.take(i as int))),
            decreases tracks.len() - i,
        {
            let ghost before = views(tracks@.take(i as int));
            assert(views(tracks@.take(i + 1)).drop_last() =~= before);
            assert(views(tracks@.take(i + 1)).last() == tracks@[i as int]@);
            let ghost prev = out@;
            if !contains_song(&out, &tracks[i]) {
                out.push(tracks[i].clone());
                assert(views(out@) =~= views(prev).push(tracks@[i as int]@));
            }
            i += 1;
        }
        assert(tracks@.take(tracks@.len() as int) =~= tracks@);
        Playlist { tracks: out }
    }

    /// The playlist as a table of artist, album, title and length, one row
    /// per song under a header, with its columns aligned.
    pub fn render(&self) -> (r: String)
        ensures
            r@ == aligned_of(table_text(views(self.tracks@))),
    {
        Playlist::table_of(&self.tracks)
    }

    /// The song table of `tracks`, with its columns aligned.
    pub fn table_of(tracks: &Vec<Song>) -> (r: String)
        ensures
            r@ == aligned_of(table_text(views(tracks@))),
    {
        let text = table_source(tracks);
        crate::text::align_columns(text.as_str())
    }

    /// The playlist that a scan yields: none for a missing path or a file
    /// that could not be loaded, the one song of a file, or the songs found
    /// under a directory with repeats left out.
    pub fn from_scan(found: ScanResult) -> (r: Option<Playlist>)
        ensures
            match found {
                ScanResult::Missing => r is None,
                ScanResult::File(None) => r is None,
                ScanResult::File(Some(song)) => r matches Some(pl) && views(pl.tracks@) == seq![
                    song@,
                ],
                ScanResult::Directory(songs) => r matches Some(pl) && views(pl.tracks@)
                    == dedup_views(views(songs@)),
            },
    {
        match found {
            ScanResult::Missing => None,
            ScanResult::File(None) => None,
            ScanResult::File(Some(song)) => {
                let ghost v = song@;
                let tracks = vec![song];
                assert(views(tracks@) =~= seq![v]);
                Some(Playlist { tracks })
            },
            ScanResult::Directory(songs) => Some(Playlist::from_tracks(songs)),
        }
    }

    /// Whether no song is left in the playlist.
    pub fn is_empty(&self) -> (r: bool)
        ensures
            r == (self.tracks@.len() == 0),
    {
        self.tracks.len() == 0
    }
}

/// The header row of a song table; cells are separated by tabs.
pub open spec fn table_header() -> Seq<char> {
    "|\tArtist\t|\tAlbum\t|\tTitle\t|\tDuration\t|"@
}

/// The row of a song table for one song.
pub open spec fn table_row(s: SongView) -> Seq<char> {
    "|\t"@ + or_unknown(s.artist, "Unknown Artist"@) + "\t|\t"@ + or_unknown(
        s.album,
        "Unknown Album"@,
    ) + "\t|\t"@ + or_unknown(s.title, "Unknown Title"@) + "\t|\t"@ + duration_text(s.duration)
        + "\t|"@
}

/// A song table before alignment: the header, then one row per song, each
/// on a line of its own.
pub open spec fn table_text(tracks: Seq<SongView>) -> Seq<char>
    decreases tracks.len(),
{
    if tracks.len() == 0 {
        table_header()
    } else {
        table_text(tracks.drop_last()) + "\n"@ + table_row(tracks.last())
    }
}

fn table_row_text(s: &Song) -> (r: String)
    ensures
        r@ == table_row(s@),
{
    let mut out = String::from_str("|\t");
    out.append(unknown_or(s.artist(), "Unknown Artist"));
    out.append("\t|\t");
    out.append(unknown_or(s.album(), "Unknown Album"));
    out.append("\t|\t");
    out.append(unknown_or(s.title(), "Unknown Title"));
    out.append("\t|\t");
    out.append(fmt_duration(s.duration).as_str());
    out.append("\t|");
    out
}

/// The text of the song table of `tracks`, before its columns are aligned.
pub fn table_source(tracks: &Vec<Song>) -> (r: String)
    ensures
        r@ == table_text(views(tracks@)),
{
    let mut out = String::from_str("|\tArtist\t|\tAlbum\t|\tTitle\t|\tDuration\t|");
    let mut i: usize = 0;
    while i < tracks.len()
        invariant
            i <= tracks.len(),
            out@ == table_text(views(tracks@.take(i as int))),
        decreases tracks.len() - i,
    {
        assert(views(tracks@.take(i + 1)).drop_last() =~= views(tracks@.take(i as int)));
        assert(views(tracks@.take(i + 1)).last() == tracks@[i as int]@);
        out.append("\n");
        out.append(table_row_text(&tracks[i]).as_str());
        i += 1;
    }
    assert(tracks@.take(tracks@.len() as int) =~= tracks@);
    out
}

} // verus!
