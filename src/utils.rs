//! Library utilities: duration text, file classification, duplicate
//! detection and the rules of moving files into a library layout.

use vstd::prelude::*;

use crate::errors::{opt_text, MelodyErrors, MelodyErrorsKind};
use crate::paths::{
    absolute_of, extension_of, file_name_of, joined_of, lower_of, parent_of, same_path_of,
};
use crate::song::{or_unknown, songs_match, views, Playlist, Song, SongView};
use crate::text::{decimal, decimal_string, div_mod_floor};

verus! {

/// Two pieces of text joined by one space; an empty piece adds nothing.
pub open spec fn spaced(a: Seq<char>, b: Seq<char>) -> Seq<char> {
    if a.len() == 0 {
        b
    } else if b.len() == 0 {
        a
    } else {
        a + seq![' '] + b
    }
}

/// A count followed by its unit (`3m`), or nothing for a count of zero.
pub open spec fn unit_part(n: nat, unit: Seq<char>) -> Seq<char> {
    if n == 0 {
        seq![]
    } else {
        decimal(n) + unit
    }
}

/// The text of a time span given in milliseconds: its whole hours, minutes
/// and seconds, each only when not zero, separated by spaces (`1h 2m 5s`).
/// A span under one second gives the empty text.
pub open spec fn duration_text(ms: u64) -> Seq<char> {
    let secs = ms / 1000;
    spaced(
        spaced(
            unit_part((secs / 60 / 60) as nat, seq!['h']),
            unit_part((secs / 60 % 60) as nat, seq!['m']),
        ),
        unit_part((secs % 60) as nat, seq!['s']),
    )
}

fn push_part(out: &mut String, n: u64, unit: &str)
    requires
        unit@.len() > 0,
    ensures
        final(out)@ == spaced(old(out)@, unit_part(n as nat, unit@)),
{
    if n != 0 {
        let part = decimal_string(n).concat(unit);
        if out.as_str().unicode_len() != 0 {
            out.append(" ");
            proof {
                reveal_strlit(" ");
            }
        }
        out.append(part.as_str());
    }
}

/// Formats a time span given in milliseconds as whole hours, minutes and
/// seconds (`1h 2m 5s`), leaving out the units that are zero.
pub fn fmt_duration(time: u64) -> (r: String)
    ensures
        r@ == duration_text(time),
{
    proof {
        reveal_strlit("h");
        reveal_strlit("m");
        reveal_strlit("s");
    }
    let (min, sec) = div_mod_floor(time / 1000, 60);
    let (hour, min) = div_mod_floor(min, 60);
    let mut time_str = String::new();
    push_part(&mut time_str, hour, "h");
    push_part(&mut time_str, min, "m");
    push_part(&mut time_str, sec, "s");
    time_str
}

/// Whether a file name marks a file that scans pass over: one that begins
/// with `.#`, as editors name their lock files.
pub open spec fn ignored_name(name: Seq<char>) -> bool {
    name.len() >= 2 && name[0] == '.' && name[1] == '#'
}

/// Whether a scan keeps a path: it has a file name, and not an ignored one.
pub open spec fn kept_path(p: Seq<char>) -> bool {
    match file_name_of(p) {
        Some(name) => !ignored_name(name),
        None => false,
    }
}

/// Filter of scans: true when the path has a file name that does not begin
/// with `.#`, false for an ignored name or a path without a file name.
pub fn ignored_file(p: &str) -> (r: bool)
    ensures
        r == kept_path(p@),
{
    match crate::paths::file_name(p) {
        Some(name) => {
            let name = name.as_str();
            !(name.unicode_len() >= 2 && name.get_char(0) == '.' && name.get_char(1) == '#')
        },
        None => false,
    }
}

/// The lowercase extension of a path, if it has one.
pub open spec fn filetype_of(p: Seq<char>) -> Option<Seq<char>> {
    match extension_of(p) {
        Some(e) => Some(lower_of(e)),
        None => None,
    }
}

/// Returns the path's extension in lowercase, if it has one.
pub fn get_filetype(path: &str) -> (r: Option<String>)
    ensures
        opt_text(r) == filetype_of(path@),
{
    match crate::paths::extension(path) {
        Some(e) => Some(crate::paths::lowercase(e.as_str())),
        None => None,
    }
}

/// The extensions of the audio files that the player reads.
pub open spec fn supported_extension(e: Seq<char>) -> bool {
    e == "flac"@ || e == "wav"@ || e == "vorbis"@ || e == "mp3"@ || e == "ogg"@
}

/// Whether a path has a supported extension, in any case.
pub open spec fn supported_path(p: Seq<char>) -> bool {
    match filetype_of(p) {
        Some(e) => supported_extension(e),
        None => false,
    }
}

fn text_eq(a: &str, b: &str) -> (r: bool)
    ensures
        r == (a@ == b@),
{
    String::from_str(a) == String::from_str(b)
}

/// Checks whether a path names a song the player can read: `is_file` tells
/// whether it is an existing regular file, and its extension, in any case,
/// must be one of flac, wav, vorbis, mp3 and ogg.
pub fn supported_song(path: &str, is_file: bool) -> (r: bool)
    ensures
        r == (is_file && supported_path(path@)),
{
    if !is_file {
        return false;
    }
    match get_filetype(path) {
        Some(ext) => {
            let e = ext.as_str();
            text_eq(e, "flac") || text_eq(e, "wav") || text_eq(e, "vorbis") || text_eq(e, "mp3")
                || text_eq(e, "ogg")
        },
        None => false,
    }
}

/// Whether the song at index `i` has a match elsewhere in the sequence, the
/// genre left aside.
pub open spec fn is_duplicate(tracks: Seq<SongView>, i: int) -> bool {
    exists|j: int| 0 <= j < tracks.len() && j != i && songs_match(tracks[j], tracks[i], false)
}

/// The files of the songs among the first `n` that are duplicates, in order.
pub open spec fn duplicate_files_upto(tracks: Seq<SongView>, n: int) -> Seq<Seq<char>>
    decreases n,
{
    if n <= 0 {
        seq![]
    } else if is_duplicate(tracks, n - 1) {
        duplicate_files_upto(tracks, n - 1).push(tracks[n - 1].file)
    } else {
        duplicate_files_upto(tracks, n - 1)
    }
}

/// The files of all the songs that have a match elsewhere, in order.
pub open spec fn duplicate_files(tracks: Seq<SongView>) -> Seq<Seq<char>> {
    duplicate_files_upto(tracks, tracks.len() as int)
}

fn has_match(tracks: &Vec<Song>, i: usize) -> (r: bool)
    requires
        i < tracks.len(),
    ensures
        r == is_duplicate(views(tracks@), i as int),
{
    let ghost v = views(tracks@);
    let mut j: usize = 0;
    while j < tracks.len()
        invariant
            i < tracks.len(),
            j <= tracks.len(),
            v == views(tracks@),
            forall|k: int| 0 <= k < j && k != i ==> !songs_match(v[k], v[i as int], false),
        decreases tracks.len() - j,
    {
        if j != i && tracks[j].matching_song(&tracks[i], false) {
            assert(songs_match(v[j as int], v[i as int], false));
            return true;
        }
        j += 1;
    }
    false
}

/// Finds the songs of the playlist that have a match elsewhere in it, by
/// artist, album, title, track and length (the genre left aside), and
/// returns their files in playlist order. Every copy is listed, the first
/// one too. Each song is compared with every other: the time grows with the
/// square of the playlist's length.
pub fn find_duplicates(playlist: &Playlist) -> (r: Vec<String>)
    ensures
        r@.map_values(|f: String| f@) == duplicate_files(views(playlist.tracks@)),
{
    let tracks = &playlist.tracks;
    let ghost v = views(tracks@);
    let mut dupes: Vec<String> = Vec::new();
    let mut i: usize = 0;
    while i < tracks.len()
        invariant
            i <= tracks.len(),
            v == views(tracks@),
            dupes@.map_values(|f: String| f@) == duplicate_files_upto(v, i as int),
        decreases tracks.len() - i,
    {
        let ghost prev = dupes@;
        if has_match(tracks, i) {
            dupes.push(tracks[i].file.clone());
            assert(dupes@.map_values(|f: String| f@) =~= prev.map_values(|f: String| f@).push(
                v[i as int].file,
            ));
        }
        i += 1;
    }
    dupes
}

/// The directory of a song in a library rooted at `to`: one directory per
/// artist and in it one per album, with placeholders for unknown ones.
pub open spec fn library_dir(s: SongView, to: Seq<char>) -> Seq<char> {
    joined_of(
        joined_of(to, or_unknown(s.artist, "Unknown Artist"@)),
        or_unknown(s.album, "Unknown Album"@),
    )
}

/// Where a song goes in a library rooted at `to`: the directory to create,
/// and the path of the copy, which keeps the file's name. Fails with
/// `PathIsNotAFile` when `song_is_dir` tells that the song's path is a
/// directory, or when the path has no file name.
pub fn organize_destination(song: &Song, to: &str, song_is_dir: bool) -> (r: Result<
    (String, String),
    MelodyErrors,
>)
    ensures
        song_is_dir || file_name_of(song@.file) is None <==> r is Err,
        r matches Err(e) ==> e.spec_kind() == MelodyErrorsKind::PathIsNotAFile && e.spec_file()
            == Some(song@.file),
        r matches Ok(p) ==> file_name_of(song@.file) matches Some(name) && p.0@ == library_dir(
            song@,
            to@,
        ) && p.1@ == joined_of(library_dir(song@, to@), name),
{
    if song_is_dir {
        return Err(
            MelodyErrors::new(
                MelodyErrorsKind::PathIsNotAFile,
                "Song is not a file",
                Some(song.file()),
            ),
        );
    }
    let name = match crate::paths::file_name(song.file()) {
        Some(name) => name,
        None => {
            return Err(
                MelodyErrors::new(
                    MelodyErrorsKind::PathIsNotAFile,
                    "Song has no file name",
                    Some(song.file()),
                ),
            );
        },
    };
    let artist = unknown_or_text(song.artist(), "Unknown Artist");
    let artist_dir = crate::paths::join(to, artist);
    let album = unknown_or_text(song.album(), "Unknown Album");
    let dir = crate::paths::join(artist_dir.as_str(), album);
    let target = crate::paths::join(dir.as_str(), name.as_str());
    Ok((dir, target))
}

fn unknown_or_text<'a>(o: Option<&'a str>, placeholder: &'a str) -> (r: &'a str)
    ensures
        r@ == or_unknown(crate::errors::opt_str_text(o), placeholder@),
{
    match o {
        Some(t) => t,
        None => placeholder,
    }
}

/// How a path stands on disk, as far as moving files into a library goes.
#[derive(Clone, Copy, Debug, PartialEq, Eq, Structural)]
pub enum PathKind {
    Missing,
    Directory,
    NotADirectory,
}

/// The failure, if any, of the checks on `from` and `to` that need no disk:
/// both must be absolute, `from` must have a parent, and that parent must
/// not be `to`, which would file the library into its own source.
pub open spec fn structure_failure(from: Seq<char>, to: Seq<char>) -> Option<MelodyErrorsKind> {
    if !absolute_of(from) || !absolute_of(to) {
        Some(MelodyErrorsKind::NotAbsolutePath)
    } else {
        match parent_of(from) {
            None => Some(MelodyErrorsKind::FailedToFindParent),
            Some(parent) => if same_path_of(parent, to) {
                Some(MelodyErrorsKind::ChildOfParentRecursion)
            } else {
                None
            },
        }
    }
}

/// A move of `from` into a library at `to`, where `from` sits directly in
/// `to`, is refused with `ChildOfParentRecursion` by the checks that read
/// nothing from disk.
pub proof fn lemma_child_of_target_refused(from: Seq<char>, to: Seq<char>)
    requires
        absolute_of(from),
        absolute_of(to),
        parent_of(from) matches Some(parent) && same_path_of(parent, to),
    ensures
        structure_failure(from, to) == Some(MelodyErrorsKind::ChildOfParentRecursion),
{
}

/// Checks the paths of a move into a library before anything on disk is
/// read: both absolute, and `from` not a direct child of `to`.
pub fn check_library_paths(from: &str, to: &str) -> (r: Result<(), MelodyErrors>)
    ensures
        match structure_failure(from@, to@) {
            None => r is Ok,
            Some(kind) => r matches Err(e) && e.spec_kind() == kind,
        },
{
    if !crate::paths::is_absolute(from) {
        return Err(
            MelodyErrors::new(
                MelodyErrorsKind::NotAbsolutePath,
                "`from` path is not absolute",
                None,
            ),
        );
    }
    if !crate::paths::is_absolute(to) {
        return Err(
            MelodyErrors::new(
                MelodyErrorsKind::NotAbsolutePath,
                "`to` path is not absolute",
                None,
            ),
        );
    }
    match crate::paths::parent(from) {
        Some(parent) => {
            if crate::paths::same_path(parent.as_str(), to) {
                return Err(
                    MelodyErrors::new(
                        MelodyErrorsKind::ChildOfParentRecursion,
                        "`from` is a direct child of `to`",
                        None,
                    ),
                );
            }
        },
        None => {
            return Err(
                MelodyErrors::new(
                    MelodyErrorsKind::FailedToFindParent,
                    "could not find parent of `from`",
                    None,
                ),
            );
        },
    }
    Ok(())
}

/// The failure, if any, of the checks on disk: both paths must exist and
/// be directories.
pub open spec fn disk_failure(from: PathKind, to: PathKind) -> Option<MelodyErrorsKind> {
    if from == PathKind::Missing || to == PathKind::Missing {
        Some(MelodyErrorsKind::Io(std::io::ErrorKind::NotFound))
    } else if from == PathKind::NotADirectory || to == PathKind::NotADirectory {
        Some(MelodyErrorsKind::PathIsNotADir)
    } else {
        None
    }
}

/// Checks how the two paths of a move into a library stand on disk: both
/// must exist, and both must be directories.
pub fn check_library_dirs(from: PathKind, to: PathKind) -> (r: Result<(), MelodyErrors>)
    ensures
        match disk_failure(from, to) {
            None => r is Ok,
            Some(kind) => r matches Err(e) && e.spec_kind() == kind,
        },
{
    if from == PathKind::Missing {
        return Err(
            MelodyErrors::new(
                MelodyErrorsKind::Io(std::io::ErrorKind::NotFound),
                "`from` path does not exist",
                None,
            ),
        );
    }
    if to == PathKind::Missing {
        return Err(
            MelodyErrors::new(
                MelodyErrorsKind::Io(std::io::ErrorKind::NotFound),
                "`to` path does not exist",
                None,
            ),
        );
    }
    if from == PathKind::NotADirectory {
        return Err(
            MelodyErrors::new(
                MelodyErrorsKind::PathIsNotADir,
                "`from` is not a directory",
                None,
            ),
        );
    }
    if to == PathKind::NotADirectory {
        return Err(
            MelodyErrors::new(
                MelodyErrorsKind::PathIsNotADir,
                "`to` is not a directory",
                None,
            ),
        );
    }
    Ok(())
}

} // verus!
