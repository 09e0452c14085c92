//! A local music library player: library scanning and matching, and the
//! playback state machine that drives an audio sink.

mod errors;
mod musicplayer;
mod paths;
mod song;
mod text;
mod utils;

pub use errors::{opt_str_text, opt_text, MelodyErrors, MelodyErrorsKind};
pub use musicplayer::{
    after_pause, after_resume, after_start, after_stop, consistent, elapsed_at, initial, is_playing,
    lemma_map_keeps_multiset, lemma_pause_not_counted, lemma_pause_twice,
    lemma_start_on_empty_queue, lemma_transitions_keep_invariants, now_playing_line, queue_files, start_loads, status_line, status_of, with_elapsed, MusicPlayer,
    MusicPlayerStatus, PlayerView, PollStep, StatusView,
};
pub use paths::{
    absolute_of, extension_in, extension_of, file_name_of, joined_of, last_dot, lower_of,
    parent_of, same_path_of,
};
pub use song::{
    dedup_views, lemma_dedup_contents, lemma_dedup_idempotent, lemma_dedup_of_distinct, or_unknown,
    song_line, songs_exactly_match, songs_match, table_header, table_row, table_source, table_text,
    tagged_song, views, Playlist, ScanResult, Song, SongView, TagFields,
};
pub use text::{aligned_of, decimal, decimal_string, digit_char};
pub use utils::{
    check_library_dirs, check_library_paths, disk_failure, duplicate_files, duplicate_files_upto,
    duration_text, filetype_of, find_duplicates, fmt_duration, get_filetype, ignored_file,
    ignored_name, is_duplicate, kept_path, lemma_child_of_target_refused, library_dir,
    organize_destination, spaced, structure_failure, supported_extension, supported_path,
    supported_song, unit_part, PathKind,
};
