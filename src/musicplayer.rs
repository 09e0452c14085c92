//! The playback engine: a state machine over a queue of songs that decides
//! what the audio sink is to do and keeps account of playing time.
//!
//! The engine owns no audio device and reads no clock. Each transition takes
//! the time of the call, in milliseconds of a monotonic clock, and what the
//! sink reports where that matters (whether it has run out of sound); it
//! returns what the caller must do to the sink. The sink only changes on
//! its own by finishing a song, so whether it is paused is known here.

use rand::seq::SliceRandom;
use vstd::prelude::*;

use crate::errors::{opt_text, MelodyErrors, MelodyErrorsKind};
use crate::song::{song_line, table_text, views, Playlist, Song, SongView};
use crate::text::aligned_of;
use crate::utils::{duration_text, fmt_duration};

verus! {

/// The state of the player as a caller sees it.
#[derive(Debug)]
pub enum MusicPlayerStatus {
    /// Nothing is playing; holds the song last stopped, if any.
    Stopped(Option<Song>),
    /// A song is playing; its elapsed time is up to date.
    NowPlaying(Song),
    /// A song is paused; its elapsed time is where it stopped.
    Paused(Song),
}

/// A status, with its song seen as a `SongView`.
pub enum StatusView {
    Stopped(Option<SongView>),
    NowPlaying(SongView),
    Paused(SongView),
}

impl View for MusicPlayerStatus {
    type V = StatusView;

    open spec fn view(&self) -> StatusView {
        match self {
            MusicPlayerStatus::Stopped(Some(s)) => StatusView::Stopped(Some(s@)),
            MusicPlayerStatus::Stopped(None) => StatusView::Stopped(None),
            MusicPlayerStatus::NowPlaying(s) => StatusView::NowPlaying(s@),
            MusicPlayerStatus::Paused(s) => StatusView::Paused(s@),
        }
    }
}

/// What the player holds: the queue, the song loaded into the sink, the song
/// last stopped, when the current stretch of playing began, the time played
/// before it, and whether the song is paused.
pub struct PlayerView {
    pub queue: Seq<SongView>,
    pub current: Option<SongView>,
    pub previous: Option<SongView>,
    pub start: u64,
    pub accumulated: u64,
    pub paused: bool,
}

/// Music player: the queue of songs and the account of playing time.
pub struct MusicPlayer {
    playlist: Vec<Song>,
    current: Option<Song>,
    previous: Option<Song>,
    /// When the current stretch of playing began, and the time played
    /// before it.
    playing_time: (u64, u64),
    paused: bool,
}

impl View for MusicPlayer {
    type V = PlayerView;

    closed spec fn view(&self) -> PlayerView {
        PlayerView {
            queue: views(self.playlist@),
            current: match self.current {
                Some(s) => Some(s@),
                None => None,
            },
            previous: match self.previous {
                Some(s) => Some(s@),
                None => None,
            },
            start: self.playing_time.0,
            accumulated: self.playing_time.1,
            paused: self.paused,
        }
    }
}

/// A song with its elapsed time set.
pub open spec fn with_elapsed(s: SongView, elapsed: u64) -> SongView {
    SongView {
        artist: s.artist,
        album: s.album,
        title: s.title,
        track: s.track,
        genre: s.genre,
        duration: s.duration,
        file: s.file,
        elapsed,
    }
}

/// A new player over the songs of a playlist: nothing loaded, nothing
/// played.
pub open spec fn initial(queue: Seq<SongView>) -> PlayerView {
    PlayerView { queue, current: None, previous: None, start: 0, accumulated: 0, paused: false }
}

/// How long the current song has played at time `now`: the time before the
/// current stretch, and the stretch itself unless paused. A clock reading
/// before the stretch began counts as no time; the sum stops at the
/// largest `u64`.
pub open spec fn elapsed_at(p: PlayerView, now: u64) -> u64 {
    if p.paused {
        p.accumulated
    } else {
        p.accumulated.saturating_add(now.saturating_sub(p.start))
    }
}

/// Whether a song is loaded and playing.
pub open spec fn is_playing(p: PlayerView) -> bool {
    p.current is Some && !p.paused
}

/// The song that `start` loads into the sink, if any: the head of the queue,
/// when the queue has one and the sink is free.
pub open spec fn start_loads(p: PlayerView, sink_empty: bool) -> Option<SongView> {
    if p.queue.len() > 0 && sink_empty {
        Some(with_elapsed(p.queue[0], 0))
    } else {
        None
    }
}

/// The player after `start`: when it loads a song, the song leaves the queue
/// and becomes current, and its playing time starts from zero at `now`;
/// otherwise nothing changes.
pub open spec fn after_start(p: PlayerView, sink_empty: bool, now: u64) -> PlayerView {
    match start_loads(p, sink_empty) {
        Some(s) => PlayerView {
            queue: p.queue.drop_first(),
            current: Some(s),
            previous: p.previous,
            start: now,
            accumulated: 0,
            paused: false,
        },
        None => p,
    }
}

/// The player after `pause`: a song that is playing, and still in the sink,
/// stops counting time; anything else is left as it is, so that pausing
/// twice counts the time once and a song that has run out counts no more.
pub open spec fn after_pause(p: PlayerView, sink_empty: bool, now: u64) -> PlayerView {
    if is_playing(p) && !sink_empty {
        PlayerView { accumulated: elapsed_at(p, now), paused: true, ..p }
    } else {
        p
    }
}

/// The player after `resume`: a song that the status shows paused counts
/// time again from `now`; in any other state nothing changes.
pub open spec fn after_resume(p: PlayerView, sink_empty: bool, now: u64) -> PlayerView {
    if status_of(p, sink_empty, now) is Paused {
        PlayerView { start: now, paused: false, ..p }
    } else {
        p
    }
}

/// The player after `stop`: the current song, with the time it played,
/// becomes the previous one, and nothing is loaded or counted.
pub open spec fn after_stop(p: PlayerView, now: u64) -> PlayerView {
    PlayerView {
        current: None,
        previous: match p.current {
            Some(s) => Some(with_elapsed(s, elapsed_at(p, now))),
            None => None,
        },
        accumulated: 0,
        paused: false,
        ..p
    }
}

/// The status of the player: stopped when the sink is empty or nothing is
/// loaded, else the current song, playing or paused, with its elapsed time.
pub open spec fn status_of(p: PlayerView, sink_empty: bool, now: u64) -> StatusView {
    if sink_empty {
        StatusView::Stopped(p.previous)
    } else {
        match p.current {
            Some(s) => if p.paused {
                StatusView::Paused(with_elapsed(s, p.accumulated))
            } else {
                StatusView::NowPlaying(with_elapsed(s, elapsed_at(p, now)))
            },
            None => StatusView::Stopped(p.previous),
        }
    }
}

/// The one-line text of a status.
pub open spec fn status_line(st: StatusView) -> Seq<char> {
    match st {
        StatusView::Paused(s) => "[Paused] : "@ + song_line(s) + " @ "@ + duration_text(s.elapsed),
        StatusView::NowPlaying(s) => "[Now Playing] : "@ + song_line(s),
        StatusView::Stopped(Some(s)) => "[Stopped] : Last Played - "@ + song_line(s),
        StatusView::Stopped(None) => "[Stopped]"@,
    }
}

/// The line above the queue's table: the current song, marked when paused.
pub open spec fn now_playing_line(p: PlayerView) -> Seq<char> {
    match p.current {
        Some(s) => (if p.paused {
            "[paused] "@
        } else {
            Seq::empty()
        }) + song_line(s) + "\n"@,
        None => Seq::empty(),
    }
}

/// The files of the songs of a queue, in order.
pub open spec fn queue_files(q: Seq<SongView>) -> Seq<Seq<char>> {
    q.map_values(|s: SongView| s.file)
}

/// What the polling loop that drives the player does next.
pub enum PollStep {
    /// Keep polling.
    Wait,
    /// Decode this file, append it to the emptied sink and play it.
    Play(String),
    /// The queue has run out: playing is over.
    Finish,
}

/// A player with an empty queue refuses to start and stays as it was; one
/// made from an empty playlist then reports `Stopped` with no song,
/// whatever the sink says.
pub proof fn lemma_start_on_empty_queue(
    queue: Seq<SongView>,
    sink_empty: bool,
    now: u64,
    sink_empty_after: bool,
    later: u64,
)
    requires
        queue.len() == 0,
    ensures
        start_loads(initial(queue), sink_empty) is None,
        after_start(initial(queue), sink_empty, now) == initial(queue),
        status_of(after_start(initial(queue), sink_empty, now), sink_empty_after, later)
            == StatusView::Stopped(None),
{
}

/// Time spent paused does not count: a song started at `t0`, paused at
/// `t1`, resumed at `t2` and stopped at `t3` is left as the previous song
/// with exactly `(t1 - t0) + (t3 - t2)` played.
pub proof fn lemma_pause_not_counted(p: PlayerView, t0: u64, t1: u64, t2: u64, t3: u64)
    requires
        p.queue.len() > 0,
        t0 <= t1 <= t2 <= t3,
        (t1 - t0) + (t3 - t2) <= u64::MAX,
    ensures
        after_stop(
            after_resume(after_pause(after_start(p, true, t0), false, t1), false, t2),
            t3,
        ).previous == Some(with_elapsed(p.queue[0], ((t1 - t0) + (t3 - t2)) as u64)),
{
}

/// Pausing twice in a row, with the sink as it was, counts the time played
/// once: the second pause changes nothing.
pub proof fn lemma_pause_twice(p: PlayerView, sink_empty: bool, t1: u64, t2: u64)
    ensures
        after_pause(after_pause(p, sink_empty, t1), sink_empty, t2) == after_pause(
            p,
            sink_empty,
            t1,
        ),
{
}

/// A paused player has a song loaded.
pub open spec fn consistent(p: PlayerView) -> bool {
    p.paused ==> p.current is Some
}

/// Every transition keeps a player consistent, and none but `stop` changes
/// the previous song.
pub proof fn lemma_transitions_keep_invariants(p: PlayerView, sink_empty: bool, now: u64)
    requires
        consistent(p),
    ensures
        consistent(after_start(p, sink_empty, now)),
        consistent(after_pause(p, sink_empty, now)),
        consistent(after_resume(p, sink_empty, now)),
        consistent(after_stop(p, now)),
        after_start(p, sink_empty, now).previous == p.previous,
        after_pause(p, sink_empty, now).previous == p.previous,
        after_resume(p, sink_empty, now).previous == p.previous,
{
}

fn clone_song(s: &Option<Song>) -> (r: Option<Song>)
    ensures
        r == *s,
{
    match s {
        Some(x) => Some(x.clone()),
        None => None,
    }
}

/// Relies on rand's `SliceRandom::shuffle` with the thread's generator:
/// it swaps elements in place, so the result is a permutation of the input.
/// (`thread_rng` panics only when the system offers no randomness at all.)
#[verifier::external_body]
fn shuffle_songs(v: &mut Vec<Song>)
    ensures
        final(v)@.to_multiset() == old(v)@.to_multiset(),
{
    v.shuffle(&mut rand::thread_rng())
}

/// Two sequences with the same elements, counted with multiplicity, still
/// have after a map.
pub proof fn lemma_map_keeps_multiset<A, B>(s1: Seq<A>, s2: Seq<A>, f: spec_fn(A) -> B)
    requires
        s1.to_multiset() == s2.to_multiset(),
    ensures
        s1.map_values(f).to_multiset() == s2.map_values(f).to_multiset(),
    decreases s1.len(),
{
    broadcast use vstd::seq_lib::group_to_multiset_ensures;

    assert(s1.to_multiset().len() == s1.len());
    assert(s2.to_multiset().len() == s2.len());
    if s1.len() == 0 {
        assert(s1.map_values(f) =~= s2.map_values(f));
    } else {
        let x = s1.last();
        let t1 = s1.drop_last();
        assert(s1 =~= t1.push(x));
        assert(s2.to_multiset().count(x) > 0);
        assert(s2.contains(x));
        let i = choose|i: int| 0 <= i < s2.len() && s2[i] == x;
        let t2 = s2.remove(i);
        assert(t1.to_multiset() =~= t2.to_multiset());
        lemma_map_keeps_multiset(t1, t2, f);
        assert(s1.map_values(f) =~= t1.map_values(f).push(f(x)));
        assert(s2.map_values(f).remove(i) =~= t2.map_values(f));
        assert(s2.map_values(f)[i] == f(x));
    }
}

impl MusicPlayer {
    /// Constructs a new player whose queue holds the playlist's songs.
    pub fn new(playlist: Playlist) -> (r: Self)
        ensures
            r@ == initial(views(playlist.tracks@)),
    {
        MusicPlayer {
            playlist: playlist.tracks,
            current: None,
            previous: None,
            playing_time: (0, 0),
            paused: false,
        }
    }

    /// Shuffles the order of the queue at random; the queue keeps the same
    /// songs, each as often as before.
    pub fn shuffle(&mut self)
        ensures
            final(self)@.queue.to_multiset() == old(self)@.queue.to_multiset(),
            queue_files(final(self)@.queue).to_multiset() == queue_files(
                old(self)@.queue,
            ).to_multiset(),
            final(self)@.queue.len() == old(self)@.queue.len(),
            final(self)@.current == old(self)@.current,
            final(self)@.previous == old(self)@.previous,
            final(self)@.start == old(self)@.start,
            final(self)@.accumulated == old(self)@.accumulated,
            final(self)@.paused == old(self)@.paused,
    {
        let ghost before = self.playlist@;
        shuffle_songs(&mut self.playlist);
        proof {
            lemma_map_keeps_multiset(self.playlist@, before, |t: Song| t@);
            lemma_map_keeps_multiset(
                views(self.playlist@),
                views(before),
                |s: SongView| s.file,
            );
            broadcast use vstd::seq_lib::group_to_multiset_ensures;
            assert(views(self.playlist@).len() == views(self.playlist@).to_multiset().len());
        }
    }

    /// Starts the song at the head of the queue. Fails with `EmptyQueue`
    /// when the queue is empty. When the sink still holds sound, does
    /// nothing. Otherwise returns the file that the caller must decode,
    /// append to the sink and set playing.
    pub fn start(&mut self, sink_empty: bool, now: u64) -> (r: Result<Option<String>, MelodyErrors>)
        ensures
            old(self)@.queue.len() == 0 <==> r is Err,
            r matches Err(e) ==> e.spec_kind() == MelodyErrorsKind::EmptyQueue,
            r matches Ok(f) ==> opt_text(f) == match start_loads(old(self)@, sink_empty) {
                Some(s) => Some(s.file),
                None => None,
            },
            final(self)@ == after_start(old(self)@, sink_empty, now),
    {
        if self.playlist.len() == 0 {
            return Err(MelodyErrors::new(MelodyErrorsKind::EmptyQueue, "Playlist is empty", None));
        }
        if !sink_empty {
            return Ok(None);
        }
        let mut current = self.playlist.remove(0);
        current.elapsed = 0;
        let file = current.file.clone();
        self.current = Some(current);
        self.playing_time = (now, 0);
        self.paused = false;
        assert(views(self.playlist@) =~= views(old(self).playlist@).drop_first());
        Ok(Some(file))
    }

    /// Resumes a paused song: it counts time again from `now`, and the
    /// caller must set the sink playing. Fails with `NotPaused`, changing
    /// nothing, unless the status is `Paused`: a song is paused and the sink,
    /// which `sink_empty` describes, still holds it.
    pub fn resume(&mut self, sink_empty: bool, now: u64) -> (r: Result<(), MelodyErrors>)
        ensures
            status_of(old(self)@, sink_empty, now) is Paused <==> r is Ok,
            r matches Err(e) ==> e.spec_kind() == MelodyErrorsKind::NotPaused,
            final(self)@ == if r is Ok {
                after_resume(old(self)@, sink_empty, now)
            } else {
                old(self)@
            },
    {
        if sink_empty || self.current.is_none() || !self.paused {
            return Err(MelodyErrors::new(MelodyErrorsKind::NotPaused, "No song is paused", None));
        }
        self.playing_time.0 = now;
        self.paused = false;
        Ok(())
    }

    /// Pauses the playing song: the time it played so far is kept. Returns
    /// whether a song was paused, in which case the caller must pause the
    /// sink; when no song is playing, it is paused already, or the sink has
    /// run out of it (`sink_empty`), nothing changes.
    pub fn pause(&mut self, sink_empty: bool, now: u64) -> (r: bool)
        ensures
            r == (is_playing(old(self)@) && !sink_empty),
            !r ==> final(self)@ == old(self)@,
            final(self)@ == after_pause(old(self)@, sink_empty, now),
    {
        if sink_empty || self.current.is_none() || self.paused {
            return false;
        }
        let played = now.saturating_sub(self.playing_time.0);
        self.playing_time.1 = self.playing_time.1.saturating_add(played);
        self.paused = true;
        true
    }

    fn elapsed_now(&self, now: u64) -> (r: u64)
        ensures
            r == elapsed_at(self@, now),
    {
        if self.paused {
            self.playing_time.1
        } else {
            self.playing_time.1.saturating_add(now.saturating_sub(self.playing_time.0))
        }
    }

    /// Stops the current song; the caller must stop the sink. The song, with
    /// the time it played, becomes the previous one.
    pub fn stop(&mut self, now: u64)
        ensures
            final(self)@ == after_stop(old(self)@, now),
    {
        let elapsed = self.elapsed_now(now);
        self.previous = match self.current.take() {
            Some(mut s) => {
                s.elapsed = elapsed;
                Some(s)
            },
            None => None,
        };
        self.playing_time.1 = 0;
        self.paused = false;
    }

    /// Plays the next song of the queue once the caller has emptied the
    /// sink: returns the file to decode, append and play, or `None` when
    /// the queue is empty, which leaves the player as it is.
    pub fn play_next(&mut self, now: u64) -> (r: Option<String>)
        ensures
            opt_text(r) == match start_loads(old(self)@, true) {
                Some(s) => Some(s.file),
                None => None,
            },
            final(self)@ == after_start(old(self)@, true, now),
    {
        match self.start(true, now) {
            Ok(file) => file,
            Err(_) => None,
        }
    }

    /// The songs waiting in the queue.
    pub fn queue(&self) -> (r: &Vec<Song>)
        ensures
            views(r@) == self@.queue,
    {
        &self.playlist
    }

    /// The status of the player at time `now`, given whether the sink has
    /// run out of sound.
    pub fn status(&self, sink_empty: bool, now: u64) -> (r: MusicPlayerStatus)
        ensures
            r@ == status_of(self@, sink_empty, now),
    {
        if sink_empty {
            return MusicPlayerStatus::Stopped(clone_song(&self.previous));
        }
        match &self.current {
            Some(song) => {
                let mut song = song.clone();
                if self.paused {
                    song.elapsed = self.playing_time.1;
                    MusicPlayerStatus::Paused(song)
                } else {
                    song.elapsed = self.elapsed_now(now);
                    MusicPlayerStatus::NowPlaying(song)
                }
            },
            None => MusicPlayerStatus::Stopped(clone_song(&self.previous)),
        }
    }

    /// The current song, if any, above the queue as a table with aligned
    /// columns.
    pub fn render(&self) -> (r: String)
        ensures
            r@ == now_playing_line(self@) + aligned_of(table_text(self@.queue)),
    {
        let mut out = match &self.current {
            Some(song) => {
                let mut line = if self.paused {
                    String::from_str("[paused] ")
                } else {
                    String::new()
                };
                line.append(song.display().as_str());
                line.append("\n");
                line
            },
            None => String::new(),
        };
        let table = Playlist::table_of(&self.playlist);
        out.append(table.as_str());
        out
    }
}

impl MusicPlayer {
    /// One round of the polling loop: when the player is stopped it starts
    /// the next song of the queue, or reports that the queue has run out;
    /// otherwise it leaves everything as it is.
    pub fn poll(&mut self, sink_empty: bool, now: u64) -> (r: PollStep)
        ensures
            status_of(old(self)@, sink_empty, now) is Stopped && old(self)@.queue.len() == 0
                <==> r is Finish,
            status_of(old(self)@, sink_empty, now) is Stopped && old(self)@.queue.len() > 0
                <==> r is Play,
            r matches PollStep::Play(f) ==> f@ == old(self)@.queue[0].file,
            final(self)@ == if r is Play {
                after_start(old(self)@, true, now)
            } else {
                old(self)@
            },
    {
        let stopped = sink_empty || self.current.is_none();
        if !stopped {
            return PollStep::Wait;
        }
        match self.play_next(now) {
            Some(file) => PollStep::Play(file),
            None => PollStep::Finish,
        }
    }
}

impl MusicPlayerStatus {
    /// The status as one line of text.
    pub fn display(&self) -> (r: String)
        ensures
            r@ == status_line(self@),
    {
        match self {
            MusicPlayerStatus::Paused(song) => {
                let mut out = String::from_str("[Paused] : ");
                out.append(song.display().as_str());
                out.append(" @ ");
                out.append(fmt_duration(song.elapsed).as_str());
                out
            },
            MusicPlayerStatus::NowPlaying(song) => {
                String::from_str("[Now Playing] : ").concat(song.display().as_str())
            },
            MusicPlayerStatus::Stopped(Some(song)) => {
                String::from_str("[Stopped] : Last Played - ").concat(song.display().as_str())
            },
            MusicPlayerStatus::Stopped(None) => String::from_str("[Stopped]"),
        }
    }
}

} // verus!
