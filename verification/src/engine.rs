//! The audio engine's decisions, separated from the devices that carry them
//! out.
//!
//! One iteration of the engine loop drains pending commands, reports a state
//! change, publishes metadata, and then either skips samples (fast-forward),
//! produces a buffer for the ring, or sleeps.  Every decision in that loop is
//! a function here, with the codec's answers (sample counts, the reported
//! frequency, changed metadata) passed in as plain values; the application
//! performs the reads, the resampling and the sends.  `run_engine` runs the
//! same loop against a scripted codec and carries the engine's ordering
//! guarantees in its contract.

use vstd::prelude::*;

use crate::player::{CodecAction, Command, MetaEvent, Player, PlayState};
use crate::player::{spec_clamped_song, spec_initial_player, spec_song_in_range, spec_state_code,
    state_code};
use crate::text::{parse_i32, parse_seconds, spec_parse_i32, spec_parse_seconds, str_eq};
use crate::value::{MusicError, Value, ValueView};
use crate::spec_tick_ms;
use crate::tick_ms;

verus! {

/// The content of a list of metadata events.
pub open spec fn events_view(s: Seq<MetaEvent>) -> Seq<(Seq<char>, ValueView)> {
    s.map_values(|e: MetaEvent| (e.0@, e.1@))
}

/// An event carrying a number.
pub fn num_event(key: &str, n: i64) -> (e: MetaEvent)
    ensures
        e.0@ == key@ && e.1@ == ValueView::Number(n as int),
{
    (key.to_owned(), Value::Number(n))
}

/// An event carrying text.
pub fn text_event(key: &str, text: String) -> (e: MetaEvent)
    ensures
        e.0@ == key@ && e.1@ == ValueView::Text(text@),
{
    (key.to_owned(), Value::Text(text))
}

/// The `("error", _)` event for a failed command.
pub fn error_event(err: MusicError) -> (e: MetaEvent)
    ensures
        e.0@ == "error"@ && e.1@ == ValueView::Error(err.msg@),
{
    ("error".to_owned(), Value::Error(err))
}

impl Player {
    /// Publish a freshly loaded song: the `("new", 0)` marker and the reset
    /// song counters, plus the path whose file-level metadata (an mp3's
    /// duration and tags) the application may probe.
    pub fn begin_meta(&mut self) -> (r: (Vec<MetaEvent>, Option<String>))
        ensures
            old(self).new_song matches Some(p) ==> {
                &&& *final(self) == (Player {
                    new_song: None,
                    song: 0,
                    songs: 1,
                    ..*old(self)
                })
                &&& r.1 matches Some(q)
                &&& q@ == p@
                &&& events_view(r.0@) =~= seq![
                    ("new"@, ValueView::Number(0)),
                    ("song"@, ValueView::Number(0)),
                    ("songs"@, ValueView::Number(1)),
                ]
            },
            old(self).new_song is None ==> *final(self) == *old(self) && r.0@.len() == 0 && r.1
                is None,
    {
        let new_song = self.new_song.take();
        match new_song {
            Some(path) => {
                let mut events: Vec<MetaEvent> = Vec::new();
                events.push(num_event("new", 0));
                events.push(num_event("song", 0));
                events.push(num_event("songs", 1));
                self.song = 0;
                self.songs = 1;
                (events, Some(path))
            },
            None => (Vec::new(), None),
        }
    }

    /// Apply one changed metadata entry from the codec: song indices and
    /// counts are parsed and stored, lengths are parsed as decimal seconds,
    /// anything else passes through as text.  A number that does not parse is
    /// a fatal engine error.  Stored sub-song indices are clipped into the
    /// known song range, so the player's data invariant is kept.
    pub fn apply_meta(&mut self, key: &str, val: &str) -> (r: Result<MetaEvent, MusicError>)
        ensures
            key@ == "song"@ || key@ == "startSong"@ ==> match spec_parse_i32(val@) {
                Some(v) => {
                    &&& *final(self) == (Player {
                        song: spec_clamped_song(v, old(self).songs as int) as i32,
                        ..*old(self)
                    })
                    &&& r matches Ok(e)
                    &&& e.0@ == key@
                    &&& e.1@ == ValueView::Number(spec_clamped_song(v, old(self).songs as int))
                },
                None => *final(self) == *old(self) && r is Err,
            },
            key@ == "songs"@ ==> match spec_parse_i32(val@) {
                Some(v) => {
                    &&& *final(self) == (Player {
                        songs: v as i32,
                        song: spec_clamped_song(old(self).song as int, v) as i32,
                        ..*old(self)
                    })
                    &&& r matches Ok(e)
                    &&& e.0@ == key@
                    &&& e.1@ == ValueView::Number(v)
                },
                None => *final(self) == *old(self) && r is Err,
            },
            key@ == "length"@ ==> match spec_parse_seconds(val@) {
                Some(v) => {
                    &&& *final(self) == *old(self)
                    &&& r matches Ok(e)
                    &&& e.0@ == key@
                    &&& e.1@ == ValueView::Number(v)
                },
                None => *final(self) == *old(self) && r is Err,
            },
            key@ != "song"@ && key@ != "startSong"@ && key@ != "songs"@ && key@ != "length"@ ==> {
                &&& *final(self) == *old(self)
                &&& r matches Ok(e)
                &&& e.0@ == key@
                &&& e.1@ == ValueView::Text(val@)
            },
            spec_song_in_range(*old(self)) ==> spec_song_in_range(*final(self)),
    {
        proof {
            reveal_strlit("song");
            reveal_strlit("startSong");
            reveal_strlit("songs");
            reveal_strlit("length");
            assert("song"@.len() == 4);
            assert("startSong"@.len() == 9);
            assert("songs"@.len() == 5);
            assert("length"@.len() == 6);
        }
        if str_eq(key, "song") || str_eq(key, "startSong") {
            match parse_i32(val) {
                Some(v) => {
                    let stored = crate::player::clamped_song(v, self.songs);
                    self.song = stored;
                    Ok(num_event(key, stored as i64))
                },
                None => Err(MusicError::new("Bad song number")),
            }
        } else if str_eq(key, "songs") {
            match parse_i32(val) {
                Some(v) => {
                    self.songs = v;
                    self.song = crate::player::clamped_song(self.song, v);
                    Ok(num_event(key, v as i64))
                },
                None => Err(MusicError::new("Bad song count")),
            }
        } else if str_eq(key, "length") {
            match parse_seconds(val) {
                Some(v) => Ok(num_event(key, v)),
                None => Err(MusicError::new("Bad length")),
            }
        } else {
            Ok(text_event(key, val.to_owned()))
        }
    }
}

/// The events describing an mp3 file's probed duration and tags, in the
/// order the engine publishes them after `("new", 0)`.
pub open spec fn spec_mp3_events(
    length_secs: Option<int>,
    album: Option<Seq<char>>,
    artist: Option<Seq<char>>,
    title: Option<Seq<char>>,
) -> Seq<(Seq<char>, ValueView)> {
    (match length_secs {
        Some(v) => seq![("length"@, ValueView::Number(v))],
        None => Seq::empty(),
    }) + (match album {
        Some(a) => seq![("album"@, ValueView::Text(a))],
        None => Seq::empty(),
    }) + (match artist {
        Some(a) => seq![("composer"@, ValueView::Text(a))],
        None => Seq::empty(),
    }) + (match title {
        Some(t) => seq![("title"@, ValueView::Text(t))],
        None => Seq::empty(),
    })
}

/// Turn an mp3 probe's findings into metadata events: the duration as
/// `length`, the album, the artist as `composer`, and the title.
pub fn mp3_meta_events(
    length_secs: Option<i64>,
    album: Option<String>,
    artist: Option<String>,
    title: Option<String>,
) -> (r: Vec<MetaEvent>)
    ensures
        events_view(r@) =~= spec_mp3_events(
            match length_secs {
                Some(v) => Some(v as int),
                None => None,
            },
            match album {
                Some(a) => Some(a@),
                None => None,
            },
            match artist {
                Some(a) => Some(a@),
                None => None,
            },
            match title {
                Some(t) => Some(t@),
                None => None,
            },
        ),
{
    let mut events: Vec<MetaEvent> = Vec::new();
    match length_secs {
        Some(v) => events.push(num_event("length", v)),
        None => {},
    }
    match album {
        Some(a) => events.push(text_event("album", a)),
        None => {},
    }
    match artist {
        Some(a) => events.push(text_event("composer", a)),
        None => {},
    }
    match title {
        Some(t) => events.push(text_event("title", t)),
        None => {},
    }
    events
}

/// What the engine decides to do with the codec in one iteration.
#[derive(Clone, Copy, Debug, PartialEq, Eq, Structural)]
pub enum Work {
    /// Read a buffer and discard it, counting the skipped time.
    FastForward,
    /// Read a buffer, resample it, push it to the ring, analyse it.
    Produce,
    /// The ring is full enough or playback is paused: sleep briefly.
    SleepShort,
    /// Nothing is loaded: sleep longer.
    SleepIdle,
}

/// The audio engine's per-iteration state around the player.
#[derive(Debug)]
pub struct Engine {
    pub player: Player,
    /// The play state last reported on the info channel.
    pub last_state: PlayState,
    /// The sample rate the codec currently decodes at.
    pub plugin_freq: u32,
    /// The sample rate of the output device.
    pub playback_freq: u32,
    /// Samples per read from the codec (interleaved stereo).
    pub buffer_size: usize,
}

/// The outcome of one produced buffer.
#[derive(Debug)]
pub struct ProduceOutcome {
    /// `("done", 0)`, exactly when this read first hit the track's end.
    pub done_event: Option<MetaEvent>,
    /// Whether the codec's rate changed and the resampler must be fed new
    /// frequencies.
    pub freq_changed: bool,
    /// Whether a spectrum analysis is due: exactly on full buffers.
    pub fft_due: bool,
    /// How many samples were handed to the resampler and the ring.
    pub pushed: usize,
}

impl Engine {
    /// Bounds under which the engine's arithmetic stays in range.
    pub open spec fn wf(&self) -> bool {
        &&& self.plugin_freq > 0
        &&& self.playback_freq > 0
        &&& 0 < self.buffer_size <= 0x10_0000
    }

    /// A fresh engine for a device running at `playback_freq`, reading
    /// `buffer_size` samples from the codec per iteration.
    pub fn new(buffer_size: usize, playback_freq: u32) -> (r: Engine)
        requires
            0 < buffer_size <= 0x10_0000,
            playback_freq > 0,
        ensures
            r == (Engine {
                player: spec_initial_player(),
                last_state: PlayState::Stopped,
                plugin_freq: playback_freq,
                playback_freq: playback_freq,
                buffer_size: buffer_size,
            }),
            r.wf(),
    {
        Engine {
            player: Player::new(),
            last_state: PlayState::Stopped,
            plugin_freq: playback_freq,
            playback_freq,
            buffer_size,
        }
    }

    /// Report a play-state change: one `("state", code)` event whenever the
    /// state differs from the last reported one.
    pub fn state_event(&mut self) -> (r: Option<MetaEvent>)
        ensures
            old(self).player.play_state == old(self).last_state ==> *final(self) == *old(self) && r
                is None,
            old(self).player.play_state != old(self).last_state ==> {
                &&& *final(self) == (Engine {
                    last_state: old(self).player.play_state,
                    ..*old(self)
                })
                &&& r matches Some(e)
                &&& e.0@ == "state"@
                &&& e.1@ == ValueView::Number(spec_state_code(old(self).player.play_state))
            },
    {
        if self.player.play_state != self.last_state {
            self.last_state = self.player.play_state;
            Some(num_event("state", state_code(self.last_state)))
        } else {
            None
        }
    }

    /// Which work one iteration dispatches to, given the ring's vacancy.
    pub open spec fn spec_dispatch(&self, vacant_len: int) -> Work {
        if !self.player.loaded {
            Work::SleepIdle
        } else if self.player.ff_msec > 0 {
            Work::FastForward
        } else if vacant_len > 2 * self.buffer_size && self.player.play_state
            == PlayState::Playing {
            Work::Produce
        } else {
            Work::SleepShort
        }
    }

    /// Decide this iteration's work: fast-forward while a skip budget is
    /// left; produce while playing into a ring with room for two buffers;
    /// otherwise sleep (longer when nothing is loaded).
    pub fn dispatch(&self, vacant_len: usize) -> (r: Work)
        requires
            self.wf(),
        ensures
            r == self.spec_dispatch(vacant_len as int),
    {
        if !self.player.loaded {
            Work::SleepIdle
        } else if self.player.ff_msec > 0 {
            Work::FastForward
        } else if vacant_len > 2 * self.buffer_size && matches!(
            self.player.play_state,
            PlayState::Playing,
        ) {
            Work::Produce
        } else {
            Work::SleepShort
        }
    }

    /// Skip one read buffer: count its duration against the fast-forward
    /// budget and the clock, and report the track's end exactly once per
    /// transition to a zero-length read.
    pub fn ff_step(&mut self, rc: usize) -> (r: (usize, Option<MetaEvent>))
        requires
            old(self).wf(),
            old(self).player.loaded,
            rc <= old(self).buffer_size,
        ensures
            final(self).wf(),
            r.0 == spec_tick_ms(rc, old(self).plugin_freq),
            *final(self) == (Engine {
                player: Player {
                    ff_msec: if r.0 > old(self).player.ff_msec {
                        0
                    } else {
                        (old(self).player.ff_msec - r.0) as usize
                    },
                    clock_ms: if old(self).player.clock_ms + r.0 <= u64::MAX {
                        (old(self).player.clock_ms + r.0) as u64
                    } else {
                        u64::MAX
                    },
                    track_ended: rc == 0,
                    ..old(self).player
                },
                ..*old(self)
            }),
            r.1 matches Some(e) ==> e.0@ == "done"@ && e.1@ == ValueView::Number(0),
            (r.1 is Some) == spec_done_event(old(self).player.track_ended, rc),
    {
        let ms = tick_ms(rc, self.plugin_freq);
        if ms > self.player.ff_msec {
            self.player.ff_msec = 0;
        } else {
            self.player.ff_msec = self.player.ff_msec - ms;
        }
        self.player.clock_ms = if (ms as u64) <= u64::MAX - self.player.clock_ms {
            self.player.clock_ms + (ms as u64)
        } else {
            u64::MAX
        };
        let done = rc == 0 && !self.player.track_ended;
        self.player.track_ended = rc == 0;
        if done {
            (ms, Some(num_event("done", 0)))
        } else {
            (ms, None)
        }
    }

    /// Accept one produced buffer: report the track's end exactly once per
    /// transition to a zero-length read, pick up a codec rate change, ask for
    /// a spectrum exactly on full buffers, and advance the modelled clock by
    /// the buffer's duration.
    pub fn produce_step(&mut self, rc: usize, hz: u32) -> (r: ProduceOutcome)
        requires
            old(self).wf(),
            old(self).player.loaded,
            rc <= old(self).buffer_size,
            hz > 0,
        ensures
            final(self).wf(),
            r.freq_changed == (hz != old(self).plugin_freq),
            r.fft_due == (rc == old(self).buffer_size),
            r.pushed == rc,
            *final(self) == (Engine {
                plugin_freq: hz,
                player: Player {
                    clock_ms: if old(self).player.clock_ms + spec_tick_ms(rc, hz) <= u64::MAX {
                        (old(self).player.clock_ms + spec_tick_ms(rc, hz)) as u64
                    } else {
                        u64::MAX
                    },
                    track_ended: rc == 0,
                    ..old(self).player
                },
                ..*old(self)
            }),
            r.done_event matches Some(e) ==> e.0@ == "done"@ && e.1@ == ValueView::Number(0),
            (r.done_event is Some) == spec_done_event(old(self).player.track_ended, rc),
    {
        let done = rc == 0 && !self.player.track_ended;
        self.player.track_ended = rc == 0;
        let freq_changed = hz != self.plugin_freq;
        self.plugin_freq = hz;
        let ms = tick_ms(rc, hz);
        self.player.clock_ms = if (ms as u64) <= u64::MAX - self.player.clock_ms {
            self.player.clock_ms + (ms as u64)
        } else {
            u64::MAX
        };
        ProduceOutcome {
            done_event: if done {
                Some(num_event("done", 0))
            } else {
                None
            },
            freq_changed,
            fft_due: rc == self.buffer_size,
            pushed: rc,
        }
    }
}

/// Whether a read of `rc` samples triggers the `("done", 0)` event: exactly
/// at a transition to a zero-length read.
pub open spec fn spec_done_event(track_ended_before: bool, rc: usize) -> bool {
    rc == 0 && !track_ended_before
}

/// The `track_ended` flag after a read of `rc` samples.
pub open spec fn spec_track_ended_after(track_ended_before: bool, rc: usize) -> bool {
    rc == 0
}

/// How many `("done", 0)` events a run of reads emits, starting with the
/// given `track_ended` flag.
pub open spec fn spec_done_count(track_ended: bool, rcs: Seq<usize>) -> int
    decreases rcs.len(),
{
    if rcs.len() == 0 {
        0
    } else {
        (if spec_done_event(track_ended, rcs[0]) {
            1int
        } else {
            0int
        }) + spec_done_count(spec_track_ended_after(track_ended, rcs[0]), rcs.skip(1))
    }
}

/// A codec whose answers are given in advance: load attempts all succeed or
/// all fail, reads return the scripted sample counts (then zero), and one
/// batch of changed metadata is delivered after each successful load.
#[derive(Debug)]
pub struct ScriptedCodec {
    /// Whether a load attempt succeeds.
    pub load_ok: bool,
    /// The successive sample counts that reads return; zero once exhausted.
    pub reads: Vec<usize>,
    /// How many reads have happened.
    pub next_read: usize,
    /// The sample rate the codec reports.
    pub freq: u32,
    /// The changed metadata delivered after a load.
    pub metas: Vec<(String, String)>,
    /// Whether a load's metadata is still undelivered.
    pub metas_pending: bool,
}

impl ScriptedCodec {
    /// The next scripted sample count.
    pub fn read(&mut self) -> (rc: usize)
        ensures
            rc == if old(self).next_read < old(self).reads@.len() {
                old(self).reads@[old(self).next_read as int]
            } else {
                0
            },
            final(self).reads@ == old(self).reads@,
            final(self).load_ok == old(self).load_ok,
            final(self).freq == old(self).freq,
            final(self).metas@ == old(self).metas@,
            final(self).metas_pending == old(self).metas_pending,
    {
        if self.next_read < self.reads.len() {
            let rc = self.reads[self.next_read];
            self.next_read += 1;
            rc
        } else {
            0
        }
    }
}

/// Whether some command strictly before position `(bi, ci)` is `Quit`.
pub open spec fn spec_quit_before(bs: Seq<Vec<Command>>, bi: int, ci: int) -> bool {
    exists|i: int, j: int|
        0 <= i < bs.len() && 0 <= j < bs[i]@.len() && (i < bi || (i == bi && j < ci)) && (
        #[trigger] bs[i]@[j]) is Quit
}

/// Whether any batch holds a `Quit` command.
pub open spec fn spec_has_quit(bs: Seq<Vec<Command>>) -> bool {
    spec_quit_before(bs, bs.len() as int, 0)
}

/// No `Load` command stands after a `Quit`: once told to quit, the engine is
/// not asked to start a new song.
pub open spec fn spec_no_load_after_quit(bs: Seq<Vec<Command>>) -> bool {
    forall|i1: int, j1: int, i2: int, j2: int|
        0 <= i1 < bs.len() && 0 <= j1 < bs[i1]@.len() && 0 <= i2 < bs.len() && 0 <= j2
            < bs[i2]@.len() && (#[trigger] bs[i1]@[j1]) is Quit && (#[trigger] bs[i2]@[j2]) is Load
            ==> (i2 < i1 || (i2 == i1 && j2 <= j1))
}

/// Every sub-song selection is in seekable range.
pub open spec fn spec_set_songs_in_range(bs: Seq<Vec<Command>>) -> bool {
    forall|i: int, j: int|
        0 <= i < bs.len() && 0 <= j < bs[i]@.len() ==> ((#[trigger] bs[i]@[j]) matches
        Command::SetSong(v) ==> v > i32::MIN)
}

proof fn lemma_quit_prefix_step(bs: Seq<Vec<Command>>, bi: int, ci: int)
    requires
        0 <= bi < bs.len(),
        0 <= ci < bs[bi]@.len(),
    ensures
        spec_quit_before(bs, bi, ci + 1) == (spec_quit_before(bs, bi, ci) || bs[bi]@[ci] is Quit),
{
    if spec_quit_before(bs, bi, ci + 1) {
        let (i, j) = choose|i: int, j: int|
            0 <= i < bs.len() && 0 <= j < bs[i]@.len() && (i < bi || (i == bi && j < ci + 1)) && (
            #[trigger] bs[i]@[j]) is Quit;
        if i == bi && j == ci {
        } else {
            assert(spec_quit_before(bs, bi, ci));
        }
    }
    if bs[bi]@[ci] is Quit {
        assert(spec_quit_before(bs, bi, ci + 1));
    }
}

proof fn lemma_quit_prefix_roll(bs: Seq<Vec<Command>>, bi: int)
    requires
        0 <= bi < bs.len(),
    ensures
        spec_quit_before(bs, bi + 1, 0) == spec_quit_before(bs, bi, bs[bi]@.len() as int),
{
    if spec_quit_before(bs, bi + 1, 0) {
        let (i, j) = choose|i: int, j: int|
            0 <= i < bs.len() && 0 <= j < bs[i]@.len() && (i < bi + 1) && (#[trigger] bs[i]@[j])
                is Quit;
        assert(spec_quit_before(bs, bi, bs[bi]@.len() as int));
    }
}

/// Whether an event is the engine's final `("quit", 1)`.
pub open spec fn spec_is_quit_event(e: (Seq<char>, ValueView)) -> bool {
    e.0 == "quit"@ && e.1 == ValueView::Number(1)
}

/// How many `("quit", 1)` events a list holds.
pub open spec fn spec_count_quit(s: Seq<(Seq<char>, ValueView)>) -> int
    decreases s.len(),
{
    if s.len() == 0 {
        0
    } else {
        spec_count_quit(s.drop_last()) + if spec_is_quit_event(s.last()) {
            1int
        } else {
            0int
        }
    }
}

proof fn lemma_count_quit_zero(s: Seq<(Seq<char>, ValueView)>)
    requires
        forall|j: int| 0 <= j < s.len() ==> !spec_is_quit_event(#[trigger] s[j]),
    ensures
        spec_count_quit(s) == 0,
    decreases s.len(),
{
    if s.len() > 0 {
        assert(forall|j: int|
            0 <= j < s.len() - 1 ==> #[trigger] s.drop_last()[j] == s[j]);
        lemma_count_quit_zero(s.drop_last());
    }
}

/// A track's end is reported exactly once: over any run of zero-length
/// reads, `("done", 0)` is emitted once when the track was still playing,
/// and not at all when its end had already been reported.
pub proof fn lemma_done_once_per_zero_run(track_ended: bool, rcs: Seq<usize>)
    requires
        rcs.len() > 0,
        forall|i: int| 0 <= i < rcs.len() ==> (#[trigger] rcs[i]) == 0,
    ensures
        spec_done_count(track_ended, rcs) == if track_ended {
            0int
        } else {
            1int
        },
    decreases rcs.len(),
{
    if rcs.len() > 1 {
        assert(forall|i: int|
            0 <= i < rcs.skip(1).len() ==> (#[trigger] rcs.skip(1)[i]) == rcs[i + 1]);
        lemma_done_once_per_zero_run(true, rcs.skip(1));
    } else {
        assert(rcs.skip(1) =~= Seq::<usize>::empty());
        assert(spec_done_count(true, rcs.skip(1)) == 0);
    }
}

/// Whether a batch holds a `Quit` command.
pub open spec fn spec_batch_has_quit(b: Seq<Command>) -> bool {
    exists|j: int| 0 <= j < b.len() && (#[trigger] b[j]) is Quit
}

/// Whether batch `i` holds a `Load` command.
pub open spec fn spec_load_at(bs: Seq<Vec<Command>>, i: int) -> bool {
    exists|j: int| 0 <= j < bs[i]@.len() && (#[trigger] bs[i]@[j]) is Load
}

/// Whether the engine, processing batches in order and stopping after a
/// `Quit`, reaches one of the first `k` batches that loads a song.
pub open spec fn spec_load_reached_before(bs: Seq<Vec<Command>>, k: int) -> bool {
    exists|i: int|
        0 <= i < k && i < bs.len() && #[trigger] spec_load_at(bs, i) && !spec_quit_before(bs, i, 0)
}

/// Whether the engine reaches a batch that loads a song.
pub open spec fn spec_load_reached(bs: Seq<Vec<Command>>) -> bool {
    spec_load_reached_before(bs, bs.len() as int)
}

/// Whether one delivered metadata entry is one the engine must parse and
/// cannot: a fatal error.
pub open spec fn spec_bad_meta(m: (String, String)) -> bool {
    ||| (m.0@ == "song"@ || m.0@ == "startSong"@ || m.0@ == "songs"@) && spec_parse_i32(m.1@)
        is None
    ||| m.0@ == "length"@ && spec_parse_seconds(m.1@) is None
}

/// Whether any delivered metadata entry is fatal.
pub open spec fn spec_has_bad_meta(ms: Seq<(String, String)>) -> bool {
    exists|k: int| 0 <= k < ms.len() && spec_bad_meta(#[trigger] ms[k])
}

/// Whether one command's reply is an error, given whether a song is loaded
/// and whether loads succeed.
pub open spec fn spec_cmd_fails(loaded: bool, c: Command, load_ok: bool) -> bool {
    match c {
        Command::NextSong => !loaded,
        Command::PrevSong => !loaded,
        Command::Load(_) => !load_ok,
        _ => false,
    }
}

/// Whether a song is loaded after one command.
pub open spec fn spec_loaded_after(loaded: bool, c: Command, load_ok: bool) -> bool {
    match c {
        Command::Load(_) => load_ok,
        _ => loaded,
    }
}

/// Whether a song is loaded after a run of commands.
pub open spec fn spec_loaded_after_batch(loaded: bool, b: Seq<Command>, load_ok: bool) -> bool
    decreases b.len(),
{
    if b.len() == 0 {
        loaded
    } else {
        spec_loaded_after_batch(spec_loaded_after(loaded, b[0], load_ok), b.skip(1), load_ok)
    }
}

/// How many commands of one batch fail.
pub open spec fn spec_errors_in_batch(loaded: bool, b: Seq<Command>, load_ok: bool) -> int
    decreases b.len(),
{
    if b.len() == 0 {
        0
    } else {
        (if spec_cmd_fails(loaded, b[0], load_ok) {
            1int
        } else {
            0int
        }) + spec_errors_in_batch(spec_loaded_after(loaded, b[0], load_ok), b.skip(1), load_ok)
    }
}

/// How many commands fail over the batches the engine processes: every batch
/// up to and including the first one holding a `Quit`.
pub open spec fn spec_run_errors(loaded: bool, bs: Seq<Vec<Command>>, load_ok: bool) -> int
    decreases bs.len(),
{
    if bs.len() == 0 {
        0
    } else {
        (spec_errors_in_batch(loaded, bs[0]@, load_ok)) + if spec_batch_has_quit(bs[0]@) {
            0int
        } else {
            spec_run_errors(spec_loaded_after_batch(loaded, bs[0]@, load_ok), bs.skip(1), load_ok)
        }
    }
}

/// Whether an event reports a failed command.
pub open spec fn spec_is_error_event(e: (Seq<char>, ValueView)) -> bool {
    e.0 == "error"@ && e.1 is Error
}

/// Whether the very first command handed to the engine fails.
pub open spec fn spec_first_cmd_fails(bs: Seq<Vec<Command>>, loaded: bool, load_ok: bool) -> bool {
    bs.len() > 0 && bs[0]@.len() > 0 && spec_cmd_fails(loaded, bs[0]@[0], load_ok)
}

/// Whether a stream opens with an `("error", _)` report.
pub open spec fn spec_first_is_error(s: Seq<MetaEvent>) -> bool {
    s.len() > 0 && s[0].0@ == "error"@ && s[0].1@ is Error
}

/// How many `("error", _)` reports a list holds.
pub open spec fn spec_count_errors(s: Seq<(Seq<char>, ValueView)>) -> int
    decreases s.len(),
{
    if s.len() == 0 {
        0
    } else {
        spec_count_errors(s.drop_last()) + if spec_is_error_event(s.last()) {
            1int
        } else {
            0int
        }
    }
}

proof fn lemma_count_errors_zero(s: Seq<(Seq<char>, ValueView)>)
    requires
        forall|j: int| 0 <= j < s.len() ==> !spec_is_error_event(#[trigger] s[j]),
    ensures
        spec_count_errors(s) == 0,
    decreases s.len(),
{
    if s.len() > 0 {
        assert(forall|j: int| 0 <= j < s.len() - 1 ==> #[trigger] s.drop_last()[j] == s[j]);
        lemma_count_errors_zero(s.drop_last());
    }
}

proof fn lemma_count_errors_concat(a: Seq<(Seq<char>, ValueView)>, b: Seq<(Seq<char>, ValueView)>)
    ensures
        spec_count_errors(a + b) == spec_count_errors(a) + spec_count_errors(b),
    decreases b.len(),
{
    if b.len() == 0 {
        assert(a + b =~= a);
    } else {
        lemma_count_errors_concat(a, b.drop_last());
        assert((a + b).drop_last() =~= a + b.drop_last());
        assert((a + b).last() == b.last());
    }
}

/// No event in the list is the final `("quit", 1)`.
pub open spec fn spec_no_quit_events(s: Seq<MetaEvent>) -> bool {
    forall|j: int|
        0 <= j < s.len() ==> !spec_is_quit_event(((#[trigger] s[j]).0@, s[j].1@))
}

/// Append one event, tracking how many error reports the list holds.
fn push_event(events: &mut Vec<MetaEvent>, e: MetaEvent)
    ensures
        final(events)@ == old(events)@.push(e),
        spec_count_errors(events_view(final(events)@)) == spec_count_errors(
            events_view(old(events)@),
        ) + if spec_is_error_event((e.0@, e.1@)) {
            1int
        } else {
            0int
        },
{
    let ghost ev: (Seq<char>, ValueView) = (e.0@, e.1@);
    let ghost pre = events@;
    events.push(e);
    proof {
        assert(events_view(events@) =~= events_view(pre).push(ev));
        assert(events_view(events@).drop_last() =~= events_view(pre));
        assert(events_view(events@).last() == ev);
    }
}

/// Run the engine loop against a scripted codec: per iteration, one batch of
/// commands is drained, a state change is reported, pending metadata is
/// published, and one buffer is skipped or produced when due.  The engine
/// stops after the iteration that processed a `Quit` and then publishes
/// `("quit", 1)` exactly once, as its last event; without a `Quit` it
/// processes every batch and never publishes one.  Every failed command is
/// reported with exactly one `("error", _)` event and the run goes on; the
/// run itself fails exactly when a load is reached and the codec then hands
/// over a numeric metadata value that does not parse.
pub fn run_engine(
    engine: &mut Engine,
    batches: &Vec<Vec<Command>>,
    codec: &mut ScriptedCodec,
    vacant_len: usize,
) -> (r: Result<Vec<MetaEvent>, MusicError>)
    requires
        old(engine).wf(),
        old(engine).player.play_state != PlayState::Quitting,
        !old(codec).metas_pending,
        spec_no_load_after_quit(batches@),
        spec_set_songs_in_range(batches@),
        old(codec).freq > 0,
        forall|i: int|
            0 <= i < old(codec).reads@.len() ==> (#[trigger] old(codec).reads@[i]) <= old(
                engine,
            ).buffer_size,
    ensures
        final(engine).wf(),
        (r is Err) == (old(codec).load_ok && spec_load_reached(batches@) && spec_has_bad_meta(
            old(codec).metas@,
        )),
        r matches Ok(events) ==> {
            &&& spec_count_quit(events_view(events@)) == if spec_has_quit(batches@) {
                1int
            } else {
                0int
            }
            &&& spec_has_quit(batches@) ==> events@.len() > 0 && events@.last().0@ == "quit"@
                && events@.last().1@ == ValueView::Number(1)
            &&& (final(engine).player.play_state == PlayState::Quitting) == spec_has_quit(
                batches@,
            )
            &&& spec_count_errors(events_view(events@)) == spec_run_errors(
                old(engine).player.loaded,
                batches@,
                old(codec).load_ok,
            )
            &&& spec_first_cmd_fails(batches@, old(engine).player.loaded, old(codec).load_ok)
                ==> spec_first_is_error(events@)
        },
{
    let ghost bs = batches@;
    let ghost loaded0 = old(engine).player.loaded;
    let ghost lok = old(codec).load_ok;
    let ghost mut delivered: bool = false;
    let mut events: Vec<MetaEvent> = Vec::new();
    let n = batches.len();
    let mut bi: usize = 0;
    let mut stop = false;
    proof {
        assert(bs.skip(0) =~= bs);
        assert(events_view(events@) =~= Seq::<(Seq<char>, ValueView)>::empty());
    }
    while bi < n && !stop
        invariant
            engine.wf(),
            n == bs.len(),
            batches@ == bs,
            bi <= n,
            engine.buffer_size == old(engine).buffer_size,
            codec.reads@ == old(codec).reads@,
            codec.freq == old(codec).freq,
            codec.freq > 0,
            codec.load_ok == old(codec).load_ok,
            forall|i: int|
                0 <= i < codec.reads@.len() ==> (#[trigger] codec.reads@[i]) <= engine.buffer_size,
            spec_no_quit_events(events@),
            stop == (engine.player.play_state == PlayState::Quitting),
            stop == spec_quit_before(bs, bi as int, 0),
            spec_no_load_after_quit(bs),
            spec_set_songs_in_range(bs),
            lok == old(codec).load_ok,
            loaded0 == old(engine).player.loaded,
            codec.metas@ == old(codec).metas@,
            !codec.metas_pending,
            delivered ==> !spec_has_bad_meta(codec.metas@),
            lok && spec_load_reached_before(bs, bi as int) ==> delivered,
            !stop ==> spec_run_errors(loaded0, bs, lok) == spec_count_errors(events_view(events@))
                + spec_run_errors(engine.player.loaded, bs.skip(bi as int), lok),
            stop ==> spec_run_errors(loaded0, bs, lok) == spec_count_errors(events_view(events@)),
            bi == 0 ==> engine.player.loaded == loaded0 && events@.len() == 0,
            spec_first_cmd_fails(bs, loaded0, lok) && bi > 0 ==> spec_first_is_error(events@),
        decreases n - bi,
    {
        proof {
            reveal_strlit("quit");
            reveal_strlit("error");
            reveal_strlit("state");
            reveal_strlit("new");
            reveal_strlit("song");
            reveal_strlit("songs");
            reveal_strlit("startSong");
            reveal_strlit("length");
            reveal_strlit("done");
            reveal_strlit("fft");
            assert("quit"@.len() == 4);
            assert("error"@.len() == 5);
            assert("state"@.len() == 5);
            assert("new"@.len() == 3);
            assert("song"@.len() == 4);
            assert("songs"@.len() == 5);
            assert("startSong"@.len() == 9);
            assert("length"@.len() == 6);
            assert("done"@.len() == 4);
            assert("fft"@.len() == 3);
            assert("song"@[0] != "quit"@[0]);
            assert("done"@[0] != "quit"@[0]);
        }
        let ghost entry_loaded = engine.player.loaded;
        let ghost entry_count = spec_count_errors(events_view(events@));
        proof {
            assert(bs.skip(bi as int)[0] == bs[bi as int]);
            assert(bs.skip(bi as int).skip(1) =~= bs.skip(bi as int + 1));
        }
        let batch = &batches[bi];
        let m = batch.len();
        let mut ci: usize = 0;
        proof {
            assert(batch@.skip(0) =~= batch@);
        }
        while ci < m
            invariant
                engine.wf(),
                n == bs.len(),
                batches@ == bs,
                bi < n,
                m == bs[bi as int]@.len(),
                batch@ == bs[bi as int]@,
                ci <= m,
                engine.buffer_size == old(engine).buffer_size,
                codec.reads@ == old(codec).reads@,
                codec.freq == old(codec).freq,
                codec.load_ok == old(codec).load_ok,
                spec_no_quit_events(events@),
                (engine.player.play_state == PlayState::Quitting) == spec_quit_before(
                    bs,
                    bi as int,
                    ci as int,
                ),
                spec_no_load_after_quit(bs),
                spec_set_songs_in_range(bs),
                lok == old(codec).load_ok,
                codec.metas@ == old(codec).metas@,
                spec_loaded_after_batch(entry_loaded, batch@, lok) == spec_loaded_after_batch(
                    engine.player.loaded,
                    batch@.skip(ci as int),
                    lok,
                ),
                spec_errors_in_batch(entry_loaded, batch@, lok) == spec_count_errors(
                    events_view(events@),
                ) - entry_count + spec_errors_in_batch(
                    engine.player.loaded,
                    batch@.skip(ci as int),
                    lok,
                ),
                codec.metas_pending ==> lok && (exists|j: int|
                    0 <= j < ci && (#[trigger] batch@[j]) is Load),
                lok && (exists|j: int| 0 <= j < ci && (#[trigger] batch@[j]) is Load)
                    ==> codec.metas_pending && engine.player.loaded,
                bi == 0 && ci == 0 ==> engine.player.loaded == loaded0 && events@.len() == 0,
                spec_first_cmd_fails(bs, loaded0, lok) && (bi > 0 || ci > 0)
                    ==> spec_first_is_error(events@),
            decreases m - ci,
        {
            proof {
                reveal_strlit("quit");
                reveal_strlit("error");
                assert("quit"@.len() == 4);
                assert("error"@.len() == 5);
                lemma_quit_prefix_step(bs, bi as int, ci as int);
                assert(batch@.skip(ci as int)[0] == batch@[ci as int]);
                assert(batch@.skip(ci as int).skip(1) =~= batch@.skip(ci as int + 1));
            }
            match &batch[ci] {
                Command::Load(path) => {
                    proof {
                        if engine.player.play_state == PlayState::Quitting {
                            let (i1, j1) = choose|i1: int, j1: int|
                                0 <= i1 < bs.len() && 0 <= j1 < bs[i1]@.len() && (i1 < bi as int
                                    || (i1 == bi as int && j1 < ci as int))
                                    && (#[trigger] bs[i1]@[j1]) is Quit;
                            assert(bs[bi as int]@[ci as int] is Load);
                            assert(false);
                        }
                    }
                    let _outcome = engine.player.load(path.as_str());
                    let res = if codec.load_ok {
                        codec.metas_pending = true;
                        engine.player.load_result(path.as_str(), Ok(()))
                    } else {
                        engine.player.load_result(
                            path.as_str(),
                            Err(MusicError::new("Could not load song")),
                        )
                    };
                    match res {
                        Ok(_) => {},
                        Err(e) => {
                            push_event(&mut events, error_event(e));
                        },
                    }
                },
                Command::NextSong => {
                    let o = engine.player.next_song();
                    match o.reply {
                        Ok(_) => {},
                        Err(e) => {
                            push_event(&mut events, error_event(e));
                        },
                    }
                },
                Command::PrevSong => {
                    let o = engine.player.prev_song();
                    match o.reply {
                        Ok(_) => {},
                        Err(e) => {
                            push_event(&mut events, error_event(e));
                        },
                    }
                },
                Command::SetSong(v) => {
                    let _o = engine.player.set_song(*v);
                },
                Command::Ff(ms) => {
                    let _o = engine.player.ff(*ms);
                },
                Command::PlayPause => {
                    let _o = engine.player.play_pause();
                },
                Command::Quit => {
                    let _o = engine.player.quit();
                },
            }
            ci += 1;
        }
        let ghost cmd_loaded = engine.player.loaded;
        proof {
            lemma_quit_prefix_roll(bs, bi as int);
            assert(batch@.skip(m as int) =~= Seq::<Command>::empty());
            assert(spec_loaded_after_batch(entry_loaded, batch@, lok) == cmd_loaded);
            assert(spec_errors_in_batch(entry_loaded, batch@, lok) == spec_count_errors(
                events_view(events@),
            ) - entry_count);
        }
        let ghost batch_errors = spec_errors_in_batch(entry_loaded, batch@, lok);
        // Report a state change.
        proof {
            reveal_strlit("quit");
            reveal_strlit("state");
            assert("quit"@.len() == 4);
            assert("state"@.len() == 5);
        }
        match engine.state_event() {
            Some(e) => push_event(&mut events, e),
            None => {},
        }
        // Publish a freshly loaded song and the codec's changed metadata.
        let (new_events, _mp3_path) = engine.player.begin_meta();
        let ghost new_view = new_events@;
        let mut to_add = new_events;
        let ghost pre_append = events@;
        events.append(&mut to_add);
        proof {
            reveal_strlit("quit");
            reveal_strlit("new");
            reveal_strlit("song");
            reveal_strlit("songs");
            assert("quit"@.len() == 4);
            assert("new"@.len() == 3);
            assert("song"@.len() == 4);
            assert("songs"@.len() == 5);
            assert("song"@[0] != "quit"@[0]);
            assert forall|j: int| 0 <= j < events@.len() implies !spec_is_quit_event(
                ((#[trigger] events@[j]).0@, events@[j].1@),
            ) by {
                if j >= pre_append.len() {
                    assert(events@[j] == new_view[j - pre_append.len()]);
                    assert(events_view(new_view)[j - pre_append.len()] == (
                        events@[j].0@,
                        events@[j].1@,
                    ));
                }
            }
            assert(events_view(events@) =~= events_view(pre_append) + events_view(new_view));
            assert forall|j: int| 0 <= j < events_view(new_view).len() implies !spec_is_error_event(
                #[trigger] events_view(new_view)[j],
            ) by {
                assert(events_view(new_view)[j] == (new_view[j].0@, new_view[j].1@));
            }
            lemma_count_errors_zero(events_view(new_view));
            lemma_count_errors_concat(events_view(pre_append), events_view(new_view));
        }
        if codec.metas_pending && engine.player.loaded {
            proof {
                assert(lok && spec_load_at(bs, bi as int));
                assert(!spec_quit_before(bs, bi as int, 0));
                assert(spec_load_reached_before(bs, (bi + 1) as int));
                assert(spec_load_reached(bs));
            }
            codec.metas_pending = false;
            let ghost entry_state = engine.player.play_state;
            let ghost entry_meta_loaded = engine.player.loaded;
            let ghost meta_count = spec_count_errors(events_view(events@));
            let k = codec.metas.len();
            let mut mi: usize = 0;
            while mi < k
                invariant
                    engine.wf(),
                    batches@ == bs,
                    lok == old(codec).load_ok,
                    k == codec.metas@.len(),
                    mi <= k,
                    engine.buffer_size == old(engine).buffer_size,
                    engine.player.play_state == entry_state,
                    engine.player.loaded == entry_meta_loaded,
                    codec.reads@ == old(codec).reads@,
                    codec.freq == old(codec).freq,
                    codec.load_ok == old(codec).load_ok,
                    codec.metas@ == old(codec).metas@,
                    !codec.metas_pending,
                    spec_no_quit_events(events@),
                    spec_count_errors(events_view(events@)) == meta_count,
                    forall|k2: int| 0 <= k2 < mi ==> !spec_bad_meta(#[trigger] codec.metas@[k2]),
                    lok && spec_load_reached(bs),
                    spec_first_cmd_fails(bs, loaded0, lok) ==> spec_first_is_error(events@),
                decreases k - mi,
            {
                proof {
                    reveal_strlit("quit");
                    reveal_strlit("song");
                    reveal_strlit("songs");
                    reveal_strlit("startSong");
                    reveal_strlit("length");
                    assert("quit"@.len() == 4);
                    assert("song"@.len() == 4);
                    assert("songs"@.len() == 5);
                    assert("startSong"@.len() == 9);
                    assert("length"@.len() == 6);
                    assert("song"@[0] != "quit"@[0]);
                }
                let key = codec.metas[mi].0.clone();
                let val = codec.metas[mi].1.clone();
                match engine.player.apply_meta(key.as_str(), val.as_str()) {
                    Ok(e) => push_event(&mut events, e),
                    Err(err) => {
                        proof {
                            assert(spec_bad_meta(codec.metas@[mi as int]));
                            assert(spec_has_bad_meta(old(codec).metas@));
                        }
                        return Err(err);
                    },
                }
                mi += 1;
            }
            proof {
                if spec_has_bad_meta(codec.metas@) {
                    let k2 = choose|k2: int|
                        0 <= k2 < codec.metas@.len() && spec_bad_meta(#[trigger] codec.metas@[k2]);
                    assert(false);
                }
                delivered = true;
            }
        }
        proof {
            if lok && spec_load_at(bs, bi as int) {
                assert(delivered);
            }
            assert(!codec.metas_pending);
        }
        // Dispatch this iteration's work.
        proof {
            reveal_strlit("quit");
            reveal_strlit("done");
            reveal_strlit("fft");
            assert("quit"@.len() == 4);
            assert("done"@.len() == 4);
            assert("fft"@.len() == 3);
            assert("done"@[0] != "quit"@[0]);
        }
        let work = engine.dispatch(vacant_len);
        match work {
            Work::FastForward => {
                let rc = codec.read();
                let (_ms, done) = engine.ff_step(rc);
                match done {
                    Some(e) => push_event(&mut events, e),
                    None => {},
                }
            },
            Work::Produce => {
                let rc = codec.read();
                let hz = codec.freq;
                let out = engine.produce_step(rc, hz);
                match out.done_event {
                    Some(e) => push_event(&mut events, e),
                    None => {},
                }
                if out.fft_due {
                    push_event(&mut events, ("fft".to_owned(), Value::Data(Vec::new())));
                }
            },
            Work::SleepShort => {},
            Work::SleepIdle => {},
        }
        proof {
            // Whether this batch asked to quit decides both the loop's next
            // step and where the failed-command tally closes.
            if spec_quit_before(bs, (bi + 1) as int, 0) {
                let (i1, j1) = choose|i1: int, j1: int|
                    0 <= i1 < bs.len() && 0 <= j1 < bs[i1]@.len() && (i1 < bi + 1) && (
                    #[trigger] bs[i1]@[j1]) is Quit;
                if i1 < bi {
                    assert(spec_quit_before(bs, bi as int, 0));
                }
                assert(spec_batch_has_quit(batch@));
            }
            if spec_batch_has_quit(batch@) {
                let j1 = choose|j1: int| 0 <= j1 < batch@.len() && (#[trigger] batch@[j1]) is Quit;
                assert(spec_quit_before(bs, (bi + 1) as int, 0));
            }
            assert(spec_count_errors(events_view(events@)) == entry_count + batch_errors);
            if lok && spec_load_reached_before(bs, (bi + 1) as int) {
                let iw = choose|iw: int|
                    0 <= iw < bi + 1 && iw < bs.len() && #[trigger] spec_load_at(bs, iw)
                        && !spec_quit_before(bs, iw, 0);
                if iw < bi {
                    assert(spec_load_reached_before(bs, bi as int));
                }
                assert(delivered);
            }
        }
        stop = matches!(engine.player.play_state, PlayState::Quitting);
        bi += 1;
    }
    proof {
        reveal_strlit("quit");
        if engine.player.play_state == PlayState::Quitting {
            assert(spec_quit_before(bs, bi as int, 0));
            let (i1, j1) = choose|i1: int, j1: int|
                0 <= i1 < bs.len() && 0 <= j1 < bs[i1]@.len() && (i1 < bi as int || (i1
                    == bi as int && j1 < 0)) && (#[trigger] bs[i1]@[j1]) is Quit;
            assert(spec_has_quit(bs));
        } else {
            assert(bi == n);
            if spec_has_quit(bs) {
                assert(spec_quit_before(bs, bi as int, 0));
                assert(false);
            }
        }
        assert forall|j: int| 0 <= j < events_view(events@).len() implies !spec_is_quit_event(
            #[trigger] events_view(events@)[j],
        ) by {
            assert(events_view(events@)[j] == (events@[j].0@, events@[j].1@));
        }
        lemma_count_quit_zero(events_view(events@));
        // The run went through: no fatal metadata value was reached.
        if lok && spec_load_reached(bs) && spec_has_bad_meta(codec.metas@) {
            let iw = choose|iw: int|
                0 <= iw < bs.len() && #[trigger] spec_load_at(bs, iw) && !spec_quit_before(
                    bs,
                    iw,
                    0,
                );
            if iw >= bi {
                assert(stop);
                let (i1, j1) = choose|i1: int, j1: int|
                    0 <= i1 < bs.len() && 0 <= j1 < bs[i1]@.len() && (i1 < bi as int || (i1
                        == bi as int && j1 < 0)) && (#[trigger] bs[i1]@[j1]) is Quit;
                assert(spec_quit_before(bs, iw, 0));
                assert(false);
            }
            assert(spec_load_reached_before(bs, bi as int));
            assert(delivered);
            assert(false);
        }
        // The failed-command tally closes over the processed batches.
        if !stop {
            assert(bs.skip(bi as int) =~= Seq::<Vec<Command>>::empty());
        }
        assert(spec_count_errors(events_view(events@)) == spec_run_errors(loaded0, bs, lok));
    }
    if matches!(engine.player.play_state, PlayState::Quitting) {
        let ghost pre = events@;
        let e = num_event("quit", 1);
        let ghost ev: (Seq<char>, ValueView) = (e.0@, e.1@);
        push_event(&mut events, e);
        proof {
            assert(events_view(events@) =~= events_view(pre).push(ev));
            assert(events_view(events@).drop_last() =~= events_view(pre));
            assert(spec_is_quit_event(ev));
            assert(spec_count_quit(events_view(events@)) == 1);
        }
    }
    Ok(events)
}

} // verus!
