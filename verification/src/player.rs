//! The player state machine: play state, song bookkeeping, the fast-forward
//! budget, and the effect of every command the UI can send.
//!
//! The machine is pure: a command yields a new state, a reply, and at most
//! one action that the surrounding application performs on the codec (a seek
//! or a load attempt).  The shared millisecond clock is modelled by the
//! `clock_ms` field; the application mirrors every reset onto the real
//! atomic counter before the next buffer is produced.

use vstd::prelude::*;

use crate::value::{MusicError, Value};

verus! {

/// What the engine is doing with the current song.
#[derive(Clone, Copy, Debug, PartialEq, Eq, Structural)]
pub enum PlayState {
    Stopped,
    Playing,
    Paused,
    Quitting,
}

/// The numeric code published in `("state", _)` events.
pub open spec fn spec_state_code(s: PlayState) -> int {
    match s {
        PlayState::Stopped => 0,
        PlayState::Playing => 1,
        PlayState::Paused => 2,
        PlayState::Quitting => 3,
    }
}

/// The numeric code published in `("state", _)` events.
pub fn state_code(s: PlayState) -> (r: i64)
    ensures
        r == spec_state_code(s),
{
    match s {
        PlayState::Stopped => 0,
        PlayState::Playing => 1,
        PlayState::Paused => 2,
        PlayState::Quitting => 3,
    }
}

/// A command sent from the UI (or the remote control surface) to the engine.
#[derive(Debug)]
pub enum Command {
    Load(String),
    NextSong,
    PrevSong,
    SetSong(i32),
    Ff(usize),
    PlayPause,
    Quit,
}

/// What the application must perform on the codec after a command.
#[derive(Debug)]
pub enum CodecAction {
    Nothing,
    /// Seek to the given song index (at second zero).
    Seek(i32),
    /// Try to load the file at the given path, then report the outcome
    /// through `Player::load_result`.
    TryLoad(String),
}

/// The reply to one command together with the codec work it requires.
#[derive(Debug)]
pub struct CmdOutcome {
    pub reply: Result<bool, MusicError>,
    pub action: CodecAction,
}

/// One event on the info channel: a key and a value.
pub type MetaEvent = (String, Value);

/// The state the engine keeps about the current song.
#[derive(Debug)]
pub struct Player {
    /// Whether a codec currently holds a song.
    pub loaded: bool,
    /// Current sub-song index.
    pub song: i32,
    /// Number of sub-songs the current file holds.
    pub songs: i32,
    pub play_state: PlayState,
    /// Milliseconds still to skip in fast-forward mode.
    pub ff_msec: usize,
    /// Path of a freshly loaded song whose metadata is still unpublished.
    pub new_song: Option<String>,
    /// Model of the shared millisecond play clock.
    pub clock_ms: u64,
    /// Whether the last read from the codec returned zero samples.
    pub track_ended: bool,
}

/// The sub-song index actually stored for a requested index `v`: clipped
/// into `[0, songs)` while a positive song count is known, so the stored
/// state keeps the player's data invariant.
pub open spec fn spec_clamped_song(v: int, songs: int) -> int {
    if songs > 0 {
        if v < 0 {
            0
        } else if v >= songs {
            songs - 1
        } else {
            v
        }
    } else {
        v
    }
}

/// The player's data invariant: while a positive song count is known, the
/// current sub-song index lies within it.
pub open spec fn spec_song_in_range(p: Player) -> bool {
    p.songs > 0 ==> 0 <= p.song < p.songs
}

/// Clip a requested sub-song index into the known range.
pub fn clamped_song(v: i32, songs: i32) -> (r: i32)
    ensures
        r as int == spec_clamped_song(v as int, songs as int),
{
    if songs > 0 {
        if v < 0 {
            0
        } else if v >= songs {
            songs - 1
        } else {
            v
        }
    } else {
        v
    }
}

/// An unloaded, stopped player.
pub open spec fn spec_initial_player() -> Player {
    Player {
        loaded: false,
        song: 0,
        songs: 0,
        play_state: PlayState::Stopped,
        ff_msec: 0,
        new_song: None,
        clock_ms: 0,
        track_ended: false,
    }
}

impl Player {
    pub fn new() -> (r: Player)
        ensures
            r == spec_initial_player(),
    {
        Player {
            loaded: false,
            song: 0,
            songs: 0,
            play_state: PlayState::Stopped,
            ff_msec: 0,
            new_song: None,
            clock_ms: 0,
            track_ended: false,
        }
    }

    /// Zero the play clock.
    pub fn reset(&mut self)
        ensures
            *final(self) == (Player { clock_ms: 0, ..*old(self) }),
    {
        self.clock_ms = 0;
    }

    /// Step to the next sub-song: seek and zero the clock while one is left,
    /// do nothing at the last one; an error without a loaded song.
    pub fn next_song(&mut self) -> (r: CmdOutcome)
        ensures
            !old(self).loaded ==> {
                &&& *final(self) == *old(self)
                &&& r.reply matches Err(e)
                &&& e.msg@ == "No active song"@
                &&& r.action is Nothing
            },
            old(self).loaded && old(self).song < old(self).songs - 1 ==> *final(self) == (Player {
                clock_ms: 0,
                track_ended: false,
                ..*old(self)
            }) && r.reply == Ok::<bool, MusicError>(true) && r.action == CodecAction::Seek(
                (old(self).song + 1) as i32,
            ),
            old(self).loaded && old(self).song >= old(self).songs - 1 ==> *final(self) == *old(
                self,
            ) && r.reply == Ok::<bool, MusicError>(true) && r.action is Nothing,
    {
        if !self.loaded {
            return CmdOutcome {
                reply: Err(MusicError::new("No active song")),
                action: CodecAction::Nothing,
            };
        }
        if (self.song as i64) < (self.songs as i64) - 1 {
            let target = self.song + 1;
            self.clock_ms = 0;
            self.track_ended = false;
            CmdOutcome { reply: Ok(true), action: CodecAction::Seek(target) }
        } else {
            CmdOutcome { reply: Ok(true), action: CodecAction::Nothing }
        }
    }

    /// Step to the previous sub-song: seek and zero the clock while not at
    /// the first one; an error without a loaded song.
    pub fn prev_song(&mut self) -> (r: CmdOutcome)
        ensures
            !old(self).loaded ==> {
                &&& *final(self) == *old(self)
                &&& r.reply matches Err(e)
                &&& e.msg@ == "No active song"@
                &&& r.action is Nothing
            },
            old(self).loaded && old(self).song > 0 ==> *final(self) == (Player {
                clock_ms: 0,
                track_ended: false,
                ..*old(self)
            }) && r.reply == Ok::<bool, MusicError>(true) && r.action == CodecAction::Seek(
                (old(self).song - 1) as i32,
            ),
            old(self).loaded && old(self).song <= 0 ==> *final(self) == *old(self) && r.reply
                == Ok::<bool, MusicError>(true) && r.action is Nothing,
    {
        if !self.loaded {
            return CmdOutcome {
                reply: Err(MusicError::new("No active song")),
                action: CodecAction::Nothing,
            };
        }
        if self.song > 0 {
            let target = self.song - 1;
            self.clock_ms = 0;
            self.track_ended = false;
            CmdOutcome { reply: Ok(true), action: CodecAction::Seek(target) }
        } else {
            CmdOutcome { reply: Ok(true), action: CodecAction::Nothing }
        }
    }

    /// Select sub-song `song`: seek to index `song - 1` and zero the clock;
    /// the stored index is clipped into the known song range, keeping the
    /// data invariant.  Without a loaded song, do nothing.
    pub fn set_song(&mut self, song: i32) -> (r: CmdOutcome)
        requires
            song > i32::MIN,
        ensures
            old(self).loaded ==> *final(self) == (Player {
                song: spec_clamped_song(song as int, old(self).songs as int) as i32,
                clock_ms: 0,
                track_ended: false,
                ..*old(self)
            }) && r.reply == Ok::<bool, MusicError>(true) && r.action == CodecAction::Seek(
                (song - 1) as i32,
            ),
            !old(self).loaded ==> *final(self) == *old(self) && r.reply == Ok::<
                bool,
                MusicError,
            >(true) && r.action is Nothing,
            spec_song_in_range(*old(self)) ==> spec_song_in_range(*final(self)),
    {
        if self.loaded {
            self.song = clamped_song(song, self.songs);
            self.clock_ms = 0;
            self.track_ended = false;
            CmdOutcome { reply: Ok(true), action: CodecAction::Seek(song - 1) }
        } else {
            CmdOutcome { reply: Ok(true), action: CodecAction::Nothing }
        }
    }

    /// Unload the current song and ask the application to load `name`.
    /// The outcome is reported back through `load_result`.
    pub fn load(&mut self, name: &str) -> (r: CmdOutcome)
        ensures
            *final(self) == (Player { loaded: false, ..*old(self) }),
            r.reply == Ok::<bool, MusicError>(true),
            ({
                &&& r.action matches CodecAction::TryLoad(p)
                &&& p@ == name@
            }),
    {
        self.loaded = false;
        CmdOutcome { reply: Ok(true), action: CodecAction::TryLoad(name.to_owned()) }
    }

    /// Record the outcome of a load attempt: on success the song plays from
    /// a zeroed clock and its metadata is pending; on failure the player
    /// stays unloaded and the error is passed back.
    pub fn load_result(&mut self, name: &str, outcome: Result<(), MusicError>) -> (r: Result<
        bool,
        MusicError,
    >)
        ensures
            outcome is Ok ==> {
                &&& *final(self) == (Player {
                    loaded: true,
                    play_state: PlayState::Playing,
                    new_song: Some(final(self).new_song->Some_0),
                    clock_ms: 0,
                    track_ended: false,
                    ..*old(self)
                })
                &&& final(self).new_song matches Some(p)
                &&& p@ == name@
                &&& r == Ok::<bool, MusicError>(true)
            },
            outcome matches Err(e) ==> *final(self) == *old(self) && r == Err::<bool, MusicError>(
                e,
            ),
    {
        match outcome {
            Ok(()) => {
                self.loaded = true;
                self.play_state = PlayState::Playing;
                self.new_song = Some(name.to_owned());
                self.clock_ms = 0;
                self.track_ended = false;
                Ok(true)
            },
            Err(e) => Err(e),
        }
    }

    /// Add to the fast-forward budget (saturating at the type's limit).
    pub fn ff(&mut self, msec: usize) -> (r: CmdOutcome)
        ensures
            *final(self) == (Player {
                ff_msec: if old(self).ff_msec + msec <= usize::MAX {
                    (old(self).ff_msec + msec) as usize
                } else {
                    usize::MAX
                },
                ..*old(self)
            }),
            r.reply == Ok::<bool, MusicError>(true),
            r.action is Nothing,
    {
        self.ff_msec = if msec <= usize::MAX - self.ff_msec {
            self.ff_msec + msec
        } else {
            usize::MAX
        };
        CmdOutcome { reply: Ok(true), action: CodecAction::Nothing }
    }

    /// Toggle between playing and paused; other states are kept.
    pub fn play_pause(&mut self) -> (r: CmdOutcome)
        ensures
            *final(self) == (Player {
                play_state: match old(self).play_state {
                    PlayState::Paused => PlayState::Playing,
                    PlayState::Playing => PlayState::Paused,
                    other => other,
                },
                ..*old(self)
            }),
            r.reply == Ok::<bool, MusicError>(true),
            r.action is Nothing,
    {
        self.play_state = match self.play_state {
            PlayState::Paused => PlayState::Playing,
            PlayState::Playing => PlayState::Paused,
            other => other,
        };
        CmdOutcome { reply: Ok(true), action: CodecAction::Nothing }
    }

    /// Ask the engine to stop: the loop exits at its next iteration.
    pub fn quit(&mut self) -> (r: CmdOutcome)
        ensures
            *final(self) == (Player { play_state: PlayState::Quitting, ..*old(self) }),
            r.reply == Ok::<bool, MusicError>(true),
            r.action is Nothing,
    {
        self.play_state = PlayState::Quitting;
        CmdOutcome { reply: Ok(true), action: CodecAction::Nothing }
    }
}

} // verus!
