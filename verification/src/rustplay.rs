//! The UI's state: the metadata it shows, the input mode, the error
//! backlog, and the track-advance bookkeeping.  Terminal drawing and input
//! polling belong to the application.

use std::collections::VecDeque;

use vstd::prelude::*;

use crate::gui::{Key, KeyReturn, SearchField, SongMenu};
use crate::song::{spec_lookup, FileInfo, MetaMap};
use crate::text::{i64_to_string_pad2, spec_pad2_string, string_push};
use crate::value::{Value, ValueView};

verus! {

/// Which part of the UI receives keys.
#[derive(Clone, Copy, Debug, PartialEq, Eq, Structural)]
pub enum InputMode {
    Main,
    SearchInput,
    ResultScreen,
}

/// A number metadata value clipped to `i32`, as the UI reads it.
pub open spec fn spec_clip_i32(n: int) -> int {
    if n > i32::MAX {
        i32::MAX as int
    } else if n < i32::MIN {
        i32::MIN as int
    } else {
        n
    }
}

/// `mm:ss` for a non-negative number of seconds (zero for a negative one).
pub open spec fn spec_len_text(secs: int) -> Seq<char> {
    let s = if secs >= 0 {
        secs
    } else {
        0
    };
    spec_pad2_string(s / 60) + ":"@ + spec_pad2_string(s % 60)
}

/// `mm:ss:cc` for a play time in milliseconds.
pub open spec fn spec_time_text(ms: int) -> Seq<char> {
    spec_pad2_string(ms / 60000) + ":"@ + spec_pad2_string((ms / 1000) % 60) + ":"@
        + spec_pad2_string((ms / 10) % 100)
}

/// Render `mm:ss:cc` for a play time in milliseconds.
pub fn format_time(ms: u64) -> (r: String)
    requires
        ms <= 0x1000_0000_0000_0000,
    ensures
        r@ == spec_time_text(ms as int),
{
    let m = ms / 60000;
    let s = (ms / 1000) % 60;
    let c = (ms / 10) % 100;
    let mut out = i64_to_string_pad2(m as i64);
    string_push(&mut out, ':');
    out.append(i64_to_string_pad2(s as i64).as_str());
    string_push(&mut out, ':');
    out.append(i64_to_string_pad2(c as i64).as_str());
    proof {
        reveal_strlit(":");
        assert(":"@.len() == 1);
        assert(out@ =~= spec_time_text(ms as int));
    }
    out
}

/// For how many frames the next error banner shows: one frame with a deep
/// backlog, ten with a few pending, fifty for a lone error.
pub fn error_banner_frames(backlog: usize) -> (r: i32)
    ensures
        backlog >= 5 ==> r == 1,
        2 <= backlog < 5 ==> r == 10,
        backlog < 2 ==> r == 50,
{
    if backlog >= 5 {
        1
    } else if backlog >= 2 {
        10
    } else {
        50
    }
}

/// Whether the UI should advance to the next song: a length is known and the
/// clock has passed it.
pub fn should_auto_advance(len_msec: usize, play_time: usize) -> (r: bool)
    ensures
        r == (len_msec > 0 && play_time > len_msec),
{
    len_msec > 0 && play_time > len_msec
}

/// The index played after stepping forward in a list of `len` songs:
/// one further while there is room, else the current one again.
pub fn next_index(current: usize, len: usize) -> (r: Option<usize>)
    ensures
        len == 0 ==> r is None,
        len > 0 && current + 1 < len ==> r == Some((current + 1) as usize),
        len > 0 && current + 1 >= len ==> r == if current < len {
            Some(current)
        } else {
            None::<usize>
        },
{
    if len == 0 {
        return None;
    }
    if current < len - 1 {
        Some(current + 1)
    } else if current < len {
        Some(current)
    } else {
        None
    }
}

/// The index played after stepping backward: one back while the current
/// index is past one, else the current one again.
pub fn prev_index(current: usize, len: usize) -> (r: Option<usize>)
    ensures
        len == 0 ==> r is None,
        len > 0 && current > 1 ==> r == if current - 1 < len {
            Some((current - 1) as usize)
        } else {
            None::<usize>
        },
        len > 0 && current <= 1 ==> r == if current < len {
            Some(current)
        } else {
            None::<usize>
        },
{
    if len == 0 {
        return None;
    }
    let target = if current > 1 {
        current - 1
    } else {
        current
    };
    if target < len {
        Some(target)
    } else {
        None
    }
}

/// What the UI knows between frames.
#[derive(Debug)]
pub struct State {
    /// Whether the info panel must be redrawn.
    pub changed: bool,
    /// The metadata shown.
    pub meta: MetaMap,
    pub song: i32,
    pub songs: i32,
    /// The current song's length in milliseconds, when known.
    pub len_msec: usize,
    /// Whether the current track reported its end.
    pub done: bool,
    /// Frames the current error banner still shows for.
    pub show_error: i32,
    pub mode: InputMode,
    pub last_mode: InputMode,
    pub quit: bool,
    pub use_color: bool,
    /// Errors waiting to be shown.
    pub errors: VecDeque<String>,
    pub player_started: bool,
    pub width: i32,
    pub height: i32,
}

impl State {
    pub fn new() -> (r: State)
        ensures
            r.meta@.len() == 0,
            r.errors@.len() == 0,
            !r.changed && !r.done && !r.quit && !r.player_started && !r.use_color,
            r.song == 0 && r.songs == 0 && r.len_msec == 0 && r.show_error == 0,
            r.mode == InputMode::Main && r.last_mode == InputMode::Main,
            r.width == 0 && r.height == 0,
    {
        State {
            changed: false,
            meta: MetaMap::new(),
            song: 0,
            songs: 0,
            len_msec: 0,
            done: false,
            show_error: 0,
            mode: InputMode::Main,
            last_mode: InputMode::Main,
            quit: false,
            use_color: false,
            errors: VecDeque::new(),
            player_started: false,
            width: 0,
            height: 0,
        }
    }

    /// Absorb one metadata event: numbers update the song bookkeeping (and
    /// derive the `len` and `isong` display fields), empty text is dropped,
    /// errors join the backlog, and everything else lands in the shown
    /// metadata under its key.
    pub fn update_meta(&mut self, key: &str, val: Value)
        ensures
            val matches Value::Number(n) ==> {
                &&& final(self).changed
                &&& final(self).meta.spec_get(key@) == Some(ValueView::Number(n as int))
                &&& (key@ == "done"@ ==> final(self).done)
                &&& (key@ != "done"@ ==> final(self).done == old(self).done)
                &&& (key@ == "song"@ ==> final(self).song == spec_clip_i32(
                    n as int,
                ) && final(self).meta.spec_get("isong"@) == Some(
                    ValueView::Number(spec_clip_i32(n as int) + 1),
                ))
                &&& (key@ == "songs"@ ==> final(self).songs == spec_clip_i32(n as int))
                &&& (key@ == "length"@ ==> final(self).meta.spec_get("len"@) == Some(
                    ValueView::Text(spec_len_text(spec_clip_i32(n as int))),
                ))
            },
            val matches Value::Text(t) ==> {
                &&& t@.len() == 0 ==> *final(self) == *old(self)
                &&& t@.len() > 0 ==> final(self).changed && final(self).meta.spec_get(key@)
                    == Some(ValueView::Text(t@))
            },
            val matches Value::Error(e) ==> {
                &&& final(self).errors@.len() == old(self).errors@.len() + 1
                &&& final(self).errors@.last()@ == e.msg@
                &&& final(self).meta.spec_get(key@) == Some(ValueView::Error(e.msg@))
            },
            val is Data || val is Unknown ==> final(self).meta.spec_get(key@) == Some(val@)
                && final(self).changed == old(self).changed,
    {
        proof {
            reveal_strlit("done");
            reveal_strlit("length");
            reveal_strlit("song");
            reveal_strlit("songs");
            reveal_strlit("len");
            reveal_strlit("isong");
            assert("done"@.len() == 4);
            assert("length"@.len() == 6);
            assert("song"@.len() == 4);
            assert("songs"@.len() == 5);
            assert("len"@.len() == 3);
            assert("isong"@.len() == 5);
            assert("done"@[0] != "song"@[0]);
        }
        match &val {
            Value::Number(n) => {
                self.changed = true;
                let i: i32 = clip_i32(*n);
                if crate::text::str_eq(key, "done") {
                    self.done = true;
                } else if crate::text::str_eq(key, "length") {
                    let text = len_text(i);
                    self.meta.insert("len", Value::Text(text));
                } else if crate::text::str_eq(key, "song") {
                    self.song = i;
                    let isong: i64 = (i as i64) + 1;
                    self.meta.insert("isong", Value::Number(isong));
                } else if crate::text::str_eq(key, "songs") {
                    self.songs = i;
                }
            },
            Value::Text(t) => {
                if t.unicode_len() == 0 {
                    return ;
                }
                self.changed = true;
            },
            Value::Error(e) => {
                self.errors.push_back(e.msg.clone());
            },
            Value::Data(_) => {},
            Value::Unknown => {},
        }
        self.meta.insert(key, val);
    }

    /// The text stored under `name`, or empty.
    pub fn get_meta(&self, name: &str) -> (r: String)
        ensures
            r@ == match spec_lookup(self.meta@, name@) {
                Some(ValueView::Text(t)) => t,
                _ => Seq::<char>::empty(),
            },
    {
        match self.meta.get(name) {
            Some(Value::Text(t)) => t.clone(),
            _ => String::new(),
        }
    }

    /// The text stored under `name`, or the given default.
    pub fn get_meta_or(&self, name: &str, def: &str) -> (r: String)
        ensures
            r@ == match spec_lookup(self.meta@, name@) {
                Some(ValueView::Text(t)) => t,
                _ => def@,
            },
    {
        match self.meta.get(name) {
            Some(Value::Text(t)) => t.clone(),
            _ => def.to_owned(),
        }
    }

    /// Store a text under `what`.
    pub fn set_meta(&mut self, what: &str, value: String)
        ensures
            final(self).meta.spec_get(what@) == Some(ValueView::Text(value@)),
            forall|k: Seq<char>|
                k != what@ ==> #[trigger] final(self).meta.spec_get(k) == old(self).meta.spec_get(
                    k,
                ),
    {
        self.meta.insert(what, Value::Text(value));
    }

    /// Start showing a song picked from the index: the shown metadata is
    /// blanked, the song's indexed title and composer (when present and
    /// non-empty) are adopted, the file's stem lands under `file_name`, and
    /// the following song's display name under `next_song`.
    pub fn adopt_song_meta(&mut self, song: &FileInfo, next_name: Option<String>)
        ensures
            final(self).changed,
            spec_lookup(song@.meta, "title"@) matches Some(ValueView::Text(t)) ==> (t.len() > 0
                ==> final(self).meta.spec_get("title"@) == Some(ValueView::Text(t))),
            spec_lookup(song@.meta, "composer"@) matches Some(ValueView::Text(c)) ==> (c.len() > 0
                ==> final(self).meta.spec_get("composer"@) == Some(ValueView::Text(c))),
            crate::text::spec_file_name(song@.path) matches Some(nm) ==> final(self).meta.spec_get(
                "file_name"@,
            ) == Some(ValueView::Text(crate::text::spec_stem_of_name(nm))),
            next_name matches Some(n) ==> final(self).meta.spec_get("next_song"@) == Some(
                ValueView::Text(n@),
            ),
    {
        proof {
            reveal_strlit("title");
            reveal_strlit("composer");
            reveal_strlit("file_name");
            reveal_strlit("next_song");
            assert("title"@.len() == 5);
            assert("composer"@.len() == 8);
            assert("file_name"@.len() == 9);
            assert("next_song"@.len() == 9);
            assert("file_name"@[0] != "next_song"@[0]);
        }
        self.changed = true;
        self.meta.clear_values();
        match song.meta_data.get("title") {
            Some(Value::Text(t)) => {
                if t.unicode_len() > 0 {
                    let text = t.clone();
                    self.meta.insert("title", Value::Text(text));
                }
            },
            _ => {},
        }
        match song.meta_data.get("composer") {
            Some(Value::Text(c)) => {
                if c.unicode_len() > 0 {
                    let text = c.clone();
                    self.meta.insert("composer", Value::Text(text));
                }
            },
            _ => {},
        }
        match song.file_stem() {
            Some(stem) => self.meta.insert("file_name", Value::Text(stem)),
            None => {},
        }
        match next_name {
            Some(n) => self.meta.insert("next_song", Value::Text(n)),
            None => {},
        }
    }

    /// Blank all shown text and zero all shown numbers.
    pub fn clear_meta(&mut self)
        ensures
            final(self).meta@.len() == old(self).meta@.len(),
            forall|i: int|
                0 <= i < old(self).meta@.len() ==> (#[trigger] final(self).meta@[i]).0 == old(
                    self,
                ).meta@[i].0 && MetaMap::spec_cleared(old(self).meta@[i].1, final(self).meta@[i].1),
    {
        self.meta.clear_values();
    }
}

/// What the key dispatcher asks the application to do.
#[derive(Debug)]
pub enum UiAction {
    Idle,
    /// Send a sub-song selection to the engine.
    SetSongCmd(i32),
    PlayPauseCmd,
    /// Send a fast-forward budget to the engine.
    FfCmd(usize),
    NextSongCmd,
    PrevSongCmd,
    /// Step forward in the play list.
    NextTrack,
    /// Step backward in the play list.
    PrevTrack,
    /// Load and play this search result.
    Play(FileInfo),
    /// Run this query, then report the result count back through
    /// `apply_search_result`.
    RunSearch(String),
}

/// The sub-song a digit key selects: ten for the zero key.
pub open spec fn spec_digit_song(c: char) -> int {
    if c == '0' {
        10
    } else {
        crate::text::digit_val(c)
    }
}

/// Dispatch one key press by input mode: in the main mode keys map to
/// engine commands and open the search; in the result screen the menu
/// navigates and picks a song; in the search field the query is edited and
/// submitted.  Returns what the application must perform.
pub fn handle_mode_key(
    state: &mut State,
    menu: &mut SongMenu,
    search: &mut SearchField,
    key: Key,
    result_len: usize,
    selected_song: Option<FileInfo>,
) -> (r: UiAction)
    requires
        old(search).shell.wf(),
    ensures
        final(search).shell.wf(),
        old(state).mode == InputMode::Main ==> {
            &&& final(state).last_mode == InputMode::Main
            &&& (key matches Key::Char(c) ==> {
                &&& (crate::text::is_digit(c) ==> r == UiAction::SetSongCmd(
                    spec_digit_song(c) as i32,
                ))
                &&& ((c == 'i' || c == 's') ==> final(state).mode == InputMode::SearchInput && r
                    is Idle)
                &&& (c == 'n' ==> r is NextTrack)
                &&& (c == ' ' ==> r is PlayPauseCmd)
                &&& (c == 'p' ==> r is PrevTrack)
                &&& (c == 'f' ==> r == UiAction::FfCmd(10000usize))
            })
            &&& ((key is Up || key is Down || key is PageUp || key is PageDown) ==> {
                &&& (result_len > 0 ==> final(state).mode == InputMode::ResultScreen)
                &&& (result_len == 0 ==> final(state).mode == InputMode::Main)
                &&& r is Idle
            })
            &&& (key is Enter || key is Esc || key is Backspace || key is Other ==> r is Idle
                && final(state).mode == InputMode::Main)
        },
        old(state).mode == InputMode::ResultScreen ==> {
            &&& (key is Esc ==> final(state).mode == old(state).last_mode && final(state).changed
                && r is Idle)
            &&& (key matches Key::Char(_) ==> final(state).mode == InputMode::SearchInput
                && final(state).changed && r is Idle)
            &&& (key is Enter ==> match selected_song {
                Some(s) => {
                    &&& r matches UiAction::Play(p)
                    &&& p@ == s@
                    &&& final(state).mode == old(state).last_mode
                },
                None => r is Idle,
            })
        },
        old(state).mode == InputMode::SearchInput ==> {
            &&& final(state).last_mode == InputMode::SearchInput
            &&& (key is Enter ==> {
                &&& r matches UiAction::RunSearch(q)
                &&& q@ == old(search).shell@
                &&& final(search).shell@ == Seq::<char>::empty()
            })
            &&& (key is Esc && old(search).shell@.len() == 0 ==> final(state).mode
                == InputMode::Main && r is Idle)
            &&& (key matches Key::Char(c) ==> final(search).shell@ == old(
                search,
            ).shell@.insert(old(search).shell.spec_edit_pos(), c) && r is Idle)
        },
{
    match state.mode {
        InputMode::Main => {
            state.last_mode = InputMode::Main;
            match key {
                Key::Char(c) => {
                    if '0' <= c && c <= '9' {
                        let d = (c as u32) - ('0' as u32);
                        let song: i32 = if d == 0 {
                            10
                        } else {
                            d as i32
                        };
                        return UiAction::SetSongCmd(song);
                    }
                    if c == 'i' || c == 's' {
                        state.mode = InputMode::SearchInput;
                        return UiAction::Idle;
                    }
                    if c == 'n' {
                        return UiAction::NextTrack;
                    }
                    if c == ' ' {
                        return UiAction::PlayPauseCmd;
                    }
                    if c == 'p' {
                        return UiAction::PrevTrack;
                    }
                    if c == 'f' {
                        return UiAction::FfCmd(10000);
                    }
                    UiAction::Idle
                },
                Key::Up | Key::Down | Key::PageUp | Key::PageDown => {
                    if result_len > 0 {
                        state.mode = InputMode::ResultScreen;
                        let _ = menu.handle_key(result_len, selected_song, key);
                    }
                    UiAction::Idle
                },
                _ => UiAction::Idle,
            }
        },
        InputMode::ResultScreen => {
            match menu.handle_key(result_len, selected_song, key) {
                KeyReturn::PlaySong(song) => {
                    state.changed = true;
                    state.mode = state.last_mode;
                    UiAction::Play(song)
                },
                KeyReturn::ExitMenu => {
                    state.changed = true;
                    state.mode = state.last_mode;
                    UiAction::Idle
                },
                KeyReturn::Navigate => {
                    state.changed = true;
                    state.mode = InputMode::SearchInput;
                    let _ = search.handle_key(key);
                    UiAction::Idle
                },
                _ => UiAction::Idle,
            }
        },
        InputMode::SearchInput => {
            state.last_mode = InputMode::SearchInput;
            match search.handle_key(key) {
                KeyReturn::Search(query) => UiAction::RunSearch(query),
                KeyReturn::ExitMenu => {
                    state.changed = true;
                    state.mode = InputMode::Main;
                    UiAction::Idle
                },
                KeyReturn::Navigate => {
                    state.changed = true;
                    if result_len > 0 {
                        state.mode = InputMode::ResultScreen;
                        let _ = menu.handle_key(result_len, selected_song, key);
                    }
                    UiAction::Idle
                },
                _ => UiAction::Idle,
            }
        },
    }
}

/// Adopt a finished search: with results the menu opens at its top, without
/// any an error joins the backlog.
pub fn apply_search_result(state: &mut State, menu: &mut SongMenu, result_len: usize)
    ensures
        result_len > 0 ==> {
            &&& final(state).mode == InputMode::ResultScreen
            &&& final(menu).selected == 0
            &&& final(menu).start_pos == 0
        },
        result_len == 0 ==> {
            &&& final(state).errors@.len() == old(state).errors@.len() + 1
            &&& final(state).errors@.last()@ == "No results from search"@
            &&& *final(menu) == *old(menu)
        },
{
    if result_len > 0 {
        state.mode = InputMode::ResultScreen;
        menu.start_pos = 0;
        menu.selected = 0;
    } else {
        state.errors.push_back("No results from search".to_owned());
    }
}

/// Clip an `i64` to the `i32` range, as the UI reads numeric metadata.
fn clip_i32(n: i64) -> (r: i32)
    ensures
        r as int == spec_clip_i32(n as int),
{
    if n > i32::MAX as i64 {
        i32::MAX
    } else if n < i32::MIN as i64 {
        i32::MIN
    } else {
        n as i32
    }
}

/// Render `mm:ss` for a number of seconds (clamped below at zero).
fn len_text(secs: i32) -> (r: String)
    ensures
        r@ == spec_len_text(secs as int),
{
    let s: i64 = if secs >= 0 {
        secs as i64
    } else {
        0
    };
    let mut out = i64_to_string_pad2(s / 60);
    string_push(&mut out, ':');
    out.append(i64_to_string_pad2(s % 60).as_str());
    proof {
        reveal_strlit(":");
        assert(":"@.len() == 1);
        assert(out@ =~= spec_len_text(secs as int));
    }
    out
}

} // verus!
