//! The text components of the UI: the command-line editor, the search field,
//! and the song menu's paging logic.  Drawing belongs to the application;
//! these hold the state and the key handling.

use vstd::prelude::*;

use crate::song::FileInfo;
use crate::text::string_push;

verus! {

/// A key press, as the components understand it.
#[derive(Clone, Copy, Debug)]
pub enum Key {
    Up,
    Down,
    PageUp,
    PageDown,
    Enter,
    Esc,
    Backspace,
    Char(char),
    Other,
}

/// What a component asks the UI to do after a key press.
#[derive(Debug)]
pub enum KeyReturn {
    Quit,
    Nothing,
    PlaySong(FileInfo),
    Search(String),
    ExitMenu,
    Navigate,
}

/// A one-line command editor: the entered characters and a cursor.
#[derive(Debug)]
pub struct Shell {
    cmd: Vec<char>,
    edit_pos: usize,
}

impl View for Shell {
    type V = Seq<char>;

    closed spec fn view(&self) -> Seq<char> {
        self.cmd@
    }
}

impl Shell {
    /// Cursor position, always within the text.
    pub closed spec fn spec_edit_pos(&self) -> int {
        self.edit_pos as int
    }

    /// The cursor never leaves the text.
    pub open spec fn wf(&self) -> bool {
        0 <= self.spec_edit_pos() <= self@.len()
    }

    pub fn new() -> (r: Shell)
        ensures
            r@ == Seq::<char>::empty(),
            r.spec_edit_pos() == 0,
            r.wf(),
    {
        let r = Shell { cmd: Vec::new(), edit_pos: 0 };
        proof {
            assert(r@ =~= Seq::<char>::empty());
        }
        r
    }

    /// How many characters are entered.
    pub fn len(&self) -> (r: usize)
        ensures
            r == self@.len(),
    {
        self.cmd.len()
    }

    /// The entered text.
    pub fn command(&self) -> (r: String)
        ensures
            r@ == self@,
    {
        let n = self.cmd.len();
        let mut out = String::new();
        let mut i: usize = 0;
        while i < n
            invariant
                n == self.cmd@.len(),
                i <= n,
                out@ =~= self.cmd@.take(i as int),
            decreases n - i,
        {
            string_push(&mut out, self.cmd[i]);
            i += 1;
        }
        proof {
            assert(self.cmd@.take(n as int) =~= self.cmd@);
        }
        out
    }

    /// The text split for display: what stands before the cursor, the
    /// character under it (a space at the end), and what follows it.
    pub fn command_line(&self) -> (r: (String, char, String))
        requires
            self.wf(),
        ensures
            r.0@ == self@.take(self.spec_edit_pos()),
            self.spec_edit_pos() == self@.len() ==> r.1 == ' ' && r.2@ == Seq::<char>::empty(),
            self.spec_edit_pos() < self@.len() ==> r.1 == self@[self.spec_edit_pos()] && r.2@
                == self@.skip(self.spec_edit_pos() + 1),
    {
        let n = self.cmd.len();
        let at_end = self.edit_pos == n;
        let mut first = String::new();
        let mut i: usize = 0;
        while i < self.edit_pos
            invariant
                self.wf(),
                n == self.cmd@.len(),
                i <= self.edit_pos,
                first@ =~= self.cmd@.take(i as int),
            decreases self.edit_pos - i,
        {
            string_push(&mut first, self.cmd[i]);
            i += 1;
        }
        let cursor = if at_end {
            ' '
        } else {
            self.cmd[self.edit_pos]
        };
        let mut last = String::new();
        if !at_end {
            let mut j: usize = self.edit_pos + 1;
            while j < n
                invariant
                    self.wf(),
                    n == self.cmd@.len(),
                    self.edit_pos + 1 <= j <= n,
                    last@ =~= self.cmd@.subrange(self.spec_edit_pos() + 1, j as int),
                decreases n - j,
            {
                string_push(&mut last, self.cmd[j]);
                j += 1;
            }
            proof {
                assert(last@ =~= self.cmd@.skip(self.spec_edit_pos() + 1));
            }
        } else {
            proof {
                assert(last@ =~= Seq::<char>::empty());
            }
        }
        (first, cursor, last)
    }

    /// Put one character at the cursor and step past it.
    pub fn insert(&mut self, c: char)
        requires
            old(self).wf(),
        ensures
            final(self).wf(),
            final(self)@ == old(self)@.insert(old(self).spec_edit_pos(), c),
            final(self).spec_edit_pos() == old(self).spec_edit_pos() + 1,
    {
        self.cmd.insert(self.edit_pos, c);
        // The vector's length fits the machine word, so the cursor can step.
        let _fits = self.cmd.len();
        self.edit_pos += 1;
    }

    /// Delete the character before the cursor, when there is one.
    pub fn del(&mut self)
        requires
            old(self).wf(),
        ensures
            final(self).wf(),
            old(self).spec_edit_pos() == 0 ==> *final(self) == *old(self),
            old(self).spec_edit_pos() > 0 ==> final(self)@ == old(self)@.remove(
                old(self).spec_edit_pos() - 1,
            ) && final(self).spec_edit_pos() == old(self).spec_edit_pos() - 1,
    {
        if self.edit_pos == 0 {
            return ;
        }
        self.edit_pos -= 1;
        self.cmd.remove(self.edit_pos);
    }

    /// Move the cursor by `delta` when the target stays inside the text.
    pub fn go(&mut self, delta: isize)
        requires
            old(self).wf(),
        ensures
            final(self).wf(),
            final(self)@ == old(self)@,
            final(self).spec_edit_pos() == if 0 <= old(self).spec_edit_pos() + delta < old(
                self,
            )@.len() {
                old(self).spec_edit_pos() + delta
            } else {
                old(self).spec_edit_pos()
            },
    {
        let p: i128 = (self.edit_pos as i128) + (delta as i128);
        if 0 <= p && p < (self.cmd.len() as i128) {
            self.edit_pos = p as usize;
        }
    }

    /// Empty the editor.
    pub fn clear(&mut self)
        ensures
            final(self).wf(),
            final(self)@ == Seq::<char>::empty(),
            final(self).spec_edit_pos() == 0,
    {
        self.cmd.clear();
        self.edit_pos = 0;
    }
}

/// Where a movement key puts the selection, before the end clamp.
pub open spec fn spec_menu_raw_selected(selected: int, height: int, key: Key) -> int {
    match key {
        Key::Up => if selected > 0 {
            selected - 1
        } else {
            selected
        },
        Key::PageUp => if selected >= height {
            selected - height
        } else {
            0
        },
        Key::PageDown => if selected + height <= usize::MAX {
            selected + height
        } else {
            usize::MAX as int
        },
        Key::Down => if selected + 1 <= usize::MAX {
            selected + 1
        } else {
            selected
        },
        _ => selected,
    }
}

/// Where the view starts after the selection moved to `raw`.
pub open spec fn spec_menu_start(start_pos: int, height: int, raw: int) -> int {
    if raw < start_pos {
        if start_pos >= height {
            start_pos - height
        } else {
            0
        }
    } else if raw >= start_pos + height {
        start_pos + height
    } else {
        start_pos
    }
}

/// The selection after the end clamp.
pub open spec fn spec_menu_clamped_selected(raw: int, song_len: int) -> int {
    if song_len > 0 && raw + 1 >= song_len {
        song_len - 1
    } else {
        raw
    }
}

/// The view start after the end clamp.
pub open spec fn spec_menu_clamped_start(start1: int, height: int, song_len: int) -> int {
    if song_len > 0 {
        if song_len <= height {
            0
        } else if start1 + height > song_len {
            song_len - height
        } else {
            start1
        }
    } else {
        start1
    }
}

/// The menu of search results: a window of `height` rows starting at row
/// `start_pos`, with one selected row.
#[derive(Debug)]
pub struct SongMenu {
    pub start_pos: usize,
    pub selected: usize,
    pub width: usize,
    pub height: usize,
    /// Brightness decay per visible row, for the renderer.
    pub fader: Vec<i32>,
    pub use_color: bool,
    /// Whether the whole menu must be redrawn.
    pub scrolled: bool,
    /// Whether the selection moved since the last draw.
    pub moved: bool,
}

impl SongMenu {
    pub fn new(use_color: bool, width: usize, height: usize) -> (r: SongMenu)
        ensures
            r.start_pos == 0,
            r.selected == 0,
            r.width == width,
            r.height == height,
            r.use_color == use_color,
            r.scrolled,
            !r.moved,
            r.fader@.len() == 0,
    {
        SongMenu {
            start_pos: 0,
            selected: 0,
            width,
            height,
            fader: Vec::new(),
            use_color,
            scrolled: true,
            moved: false,
        }
    }

    /// Adopt a new terminal size and ask for a full redraw.
    pub fn resize(&mut self, width: usize, height: usize)
        ensures
            *final(self) == (SongMenu {
                width: width,
                height: height,
                scrolled: true,
                ..*old(self)
            }),
    {
        self.width = width;
        self.height = height;
        self.scrolled = true;
    }

    /// Ask for a full redraw.
    pub fn refresh(&mut self)
        ensures
            *final(self) == (SongMenu { scrolled: true, ..*old(self) }),
    {
        self.scrolled = true;
    }

    /// React to one key: leave on escape, hand characters to the search
    /// field, play the selected song on enter, and otherwise move the
    /// selection, scrolling the window and clamping at the result's end.
    /// `selected_song` is the result entry at the current selection, which
    /// the caller looks up.
    #[verifier::rlimit(60)]
    pub fn handle_key(&mut self, song_len: usize, selected_song: Option<FileInfo>, key: Key) -> (r:
        KeyReturn)
        ensures
            key is Esc ==> *final(self) == *old(self) && r is ExitMenu,
            key matches Key::Char(_) ==> *final(self) == *old(self) && r is Navigate,
            key is Enter ==> *final(self) == *old(self) && match selected_song {
                Some(s) => r matches KeyReturn::PlaySong(p) && p@ == s@,
                None => r is Nothing,
            },
            key is Other || key is Backspace ==> *final(self) == *old(self) && r is Nothing,
            (key is Up || key is Down || key is PageUp || key is PageDown) ==> {
                &&& r is Nothing
                &&& ({
                    let raw = spec_menu_raw_selected(
                        old(self).selected as int,
                        old(self).height as int,
                        key,
                    );
                    if raw == old(self).selected as int {
                        *final(self) == *old(self)
                    } else {
                        {
                            &&& final(self).selected == spec_menu_clamped_selected(
                                raw,
                                song_len as int,
                            )
                            &&& final(self).start_pos == spec_menu_clamped_start(
                                spec_menu_start(
                                    old(self).start_pos as int,
                                    old(self).height as int,
                                    raw,
                                ),
                                old(self).height as int,
                                song_len as int,
                            )
                            &&& final(self).moved
                            &&& final(self).width == old(self).width
                            &&& final(self).height == old(self).height
                            &&& final(self).fader == old(self).fader
                            &&& final(self).use_color == old(self).use_color
                        }
                    }
                })
            },
    {
        let old_selected = self.selected;
        match key {
            Key::Esc => {
                return KeyReturn::ExitMenu;
            },
            Key::Char(_) => {
                return KeyReturn::Navigate;
            },
            Key::Enter => {
                match selected_song {
                    Some(s) => {
                        return KeyReturn::PlaySong(s);
                    },
                    None => {
                        return KeyReturn::Nothing;
                    },
                }
            },
            Key::Up => {
                if self.selected > 0 {
                    self.selected -= 1;
                }
            },
            Key::PageUp => {
                if self.selected >= self.height {
                    self.selected -= self.height;
                } else {
                    self.selected = 0;
                }
            },
            Key::PageDown => {
                self.selected = if self.height <= usize::MAX - self.selected {
                    self.selected + self.height
                } else {
                    usize::MAX
                };
            },
            Key::Down => {
                if self.selected < usize::MAX {
                    self.selected += 1;
                }
            },
            _ => {
                return KeyReturn::Nothing;
            },
        }
        if self.selected == old_selected {
            return KeyReturn::Nothing;
        }
        self.moved = true;
        if self.selected < self.start_pos {
            self.start_pos = if self.start_pos >= self.height {
                self.start_pos - self.height
            } else {
                0
            };
            self.scrolled = true;
        } else if self.start_pos <= usize::MAX - self.height && self.selected >= self.start_pos
            + self.height {
            self.start_pos = self.start_pos + self.height;
            self.scrolled = true;
        }
        if song_len > 0 {
            if self.selected >= song_len - 1 {
                self.selected = song_len - 1;
            }
            if song_len <= self.height {
                self.start_pos = 0;
                self.scrolled = true;
            } else if self.start_pos > song_len - self.height {
                self.start_pos = song_len - self.height;
                self.scrolled = true;
            }
        }
        KeyReturn::Nothing
    }
}

/// The search input line: a shell at a fixed row.
#[derive(Debug)]
pub struct SearchField {
    pub shell: Shell,
    pub ypos: usize,
}

impl SearchField {
    pub fn new(ypos: usize) -> (r: SearchField)
        ensures
            r.shell@ == Seq::<char>::empty(),
            r.shell.spec_edit_pos() == 0,
            r.shell.wf(),
            r.ypos == ypos,
    {
        SearchField { shell: Shell::new(), ypos }
    }

    /// React to one key: edit the query, leave or clear on escape, hand the
    /// query over on enter, and pass movement keys to the menu.
    pub fn handle_key(&mut self, key: Key) -> (r: KeyReturn)
        requires
            old(self).shell.wf(),
        ensures
            final(self).shell.wf(),
            final(self).ypos == old(self).ypos,
            key is Backspace ==> r is Nothing && (old(self).shell.spec_edit_pos() > 0
                ==> final(self).shell@ == old(self).shell@.remove(
                old(self).shell.spec_edit_pos() - 1,
            )),
            key matches Key::Char(c) ==> r is Nothing && final(self).shell@
                == old(self).shell@.insert(old(self).shell.spec_edit_pos(), c),
            key is Esc && old(self).shell@.len() == 0 ==> r is ExitMenu && final(self).shell@
                == old(self).shell@,
            key is Esc && old(self).shell@.len() > 0 ==> r is Nothing && final(self).shell@
                == Seq::<char>::empty(),
            key is Enter ==> ({
                &&& r matches KeyReturn::Search(q)
                &&& q@ == old(self).shell@
                &&& final(self).shell@ == Seq::<char>::empty()
            }),
            (key is Up || key is Down || key is PageUp || key is PageDown) ==> r is Navigate
                && final(self).shell@ == old(self).shell@,
            key is Other ==> r is Nothing && final(self).shell@ == old(self).shell@,
    {
        match key {
            Key::Backspace => {
                self.shell.del();
                KeyReturn::Nothing
            },
            Key::Char(x) => {
                self.shell.insert(x);
                KeyReturn::Nothing
            },
            Key::Esc => {
                if self.shell.len() == 0 {
                    KeyReturn::ExitMenu
                } else {
                    self.shell.clear();
                    KeyReturn::Nothing
                }
            },
            Key::Enter => {
                let q = self.shell.command();
                self.shell.clear();
                KeyReturn::Search(q)
            },
            Key::Up | Key::Down | Key::PageUp | Key::PageDown => KeyReturn::Navigate,
            _ => KeyReturn::Nothing,
        }
    }
}

} // verus!
