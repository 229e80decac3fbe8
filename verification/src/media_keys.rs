//! Media-key events from the remote control surface, and the play-state
//! record whose readings the surface publishes.  The bus plumbing itself is
//! the application's.

use vstd::prelude::*;

verus! {

/// A transport key pressed on the remote control surface.
#[derive(Clone, Copy, Debug, PartialEq, Eq, Structural)]
pub enum MediaKeyEvent {
    Next,
    Previous,
    PlayPause,
    Play,
    Pause,
    Stop,
}

/// What the player tells the remote control surface.
#[derive(Debug)]
pub enum MediaKeyInfo {
    Author(String),
    Title(String),
    Playing,
    Paused,
    Shutdown,
}

/// What the surface knows of the player.
#[derive(Debug)]
pub struct PlayState {
    pub is_playing: bool,
    pub title: String,
    pub author: String,
}

impl PlayState {
    pub fn new() -> (r: PlayState)
        ensures
            !r.is_playing,
            r.title@ == Seq::<char>::empty(),
            r.author@ == Seq::<char>::empty(),
    {
        PlayState { is_playing: false, title: String::new(), author: String::new() }
    }

    /// The transport status string the surface publishes.
    pub fn playback_status(&self) -> (r: String)
        ensures
            self.is_playing ==> r@ == "Playing"@,
            !self.is_playing ==> r@ == "Paused"@,
    {
        if self.is_playing {
            "Playing".to_owned()
        } else {
            "Paused".to_owned()
        }
    }

    /// Play is offered exactly while paused.
    pub fn can_play(&self) -> (r: bool)
        ensures
            r == !self.is_playing,
    {
        !self.is_playing
    }

    /// Pause is offered exactly while playing.
    pub fn can_pause(&self) -> (r: bool)
        ensures
            r == self.is_playing,
    {
        self.is_playing
    }

    /// Absorb one reading from the player.
    pub fn update(&mut self, info: &MediaKeyInfo)
        ensures
            info matches MediaKeyInfo::Playing ==> *final(self) == (PlayState {
                is_playing: true,
                ..*old(self)
            }),
            info matches MediaKeyInfo::Paused ==> *final(self) == (PlayState {
                is_playing: false,
                ..*old(self)
            }),
            info matches MediaKeyInfo::Title(t) ==> {
                &&& final(self).title@ == t@
                &&& final(self).is_playing == old(self).is_playing
                &&& final(self).author == old(self).author
            },
            info matches MediaKeyInfo::Author(a) ==> {
                &&& final(self).author@ == a@
                &&& final(self).is_playing == old(self).is_playing
                &&& final(self).title == old(self).title
            },
            info is Shutdown ==> *final(self) == *old(self),
    {
        match info {
            MediaKeyInfo::Playing => self.is_playing = true,
            MediaKeyInfo::Paused => self.is_playing = false,
            MediaKeyInfo::Title(t) => self.title = t.clone(),
            MediaKeyInfo::Author(a) => self.author = a.clone(),
            MediaKeyInfo::Shutdown => {},
        }
    }
}

} // verus!
