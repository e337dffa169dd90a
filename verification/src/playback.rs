//! The audio player's control state: the two flags the playback
//! thread and its controller exchange.
//!
//! The audio output stream runs in a dedicated thread outside this
//! crate; that thread marks playback begun and finished here, while
//! the controller requests a stop and polls whether anything still
//! plays.

use vstd::prelude::*;

verus! {

/// An audio player that can be controlled across threads: playback
/// itself runs in a dedicated thread, which observes `should_stop`
/// and clears `is_playing` when it finishes.
pub struct AudioPlayer {
    /// Whether a playback is running.
    pub is_playing: bool,
    /// Whether a stop was requested.
    pub should_stop: bool,
}

impl AudioPlayer {
    /// A fresh player: nothing plays, no stop requested.  Creating a
    /// player cannot fail; the audio output is only opened when
    /// playback begins.
    pub fn new() -> (r: Result<AudioPlayer, String>)
        ensures
            r matches Ok(p) && !p.is_playing && !p.should_stop,
    {
        Ok(AudioPlayer { is_playing: false, should_stop: false })
    }

    /// Mark a playback begun: clears any pending stop request and
    /// raises the playing flag, exactly as starting the playback
    /// thread does.
    pub fn begin_playback(&mut self)
        ensures
            final(self).is_playing,
            !final(self).should_stop,
    {
        self.should_stop = false;
        self.is_playing = true;
    }

    /// Mark the playback finished: the playback thread clears the
    /// playing flag on its way out, whether it completed or was
    /// stopped.
    pub fn finish_playback(&mut self)
        ensures
            !final(self).is_playing,
            final(self).should_stop == old(self).should_stop,
    {
        self.is_playing = false;
    }

    /// Request that the running playback stop.  The playback thread
    /// observes the flag within one poll interval.
    pub fn stop(&mut self)
        ensures
            final(self).should_stop,
            final(self).is_playing == old(self).is_playing,
    {
        self.should_stop = true;
    }

    /// Whether a playback is running.
    pub fn is_playing(&self) -> (r: bool)
        ensures
            r == self.is_playing,
    {
        self.is_playing
    }
}

} // verus!
