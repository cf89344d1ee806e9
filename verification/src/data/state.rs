//! The state that is remembered between runs of the player. The speed and the
//! volume of playback are fractions and are kept by the program around the library.
use crate::text::copy_str;
use vstd::prelude::*;

verus! {

#[derive(Debug)]
pub struct State {
    /// whether the song was playing (and not paused) when the state was saved
    pub is_playing: bool,
    /// whether the screen is replaced by a short message and not redrawn
    pub dont_redraw_screen: bool,
    /// the name of the current playlist
    pub current_playlist: String,
}

pub struct StateView {
    pub is_playing: bool,
    pub dont_redraw_screen: bool,
    pub current_playlist: Seq<char>,
}

impl View for State {
    type V = StateView;

    open spec fn view(&self) -> StateView {
        StateView {
            is_playing: self.is_playing,
            dont_redraw_screen: self.dont_redraw_screen,
            current_playlist: self.current_playlist@,
        }
    }
}

impl Default for State {
    fn default() -> (r: State)
        ensures
            !r@.is_playing,
            !r@.dont_redraw_screen,
            r@.current_playlist == "main"@,
    {
        State { is_playing: false, dont_redraw_screen: false, current_playlist: copy_str("main") }
    }
}

} // verus!
