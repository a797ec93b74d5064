//! Whether the music plays.

use vstd::prelude::*;

verus! {

/// The switch of a piece of music: whether it sounds at the moment, whether
/// the player wants it, and how loud it is.
#[derive(Clone, Copy, Debug, PartialEq, Eq)]
pub struct MusicParams {
    pub is_playing: bool,
    pub is_activated: bool,
    pub volume: i64,
}

/// What is to be done with a piece of music.
#[derive(Clone, Copy, Debug, PartialEq, Eq, Structural)]
pub enum MusicAction {
    /// Start it, looped, at the volume of the switch.
    Start,
    /// Stop it.
    Stop,
    /// Leave it as it is.
    Keep,
}

/// Brings the music in line with what the player wants: music that is wanted
/// and silent is to be started, music that sounds and is not wanted is to be
/// stopped. The switch records the outcome; the caller does what is returned.
pub fn play_music(params: &mut MusicParams) -> (action: MusicAction)
    ensures
        final(params).is_activated == old(params).is_activated,
        final(params).volume == old(params).volume,
        final(params).is_playing == old(params).is_activated,
        action == if old(params).is_activated && !old(params).is_playing {
            MusicAction::Start
        } else if !old(params).is_activated && old(params).is_playing {
            MusicAction::Stop
        } else {
            MusicAction::Keep
        },
{
    if !params.is_playing && params.is_activated {
        params.is_playing = true;
        MusicAction::Start
    } else if params.is_playing && !params.is_activated {
        params.is_playing = false;
        MusicAction::Stop
    } else {
        MusicAction::Keep
    }
}

} // verus!
