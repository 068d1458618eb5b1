use crate::game::Mode;
use vstd::prelude::*;

verus! {

/// One flag per sound of the game: the title music, the game music, the
/// win music, the loss music and the death sound.
#[derive(Clone, Copy, Debug, PartialEq, Eq, Structural)]
pub struct Tracks {
    pub title: bool,
    pub game: bool,
    pub win: bool,
    pub loss: bool,
    pub death: bool,
}

/// What the player is to do on a frame: the tracks to pause, the tracks to
/// start, and whether the death sound has now been played this round.
#[derive(Clone, Copy, Debug, PartialEq, Eq, Structural)]
pub struct MusicPlan {
    pub pause: Tracks,
    pub play: Tracks,
    pub played_death_sound: bool,
}

/// No track at all.
pub open spec fn no_tracks() -> Tracks {
    Tracks { title: false, game: false, win: false, loss: false, death: false }
}

/// Decides the sound for a frame shown in `mode`, given which tracks are
/// `playing` and whether the death sound was already played this round.
/// During play every other track is paused, the game music is started if
/// silent, and the death sound is forgotten. The title starts its music if
/// silent. A win pauses the game music and starts the win music. A loss
/// pauses the game music and plays the death sound once; once it has ended
/// the loss music starts.
pub fn music_for(mode: Mode, playing: Tracks, played_death_sound: bool) -> (r: MusicPlan)
    ensures
        mode == Mode::Playing ==> {
            &&& r.pause == Tracks { game: false, ..playing }
            &&& r.play == Tracks { game: !playing.game, ..no_tracks() }
            &&& !r.played_death_sound
        },
        mode == Mode::Title ==> {
            &&& r.pause == no_tracks()
            &&& r.play == Tracks { title: !playing.title, ..no_tracks() }
            &&& r.played_death_sound == played_death_sound
        },
        mode == Mode::Won ==> {
            &&& r.pause == Tracks { game: playing.game, ..no_tracks() }
            &&& r.play == Tracks { win: !playing.win, ..no_tracks() }
            &&& r.played_death_sound == played_death_sound
        },
        mode == Mode::Lost ==> {
            &&& r.pause == Tracks { game: playing.game, ..no_tracks() }
            &&& r.play == Tracks {
                death: !playing.death && !played_death_sound,
                loss: !playing.death && played_death_sound && !playing.loss,
                ..no_tracks()
            }
            &&& r.played_death_sound == (played_death_sound || !playing.death)
        },
{
    let none = Tracks { title: false, game: false, win: false, loss: false, death: false };
    match mode {
        Mode::Playing => MusicPlan {
            pause: Tracks {
                title: playing.title,
                game: false,
                win: playing.win,
                loss: playing.loss,
                death: playing.death,
            },
            play: Tracks { game: !playing.game, ..none },
            played_death_sound: false,
        },
        Mode::Title => MusicPlan {
            pause: none,
            play: Tracks { title: !playing.title, ..none },
            played_death_sound,
        },
        Mode::Won => MusicPlan {
            pause: Tracks { game: playing.game, ..none },
            play: Tracks { win: !playing.win, ..none },
            played_death_sound,
        },
        Mode::Lost => {
            let start_death = !playing.death && !played_death_sound;
            let start_loss = !playing.death && played_death_sound && !playing.loss;
            MusicPlan {
                pause: Tracks { game: playing.game, ..none },
                play: Tracks { death: start_death, loss: start_loss, ..none },
                played_death_sound: played_death_sound || !playing.death,
            }
        },
    }
}

} // verus!
