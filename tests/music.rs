use snake::{music_for, Mode, Tracks};

const NONE: Tracks = Tracks { title: false, game: false, win: false, loss: false, death: false };

#[test]
fn play_pauses_the_rest_and_starts_the_game_music() {
    let playing = Tracks { title: true, loss: true, ..NONE };
    let plan = music_for(Mode::Playing, playing, true);
    assert_eq!(plan.pause, Tracks { title: true, loss: true, ..NONE });
    assert_eq!(plan.play, Tracks { game: true, ..NONE });
    assert!(!plan.played_death_sound);
}

#[test]
fn game_music_already_playing_is_left_alone() {
    let plan = music_for(Mode::Playing, Tracks { game: true, ..NONE }, false);
    assert_eq!(plan.pause, NONE);
    assert_eq!(plan.play, NONE);
}

#[test]
fn title_starts_its_music_once() {
    assert_eq!(music_for(Mode::Title, NONE, false).play, Tracks { title: true, ..NONE });
    assert_eq!(music_for(Mode::Title, Tracks { title: true, ..NONE }, false).play, NONE);
}

#[test]
fn win_swaps_game_music_for_win_music() {
    let plan = music_for(Mode::Won, Tracks { game: true, ..NONE }, false);
    assert_eq!(plan.pause, Tracks { game: true, ..NONE });
    assert_eq!(plan.play, Tracks { win: true, ..NONE });
}

#[test]
fn loss_plays_the_death_sound_then_the_loss_music() {
    let first = music_for(Mode::Lost, Tracks { game: true, ..NONE }, false);
    assert_eq!(first.pause, Tracks { game: true, ..NONE });
    assert_eq!(first.play, Tracks { death: true, ..NONE });
    assert!(first.played_death_sound);

    let during = music_for(Mode::Lost, Tracks { death: true, ..NONE }, true);
    assert_eq!(during.play, NONE);
    assert!(during.played_death_sound);

    let after = music_for(Mode::Lost, NONE, true);
    assert_eq!(after.play, Tracks { loss: true, ..NONE });

    let looping = music_for(Mode::Lost, Tracks { loss: true, ..NONE }, true);
    assert_eq!(looping.play, NONE);
}
