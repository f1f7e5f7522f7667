use pong_core::arith::{clamp_i64, div_trunc_i64};
use pong_core::audio::AudioSystem;
use pong_core::ball::Side;
use pong_core::game::GameResult;
use pong_core::geom::Rect;
use pong_core::phase::{menu_choice, menu_select_step, phase_step, MatchPhase, MenuChoice};
use pong_core::trig::{cos_milli, sin_milli, sin_signed};

#[test]
fn div_trunc_rounds_toward_zero() {
    assert_eq!(div_trunc_i64(7, 2), 3);
    assert_eq!(div_trunc_i64(-7, 2), -3);
    assert_eq!(div_trunc_i64(0, 5), 0);
    assert_eq!(div_trunc_i64(999, 1000), 0);
    assert_eq!(div_trunc_i64(-999, 1000), 0);
    assert_eq!(div_trunc_i64(26_136_000, 1000), 26_136);
}

#[test]
fn clamp_pulls_into_range() {
    assert_eq!(clamp_i64(0, -5, 10), 0);
    assert_eq!(clamp_i64(0, 15, 10), 10);
    assert_eq!(clamp_i64(0, 7, 10), 7);
    assert_eq!(clamp_i64(3, 3, 3), 3);
}

#[test]
fn sine_hits_exact_anchor_points() {
    assert_eq!(sin_milli(0), 0);
    assert_eq!(sin_milli(90_000), 1000);
    assert_eq!(sin_milli(180_000), 0);
    assert_eq!(sin_milli(30_000), 500);
    assert_eq!(sin_milli(150_000), 500);
}

#[test]
fn sine_is_odd_and_cosine_even() {
    assert_eq!(sin_signed(-30_000), -500);
    assert_eq!(sin_signed(30_000), 500);
    assert_eq!(cos_milli(60_000), 500);
    assert_eq!(cos_milli(-60_000), 500);
    assert_eq!(cos_milli(0), 1000);
}

#[test]
fn cosine_of_bounce_range_is_positive() {
    let mut a: i64 = -69_000;
    while a <= 69_000 {
        assert!(cos_milli(a) >= 1);
        a += 1000;
    }
}

#[test]
fn rect_overlap_is_edge_inclusive() {
    let a = Rect::new(0, 0, 10, 10);
    let corner = Rect::new(10, 10, 5, 5);
    let apart = Rect::new(11, 0, 5, 5);
    let inside = Rect::new(2, 2, 3, 3);
    assert!(a.overlaps(&corner));
    assert!(!a.overlaps(&apart));
    assert!(a.overlaps(&inside));
    assert!(inside.overlaps(&a));
}

#[test]
fn menu_cursor_toggles() {
    assert_eq!(menu_select_step(0, true, false), 1);
    assert_eq!(menu_select_step(1, true, false), 0);
    assert_eq!(menu_select_step(0, false, true), 1);
    assert_eq!(menu_select_step(1, false, true), 0);
    assert_eq!(menu_select_step(0, false, false), 0);
    assert_eq!(menu_select_step(0, true, true), 0);
    assert_eq!(menu_select_step(1, true, true), 1);
}

#[test]
fn menu_confirm_picks_mode() {
    assert_eq!(menu_choice(0, true), MenuChoice::OnePlayer);
    assert_eq!(menu_choice(1, true), MenuChoice::TwoPlayers);
    assert_eq!(menu_choice(0, false), MenuChoice::NoSelection);
    assert_eq!(menu_choice(1, false), MenuChoice::NoSelection);
}

#[test]
fn phase_machine_takes_valid_transitions() {
    let menu = MatchPhase::Menu;
    assert_eq!(
        phase_step(menu, MenuChoice::OnePlayer, false, false, GameResult::Continue),
        MatchPhase::Playing
    );
    assert_eq!(
        phase_step(menu, MenuChoice::TwoPlayers, false, false, GameResult::Continue),
        MatchPhase::Playing
    );
    assert_eq!(
        phase_step(MatchPhase::Playing, MenuChoice::NoSelection, true, false, GameResult::Continue),
        MatchPhase::Paused
    );
    assert_eq!(
        phase_step(MatchPhase::Playing, MenuChoice::NoSelection, false, false, GameResult::LeftWins),
        MatchPhase::GameOver(Side::Left)
    );
    assert_eq!(
        phase_step(MatchPhase::Playing, MenuChoice::NoSelection, false, false, GameResult::RightWins),
        MatchPhase::GameOver(Side::Right)
    );
    assert_eq!(
        phase_step(MatchPhase::Paused, MenuChoice::NoSelection, true, false, GameResult::Continue),
        MatchPhase::Playing
    );
    assert_eq!(
        phase_step(MatchPhase::GameOver(Side::Left), MenuChoice::NoSelection, false, true, GameResult::Continue),
        MatchPhase::Menu
    );
}

#[test]
fn phase_machine_ignores_meaningless_inputs() {
    assert_eq!(
        phase_step(MatchPhase::Menu, MenuChoice::NoSelection, true, true, GameResult::LeftWins),
        MatchPhase::Menu
    );
    assert_eq!(
        phase_step(MatchPhase::Paused, MenuChoice::OnePlayer, false, true, GameResult::LeftWins),
        MatchPhase::Paused
    );
    assert_eq!(
        phase_step(MatchPhase::GameOver(Side::Right), MenuChoice::OnePlayer, true, false, GameResult::Continue),
        MatchPhase::GameOver(Side::Right)
    );
    assert_eq!(
        phase_step(MatchPhase::Playing, MenuChoice::OnePlayer, false, false, GameResult::Continue),
        MatchPhase::Playing
    );
}

#[test]
fn audio_tracks_follow_screens() {
    let mut audio = AudioSystem::new();
    assert!(!audio.menu_playing);
    assert!(!audio.game_playing);
    audio.update_menu(16);
    assert!(audio.menu_playing);
    assert!(!audio.game_playing);
    audio.update_game(16);
    assert!(!audio.menu_playing);
    assert!(audio.game_playing);
    audio.play_hit_sound();
    audio.play_select_sound();
    audio.play_score_sound();
    assert!(!audio.menu_playing);
    assert!(audio.game_playing);
    audio.stop();
    assert!(!audio.menu_playing);
    assert!(!audio.game_playing);
}
