use flappy_bird_wasm::fixed::ONE;
use flappy_bird_wasm::game::{
    Game, GameState, BASE_GRAVITY, BASE_SPEED, FLAP_IMPULSE, MAX_FLAP, POSES, START_Y,
    TICKS_PER_POSE,
};
use flappy_bird_wasm::pipe::{Pipe, FIELD, PIPE_WIDTH, SPAWN_X};
use flappy_bird_wasm::theorems::{FALL_LIMIT, FIRST_FALL};

fn started() -> Game {
    let mut game = Game::new();
    game.start_game();
    game
}

/// Plays `ticks` ticks, every gap at `sample`, with a flap whenever the bird
/// is at or below `floor`.
fn play(game: &mut Game, ticks: u32, sample: i64, floor: i64) {
    for _ in 0..ticks {
        if game.bird_y() >= floor {
            game.flap();
        }
        game.update_with(sample);
    }
}

#[test]
fn the_base_constants_are_exact() {
    assert_eq!(2 * BASE_SPEED, 3 * ONE);
    assert_eq!(5 * BASE_GRAVITY, 2 * ONE);
    assert_eq!(FLAP_IMPULSE, 8 * ONE);
    assert_eq!(MAX_FLAP, 9 * ONE);
    assert_eq!(START_Y, 200 * ONE);
}

#[test]
fn a_new_game_waits_in_the_menu() {
    let game = Game::new();
    assert_eq!(game.get_state(), GameState::Menu);
    assert_eq!(game.bird_y(), 200 * ONE);
    assert_eq!(game.bird_y(), START_Y);
    assert_eq!(game.bird_velocity(), 0);
    assert_eq!(game.score(), 0);
    assert!(game.pipes().is_empty());
    assert_eq!(game.game_speed(), BASE_SPEED);
    assert_eq!(game.gravity(), BASE_GRAVITY);
    assert_eq!(game.bird_frame(), 0);
    assert_eq!(game.frame_count(), 0);
}

#[test]
fn flap_in_the_menu_leaves_the_velocity() {
    let mut game = Game::new();
    game.flap();
    assert_eq!(game.bird_velocity(), 0);
    assert_eq!(game.get_state(), GameState::Menu);
    assert_eq!(game.bird_y(), START_Y);
}

#[test]
fn flap_has_effect_only_while_playing() {
    let mut game = started();
    game.toggle_pause();
    game.flap();
    assert_eq!(game.bird_velocity(), 0);
    game.toggle_pause();
    game.flap();
    assert_eq!(game.bird_velocity(), -8 * ONE);
    assert_eq!(game.bird_velocity(), -FLAP_IMPULSE);
    for _ in 0..40 {
        game.flap();
        game.update_with(0);
    }
    assert_eq!(game.get_state(), GameState::GameOver);
    let velocity = game.bird_velocity();
    game.flap();
    assert_eq!(game.bird_velocity(), velocity);
}

#[test]
fn start_from_the_menu_begins_a_session() {
    let mut game = Game::new();
    game.start_game();
    assert_eq!(game.get_state(), GameState::Playing);
    assert_eq!(game.score(), 0);
    assert!(game.pipes().is_empty());
    assert_eq!(game.bird_y(), 200 * ONE);
    assert_eq!(game.bird_velocity(), 0);
}

#[test]
fn start_while_playing_changes_nothing() {
    let mut game = started();
    play(&mut game, 10, 150 * ONE, 250 * ONE);
    let (y, v, count) = (game.bird_y(), game.bird_velocity(), game.frame_count());
    let pipes: Vec<Pipe> = game.pipes().clone();
    game.start_game();
    assert_eq!(game.get_state(), GameState::Playing);
    assert_eq!((game.bird_y(), game.bird_velocity(), game.frame_count()), (y, v, count));
    assert_eq!(game.pipes(), &pipes);
}

#[test]
fn start_resumes_a_paused_game_without_reset() {
    let mut game = started();
    play(&mut game, 10, 150 * ONE, 250 * ONE);
    let (y, v) = (game.bird_y(), game.bird_velocity());
    game.toggle_pause();
    assert_eq!(game.get_state(), GameState::Paused);
    game.start_game();
    assert_eq!(game.get_state(), GameState::Playing);
    assert_eq!((game.bird_y(), game.bird_velocity()), (y, v));
    assert_eq!(game.pipes().len(), 1);
}

#[test]
fn start_after_a_game_over_resets() {
    let mut game = started();
    play(&mut game, 60, 150 * ONE, FIELD);
    assert_eq!(game.get_state(), GameState::GameOver);
    assert!(game.bird_y() >= FIELD);
    game.start_game();
    assert_eq!(game.get_state(), GameState::Playing);
    assert_eq!(game.bird_y(), START_Y);
    assert_eq!(game.bird_velocity(), 0);
    assert_eq!(game.score(), 0);
    assert!(game.pipes().is_empty());
}

#[test]
fn the_first_tick_adds_one_pipe() {
    let mut game = started();
    game.update_with(120 * ONE);
    assert_eq!(game.pipes().len(), 1);
    let pipe = game.pipes()[0];
    assert_eq!(pipe.x, 500 * ONE);
    assert_eq!(pipe.x, SPAWN_X);
    assert_eq!(pipe.width, 50 * ONE);
    assert_eq!(pipe.width, PIPE_WIDTH);
    assert_eq!(pipe.gap_height, 200 * ONE);
    assert_eq!(pipe.gap_height, game.get_current_gap_height());
    assert_eq!(pipe.gap_y, 120 * ONE);
    assert!(!pipe.passed);
}

#[test]
fn the_first_tick_with_a_random_gap_adds_one_pipe() {
    let mut game = started();
    game.update();
    assert_eq!(game.pipes().len(), 1);
    let pipe = game.pipes()[0];
    assert_eq!(pipe.x, 500 * ONE);
    assert_eq!(pipe.width, 50 * ONE);
    assert_eq!(pipe.gap_height, 200 * ONE);
    assert!(100 * ONE <= pipe.gap_y && pipe.gap_y < 200 * ONE);
    assert_eq!(game.bird_velocity(), BASE_GRAVITY);
    assert_eq!(game.bird_y(), START_Y + BASE_GRAVITY);
    assert_eq!(game.frame_count(), 1);
}

#[test]
fn random_gaps_stay_in_range_and_differ() {
    let mut seen: Vec<i64> = Vec::new();
    for _ in 0..64 {
        let mut game = started();
        game.update();
        let gap_y = game.pipes()[0].gap_y;
        assert!(100 * ONE <= gap_y && gap_y < 200 * ONE);
        if !seen.contains(&gap_y) {
            seen.push(gap_y);
        }
    }
    assert!(seen.len() > 1);
    assert!(seen.iter().any(|&gap_y| gap_y != 100 * ONE));
}

#[test]
fn a_sample_outside_the_range_is_brought_into_it() {
    let mut low = started();
    low.update_with(i64::MIN);
    assert_eq!(low.pipes()[0].gap_y, 100 * ONE);
    let mut high = started();
    high.update_with(i64::MAX);
    assert_eq!(high.pipes()[0].gap_y, 200 * ONE - 1);
    let mut edge = started();
    edge.update_with(200 * ONE);
    assert_eq!(edge.pipes()[0].gap_y, 200 * ONE - 1);
    let mut inside = started();
    inside.update_with(100 * ONE);
    assert_eq!(inside.pipes()[0].gap_y, 100 * ONE);
}

#[test]
fn gravity_accelerates_the_bird() {
    let mut game = started();
    game.update_with(0);
    assert_eq!(game.bird_velocity(), 5_525_520);
    assert_eq!(game.bird_y(), 200 * ONE + 5_525_520);
    game.update_with(0);
    assert_eq!(game.bird_velocity(), 2 * 5_525_520);
    assert_eq!(game.bird_y(), 200 * ONE + 3 * 5_525_520);
    game.flap();
    game.update_with(0);
    assert_eq!(game.bird_velocity(), -8 * ONE + 5_525_520);
    assert_eq!(game.bird_y(), 200 * ONE + 3 * 5_525_520 - 8 * ONE + 5_525_520);
}

#[test]
fn pipes_scroll_by_the_current_speed() {
    let mut game = started();
    game.update_with(150 * ONE);
    game.update_with(150 * ONE);
    assert_eq!(game.pipes()[0].x, 500 * ONE - 20_720_700);
    game.update_with(150 * ONE);
    assert_eq!(game.pipes()[0].x, 500 * ONE - 2 * 20_720_700);
    assert_eq!(game.pipes()[0].gap_y, 150 * ONE);
    assert_eq!(game.pipes().len(), 1);
}

#[test]
fn a_falling_bird_ends_the_game_at_tick_39() {
    assert_eq!(FIRST_FALL, 39);
    let mut game = started();
    for tick in 1..39 {
        game.update_with(0);
        assert_eq!(game.get_state(), GameState::Playing, "tick {}", tick);
        assert!(game.bird_y() < FIELD);
    }
    assert_eq!(game.bird_y(), 200 * ONE + 741 * 5_525_520);
    game.update_with(0);
    assert_eq!(game.get_state(), GameState::GameOver);
    assert_eq!(game.bird_y(), 512 * ONE);
    assert!(game.bird_y() >= 500 * ONE);
    assert_eq!(game.bird_velocity(), 39 * 5_525_520);
    assert_eq!(game.frame_count(), 39);
    assert_eq!(game.score(), 0);
}

#[test]
fn a_falling_bird_ends_the_game_with_random_gaps_too() {
    let mut game = started();
    for tick in 1..39 {
        game.update();
        assert_eq!(game.get_state(), GameState::Playing, "tick {}", tick);
    }
    game.update();
    assert_eq!(game.get_state(), GameState::GameOver);
    assert_eq!(game.bird_y(), 512 * ONE);
}

#[test]
fn without_flaps_every_game_is_over_within_77_ticks() {
    assert_eq!(FALL_LIMIT, 77);
    for flaps in 0..30 {
        let mut game = started();
        for _ in 0..flaps {
            game.flap();
            game.update_with(150 * ONE);
        }
        if game.get_state() != GameState::Playing {
            continue;
        }
        game.flap();
        assert!(game.bird_velocity() >= -MAX_FLAP);
        for _ in 0..FALL_LIMIT {
            game.update_with(150 * ONE);
        }
        assert_eq!(game.get_state(), GameState::GameOver, "after {} flaps", flaps);
    }
}

#[test]
fn a_game_over_freezes_the_game() {
    let mut game = started();
    play(&mut game, 39, 0, FIELD);
    assert_eq!(game.get_state(), GameState::GameOver);
    let (y, v, count) = (game.bird_y(), game.bird_velocity(), game.frame_count());
    game.update_with(0);
    game.update();
    game.toggle_pause();
    assert_eq!(game.get_state(), GameState::GameOver);
    assert_eq!((game.bird_y(), game.bird_velocity(), game.frame_count()), (y, v, count));
}

#[test]
fn flapping_into_the_ceiling_ends_the_game() {
    let mut game = started();
    for tick in 1..27 {
        game.flap();
        game.update_with(0);
        assert_eq!(game.get_state(), GameState::Playing, "tick {}", tick);
    }
    game.flap();
    game.update_with(0);
    assert_eq!(game.get_state(), GameState::GameOver);
    assert_eq!(game.bird_y(), -71_831_760);
    assert!(game.bird_y() <= 0);
}

#[test]
fn pause_twice_returns_to_playing() {
    let mut game = started();
    game.toggle_pause();
    assert_eq!(game.get_state(), GameState::Paused);
    game.toggle_pause();
    assert_eq!(game.get_state(), GameState::Playing);
}

#[test]
fn pause_has_no_effect_in_menu_or_after_game_over() {
    let mut game = Game::new();
    game.toggle_pause();
    assert_eq!(game.get_state(), GameState::Menu);
    game.start_game();
    play(&mut game, 39, 0, FIELD);
    assert_eq!(game.get_state(), GameState::GameOver);
    game.toggle_pause();
    assert_eq!(game.get_state(), GameState::GameOver);
}

#[test]
fn a_paused_game_is_frozen() {
    let mut game = started();
    play(&mut game, 12, 150 * ONE, 250 * ONE);
    game.toggle_pause();
    let (y, v, score) = (game.bird_y(), game.bird_velocity(), game.score());
    let (frame, count) = (game.bird_frame(), game.frame_count());
    let pipes: Vec<Pipe> = game.pipes().clone();
    for _ in 0..25 {
        game.update();
        game.update_with(150 * ONE);
    }
    assert_eq!(game.get_state(), GameState::Paused);
    assert_eq!(game.bird_y(), y);
    assert_eq!(game.bird_velocity(), v);
    assert_eq!(game.score(), score);
    assert_eq!(game.pipes(), &pipes);
    assert_eq!(game.frame_count(), count);
    assert_eq!(game.frame_count(), 12);
    assert_eq!(game.bird_frame(), frame);
}

#[test]
fn the_menu_is_frozen_too() {
    let mut game = Game::new();
    game.update();
    game.update_with(0);
    assert_eq!(game.get_state(), GameState::Menu);
    assert_eq!(game.frame_count(), 0);
    assert!(game.pipes().is_empty());
    assert_eq!(game.bird_y(), START_Y);
}

#[test]
fn quit_then_start_gives_the_initial_physical_state() {
    let fresh = Game::new();
    let mut game = started();
    play(&mut game, 400, 150 * ONE, 250 * ONE);
    assert_eq!(game.score(), 1);
    assert!(!game.pipes().is_empty());
    game.quit_game();
    assert_eq!(game.get_state(), GameState::Menu);
    game.start_game();
    assert_eq!(game.get_state(), GameState::Playing);
    assert_eq!(game.bird_y(), fresh.bird_y());
    assert_eq!(game.bird_velocity(), fresh.bird_velocity());
    assert_eq!(game.score(), fresh.score());
    assert_eq!(game.pipes(), fresh.pipes());
    assert_eq!(game.game_speed(), fresh.game_speed());
    assert_eq!(game.gravity(), fresh.gravity());
    assert_eq!(game.bird_y(), 200 * ONE);
    assert_eq!(game.game_speed(), 20_720_700);
    assert_eq!(game.gravity(), 5_525_520);
}

#[test]
fn quit_resets_from_every_state() {
    let mut menu = Game::new();
    menu.quit_game();
    assert_eq!(menu.get_state(), GameState::Menu);
    let mut paused = started();
    play(&mut paused, 5, 0, 250 * ONE);
    paused.toggle_pause();
    paused.quit_game();
    assert_eq!(paused.get_state(), GameState::Menu);
    assert!(paused.pipes().is_empty());
    assert_eq!(paused.bird_y(), START_Y);
    assert_eq!(paused.frame_count(), 5);
    let mut over = started();
    play(&mut over, 39, 0, FIELD);
    over.quit_game();
    assert_eq!(over.get_state(), GameState::Menu);
    assert_eq!(over.bird_velocity(), 0);
}

#[test]
fn the_pose_changes_every_tenth_tick() {
    assert_eq!((TICKS_PER_POSE, POSES), (10, 3));
    let mut game = started();
    let mut expected = 0;
    for tick in 1..=65u32 {
        if game.bird_y() >= 250 * ONE {
            game.flap();
        }
        game.update_with(150 * ONE);
        if tick % 10 == 0 {
            expected = (expected + 1) % 3;
        }
        assert_eq!(game.frame_count(), tick);
        assert_eq!(game.bird_frame(), expected, "tick {}", tick);
    }
    assert_eq!(game.bird_frame(), 0);
}

#[test]
fn the_score_counts_each_pipe_once() {
    let mut game = started();
    play(&mut game, 301, 150 * ONE, 250 * ONE);
    assert_eq!(game.score(), 0);
    assert_eq!(game.pipes()[0].x, 50 * ONE);
    assert!(!game.pipes()[0].passed);
    play(&mut game, 1, 150 * ONE, 250 * ONE);
    assert_eq!(game.score(), 1);
    assert!(game.pipes()[0].passed);
    assert_eq!(game.pipes()[0].x, 50 * ONE - 20_720_700);
    play(&mut game, 1, 150 * ONE, 250 * ONE);
    assert_eq!(game.score(), 1);
    assert_eq!(game.pipes()[0].x, 50 * ONE - 20_720_700 - 21_756_735);
    assert_eq!(game.get_current_speed(), 21_756_735);
    assert_eq!(game.get_current_gravity(), 5_801_796);
    assert_eq!(game.get_difficulty_multiplier(), 14_504_490);
    play(&mut game, 125, 150 * ONE, 250 * ONE);
    assert_eq!(game.score(), 1);
    play(&mut game, 1, 150 * ONE, 250 * ONE);
    assert_eq!(game.score(), 2);
    assert_eq!(game.frame_count(), 429);
}

#[test]
fn pipes_appear_and_leave_on_schedule() {
    let mut game = started();
    play(&mut game, 134, 150 * ONE, 250 * ONE);
    assert_eq!(game.pipes().len(), 1);
    play(&mut game, 1, 150 * ONE, 250 * ONE);
    assert_eq!(game.pipes().len(), 2);
    assert_eq!(game.pipes()[0].x, 299 * ONE);
    assert_eq!(game.pipes()[1].x, 500 * ONE);
    play(&mut game, 133, 150 * ONE, 250 * ONE);
    assert_eq!(game.pipes().len(), 2);
    play(&mut game, 1, 150 * ONE, 250 * ONE);
    assert_eq!(game.pipes().len(), 3);
    play(&mut game, 95, 150 * ONE, 250 * ONE);
    assert_eq!(game.pipes().len(), 3);
    assert!(game.pipes()[0].x > -50 * ONE);
    play(&mut game, 1, 150 * ONE, 250 * ONE);
    assert_eq!(game.frame_count(), 365);
    assert_eq!(game.pipes().len(), 2);
    assert_eq!(game.pipes()[0].x, 2_075_868_795);
    assert_eq!(game.pipes()[1].x, 4_852_442_595);
    assert_eq!(game.get_state(), GameState::Playing);
}

#[test]
fn a_new_pipe_takes_the_gap_of_the_score_just_reached() {
    let mut game = started();
    let mut heights: Vec<i64> = Vec::new();
    for _ in 0..1300 {
        if game.bird_y() >= 250 * ONE {
            game.flap();
        }
        game.update_with(150 * ONE);
        let pipe = *game.pipes().last().unwrap();
        if pipe.x == SPAWN_X {
            assert_eq!(pipe.gap_height, game.get_current_gap_height());
            assert_eq!(pipe.gap_y, 150 * ONE);
            heights.push(pipe.gap_height);
        }
    }
    assert_eq!(game.get_state(), GameState::Playing);
    assert_eq!(game.score(), 10);
    assert_eq!(
        heights,
        vec![
            200 * ONE,
            200 * ONE,
            200 * ONE,
            2_631_200_000,
            2_511_600_000,
            2_402_400_000,
            2_302_300_000,
            160 * ONE,
            2_125_200_000,
            150 * ONE,
            150 * ONE,
            150 * ONE,
        ]
    );
}

#[test]
fn a_long_game_keeps_its_invariants() {
    let mut game = started();
    let mut last_score = 0;
    for tick in 1..=6000u32 {
        if game.bird_y() >= 250 * ONE {
            game.flap();
        }
        game.update_with(150 * ONE);
        assert_eq!(game.get_state(), GameState::Playing, "tick {}", tick);
        assert!(game.score() >= last_score);
        assert!(game.score() <= last_score + 1);
        last_score = game.score();
        let pipes = game.pipes();
        assert!(!pipes.is_empty() && pipes.len() <= 3);
        for (i, pipe) in pipes.iter().enumerate() {
            assert!(pipe.x > -pipe.width);
            assert!(pipe.x <= 500 * ONE);
            assert_eq!(pipe.width, 50 * ONE);
            assert_eq!(pipe.passed, 100 * ONE > pipe.x + pipe.width);
            assert!(150 * ONE <= pipe.gap_height && pipe.gap_height <= 200 * ONE);
            if i > 0 {
                assert!(pipe.x - pipes[i - 1].x > 200 * ONE);
            }
        }
        assert!(pipes.iter().filter(|pipe| pipe.x >= 300 * ONE).count() <= 1);
        let m = game.get_difficulty_multiplier();
        assert!(ONE <= m && m <= 2 * ONE);
        assert!(0 < game.bird_y() && game.bird_y() < FIELD);
    }
    assert_eq!(game.score(), 78);
    assert_eq!(game.get_difficulty_multiplier(), 2 * ONE);
    assert_eq!(game.get_current_speed(), 3 * ONE);
    assert_eq!(game.get_current_gravity(), 2 * 5_525_520);
    assert_eq!(game.bird_y(), 3_160_735_578);
    assert_eq!(game.bird_velocity(), -80_120_040);
    assert_eq!(game.frame_count(), 6000);
    assert_eq!(game.bird_frame(), 0);
    game.flap();
    assert_eq!(game.bird_velocity(), -9 * ONE);
    assert_eq!(game.bird_velocity(), -MAX_FLAP);
    let xs: Vec<i64> = game.pipes().iter().map(|pipe| pipe.x).collect();
    assert_eq!(xs, vec![1_187_986_800, 3_964_560_600, 6_741_134_400]);
}

#[test]
fn the_bird_hits_a_pipe_it_does_not_clear() {
    let mut game = started();
    for tick in 1..248 {
        if game.bird_y() >= 120 * ONE {
            game.flap();
        }
        game.update_with(200 * ONE);
        assert_eq!(game.get_state(), GameState::Playing, "tick {}", tick);
    }
    if game.bird_y() >= 120 * ONE {
        game.flap();
    }
    game.update_with(200 * ONE);
    assert_eq!(game.get_state(), GameState::GameOver);
    assert!(0 < game.bird_y() && game.bird_y() < FIELD);
    assert_eq!(game.bird_y(), 1_326_124_800);
    assert_eq!(game.pipes()[0].x, 1_788_887_100);
    assert_eq!(game.pipes()[0].gap_y, 200 * ONE - 1);
    assert_eq!(game.score(), 0);
}
