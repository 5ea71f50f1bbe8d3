//! What holds of the game as a whole: facts that relate several
//! operations, and facts about runs of many ticks.

use vstd::prelude::*;
use crate::fixed::ONE;
use crate::difficulty::{gap_height, lemma_gap_exact, BASE_GAP};
use crate::pipe::{
    PipeView,
    on_screen,
    passing,
    lemma_scroll_valid,
    lemma_scroll_shape,
    PIPE_WIDTH,
    SPAWN_X,
};
use crate::collision::collides;
use crate::game::{GameState, GameView, BASE_GRAVITY, BASE_SPEED, MAX_FLAP, START_Y};

verus! {

/// A game that is being played without a flap is over after at most this
/// many ticks.
pub const FALL_LIMIT: u32 = 77;

/// A new session with no flap ends with exactly this tick.
pub const FIRST_FALL: u32 = 39;

/// The game after one tick for each of `samples`, in order.
pub open spec fn run(g: GameView, samples: Seq<int>) -> GameView
    decreases samples.len(),
{
    if samples.len() == 0 {
        g
    } else {
        run(g, samples.drop_last()).tick(samples.last())
    }
}

/// The sum `1 + 2 + ... + n`.
pub open spec fn triangle(n: nat) -> nat
    decreases n,
{
    if n == 0 {
        0
    } else {
        n + triangle((n - 1) as nat)
    }
}

/// A flap changes nothing unless the game is being played.
pub proof fn lemma_flap_needs_play(g: GameView)
    requires
        g.state != GameState::Playing,
    ensures
        g.flap() == g,
{
}

/// Starting from the menu begins a session: the game is being played, the
/// score is 0, there are no pipes, and the bird rests at its starting
/// height.
pub proof fn lemma_start_from_menu(g: GameView)
    requires
        g.state == GameState::Menu,
    ensures
        g.start_game().state == GameState::Playing,
        g.start_game().score == 0,
        g.start_game().pipes == Seq::<PipeView>::empty(),
        g.start_game().bird_y == START_Y,
        g.start_game().bird_velocity == 0,
{
}

/// A tick of a game that is being played with no pipes on the field adds
/// exactly one pipe: at the right edge, 50 pixels wide, with the gap
/// height of the current score, which at score 0 is 200 pixels.
pub proof fn lemma_first_pipe(g: GameView, sample: int)
    requires
        g.state == GameState::Playing,
        g.pipes.len() == 0,
    ensures
        g.tick(sample).pipes.len() == 1,
        g.tick(sample).pipes[0].x == SPAWN_X,
        g.tick(sample).pipes[0].width == PIPE_WIDTH,
        g.tick(sample).pipes[0].gap_height == gap_height(g.score),
        !g.tick(sample).pipes[0].passed,
        g.tick(sample).score == g.score,
        g.score == 0 ==> g.tick(sample).pipes[0].gap_height == BASE_GAP,
{
    reveal(Seq::filter);
    lemma_gap_exact(0);
}

/// Pausing twice brings the game back to where it was, whatever its state.
pub proof fn lemma_pause_twice(g: GameView)
    ensures
        g.toggle_pause().toggle_pause() == g,
        g.state == GameState::Playing ==> g.toggle_pause().state == GameState::Paused,
{
}

/// A tick changes nothing unless the game is being played: a paused game
/// is frozen, animation counters included.
pub proof fn lemma_tick_needs_play(g: GameView, sample: int)
    requires
        g.state != GameState::Playing,
    ensures
        g.tick(sample) == g,
{
}

/// Quitting and starting again gives the bird, the pipes, the score, the
/// speed and the gravity that a new game has, whatever went before.
pub proof fn lemma_quit_then_start(g: GameView)
    ensures
        g.quit_game().start_game().state == GameState::Playing,
        g.quit_game().start_game().bird_y == GameView::initial().bird_y,
        g.quit_game().start_game().bird_velocity == GameView::initial().bird_velocity,
        g.quit_game().start_game().score == GameView::initial().score,
        g.quit_game().start_game().pipes == GameView::initial().pipes,
        g.quit_game().start_game().game_speed == GameView::initial().game_speed,
        g.quit_game().start_game().gravity == GameView::initial().gravity,
        g.quit_game().start_game() == GameView::initial().start_game().with_counters_of(g),
{
}

/// Every operation keeps the game valid.
pub proof fn lemma_operations_keep_valid(g: GameView, sample: int)
    requires
        g.valid(),
    ensures
        GameView::initial().valid(),
        g.flap().valid(),
        g.toggle_pause().valid(),
        g.start_game().valid(),
        g.quit_game().valid(),
        g.tick(sample).valid(),
{
    g.lemma_speed_bounds();
    g.lemma_tick_valid(sample);
}

/// After a tick no pipe is off the field, the score has not fallen and has
/// risen by at most one, and the game is over exactly if the bird then
/// collides.
pub proof fn lemma_tick_outcome(g: GameView, sample: int)
    requires
        g.valid(),
        g.state == GameState::Playing,
    ensures
        forall|i: int|
            0 <= i < g.tick(sample).pipes.len() ==> on_screen(#[trigger] g.tick(sample).pipes[i]),
        g.score <= g.tick(sample).score <= g.score + 1,
        g.tick(sample).pipes.len() >= 1,
        g.tick(sample).state == GameState::Playing || g.tick(sample).state == GameState::GameOver,
        g.tick(sample).state == GameState::GameOver <==> collides(
            g.tick(sample).bird_y,
            g.tick(sample).pipes,
        ),
{
    g.lemma_speed_bounds();
    lemma_scroll_valid(g.pipes, g.current_speed());
}

/// Running a prefix and then one more tick is running one tick more.
proof fn lemma_run_step(g: GameView, samples: Seq<int>, n: int)
    requires
        0 <= n < samples.len(),
    ensures
        run(g, samples.take(n + 1)) == run(g, samples.take(n)).tick(samples[n]),
{
    assert(samples.take(n + 1).drop_last() =~= samples.take(n));
}

/// Twice the sum `1 + 2 + ... + n` is `n * (n + 1)`.
proof fn lemma_triangle(n: nat)
    ensures
        2 * triangle(n) == n * (n + 1),
    decreases n,
{
    if n > 0 {
        let below = triangle((n - 1) as nat);
        lemma_triangle((n - 1) as nat);
        assert(2 * (n + below) == n * (n + 1)) by (nonlinear_arith)
            requires
                2 * below == (n - 1) * n,
        ;
    } else {
        assert(0 * (0 + 1) == 0) by (nonlinear_arith);
    }
}

/// While a game is played without a flap, the bird is at least as fast and
/// as low after `n` ticks as gravity at multiplier 1 alone would make it.
proof fn lemma_fall(g: GameView, samples: Seq<int>, n: nat)
    requires
        g.valid(),
        g.state == GameState::Playing,
        n <= samples.len(),
    ensures
        run(g, samples.take(n as int)).valid(),
        run(g, samples.take(n as int)).state == GameState::GameOver || {
            &&& run(g, samples.take(n as int)).state == GameState::Playing
            &&& run(g, samples.take(n as int)).bird_velocity >= g.bird_velocity + n * BASE_GRAVITY
            &&& run(g, samples.take(n as int)).bird_y >= g.bird_y + n * g.bird_velocity + triangle(
                n,
            ) * BASE_GRAVITY
        },
    decreases n,
{
    if n > 0 {
        let m = (n - 1) as nat;
        lemma_fall(g, samples, m);
        lemma_run_step(g, samples, m as int);
        let before = run(g, samples.take(m as int));
        before.lemma_tick_valid(samples[m as int]);
        if before.state == GameState::Playing {
            before.lemma_speed_bounds();
            assert((m + 1) * g.bird_velocity == m * g.bird_velocity + g.bird_velocity)
                by (nonlinear_arith);
            assert(triangle(n) * BASE_GRAVITY == triangle(m) * BASE_GRAVITY + n * BASE_GRAVITY)
                by (nonlinear_arith)
                requires
                    triangle(n) == n + triangle(m),
            ;
        }
    }
}

/// A game that is being played and gets no flap is over after 77 ticks at
/// the latest, whatever pipes appear: gravity alone takes the bird to the
/// floor, if nothing ends the game before.
pub proof fn lemma_fall_ends_game(g: GameView, samples: Seq<int>)
    requires
        g.valid(),
        g.state == GameState::Playing,
        samples.len() >= FALL_LIMIT,
    ensures
        run(g, samples).state == GameState::GameOver,
    decreases samples.len(),
{
    if samples.len() == FALL_LIMIT {
        lemma_fall(g, samples, FALL_LIMIT as nat);
        lemma_triangle(FALL_LIMIT as nat);
        assert(samples.take(FALL_LIMIT as int) =~= samples);
        let end = run(g, samples);
        if end.state == GameState::Playing {
            assert(FALL_LIMIT * g.bird_velocity >= FALL_LIMIT * (-MAX_FLAP)) by (nonlinear_arith)
                requires
                    g.bird_velocity >= -MAX_FLAP,
            ;
        }
    } else {
        lemma_fall_ends_game(g, samples.drop_last());
    }
}

/// How a new session stands after `n` ticks without a flap, while the
/// bird has not reached the floor: the score is still 0, the bird has
/// fallen as far as gravity at multiplier 1 takes it, and the one pipe on
/// the field has not come near the bird.
pub open spec fn falls_freely(s: GameView, n: nat) -> bool {
    &&& s.valid()
    &&& s.state == GameState::Playing
    &&& s.score == 0
    &&& s.bird_velocity == n * BASE_GRAVITY
    &&& s.bird_y == START_Y + triangle(n) * BASE_GRAVITY
    &&& n == 0 ==> s.pipes.len() == 0
    &&& n > 0 ==> s.pipes.len() == 1 && s.pipes[0].x == SPAWN_X - (n - 1) * BASE_SPEED
}

/// At score 0 speed and gravity have their base values.
proof fn lemma_base_values(s: GameView)
    requires
        s.valid(),
        s.score == 0,
    ensures
        s.current_speed() == BASE_SPEED,
        s.current_gravity() == BASE_GRAVITY,
{
}

/// A tick takes a session that has fallen freely for `n` ticks to one that
/// has done so for `n + 1`, until the tick before the last.
proof fn lemma_free_fall_step(s: GameView, n: nat, sample: int)
    requires
        falls_freely(s, n),
        n + 1 < FIRST_FALL,
    ensures
        falls_freely(s.tick(sample), n + 1),
{
    s.lemma_tick_valid(sample);
    lemma_triangle(n + 1);
    assert((n + 1) * (n + 2) <= 38 * 39) by (nonlinear_arith)
        requires
            n + 1 <= 38,
    ;
    lemma_base_values(s);
    let speed = s.current_speed();
    if n == 0 {
        lemma_first_pipe(s, sample);
    } else {
        lemma_scroll_shape(s.pipes, speed);
        assert forall|i: int| 0 <= i < s.pipes.len() implies !passing(speed)(
            #[trigger] s.pipes[i],
        ) by {}
        s.pipes.lemma_all_neg_filter_empty(passing(speed));
    }
}

/// A new session in which the player never flaps ends with its 39th tick
/// and not before, whatever gaps the pipes have: the bird starts at rest
/// 200 pixels high, and gravity of 0.4 pixels per tick takes it 312 pixels
/// down in 39 ticks.
pub proof fn lemma_first_fall(samples: Seq<int>, n: nat)
    requires
        n <= samples.len(),
    ensures
        n < FIRST_FALL ==> run(GameView::initial().start_game(), samples.take(n as int)).state
            == GameState::Playing,
        n < FIRST_FALL ==> falls_freely(
            run(GameView::initial().start_game(), samples.take(n as int)),
            n,
        ),
        n >= FIRST_FALL ==> run(GameView::initial().start_game(), samples.take(n as int)).state
            == GameState::GameOver,
        n >= FIRST_FALL ==> run(GameView::initial().start_game(), samples.take(n as int)).bird_y
            == START_Y + 312 * ONE,
    decreases n,
{
    let start = GameView::initial().start_game();
    if n > 0 {
        let m = (n - 1) as nat;
        lemma_first_fall(samples, m);
        lemma_run_step(start, samples, m as int);
        let before = run(start, samples.take(m as int));
        if n < FIRST_FALL {
            lemma_free_fall_step(before, m, samples[m as int]);
        } else if n == FIRST_FALL {
            lemma_triangle(n);
            lemma_base_values(before);
        }
    }
}

} // verus!
