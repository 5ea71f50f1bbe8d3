//! The engine: the game's state, the tick that advances it, and the
//! player's intents.

use vstd::prelude::*;
use crate::fixed::{ONE, scaled, scale};
use crate::difficulty::{
    multiplier,
    gap_height,
    difficulty_multiplier,
    current_gap_height,
    lemma_gap_bounds,
    MAX_MULTIPLIER,
};
use crate::pipe::{
    Pipe,
    PipeView,
    views,
    scroll,
    passed_count,
    spawn_due,
    spawned,
    pipes_valid,
    gap_top_min,
    gap_top_end,
    scroll_pipes,
    is_spawn_due,
    spawn_pipe,
    lemma_scroll_valid,
    lemma_spawn_valid,
    FIELD,
    MAX_SPEED,
};
use crate::collision::{collides, check_collisions};
use crate::random::random_between;
use crate::render::{DrawCommand, Sprites, frame, shown, draw_frame};

verus! {

/// Height at which the bird starts: 200 pixels.
pub const START_Y: i64 = 200 * ONE;

/// Scrolling speed at multiplier 1: 1.5 pixels per tick.
pub const BASE_SPEED: i64 = 20_720_700;

/// Gravity at multiplier 1: 0.4 pixels per tick, each tick.
pub const BASE_GRAVITY: i64 = 5_525_520;

/// Upward speed that a flap gives at multiplier 1: 8 pixels per tick.
pub const FLAP_IMPULSE: i64 = 8 * ONE;

/// The strongest flap: 9 pixels per tick, at multiplier 2.
pub const MAX_FLAP: i64 = 9 * ONE;

/// The bird's pose changes once in this many ticks.
pub const TICKS_PER_POSE: u32 = 10;

/// Number of poses that the bird cycles through.
pub const POSES: u32 = 3;

/// The four states of the game.
#[derive(Clone, Copy, Debug, PartialEq, Eq, Structural)]
pub enum GameState {
    Menu,
    Playing,
    Paused,
    GameOver,
}

/// The game. A host builds one with [`Game::new`], calls [`Game::update`]
/// once per tick and forwards the player's intents in between.
pub struct Game {
    bird_y: i64,
    bird_velocity: i64,
    pipes: Vec<Pipe>,
    score: u32,
    state: GameState,
    game_speed: i64,
    gravity: i64,
    bird_frame: u32,
    frame_count: u32,
}

/// The game as a mathematical value.
pub struct GameView {
    /// Height of the bird: 0 is the ceiling, larger is lower.
    pub bird_y: int,
    /// Vertical speed of the bird, positive downward.
    pub bird_velocity: int,
    /// The pipes in play, in spawn order, which is left to right.
    pub pipes: Seq<PipeView>,
    /// Number of pipes passed in this session.
    pub score: nat,
    pub state: GameState,
    /// Scrolling speed at multiplier 1.
    pub game_speed: int,
    /// Gravity at multiplier 1.
    pub gravity: int,
    /// The bird's pose.
    pub bird_frame: nat,
    /// Ticks played, modulo 2^32.
    pub frame_count: nat,
}

impl GameView {
    /// The game as [`Game::new`] makes it.
    pub open spec fn initial() -> GameView {
        GameView {
            bird_y: START_Y as int,
            bird_velocity: 0,
            pipes: Seq::empty(),
            score: 0,
            state: GameState::Menu,
            game_speed: BASE_SPEED as int,
            gravity: BASE_GRAVITY as int,
            bird_frame: 0,
            frame_count: 0,
        }
    }

    /// The game with bird, pipes, score, speed and gravity as at the start
    /// of a session. State and animation counters stay.
    pub open spec fn reset(self) -> GameView {
        GameView {
            bird_y: START_Y as int,
            bird_velocity: 0,
            pipes: Seq::empty(),
            score: 0,
            game_speed: BASE_SPEED as int,
            gravity: BASE_GRAVITY as int,
            ..self
        }
    }

    /// The difficulty multiplier at the current score.
    pub open spec fn multiplier(self) -> int {
        multiplier(self.score)
    }

    /// The scrolling speed at the current score.
    pub open spec fn current_speed(self) -> int {
        scaled(self.game_speed, self.multiplier())
    }

    /// The gravity at the current score.
    pub open spec fn current_gravity(self) -> int {
        scaled(self.gravity, self.multiplier())
    }

    /// The bird's speed right after a flap: upward, and the weaker the
    /// higher the multiplier. It is `-8 - (multiplier - 1)`.
    pub open spec fn flap_velocity(self) -> int {
        -FLAP_IMPULSE - (self.multiplier() - ONE)
    }

    /// The game after a flap: it takes effect only while playing.
    pub open spec fn flap(self) -> GameView {
        if self.state == GameState::Playing {
            GameView { bird_velocity: self.flap_velocity(), ..self }
        } else {
            self
        }
    }

    /// The game after the pause key: playing and paused change places.
    pub open spec fn toggle_pause(self) -> GameView {
        match self.state {
            GameState::Playing => GameView { state: GameState::Paused, ..self },
            GameState::Paused => GameView { state: GameState::Playing, ..self },
            _ => self,
        }
    }

    /// The game after the start key: a new session from the menu or after
    /// a game over, a resumed one from a pause.
    pub open spec fn start_game(self) -> GameView {
        match self.state {
            GameState::Menu | GameState::GameOver => GameView {
                state: GameState::Playing,
                ..self.reset()
            },
            GameState::Paused => GameView { state: GameState::Playing, ..self },
            GameState::Playing => self,
        }
    }

    /// The game after quitting: reset, in the menu.
    pub open spec fn quit_game(self) -> GameView {
        GameView { state: GameState::Menu, ..self.reset() }
    }

    /// The score after the pipes have scrolled in the next tick.
    pub open spec fn next_score(self) -> nat {
        self.score + passed_count(self.pipes, self.current_speed())
    }

    /// Whether `sample` lies in the range from which the next tick draws
    /// the gap of a new pipe.
    pub open spec fn draws(self, sample: int) -> bool {
        gap_top_min(gap_height(self.next_score())) <= sample < gap_top_end(
            gap_height(self.next_score()),
        )
    }

    /// The game one tick later, where `sample` selects the gap of a pipe
    /// that appears in this tick. Nothing changes unless the game is being
    /// played. Speed and gravity go by the score before the tick, the gap
    /// of a new pipe by the score after the pipes have scrolled.
    pub open spec fn tick(self, sample: int) -> GameView {
        if self.state != GameState::Playing {
            self
        } else {
            let frame_count = ((self.frame_count + 1) % 0x1_0000_0000) as nat;
            let bird_frame = if frame_count % (TICKS_PER_POSE as nat) == 0 {
                (self.bird_frame + 1) % (POSES as nat)
            } else {
                self.bird_frame
            };
            let bird_velocity = self.bird_velocity + self.current_gravity();
            let bird_y = self.bird_y + bird_velocity;
            let score = self.next_score();
            let kept = scroll(self.pipes, self.current_speed());
            let pipes = if spawn_due(kept) {
                kept.push(spawned(score, sample))
            } else {
                kept
            };
            let state = if collides(bird_y, pipes) {
                GameState::GameOver
            } else {
                GameState::Playing
            };
            GameView { bird_y, bird_velocity, pipes, score, state, bird_frame, frame_count, ..self }
        }
    }

    /// The commands that draw the game, with the images that `sprites`
    /// has.
    pub open spec fn frame(self, sprites: Sprites) -> Seq<DrawCommand<int>> {
        frame(self.bird_y, self.pipes, self.score, self.state, sprites)
    }

    /// What holds of the game at all times.
    pub open spec fn valid(self) -> bool {
        &&& self.game_speed == BASE_SPEED
        &&& self.gravity == BASE_GRAVITY
        &&& self.bird_frame < POSES
        &&& pipes_valid(self.pipes)
        &&& -MAX_FLAP <= self.bird_velocity < FIELD + ONE
        &&& -MAX_FLAP < self.bird_y < 2 * FIELD + ONE
        &&& self.state == GameState::Playing || self.state == GameState::Paused ==> 0 < self.bird_y
            < FIELD && self.bird_velocity < FIELD
        &&& self.state == GameState::Menu ==> self.bird_y == START_Y && self.bird_velocity == 0
            && self.pipes.len() == 0 && self.score == 0
    }

    /// `self` with the animation counters of `other`.
    pub open spec fn with_counters_of(self, other: GameView) -> GameView {
        GameView { bird_frame: other.bird_frame, frame_count: other.frame_count, ..self }
    }

    /// The base speed is 1.5 pixels per tick and the base gravity 0.4.
    pub proof fn lemma_base_constants()
        ensures
            2 * BASE_SPEED == 3 * ONE,
            5 * BASE_GRAVITY == 2 * ONE,
            GameView::initial().current_speed() == BASE_SPEED,
            GameView::initial().current_gravity() == BASE_GRAVITY,
    {
    }

    /// In a valid game the speed is between 1.5 and 3 pixels per tick, the
    /// gravity between 0.4 and 0.8, and a flap gives between 8 and 9.
    pub proof fn lemma_speed_bounds(self)
        requires
            self.valid(),
        ensures
            BASE_SPEED <= self.current_speed() <= MAX_SPEED,
            BASE_GRAVITY <= self.current_gravity() <= 2 * BASE_GRAVITY,
            -MAX_FLAP <= self.flap_velocity() <= -FLAP_IMPULSE,
    {
    }

    /// Scaling speed and gravity by the multiplier leaves no remainder.
    pub proof fn lemma_speed_exact(self)
        requires
            self.valid(),
        ensures
            self.current_speed() * ONE == self.game_speed * self.multiplier(),
            self.current_gravity() * ONE == self.gravity * self.multiplier(),
    {
    }

    /// A tick keeps the game valid.
    pub proof fn lemma_tick_valid(self, sample: int)
        requires
            self.valid(),
        ensures
            self.tick(sample).valid(),
    {
        if self.state == GameState::Playing {
            self.lemma_speed_bounds();
            let speed = self.current_speed();
            lemma_scroll_valid(self.pipes, speed);
            let kept = scroll(self.pipes, speed);
            if spawn_due(kept) {
                lemma_spawn_valid(kept, self.next_score(), sample);
            }
        }
    }
}

impl View for Game {
    type V = GameView;

    closed spec fn view(&self) -> GameView {
        GameView {
            bird_y: self.bird_y as int,
            bird_velocity: self.bird_velocity as int,
            pipes: views(self.pipes@),
            score: self.score as nat,
            state: self.state,
            game_speed: self.game_speed as int,
            gravity: self.gravity as int,
            bird_frame: self.bird_frame as nat,
            frame_count: self.frame_count as nat,
        }
    }
}

impl Game {
    #[verifier::type_invariant]
    spec fn well_formed(self) -> bool {
        self@.valid()
    }

    /// A game in the menu, with the bird at its starting height and no
    /// pipes.
    pub fn new() -> (game: Game)
        ensures
            game@ == GameView::initial(),
            game@.valid(),
    {
        let pipes: Vec<Pipe> = Vec::new();
        proof {
            assert(views(pipes@) =~= Seq::<PipeView>::empty());
        }
        Game {
            bird_y: START_Y,
            bird_velocity: 0,
            pipes,
            score: 0,
            state: GameState::Menu,
            game_speed: BASE_SPEED,
            gravity: BASE_GRAVITY,
            bird_frame: 0,
            frame_count: 0,
        }
    }

    /// The difficulty multiplier at the current score.
    pub fn get_difficulty_multiplier(&self) -> (m: i64)
        ensures
            m == self@.multiplier(),
            ONE <= m <= MAX_MULTIPLIER,
    {
        difficulty_multiplier(self.score)
    }

    /// The gap height of a pipe that would appear at the current score.
    pub fn get_current_gap_height(&self) -> (gap: i64)
        ensures
            gap == gap_height(self@.score),
    {
        current_gap_height(self.score)
    }

    /// The scrolling speed at the current score.
    pub fn get_current_speed(&self) -> (speed: i64)
        ensures
            speed == self@.current_speed(),
    {
        proof {
            use_type_invariant(&*self);
        }
        scale(self.game_speed, difficulty_multiplier(self.score))
    }

    /// The gravity at the current score.
    pub fn get_current_gravity(&self) -> (gravity: i64)
        ensures
            gravity == self@.current_gravity(),
    {
        proof {
            use_type_invariant(&*self);
        }
        scale(self.gravity, difficulty_multiplier(self.score))
    }

    /// The pipes after this tick's scrolling, and the score after it.
    fn scrolled(&self) -> (out: (Vec<Pipe>, u32))
        requires
            self@.score < u32::MAX,
        ensures
            views(out.0@) == scroll(self@.pipes, self@.current_speed()),
            out.1 == self@.next_score(),
    {
        proof {
            use_type_invariant(&*self);
            self@.lemma_speed_bounds();
            lemma_scroll_valid(self@.pipes, self@.current_speed());
        }
        let speed = self.get_current_speed();
        let (pipes, passed) = scroll_pipes(&self.pipes, speed);
        (pipes, self.score + passed)
    }

    /// Completes a tick whose scrolling gave `pipes` and `score`.
    fn finish_tick(&mut self, pipes: Vec<Pipe>, score: u32, sample: i64)
        requires
            old(self)@.state == GameState::Playing,
            views(pipes@) == scroll(old(self)@.pipes, old(self)@.current_speed()),
            score == old(self)@.next_score(),
        ensures
            final(self)@ == old(self)@.tick(sample as int),
    {
        proof {
            use_type_invariant(&*self);
            self@.lemma_speed_bounds();
            self@.lemma_tick_valid(sample as int);
        }
        let frame_count: u32 = self.frame_count.wrapping_add(1);
        let bird_frame: u32 = if frame_count % TICKS_PER_POSE == 0 {
            (self.bird_frame + 1) % POSES
        } else {
            self.bird_frame
        };
        let bird_velocity: i64 = self.bird_velocity + self.get_current_gravity();
        let bird_y: i64 = self.bird_y + bird_velocity;
        let mut pipes = pipes;
        if is_spawn_due(&pipes) {
            let ghost kept = pipes@;
            let pipe = spawn_pipe(score, sample);
            pipes.push(pipe);
            proof {
                assert(views(pipes@) =~= views(kept).push(pipe@));
            }
        }
        let state = if check_collisions(bird_y, &pipes) {
            GameState::GameOver
        } else {
            GameState::Playing
        };
        *self = Game {
            bird_y,
            bird_velocity,
            pipes,
            score,
            state,
            game_speed: self.game_speed,
            gravity: self.gravity,
            bird_frame,
            frame_count,
        };
    }

    /// Advances the game by one tick, with `sample` to select the gap of a
    /// pipe that appears in it. A sample outside the range of the gap's
    /// positions counts as the end of the range nearer to it.
    pub fn update_with(&mut self, sample: i64)
        requires
            old(self)@.state == GameState::Playing ==> old(self)@.score < u32::MAX,
        ensures
            final(self)@ == old(self)@.tick(sample as int),
            final(self)@.valid(),
    {
        if self.state == GameState::Playing {
            let (pipes, score) = self.scrolled();
            self.finish_tick(pipes, score, sample);
        }
        proof {
            use_type_invariant(&*self);
        }
    }

    /// Advances the game by one tick. Where a pipe appears, the position of
    /// its gap is drawn at random from the range that the gap's height
    /// allows.
    pub fn update(&mut self)
        requires
            old(self)@.state == GameState::Playing ==> old(self)@.score < u32::MAX,
        ensures
            final(self)@.valid(),
            old(self)@.state != GameState::Playing ==> final(self)@ == old(self)@,
            exists|sample: int|
                old(self)@.draws(sample) && final(self)@ == #[trigger] old(self)@.tick(sample),
    {
        proof {
            use_type_invariant(&*self);
            lemma_gap_bounds(self@.next_score());
        }
        // A sample that the tick may draw; it stands for the draw where none is made.
        let ghost first = gap_top_min(gap_height(self@.next_score()));
        assert(self@.draws(first));
        if self.state == GameState::Playing {
            let (pipes, score) = self.scrolled();
            if is_spawn_due(&pipes) {
                let gap = current_gap_height(score);
                let sample = random_between(gap / 2, FIELD - 3 * gap / 2);
                self.finish_tick(pipes, score, sample);
                assert(old(self)@.draws(sample as int));
            } else {
                self.finish_tick(pipes, score, 0);
                assert(old(self)@.tick(0) == old(self)@.tick(first));
            }
        } else {
            assert(old(self)@.tick(first) == old(self)@);
        }
        proof {
            use_type_invariant(&*self);
        }
    }

    /// Gives the bird an upward impulse, if the game is being played.
    pub fn flap(&mut self)
        ensures
            final(self)@ == old(self)@.flap(),
            final(self)@.valid(),
    {
        proof {
            use_type_invariant(&*self);
            self@.lemma_speed_bounds();
        }
        if self.state == GameState::Playing {
            self.bird_velocity = -FLAP_IMPULSE - (difficulty_multiplier(self.score) - ONE);
        }
    }

    /// Pauses a game that is being played, resumes one that is paused.
    pub fn toggle_pause(&mut self)
        ensures
            final(self)@ == old(self)@.toggle_pause(),
            final(self)@.valid(),
    {
        proof {
            use_type_invariant(&*self);
        }
        if self.state == GameState::Playing {
            self.state = GameState::Paused;
        } else if self.state == GameState::Paused {
            self.state = GameState::Playing;
        }
    }

    /// Starts a session from the menu or after a game over; resumes a
    /// paused one.
    pub fn start_game(&mut self)
        ensures
            final(self)@ == old(self)@.start_game(),
            final(self)@.valid(),
    {
        proof {
            use_type_invariant(&*self);
        }
        match self.state {
            GameState::Menu | GameState::GameOver => {
                self.reset_game(GameState::Playing);
            },
            GameState::Paused => {
                self.state = GameState::Playing;
            },
            GameState::Playing => {},
        }
    }

    /// Ends the session and returns to the menu.
    pub fn quit_game(&mut self)
        ensures
            final(self)@ == old(self)@.quit_game(),
            final(self)@.valid(),
    {
        self.reset_game(GameState::Menu);
    }

    /// Puts bird, pipes, score, speed and gravity back to where a session
    /// starts, and enters `state`.
    fn reset_game(&mut self, state: GameState)
        requires
            state == GameState::Menu || state == GameState::Playing,
        ensures
            final(self)@ == (GameView { state, ..old(self)@.reset() }),
            final(self)@.valid(),
    {
        proof {
            use_type_invariant(&*self);
        }
        let pipes: Vec<Pipe> = Vec::new();
        proof {
            assert(views(pipes@) =~= Seq::<PipeView>::empty());
        }
        *self = Game {
            bird_y: START_Y,
            bird_velocity: 0,
            pipes,
            score: 0,
            state,
            game_speed: BASE_SPEED,
            gravity: BASE_GRAVITY,
            bird_frame: self.bird_frame,
            frame_count: self.frame_count,
        };
    }

    /// The commands that draw the current frame, in order. An image that
    /// `sprites` lacks is left out. Nothing in the game changes.
    pub fn render(&self, sprites: &Sprites) -> (commands: Vec<DrawCommand<i64>>)
        requires
            sprites.fits(),
        ensures
            shown(commands@) == self@.frame(*sprites),
    {
        proof {
            use_type_invariant(&*self);
        }
        draw_frame(self.bird_y, &self.pipes, self.score, self.state, sprites)
    }

    /// The state of the game.
    pub fn get_state(&self) -> (state: GameState)
        ensures
            state == self@.state,
    {
        self.state
    }

    /// Height of the bird.
    pub fn bird_y(&self) -> (y: i64)
        ensures
            y == self@.bird_y,
    {
        self.bird_y
    }

    /// Vertical speed of the bird, positive downward.
    pub fn bird_velocity(&self) -> (v: i64)
        ensures
            v == self@.bird_velocity,
    {
        self.bird_velocity
    }

    /// The pipes in play, from left to right.
    pub fn pipes(&self) -> (pipes: &Vec<Pipe>)
        ensures
            views(pipes@) == self@.pipes,
            pipes_valid(views(pipes@)),
    {
        proof {
            use_type_invariant(&*self);
        }
        &self.pipes
    }

    /// Number of pipes passed in this session.
    pub fn score(&self) -> (score: u32)
        ensures
            score == self@.score,
    {
        self.score
    }

    /// Scrolling speed at multiplier 1.
    pub fn game_speed(&self) -> (speed: i64)
        ensures
            speed == self@.game_speed,
    {
        self.game_speed
    }

    /// Gravity at multiplier 1.
    pub fn gravity(&self) -> (gravity: i64)
        ensures
            gravity == self@.gravity,
    {
        self.gravity
    }

    /// The bird's pose: 0, 1 or 2.
    pub fn bird_frame(&self) -> (frame: u32)
        ensures
            frame == self@.bird_frame,
    {
        self.bird_frame
    }

    /// Ticks played, modulo 2^32.
    pub fn frame_count(&self) -> (count: u32)
        ensures
            count == self@.frame_count,
    {
        self.frame_count
    }
}

} // verus!
