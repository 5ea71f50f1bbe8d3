//! The picture of the game: the drawing commands that show one frame on a
//! surface of 500 by 500 pixels. The engine draws nothing itself; a host
//! carries the commands out in order.

use vstd::prelude::*;
use crate::fixed::ONE;
use crate::difficulty::{multiplier, difficulty_multiplier};
use crate::pipe::{Pipe, PipeView, views, pipes_valid, pipe_valid, FIELD, BIRD_X};
use crate::game::GameState;

verus! {

/// Width at which the bird is drawn: 34 pixels.
pub const BIRD_WIDTH: i64 = 34 * ONE;

/// Height at which the bird is drawn: 24 pixels.
pub const BIRD_HEIGHT: i64 = 24 * ONE;

/// The images that the game is drawn with.
#[derive(Clone, Copy, Debug, PartialEq, Eq)]
pub enum Sprite {
    Background,
    Bird,
    Pipe,
}

/// The colours that text is drawn in.
#[derive(Clone, Copy, Debug, PartialEq, Eq)]
pub enum Color {
    Black,
}

/// The texts that the game shows.
#[derive(Clone, Copy, Debug, PartialEq, Eq)]
pub enum Label {
    /// The running score.
    Score(u32),
    /// How far the difficulty has risen, in percent.
    Difficulty(u32),
    /// The game's name, in the menu.
    Title,
    /// How to start, in the menu.
    StartHint,
    /// The line below it.
    Tagline,
    /// The word shown while paused.
    Paused,
    /// The headline after a game over.
    GameOver,
    /// The score of the session that ended.
    FinalScore(u32),
    /// How to start again.
    RestartHint,
}

/// One step of drawing. Lengths and positions are numbers of type `N`:
/// fixed-point `i64` in a command to carry out, `int` in its view.
#[derive(Debug, PartialEq, Eq)]
pub enum DrawCommand<N> {
    /// Clear a rectangle.
    ClearRect { x: N, y: N, width: N, height: N },
    /// Draw an image, scaled to a rectangle.
    DrawImage { sprite: Sprite, x: N, y: N, width: N, height: N },
    /// Remember the current transform.
    Save,
    /// Return to the transform remembered last.
    Restore,
    /// Move the origin.
    Translate { x: N, y: N },
    /// Scale both axes; a negative factor mirrors.
    Scale { x: N, y: N },
    /// Choose the colour of text.
    SetFillStyle { color: Color },
    /// Choose the size of text, in pixels.
    SetFont { size: u32 },
    /// Write a text.
    FillText { label: Label, x: N, y: N },
}

impl View for DrawCommand<i64> {
    type V = DrawCommand<int>;

    open spec fn view(&self) -> DrawCommand<int> {
        match *self {
            DrawCommand::ClearRect { x, y, width, height } => DrawCommand::ClearRect {
                x: x as int,
                y: y as int,
                width: width as int,
                height: height as int,
            },
            DrawCommand::DrawImage { sprite, x, y, width, height } => DrawCommand::DrawImage {
                sprite,
                x: x as int,
                y: y as int,
                width: width as int,
                height: height as int,
            },
            DrawCommand::Save => DrawCommand::Save,
            DrawCommand::Restore => DrawCommand::Restore,
            DrawCommand::Translate { x, y } => DrawCommand::Translate { x: x as int, y: y as int },
            DrawCommand::Scale { x, y } => DrawCommand::Scale { x: x as int, y: y as int },
            DrawCommand::SetFillStyle { color } => DrawCommand::SetFillStyle { color },
            DrawCommand::SetFont { size } => DrawCommand::SetFont { size },
            DrawCommand::FillText { label, x, y } => DrawCommand::FillText {
                label,
                x: x as int,
                y: y as int,
            },
        }
    }
}

/// The views of a sequence of commands, in order.
pub open spec fn shown(commands: Seq<DrawCommand<i64>>) -> Seq<DrawCommand<int>> {
    commands.map_values(|c: DrawCommand<i64>| c@)
}

/// Width and height of an image, in its own pixels.
#[derive(Clone, Copy, Debug, PartialEq, Eq)]
pub struct ImageSize {
    pub width: u32,
    pub height: u32,
}

/// What the host has loaded: the size of the background image, and
/// whether the images of bird and pipe are there.
#[derive(Clone, Copy, Debug, PartialEq, Eq)]
pub struct Sprites {
    pub background: Option<ImageSize>,
    pub bird: bool,
    pub pipe: bool,
}

impl ImageSize {
    /// Width of the image once it is scaled to the field's height.
    pub open spec fn tile_width(self) -> int {
        self.width * FIELD / (self.height as int)
    }

    /// How many copies of the scaled image, side by side, cover the
    /// field's width. An image without width or height covers nothing.
    pub open spec fn tile_count(self) -> nat {
        if self.width == 0 || self.height == 0 {
            0
        } else {
            ((self.height + self.width - 1) / (self.width as int)) as nat
        }
    }

    /// Whether the width of the scaled image can be written down.
    pub open spec fn fits(self) -> bool {
        self.height > 0 ==> self.tile_width() <= i64::MAX
    }

    /// Computes [`ImageSize::fits`].
    pub fn check_fits(&self) -> (ok: bool)
        ensures
            ok == self.fits(),
    {
        if self.height == 0 {
            true
        } else {
            let limit: i128 = i64::MAX as i128;
            (self.width as i128) * (FIELD as i128) / (self.height as i128) <= limit
        }
    }
}

impl Sprites {
    /// Whether the background, if there is one, can be drawn.
    pub open spec fn fits(self) -> bool {
        self.background matches Some(size) ==> size.fits()
    }

    /// Computes [`Sprites::fits`].
    pub fn check_fits(&self) -> (ok: bool)
        ensures
            ok == self.fits(),
    {
        match self.background {
            Some(size) => size.check_fits(),
            None => true,
        }
    }
}

/// The command that wipes the surface.
pub open spec fn clear() -> DrawCommand<int> {
    DrawCommand::ClearRect { x: 0, y: 0, width: FIELD as int, height: FIELD as int }
}

/// The `i`-th copy of the background, counted from the left.
pub open spec fn tile(size: ImageSize, i: int) -> DrawCommand<int> {
    DrawCommand::DrawImage {
        sprite: Sprite::Background,
        x: i * size.tile_width(),
        y: 0,
        width: size.tile_width(),
        height: FIELD as int,
    }
}

/// The background: the image scaled to the field's height, repeated from
/// the left edge until the field's width is covered.
pub open spec fn background(sprites: Sprites) -> Seq<DrawCommand<int>> {
    match sprites.background {
        Some(size) => Seq::new(size.tile_count(), |i: int| tile(size, i)),
        None => Seq::empty(),
    }
}

/// The bird, at its fixed position and current height.
pub open spec fn bird(bird_y: int, sprites: Sprites) -> Seq<DrawCommand<int>> {
    if sprites.bird {
        seq![
            DrawCommand::DrawImage {
                sprite: Sprite::Bird,
                x: BIRD_X as int,
                y: bird_y,
                width: BIRD_WIDTH as int,
                height: BIRD_HEIGHT as int,
            },
        ]
    } else {
        Seq::empty()
    }
}

/// One pipe: the upper column, drawn mirrored from the gap upward, then
/// the lower column, from the gap's lower edge to the floor.
pub open spec fn pipe_pair(p: PipeView) -> Seq<DrawCommand<int>> {
    seq![
        DrawCommand::Save,
        DrawCommand::Translate { x: p.x, y: p.gap_y },
        DrawCommand::Scale { x: ONE as int, y: -ONE },
        DrawCommand::DrawImage { sprite: Sprite::Pipe, x: 0, y: 0, width: p.width, height: p.gap_y },
        DrawCommand::Restore,
        DrawCommand::DrawImage {
            sprite: Sprite::Pipe,
            x: p.x,
            y: p.gap_y + p.gap_height,
            width: p.width,
            height: FIELD - (p.gap_y + p.gap_height),
        },
    ]
}

/// The pipes, in order.
pub open spec fn pipe_pairs(pipes: Seq<PipeView>) -> Seq<DrawCommand<int>>
    decreases pipes.len(),
{
    if pipes.len() == 0 {
        Seq::empty()
    } else {
        pipe_pairs(pipes.drop_last()) + pipe_pair(pipes.last())
    }
}

/// The pipes, which the menu does not show.
pub open spec fn pipes(pipes: Seq<PipeView>, state: GameState, sprites: Sprites) -> Seq<
    DrawCommand<int>,
> {
    if state != GameState::Menu && sprites.pipe {
        pipe_pairs(pipes)
    } else {
        Seq::empty()
    }
}

/// By how many percent the multiplier at `score` exceeds 1.
pub open spec fn difficulty_percent(score: nat) -> int {
    (multiplier(score) - ONE) * 100 / (ONE as int)
}

/// Score and difficulty, shown while the game is played or paused.
pub open spec fn overlay(score: nat, state: GameState) -> Seq<DrawCommand<int>> {
    if state == GameState::Playing || state == GameState::Paused {
        seq![
            DrawCommand::SetFillStyle { color: Color::Black },
            DrawCommand::SetFont { size: 24 },
            DrawCommand::FillText { label: Label::Score(score as u32), x: 10 * ONE, y: 30 * ONE },
            DrawCommand::SetFont { size: 16 },
            DrawCommand::FillText {
                label: Label::Difficulty(difficulty_percent(score) as u32),
                x: 10 * ONE,
                y: 60 * ONE,
            },
        ]
    } else {
        Seq::empty()
    }
}

/// The texts of the menu, the pause and the game over.
pub open spec fn banner(score: nat, state: GameState) -> Seq<DrawCommand<int>> {
    seq![DrawCommand::SetFillStyle { color: Color::Black }, DrawCommand::SetFont { size: 30 }]
        + match state {
        GameState::Menu => seq![
            DrawCommand::FillText { label: Label::Title, x: 180 * ONE, y: 200 * ONE },
            DrawCommand::SetFont { size: 20 },
            DrawCommand::FillText { label: Label::StartHint, x: 160 * ONE, y: 250 * ONE },
            DrawCommand::FillText { label: Label::Tagline, x: 120 * ONE, y: 300 * ONE },
        ],
        GameState::Paused => seq![
            DrawCommand::FillText { label: Label::Paused, x: 200 * ONE, y: 250 * ONE },
        ],
        GameState::GameOver => seq![
            DrawCommand::FillText { label: Label::GameOver, x: 180 * ONE, y: 200 * ONE },
            DrawCommand::SetFont { size: 20 },
            DrawCommand::FillText {
                label: Label::FinalScore(score as u32),
                x: 180 * ONE,
                y: 250 * ONE,
            },
            DrawCommand::FillText { label: Label::RestartHint, x: 160 * ONE, y: 300 * ONE },
        ],
        GameState::Playing => Seq::empty(),
    }
}

/// The whole frame: the surface is wiped, then come background, bird,
/// pipes, the overlay and the banner. An image that the host has not
/// loaded is left out.
pub open spec fn frame(
    bird_y: int,
    pipes: Seq<PipeView>,
    score: nat,
    state: GameState,
    sprites: Sprites,
) -> Seq<DrawCommand<int>> {
    seq![clear()] + background(sprites) + bird(bird_y, sprites) + self::pipes(pipes, state, sprites)
        + overlay(score, state) + banner(score, state)
}

/// Every copy of the background begins inside the field.
pub proof fn lemma_tiles_begin_in_field(size: ImageSize, i: int)
    requires
        0 <= i < size.tile_count(),
    ensures
        0 <= i * size.tile_width() < FIELD,
        0 <= size.tile_width(),
{
    let w = size.width as int;
    let h = size.height as int;
    let tw = size.tile_width();
    let field = FIELD as int;
    assert(i * w < h) by (nonlinear_arith)
        requires
            0 <= i < (h + w - 1) / w,
            w > 0,
            h > 0,
    ;
    assert(0 <= tw && tw * h <= w * field) by (nonlinear_arith)
        requires
            tw == w * field / h,
            h > 0,
            w > 0,
            field > 0,
    ;
    assert(0 <= i * tw < field) by (nonlinear_arith)
        requires
            0 <= i,
            i * w < h,
            0 <= tw,
            tw * h <= w * field,
            h > 0,
            w > 0,
            field > 0,
    ;
}

/// Appends the commands of [`background`].
fn draw_background(out: &mut Vec<DrawCommand<i64>>, sprites: &Sprites)
    requires
        sprites.fits(),
    ensures
        shown(final(out)@) == shown(old(out)@) + background(*sprites),
{
    let ghost before = shown(out@);
    if let Some(size) = sprites.background {
        if size.width != 0 && size.height != 0 {
            let width: u64 = size.width as u64;
            let height: u64 = size.height as u64;
            let count: u64 = (height + width - 1) / width;
            let tile_width: i64 = ((size.width as i128) * (FIELD as i128) / (size.height as i128))
                as i64;
            let mut i: u64 = 0;
            while i < count
                invariant
                    i <= count,
                    count == size.tile_count(),
                    tile_width == size.tile_width(),
                    sprites.background == Some(size),
                    shown(out@) == before + Seq::new(i as nat, |k: int| tile(size, k)),
                decreases count - i,
            {
                proof {
                    lemma_tiles_begin_in_field(size, i as int);
                }
                let ghost drawn = out@;
                let x: i64 = ((i as i128) * (tile_width as i128)) as i64;
                let command = DrawCommand::DrawImage {
                    sprite: Sprite::Background,
                    x,
                    y: 0,
                    width: tile_width,
                    height: FIELD,
                };
                out.push(command);
                proof {
                    assert(shown(out@) =~= shown(drawn).push(command@));
                    assert(shown(out@) =~= before + Seq::new(
                        (i + 1) as nat,
                        |k: int| tile(size, k),
                    ));
                }
                i = i + 1;
            }
        }
    }
}

/// Appends the commands of [`bird`].
fn draw_bird(out: &mut Vec<DrawCommand<i64>>, bird_y: i64, sprites: &Sprites)
    ensures
        shown(final(out)@) == shown(old(out)@) + bird(bird_y as int, *sprites),
{
    if sprites.bird {
        out.push(
            DrawCommand::DrawImage {
                sprite: Sprite::Bird,
                x: BIRD_X,
                y: bird_y,
                width: BIRD_WIDTH,
                height: BIRD_HEIGHT,
            },
        );
    }
}

/// Appends the commands of [`pipe_pair`].
fn draw_pipe(out: &mut Vec<DrawCommand<i64>>, p: &Pipe)
    requires
        pipe_valid(p@),
    ensures
        shown(final(out)@) == shown(old(out)@) + pipe_pair(p@),
{
    let upper = DrawCommand::DrawImage {
        sprite: Sprite::Pipe,
        x: 0,
        y: 0,
        width: p.width,
        height: p.gap_y,
    };
    let lower = DrawCommand::DrawImage {
        sprite: Sprite::Pipe,
        x: p.x,
        y: p.gap_y + p.gap_height,
        width: p.width,
        height: FIELD - (p.gap_y + p.gap_height),
    };
    out.push(DrawCommand::Save);
    out.push(DrawCommand::Translate { x: p.x, y: p.gap_y });
    out.push(DrawCommand::Scale { x: ONE, y: -ONE });
    out.push(upper);
    out.push(DrawCommand::Restore);
    out.push(lower);
}

/// Appends the commands of [`pipe_pairs`].
fn draw_pipes(out: &mut Vec<DrawCommand<i64>>, pipes: &Vec<Pipe>)
    requires
        pipes_valid(views(pipes@)),
    ensures
        shown(final(out)@) == shown(old(out)@) + pipe_pairs(views(pipes@)),
{
    let ghost before = shown(out@);
    let ghost all = views(pipes@);
    let mut i: usize = 0;
    while i < pipes.len()
        invariant
            i <= pipes.len(),
            all == views(pipes@),
            pipes_valid(all),
            shown(out@) == before + pipe_pairs(all.take(i as int)),
        decreases pipes.len() - i,
    {
        assert(pipe_valid(all[i as int]));
        draw_pipe(out, &pipes[i]);
        assert(all.take(i as int + 1).drop_last() =~= all.take(i as int));
        i = i + 1;
    }
    assert(all.take(i as int) =~= all);
}

/// Computes the difficulty in percent.
pub fn percent(score: u32) -> (p: u32)
    ensures
        p == difficulty_percent(score as nat),
        p <= 100,
{
    let over: i64 = difficulty_multiplier(score) - ONE;
    (over * 100 / ONE) as u32
}

/// Appends the commands of [`overlay`].
fn draw_overlay(out: &mut Vec<DrawCommand<i64>>, score: u32, state: GameState)
    ensures
        shown(final(out)@) == shown(old(out)@) + overlay(score as nat, state),
{
    if state == GameState::Playing || state == GameState::Paused {
        let difficulty = percent(score);
        out.push(DrawCommand::SetFillStyle { color: Color::Black });
        out.push(DrawCommand::SetFont { size: 24 });
        out.push(DrawCommand::FillText { label: Label::Score(score), x: 10 * ONE, y: 30 * ONE });
        out.push(DrawCommand::SetFont { size: 16 });
        out.push(
            DrawCommand::FillText { label: Label::Difficulty(difficulty), x: 10 * ONE, y: 60 * ONE },
        );
    }
}

/// Appends the commands of [`banner`].
fn draw_banner(out: &mut Vec<DrawCommand<i64>>, score: u32, state: GameState)
    ensures
        shown(final(out)@) == shown(old(out)@) + banner(score as nat, state),
{
    out.push(DrawCommand::SetFillStyle { color: Color::Black });
    out.push(DrawCommand::SetFont { size: 30 });
    match state {
        GameState::Menu => {
            out.push(DrawCommand::FillText { label: Label::Title, x: 180 * ONE, y: 200 * ONE });
            out.push(DrawCommand::SetFont { size: 20 });
            out.push(DrawCommand::FillText { label: Label::StartHint, x: 160 * ONE, y: 250 * ONE });
            out.push(DrawCommand::FillText { label: Label::Tagline, x: 120 * ONE, y: 300 * ONE });
        },
        GameState::Paused => {
            out.push(DrawCommand::FillText { label: Label::Paused, x: 200 * ONE, y: 250 * ONE });
        },
        GameState::GameOver => {
            out.push(DrawCommand::FillText { label: Label::GameOver, x: 180 * ONE, y: 200 * ONE });
            out.push(DrawCommand::SetFont { size: 20 });
            out.push(
                DrawCommand::FillText {
                    label: Label::FinalScore(score),
                    x: 180 * ONE,
                    y: 250 * ONE,
                },
            );
            out.push(
                DrawCommand::FillText { label: Label::RestartHint, x: 160 * ONE, y: 300 * ONE },
            );
        },
        GameState::Playing => {},
    }
}

/// The commands that draw the frame of a game with the given bird, pipes,
/// score and state, in the order of [`frame`].
pub fn draw_frame(
    bird_y: i64,
    pipes: &Vec<Pipe>,
    score: u32,
    state: GameState,
    sprites: &Sprites,
) -> (commands: Vec<DrawCommand<i64>>)
    requires
        pipes_valid(views(pipes@)),
        sprites.fits(),
    ensures
        shown(commands@) == frame(bird_y as int, views(pipes@), score as nat, state, *sprites),
{
    let mut out: Vec<DrawCommand<i64>> = Vec::new();
    out.push(DrawCommand::ClearRect { x: 0, y: 0, width: FIELD, height: FIELD });
    draw_background(&mut out, sprites);
    draw_bird(&mut out, bird_y, sprites);
    if sprites.pipe && state != GameState::Menu {
        draw_pipes(&mut out, pipes);
    }
    draw_overlay(&mut out, score, state);
    draw_banner(&mut out, score, state);
    out
}

} // verus!
