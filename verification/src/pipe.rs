//! Pipes: how they scroll, when they count for the score, when they leave
//! the field and where new ones appear.

use vstd::prelude::*;
use crate::fixed::ONE;
use crate::difficulty::{BASE_GAP, MIN_GAP, gap_height, current_gap_height, lemma_gap_bounds};

verus! {

/// Height and width of the playing field: 500 pixels.
pub const FIELD: i64 = 500 * ONE;

/// The bird's fixed horizontal position: 100 pixels.
pub const BIRD_X: i64 = 100 * ONE;

/// Width of every pipe: 50 pixels.
pub const PIPE_WIDTH: i64 = 50 * ONE;

/// Where a new pipe appears: 500 pixels.
pub const SPAWN_X: i64 = 500 * ONE;

/// A new pipe appears once the last one is left of this: 300 pixels.
pub const SPAWN_TRIGGER: i64 = 300 * ONE;

/// The fastest the pipes ever scroll in one tick: 3 pixels.
pub const MAX_SPEED: i64 = 3 * ONE;

/// One obstacle: a column with a gap the bird can pass through.
#[derive(Clone, Copy, Debug, PartialEq, Eq)]
pub struct Pipe {
    /// Left edge.
    pub x: i64,
    /// Top edge of the gap.
    pub gap_y: i64,
    /// Width of the column.
    pub width: i64,
    /// Height of the gap.
    pub gap_height: i64,
    /// Whether the bird has cleared the right edge.
    pub passed: bool,
}

/// A pipe as a mathematical value.
pub struct PipeView {
    pub x: int,
    pub gap_y: int,
    pub width: int,
    pub gap_height: int,
    pub passed: bool,
}

impl View for Pipe {
    type V = PipeView;

    open spec fn view(&self) -> PipeView {
        PipeView {
            x: self.x as int,
            gap_y: self.gap_y as int,
            width: self.width as int,
            gap_height: self.gap_height as int,
            passed: self.passed,
        }
    }
}

/// The views of a sequence of pipes, in order.
pub open spec fn views(pipes: Seq<Pipe>) -> Seq<PipeView> {
    pipes.map_values(|p: Pipe| p@)
}

/// The pipe after it has moved left by `speed`; it counts as passed once
/// the bird's position exceeds its right edge.
pub open spec fn advance(p: PipeView, speed: int) -> PipeView {
    PipeView { x: p.x - speed, passed: p.passed || BIRD_X > p.x - speed + p.width, ..p }
}

/// The move of [`advance`] as a function of the pipe.
pub open spec fn advance_by(speed: int) -> spec_fn(PipeView) -> PipeView {
    |p: PipeView| advance(p, speed)
}

/// Whether moving left by `speed` makes the pipe count for the score.
pub open spec fn passes_now(p: PipeView, speed: int) -> bool {
    !p.passed && BIRD_X > p.x - speed + p.width
}

/// The test of [`passes_now`] as a function of the pipe.
pub open spec fn passing(speed: int) -> spec_fn(PipeView) -> bool {
    |p: PipeView| passes_now(p, speed)
}

/// Whether any part of the pipe is still right of the field's left edge.
pub open spec fn on_screen(p: PipeView) -> bool {
    p.x > -p.width
}

/// [`on_screen`] as a function value.
pub open spec fn visible() -> spec_fn(PipeView) -> bool {
    |p: PipeView| on_screen(p)
}

/// The pipes after one tick of scrolling: each moved left by `speed`, and
/// those that left the field removed.
pub open spec fn scroll(pipes: Seq<PipeView>, speed: int) -> Seq<PipeView> {
    pipes.map_values(advance_by(speed)).filter(visible())
}

/// How many pipes start to count for the score when all move left by `speed`.
pub open spec fn passed_count(pipes: Seq<PipeView>, speed: int) -> nat {
    pipes.filter(passing(speed)).len()
}

/// Whether a new pipe is due: there is none, or the last one has come far
/// enough into the field.
pub open spec fn spawn_due(pipes: Seq<PipeView>) -> bool {
    pipes.len() == 0 || pipes.last().x < SPAWN_TRIGGER
}

/// The highest position of the top edge of a gap of height `gap`: half the
/// gap below the ceiling.
pub open spec fn gap_top_min(gap: int) -> int {
    gap / 2
}

/// The end (exclusive) of the positions of the top edge of a gap of height
/// `gap`: one and a half gaps above the floor.
pub open spec fn gap_top_end(gap: int) -> int {
    FIELD - 3 * gap / 2
}

/// The position that `sample` selects for the top edge of a gap of height
/// `gap`: `sample` itself if it lies in the range of [`gap_top_min`] and
/// [`gap_top_end`], else the end of the range that is nearer to it.
pub open spec fn place_gap(gap: int, sample: int) -> int {
    if sample < gap_top_min(gap) {
        gap_top_min(gap)
    } else if sample >= gap_top_end(gap) {
        gap_top_end(gap) - 1
    } else {
        sample
    }
}

/// The pipe that appears at `score` when `sample` selects its gap.
pub open spec fn spawned(score: nat, sample: int) -> PipeView {
    PipeView {
        x: SPAWN_X as int,
        gap_y: place_gap(gap_height(score), sample),
        width: PIPE_WIDTH as int,
        gap_height: gap_height(score),
        passed: false,
    }
}

/// What holds of every pipe in play.
pub open spec fn pipe_valid(p: PipeView) -> bool {
    &&& p.width == PIPE_WIDTH
    &&& -PIPE_WIDTH < p.x <= SPAWN_X
    &&& MIN_GAP <= p.gap_height <= BASE_GAP
    &&& gap_top_min(p.gap_height) <= p.gap_y < gap_top_end(p.gap_height)
    &&& p.passed <==> BIRD_X > p.x + p.width
}

/// What holds of the pipes in play: each is valid, and they stand in
/// spawn order from left to right, more than 200 pixels apart.
pub open spec fn pipes_valid(pipes: Seq<PipeView>) -> bool {
    &&& forall|i: int| 0 <= i < pipes.len() ==> pipe_valid(#[trigger] pipes[i])
    &&& forall|i: int, j: int|
        0 <= i < j < pipes.len() ==> (#[trigger] pipes[j]).x - (#[trigger] pipes[i]).x > SPAWN_X
            - SPAWN_TRIGGER
}

/// The field never holds more than three pipes.
pub proof fn lemma_at_most_three(pipes: Seq<PipeView>)
    requires
        pipes_valid(pipes),
    ensures
        pipes.len() <= 3,
{
    if pipes.len() >= 4 {
        assert(pipes[2].x - pipes[1].x > SPAWN_X - SPAWN_TRIGGER);
        assert(pipe_valid(pipes[0]));
        assert(pipe_valid(pipes[3]));
    }
}

/// At most one pipe is near enough to the right edge that no pipe may yet
/// appear behind it.
pub proof fn lemma_one_pipe_blocks_spawn(pipes: Seq<PipeView>, i: int, j: int)
    requires
        pipes_valid(pipes),
        0 <= i < pipes.len(),
        0 <= j < pipes.len(),
        pipes[i].x >= SPAWN_TRIGGER,
        pipes[j].x >= SPAWN_TRIGGER,
    ensures
        i == j,
{
    if i < j {
    } else if j < i {
    }
}

/// A filter that every element passes changes nothing.
proof fn lemma_filter_keeps_all<A>(s: Seq<A>, pred: spec_fn(A) -> bool)
    requires
        forall|i: int| 0 <= i < s.len() ==> pred(#[trigger] s[i]),
    ensures
        s.filter(pred) == s,
    decreases s.len(),
{
    reveal(Seq::filter);
    if s.len() > 0 {
        lemma_filter_keeps_all(s.drop_last(), pred);
    }
}

/// A filter that at most one element passes keeps at most one.
proof fn lemma_filter_keeps_one<A>(s: Seq<A>, pred: spec_fn(A) -> bool)
    requires
        forall|i: int, j: int|
            0 <= i < j < s.len() ==> !(pred(#[trigger] s[i]) && pred(#[trigger] s[j])),
    ensures
        s.filter(pred).len() <= 1,
    decreases s.len(),
{
    reveal(Seq::filter);
    if s.len() > 0 {
        let front = s.drop_last();
        if pred(s.last()) {
            assert forall|i: int| 0 <= i < front.len() implies !pred(#[trigger] front[i]) by {}
            front.lemma_all_neg_filter_empty(pred);
        } else {
            assert forall|i: int, j: int| 0 <= i < j < front.len() implies !(pred(
                #[trigger] front[i],
            ) && pred(#[trigger] front[j])) by {}
            lemma_filter_keeps_one(front, pred);
        }
    }
}

/// Scrolling removes at most the leftmost pipe, and leaves the others as
/// they were moved.
pub proof fn lemma_scroll_shape(pipes: Seq<PipeView>, speed: int)
    requires
        pipes_valid(pipes),
        0 <= speed <= MAX_SPEED,
    ensures
        scroll(pipes, speed) == if pipes.len() > 0 && !on_screen(advance(pipes[0], speed)) {
            pipes.map_values(advance_by(speed)).skip(1)
        } else {
            pipes.map_values(advance_by(speed))
        },
{
    let moved = pipes.map_values(advance_by(speed));
    if pipes.len() > 0 {
        let rest = moved.skip(1);
        assert forall|i: int| 0 <= i < rest.len() implies visible()(#[trigger] rest[i]) by {
            assert(pipe_valid(pipes[0]));
        }
        lemma_filter_keeps_all(rest, visible());
        rest.lemma_filter_prepend(moved[0], visible());
        assert(seq![moved[0]] + rest.filter(visible()) =~= moved);
    } else {
        lemma_filter_keeps_all(moved, visible());
    }
}

/// Scrolling keeps the pipes valid, none of them is then off the field, and
/// at most one of them starts to count for the score.
pub proof fn lemma_scroll_valid(pipes: Seq<PipeView>, speed: int)
    requires
        pipes_valid(pipes),
        0 <= speed <= MAX_SPEED,
    ensures
        pipes_valid(scroll(pipes, speed)),
        forall|i: int|
            0 <= i < scroll(pipes, speed).len() ==> on_screen(#[trigger] scroll(pipes, speed)[i]),
        passed_count(pipes, speed) <= 1,
{
    lemma_scroll_shape(pipes, speed);
    let kept = scroll(pipes, speed);
    assert forall|i: int| 0 <= i < kept.len() implies pipe_valid(#[trigger] kept[i]) && on_screen(
        kept[i],
    ) by {}
    assert forall|i: int, j: int| 0 <= i < j < kept.len() implies (#[trigger] kept[j]).x - (
    #[trigger] kept[i]).x > SPAWN_X - SPAWN_TRIGGER by {}
    assert forall|i: int, j: int| 0 <= i < j < pipes.len() implies !(passing(speed)(
        #[trigger] pipes[i],
    ) && passing(speed)(#[trigger] pipes[j])) by {}
    lemma_filter_keeps_one(pipes, passing(speed));
}

/// The pipe that appears is valid, and it stands far enough right of
/// pipes behind which a pipe was due.
pub proof fn lemma_spawn_valid(pipes: Seq<PipeView>, score: nat, sample: int)
    requires
        pipes_valid(pipes),
        spawn_due(pipes),
    ensures
        pipes_valid(pipes.push(spawned(score, sample))),
{
    lemma_gap_bounds(score);
    let grown = pipes.push(spawned(score, sample));
    assert forall|i: int| 0 <= i < grown.len() implies pipe_valid(#[trigger] grown[i]) by {}
    assert forall|i: int, j: int| 0 <= i < j < grown.len() implies (#[trigger] grown[j]).x - (
    #[trigger] grown[i]).x > SPAWN_X - SPAWN_TRIGGER by {}
}

/// Moves every pipe left by `speed` and drops those that left the field.
/// Returns the pipes that remain and how many began to count for the score.
pub fn scroll_pipes(pipes: &Vec<Pipe>, speed: i64) -> (out: (Vec<Pipe>, u32))
    requires
        pipes_valid(views(pipes@)),
        0 <= speed <= MAX_SPEED,
    ensures
        views(out.0@) == scroll(views(pipes@), speed as int),
        out.1 == passed_count(views(pipes@), speed as int),
{
    let mut kept: Vec<Pipe> = Vec::new();
    let mut passed: u32 = 0;
    let mut i: usize = 0;
    let ghost all = views(pipes@);
    proof {
        lemma_at_most_three(all);
        lemma_filter_keeps_all(Seq::<PipeView>::empty(), visible());
        lemma_filter_keeps_all(Seq::<PipeView>::empty(), passing(speed as int));
    }
    while i < pipes.len()
        invariant
            i <= pipes.len(),
            pipes.len() <= 3,
            all == views(pipes@),
            pipes_valid(all),
            0 <= speed <= MAX_SPEED,
            views(kept@) == scroll(all.take(i as int), speed as int),
            passed == passed_count(all.take(i as int), speed as int),
            passed <= i,
        decreases pipes.len() - i,
    {
        let p = pipes[i];
        proof {
            assert(pipe_valid(all[i as int]));
        }
        let x: i64 = p.x - speed;
        let clears: bool = BIRD_X > x + p.width;
        if !p.passed && clears {
            passed = passed + 1;
        }
        let moved = Pipe {
            x,
            gap_y: p.gap_y,
            width: p.width,
            gap_height: p.gap_height,
            passed: p.passed || clears,
        };
        if moved.x > -moved.width {
            kept.push(moved);
        }
        proof {
            let front = all.take(i as int);
            let next = all.take(i as int + 1);
            assert(next =~= front.push(p@));
            assert(next.map_values(advance_by(speed as int)) =~= front.map_values(
                advance_by(speed as int),
            ).push(moved@));
            front.map_values(advance_by(speed as int)).lemma_filter_push(moved@, visible());
            front.lemma_filter_push(p@, passing(speed as int));
        }
        i = i + 1;
    }
    proof {
        assert(all.take(i as int) =~= all);
    }
    (kept, passed)
}

/// Computes [`spawn_due`].
pub fn is_spawn_due(pipes: &Vec<Pipe>) -> (due: bool)
    ensures
        due == spawn_due(views(pipes@)),
{
    let n = pipes.len();
    if n == 0 {
        true
    } else {
        pipes[n - 1].x < SPAWN_TRIGGER
    }
}

/// Makes the pipe of [`spawned`].
pub fn spawn_pipe(score: u32, sample: i64) -> (p: Pipe)
    ensures
        p@ == spawned(score as nat, sample as int),
{
    let gap = current_gap_height(score);
    let first: i64 = gap / 2;
    let end: i64 = FIELD - 3 * gap / 2;
    let gap_y: i64 = if sample < first {
        first
    } else if sample >= end {
        end - 1
    } else {
        sample
    };
    Pipe { x: SPAWN_X, gap_y, width: PIPE_WIDTH, gap_height: gap, passed: false }
}

} // verus!
