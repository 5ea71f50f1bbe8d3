//! Collision detection: the field's edges and the pipes against the bird's
//! hitbox.

use vstd::prelude::*;
use crate::fixed::ONE;
use crate::pipe::{Pipe, PipeView, views, FIELD, BIRD_X};

verus! {

/// The hitbox begins this far right of the bird's position: 5 pixels.
pub const HITBOX_LEFT: i64 = 5 * ONE;

/// Width of the hitbox: 25 pixels.
pub const HITBOX_WIDTH: i64 = 25 * ONE;

/// The bird's body reaches this far above and below its height: 15 pixels.
pub const HITBOX_HEIGHT: i64 = 15 * ONE;

/// The hitbox ends this far inside the body's upper and lower edge:
/// 4 pixels.
pub const HITBOX_INSET: i64 = 4 * ONE;

/// Whether a bird at height `bird_y` touches the ceiling or the floor.
pub open spec fn out_of_field(bird_y: int) -> bool {
    bird_y <= 0 || bird_y >= FIELD
}

/// Whether the hitbox of a bird at height `bird_y` overlaps the column of
/// `p` and is not wholly inside its gap.
pub open spec fn hits(bird_y: int, p: PipeView) -> bool {
    &&& BIRD_X + HITBOX_LEFT + HITBOX_WIDTH > p.x
    &&& BIRD_X + HITBOX_LEFT < p.x + p.width
    &&& (bird_y - HITBOX_HEIGHT + HITBOX_INSET < p.gap_y || bird_y + HITBOX_HEIGHT - HITBOX_INSET
        > p.gap_y + p.gap_height)
}

/// Whether a bird at height `bird_y` collides with the field's edges or
/// with one of `pipes`.
pub open spec fn collides(bird_y: int, pipes: Seq<PipeView>) -> bool {
    out_of_field(bird_y) || exists|i: int| 0 <= i < pipes.len() && hits(bird_y, #[trigger] pipes[i])
}

/// Computes [`hits`].
pub fn hits_pipe(bird_y: i64, p: &Pipe) -> (hit: bool)
    ensures
        hit == hits(bird_y as int, p@),
{
    let left: i128 = BIRD_X as i128 + HITBOX_LEFT as i128;
    let top: i128 = bird_y as i128 - HITBOX_HEIGHT as i128 + HITBOX_INSET as i128;
    let bottom: i128 = bird_y as i128 + HITBOX_HEIGHT as i128 - HITBOX_INSET as i128;
    left + HITBOX_WIDTH as i128 > p.x as i128 && left < p.x as i128 + p.width as i128 && (top
        < p.gap_y as i128 || bottom > p.gap_y as i128 + p.gap_height as i128)
}

/// Computes [`collides`]: checks the field's edges, then the pipes in
/// order, and stops at the first hit.
pub fn check_collisions(bird_y: i64, pipes: &Vec<Pipe>) -> (hit: bool)
    ensures
        hit == collides(bird_y as int, views(pipes@)),
{
    if bird_y <= 0 || bird_y >= FIELD {
        return true;
    }
    let mut i: usize = 0;
    while i < pipes.len()
        invariant
            i <= pipes.len(),
            !out_of_field(bird_y as int),
            forall|k: int| 0 <= k < i ==> !hits(bird_y as int, #[trigger] views(pipes@)[k]),
        decreases pipes.len() - i,
    {
        if hits_pipe(bird_y, &pipes[i]) {
            assert(views(pipes@)[i as int] == pipes[i as int]@);
            return true;
        }
        i = i + 1;
    }
    false
}

} // verus!
