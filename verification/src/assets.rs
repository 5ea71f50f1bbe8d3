//! Loading the images: in which order they are fetched, and what a failure
//! means. The engine fetches nothing itself; a host fetches the image that
//! [`Loading`] names and tells it how that went.

use vstd::prelude::*;
use crate::render::Sprite;
use crate::text::sprite_name;

verus! {

/// Where the loading of the images stands.
#[derive(Clone, Copy, Debug, PartialEq, Eq)]
pub enum Loading {
    /// This image is to be fetched next.
    Fetch(Sprite),
    /// All images are there.
    Complete,
    /// This image could not be fetched, and none is fetched after it.
    Failed(Sprite),
}

/// The image that is fetched after `sprite`, if there is one: the bird
/// comes first, then the pipe, then the background.
pub open spec fn successor(sprite: Sprite) -> Option<Sprite> {
    match sprite {
        Sprite::Bird => Some(Sprite::Pipe),
        Sprite::Pipe => Some(Sprite::Background),
        Sprite::Background => None,
    }
}

impl Loading {
    /// The loading once the image awaited has arrived, or has failed to.
    /// A failure ends the loading, and so does the last image.
    pub open spec fn advance(self, arrived: bool) -> Loading {
        match self {
            Loading::Fetch(sprite) => if !arrived {
                Loading::Failed(sprite)
            } else {
                match successor(sprite) {
                    Some(next) => Loading::Fetch(next),
                    None => Loading::Complete,
                }
            },
            _ => self,
        }
    }

    /// The loading before anything is fetched.
    pub fn begin() -> (loading: Loading)
        ensures
            loading == Loading::Fetch(Sprite::Bird),
    {
        Loading::Fetch(Sprite::Bird)
    }

    /// Computes [`Loading::advance`].
    pub fn next(self, arrived: bool) -> (loading: Loading)
        ensures
            loading == self.advance(arrived),
    {
        match self {
            Loading::Fetch(sprite) => {
                if !arrived {
                    Loading::Failed(sprite)
                } else {
                    match sprite {
                        Sprite::Bird => Loading::Fetch(Sprite::Pipe),
                        Sprite::Pipe => Loading::Fetch(Sprite::Background),
                        Sprite::Background => Loading::Complete,
                    }
                }
            },
            Loading::Complete => Loading::Complete,
            Loading::Failed(sprite) => Loading::Failed(sprite),
        }
    }
}

/// The loading after the outcomes `arrivals` of its fetches, in order.
pub open spec fn loaded(arrivals: Seq<bool>) -> Loading
    decreases arrivals.len(),
{
    if arrivals.len() == 0 {
        Loading::Fetch(Sprite::Bird)
    } else {
        loaded(arrivals.drop_last()).advance(arrivals.last())
    }
}

/// How the message begins that reports a failure to fetch `sprite`; what
/// the host knows of the error follows it.
pub open spec fn failure_text(sprite: Sprite) -> Seq<char> {
    "Failed to load "@ + sprite_name(sprite) + ": "@
}

/// Computes [`failure_text`].
pub fn failure_message(sprite: Sprite) -> (s: String)
    ensures
        s@ == failure_text(sprite),
{
    let mut s = String::from_str("Failed to load ");
    s.append(sprite.name());
    s.append(": ");
    s
}

/// Three arrivals complete the loading: of the bird, the pipe and the
/// background, in this order.
pub proof fn lemma_three_arrivals_complete()
    ensures
        loaded(seq![true]) == Loading::Fetch(Sprite::Pipe),
        loaded(seq![true, true]) == Loading::Fetch(Sprite::Background),
        loaded(seq![true, true, true]) == Loading::Complete,
{
    reveal_with_fuel(loaded, 4);
    assert(seq![true, true, true].drop_last() =~= seq![true, true]);
    assert(seq![true, true].drop_last() =~= seq![true]);
}

/// Once the loading is complete or has failed, nothing changes it.
pub proof fn lemma_end_is_final(loading: Loading, arrived: bool)
    requires
        loading is Complete || loading is Failed,
    ensures
        loading.advance(arrived) == loading,
{
}

/// The loading is complete exactly if the first three fetches succeeded,
/// and it has failed exactly if one of them did not: then it names the
/// first that failed. Until then it names the image after those fetched.
pub proof fn lemma_loading_outcome(arrivals: Seq<bool>)
    ensures
        loaded(arrivals) is Complete <==> arrivals.len() >= 3 && arrivals[0] && arrivals[1]
            && arrivals[2],
        loaded(arrivals) == Loading::Failed(Sprite::Bird) <==> arrivals.len() >= 1 && !arrivals[0],
        loaded(arrivals) == Loading::Failed(Sprite::Pipe) <==> arrivals.len() >= 2 && arrivals[0]
            && !arrivals[1],
        loaded(arrivals) == Loading::Failed(Sprite::Background) <==> arrivals.len() >= 3
            && arrivals[0] && arrivals[1] && !arrivals[2],
        loaded(arrivals) == Loading::Fetch(Sprite::Bird) <==> arrivals.len() == 0,
        loaded(arrivals) == Loading::Fetch(Sprite::Pipe) <==> arrivals.len() == 1 && arrivals[0],
        loaded(arrivals) == Loading::Fetch(Sprite::Background) <==> arrivals.len() == 2
            && arrivals[0] && arrivals[1],
    decreases arrivals.len(),
{
    if arrivals.len() > 0 {
        let front = arrivals.drop_last();
        lemma_loading_outcome(front);
        assert(forall|i: int| 0 <= i < front.len() ==> front[i] == arrivals[i]);
    }
}

} // verus!
