//! Rays, and the bounce budget that ends every light path.
//!
//! The colour of a ray is the product of the attenuations met along its path
//! and of the colour in which the path ends. Which of the three things
//! happens next (trace on, end in black, end in the background) is decided
//! here; the colours themselves are the caller's arithmetic.

use vstd::prelude::*;
use crate::scalar::Scalar;
use crate::scalar::INFINITY_BITS;
use crate::vector::Vec3;

verus! {

/// Bits of the double nearest to 0.001: a hit nearer than this is taken for
/// the surface that the ray has just left.
pub const SHADOW_BIAS_BITS: u64 = 0x3F50_624D_D2F1_A9FC;

/// The window in which a traced ray looks for its hit: from the shadow bias
/// to infinity.
pub fn trace_window() -> (window: (Scalar, Scalar))
    ensures
        window.0.bits == SHADOW_BIAS_BITS,
        window.1.bits == INFINITY_BITS,
{
    (Scalar { bits: SHADOW_BIAS_BITS }, Scalar { bits: INFINITY_BITS })
}

/// The half-line `origin + t * direction`. The direction need not be of unit
/// length.
#[derive(Clone, Copy, PartialEq, Eq, Structural, Debug)]
pub struct Ray {
    pub origin: Vec3,
    pub direction: Vec3,
}

impl Ray {
    pub fn new(origin: Vec3, direction: Vec3) -> (ray: Ray)
        ensures
            ray == (Ray { origin, direction }),
    {
        Ray { origin, direction }
    }

    pub fn origin(&self) -> (p: Vec3)
        ensures
            p == self.origin,
    {
        self.origin
    }

    pub fn direction(&self) -> (d: Vec3)
        ensures
            d == self.direction,
    {
        self.direction
    }
}

/// The colour in which a path ends.
#[derive(Clone, Copy, PartialEq, Eq, Structural, Debug)]
pub enum Terminal {
    /// No light: the budget ran out, or a surface absorbed the ray.
    Black,
    /// The sky gradient in the direction of the last ray.
    Background,
}

/// What the scene did with one ray.
#[derive(Clone, Copy, PartialEq, Eq, Structural, Debug)]
pub enum Found {
    /// The ray hit nothing.
    Miss,
    /// The ray hit a surface that scattered nothing.
    Absorbed,
    /// The ray hit a surface that sent a new ray on.
    Scattered,
}

/// What to do with the ray at hand.
#[derive(Clone, Copy, PartialEq, Eq, Structural, Debug)]
pub enum Step {
    /// Intersect it with the scene; `depth` rays, this one included, may
    /// still be traced on this path.
    Trace { depth: usize },
    /// The path is over.
    Done(Terminal),
}

impl Step {
    pub open spec fn spec_first(depth: usize) -> Step {
        if depth == 0 {
            Step::Done(Terminal::Black)
        } else {
            Step::Trace { depth }
        }
    }

    pub open spec fn spec_after(depth: usize, found: Found) -> Step {
        match found {
            Found::Miss => Step::Done(Terminal::Background),
            Found::Absorbed => Step::Done(Terminal::Black),
            Found::Scattered => Step::spec_first(
                if depth == 0 {
                    depth
                } else {
                    (depth - 1) as usize
                },
            ),
        }
    }

    /// The step for a fresh ray with a budget of `depth`: with no budget the
    /// path is black before the scene is looked at.
    #[verifier::when_used_as_spec(spec_first)]
    pub fn first(depth: usize) -> (step: Step)
        ensures
            step == Step::spec_first(depth),
            depth == 0 ==> step == Step::Done(Terminal::Black),
            depth > 0 ==> step == (Step::Trace { depth }),
    {
        if depth == 0 {
            Step::Done(Terminal::Black)
        } else {
            Step::Trace { depth }
        }
    }

    /// The step that follows tracing a ray with a budget of `depth`: a miss
    /// ends in the background, absorption in black, and a scattered ray
    /// starts afresh with one bounce less. The budget only ever shrinks, so a
    /// path that starts with `depth` traces at most `depth` rays.
    #[verifier::when_used_as_spec(spec_after)]
    pub fn after(depth: usize, found: Found) -> (step: Step)
        ensures
            step == Step::spec_after(depth, found),
            found == Found::Miss ==> step == Step::Done(Terminal::Background),
            found == Found::Absorbed ==> step == Step::Done(Terminal::Black),
            found == Found::Scattered && depth <= 1 ==> step == Step::Done(Terminal::Black),
            found == Found::Scattered && depth > 1 ==> step == (Step::Trace {
                depth: (depth - 1) as usize,
            }),
    {
        match found {
            Found::Miss => Step::Done(Terminal::Background),
            Found::Absorbed => Step::Done(Terminal::Black),
            Found::Scattered => if depth == 0 {
                Step::first(depth)
            } else {
                Step::first(depth - 1)
            },
        }
    }
}

/// How a path ends that is at `step` and whose rays meet with `events` in
/// turn, or none if the path is still going when the events run out.
pub open spec fn path_end(step: Step, events: Seq<Found>) -> Option<Terminal>
    decreases events.len(),
{
    match step {
        Step::Done(end) => Some(end),
        Step::Trace { depth } => if events.len() == 0 {
            None
        } else {
            path_end(Step::spec_after(depth, events[0]), events.drop_first())
        },
    }
}

/// A path without budget is black, whatever the scene holds.
pub proof fn lemma_no_budget_is_black(events: Seq<Found>)
    ensures
        path_end(Step::spec_first(0), events) == Some(Terminal::Black),
{
}

/// A path with a budget of `depth` is over after `depth` rays at the latest,
/// whatever they meet.
pub proof fn lemma_path_ends_within_budget(depth: usize, events: Seq<Found>)
    requires
        events.len() >= depth,
    ensures
        path_end(Step::spec_first(depth), events) is Some,
    decreases depth,
{
    if depth > 0 {
        let next = Step::spec_after(depth, events[0]);
        let rest = events.drop_first();
        assert(path_end(Step::spec_first(depth), events) == path_end(next, rest));
        if events[0] == Found::Scattered {
            lemma_path_ends_within_budget((depth - 1) as usize, rest);
        } else {
            assert(next is Done);
        }
    }
}

} // verus!
