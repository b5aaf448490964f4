//! Control of the recursive shading of one ray: when to stop, when to fall
//! back to the sky, when to follow a scattered ray. The colour arithmetic is
//! the caller's; this module decides which term each step contributes.

use vstd::prelude::*;

verus! {

/// What intersecting a ray with the scene, and scattering it at the closest
/// surface, gave.
#[derive(Clone, Copy, PartialEq, Eq, Debug, Structural)]
pub enum Interaction {
    /// No primitive was hit: the ray sees the sky.
    Miss,
    /// A primitive was hit and its material produced no outgoing ray: its
    /// attenuation is the last factor of the path.
    Absorbed,
    /// A primitive was hit and its material produced an outgoing ray: the
    /// attenuation multiplies the colour that ray brings back.
    Scattered,
}

/// What the shading of a ray does next.
#[derive(Clone, Copy, PartialEq, Eq, Debug, Structural)]
pub enum Step {
    /// The bounce budget is spent: the path contributes black.
    Black,
    /// The path ends in the background gradient.
    Sky,
    /// The path ends in the last material's attenuation.
    Absorbed,
    /// Intersect the current ray with the scene; `depth` bounces remain,
    /// counting this one.
    Trace { depth: u8 },
}

impl Step {
    /// Whether the path is over.
    pub open spec fn is_terminal(self) -> bool {
        !(self is Trace)
    }
}

/// The step of a ray with `depth` bounces left.
pub open spec fn start_spec(depth: u8) -> Step {
    if depth == 0 {
        Step::Black
    } else {
        Step::Trace { depth }
    }
}

/// The step after a ray traced with `depth` bounces left met `event`.
pub open spec fn advance_spec(depth: u8, event: Interaction) -> Step
    recommends
        depth > 0,
{
    match event {
        Interaction::Miss => Step::Sky,
        Interaction::Absorbed => Step::Absorbed,
        Interaction::Scattered => start_spec((depth - 1) as u8),
    }
}

/// Where a path is after the events `events`, starting from `step`; events
/// after the path has ended are ignored.
pub open spec fn run(step: Step, events: Seq<Interaction>) -> Step
    decreases events.len(),
{
    if events.len() == 0 {
        step
    } else {
        match step {
            Step::Trace { depth } => run(advance_spec(depth, events[0]), events.drop_first()),
            _ => step,
        }
    }
}

/// First step of shading a ray with a budget of `depth` bounces. With no
/// budget left the ray is not traced at all and contributes black, whatever
/// the ray and the scene.
pub fn start(depth: u8) -> (r: Step)
    ensures
        r == start_spec(depth),
        depth == 0 ==> r == Step::Black,
        depth > 0 ==> r == (Step::Trace { depth }),
{
    if depth == 0 {
        Step::Black
    } else {
        Step::Trace { depth }
    }
}

/// The step after a ray traced with `depth` bounces left met `event`: a miss
/// ends in the sky, an absorption ends in the attenuation, a scattered ray is
/// shaded in turn with one bounce fewer.
pub fn advance(depth: u8, event: Interaction) -> (r: Step)
    requires
        depth > 0,
    ensures
        r == advance_spec(depth, event),
{
    match event {
        Interaction::Miss => Step::Sky,
        Interaction::Absorbed => Step::Absorbed,
        Interaction::Scattered => start(depth - 1),
    }
}

/// Every path ends: from a budget of `depth` bounces, whatever the scene and
/// the materials give, the shading has stopped after `depth` events at most.
pub proof fn lemma_path_terminates(depth: u8, events: Seq<Interaction>)
    requires
        events.len() >= depth,
    ensures
        run(start_spec(depth), events).is_terminal(),
    decreases depth,
{
    if depth > 0 {
        let next = advance_spec(depth, events[0]);
        if next is Trace {
            lemma_path_terminates((depth - 1) as u8, events.drop_first());
        } else {
            assert(run(next, events.drop_first()) == next);
        }
    }
}

} // verus!
