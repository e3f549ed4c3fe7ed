//! What a session holds and has to give back.
//!
//! The window comes first and its rendering context second; graphics objects
//! follow as the driver creates them. Release runs the other way round.

use vstd::prelude::*;

verus! {

/// The kinds of graphics object that a session can hold.
#[derive(Clone, Copy, Debug, PartialEq, Eq, Structural, Hash)]
pub enum ResourceKind {
    Shader,
    Program,
    VertexArray,
    Buffer,
}

/// One graphics object, by its kind and the name that the graphics API gave it.
#[derive(Clone, Copy, Debug, PartialEq, Eq, Structural, Hash)]
pub struct Resource {
    pub kind: ResourceKind,
    pub name: u32,
}

/// One step of a shutdown.
#[derive(Clone, Copy, Debug, PartialEq, Eq, Structural, Hash)]
pub enum Release {
    /// Delete this graphics object.
    Graphics(Resource),
    /// Let go of the rendering context.
    Context,
    /// Destroy the window.
    Window,
}

/// The order of release for what was acquired in the order `acquired`: the
/// graphics objects from the last acquired to the first, then the rendering
/// context, then the window.
pub open spec fn release_plan(acquired: Seq<Resource>) -> Seq<Release> {
    Seq::new(
        acquired.len() + 2,
        |i: int|
            if i < acquired.len() {
                Release::Graphics(acquired[acquired.len() - 1 - i])
            } else if i == acquired.len() {
                Release::Context
            } else {
                Release::Window
            },
    )
}

/// Computes the order of release for `acquired`.
pub fn plan_release(acquired: &[Resource]) -> (plan: Vec<Release>)
    ensures
        plan@ == release_plan(acquired@),
{
    let mut plan: Vec<Release> = Vec::new();
    let mut left: usize = acquired.len();
    while left > 0
        invariant
            left <= acquired.len(),
            plan@.len() == acquired.len() - left,
            forall|i: int|
                0 <= i < plan@.len() ==> plan@[i] == Release::Graphics(
                    acquired@[acquired.len() - 1 - i],
                ),
        decreases left,
    {
        left -= 1;
        plan.push(Release::Graphics(acquired[left]));
    }
    plan.push(Release::Context);
    plan.push(Release::Window);
    proof {
        assert(plan@ =~= release_plan(acquired@));
    }
    plan
}

/// Every acquired object is released exactly once, a later acquisition
/// before an earlier one, and the context and the window come last.
pub proof fn lemma_release_reverses_acquisition(acquired: Seq<Resource>)
    ensures
        release_plan(acquired).len() == acquired.len() + 2,
        forall|i: int|
            0 <= i < acquired.len() ==> release_plan(acquired)[acquired.len() - 1 - i]
                == Release::Graphics(#[trigger] acquired[i]),
        release_plan(acquired)[acquired.len() as int] == Release::Context,
        release_plan(acquired)[acquired.len() as int + 1] == Release::Window,
{
}

} // verus!
