//! The read-only hand-off from physics to rendering: which entities are
//! drawable this frame, and with what.

use vstd::prelude::*;

use crate::components::{Colorable, Position, Rectangle};
use crate::ecs::{Ecs, WorldView};

verus! {

/// A drawable entity: placed, shaped and faced.
pub open spec fn drawable(w: WorldView, i: int) -> bool {
    &&& 0 <= i < w.len()
    &&& w.positions[i] is Some
    &&& w.rects[i] is Some
    &&& w.colors[i] is Some
}

/// The draw list over the first `n` entities, in index order.
pub open spec fn render_queue_spec(w: WorldView, n: int) -> Seq<(Position, Rectangle, Colorable)>
    decreases n,
{
    if n <= 0 {
        Seq::empty()
    } else {
        let prev = render_queue_spec(w, n - 1);
        if drawable(w, n - 1) {
            prev.push((w.positions[n - 1]->0, w.rects[n - 1]->0, w.colors[n - 1]->0))
        } else {
            prev
        }
    }
}

/// Collects every drawable entity's position, shape and face, in index
/// order, for the renderer to consume after all systems have run.
#[verifier::loop_isolation(false)]
pub fn render_queue(ecs: &Ecs) -> (r: Vec<(Position, Rectangle, Colorable)>)
    requires
        ecs@.wf(),
    ensures
        r@ == render_queue_spec(ecs@, ecs@.len() as int),
{
    let n = ecs.positions.len();
    let mut out: Vec<(Position, Rectangle, Colorable)> = Vec::new();
    let mut i: usize = 0;
    while i < n
        invariant
            i <= n,
            out@ == render_queue_spec(ecs@, i as int),
        decreases n - i,
    {
        let po = ecs.positions[i];
        let ro = ecs.rects[i];
        let co = ecs.colors[i];
        if po.is_some() && ro.is_some() && co.is_some() {
            out.push((po.unwrap(), ro.unwrap(), co.unwrap()));
        }
        i = i + 1;
    }
    out
}

} // verus!
