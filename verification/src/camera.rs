//! Camera follow: a deadzone entity tracks the player, and the camera
//! viewport is clamped back inside the deadzone-with-margin box.

use vstd::prelude::*;

use crate::components::{
    box_edges, clamp_coord, clamp_coord_spec, BoxEdges, CollisionAxis, Hitbox, Position,
    Rectangle, SUBUNITS,
};
use crate::ecs::{Ecs, WorldView};
use crate::player::{is_player, player_box, player_ix, unique_player};

verus! {

/// The deadzone margins around the camera-hitbox entity, in world units.
#[derive(Debug, Clone, Copy, PartialEq, Eq, Structural)]
pub struct Margin {
    pub top: u32,
    pub right: u32,
    pub bottom: u32,
    pub left: u32,
}

impl Margin {
    /// The position and shape of the deadzone a window of the given size
    /// leaves inside these margins; sides squeezed below zero collapse to
    /// zero.
    pub fn into_bundle(self, window: (u32, u32)) -> (r: (Position, Rectangle, Margin))
        ensures
            r.0.x == self.left * SUBUNITS,
            r.0.y == self.bottom * SUBUNITS,
            r.1.width == (if self.left + self.right <= window.0 {
                window.0 - self.left - self.right
            } else {
                0int
            }),
            r.1.height == (if self.bottom + self.top <= window.1 {
                window.1 - self.bottom - self.top
            } else {
                0int
            }),
            r.2 == self,
            r.0.wf(),
    {
        let (w, h) = window;
        let width = if (self.left as u64) + (self.right as u64) <= (w as u64) {
            w - self.left - self.right
        } else {
            0
        };
        let height = if (self.bottom as u64) + (self.top as u64) <= (h as u64) {
            h - self.bottom - self.top
        } else {
            0
        };
        let pos = Position { x: (self.left as i64) * SUBUNITS, y: (self.bottom as i64) * SUBUNITS };
        (pos, Rectangle { width, height }, self)
    }
}

/// The camera viewport: a position and a window-sized rectangle.
#[derive(Debug, Clone, Copy, PartialEq, Eq)]
pub struct Camera {
    pub pos: Position,
    pub rect: Rectangle,
}

impl Camera {
    /// True when the viewport position is inside the world range.
    pub open spec fn wf(self) -> bool {
        self.pos.wf()
    }

    /// The viewport as a hitbox.
    pub fn hitbox(&self) -> (r: Hitbox)
        ensures
            r.pos == self.pos,
            r.rect == self.rect,
    {
        Hitbox { pos: self.pos, rect: self.rect }
    }
}

/// The inverted axis test: which edge of `a` sticks out of `b`, for
/// keeping a box inside another rather than apart from it.
pub open spec fn inverted_axis(a: BoxEdges, b: BoxEdges) -> Option<CollisionAxis> {
    if a.right > b.right {
        Some(CollisionAxis::Right)
    } else if a.left < b.left {
        Some(CollisionAxis::Left)
    } else if a.bottom < b.bottom {
        Some(CollisionAxis::Down)
    } else if a.top > b.top {
        Some(CollisionAxis::Up)
    } else {
        None
    }
}

/// A value saturated into `u32`.
pub open spec fn sat_u32(x: int) -> int {
    if x > u32::MAX {
        u32::MAX as int
    } else {
        x
    }
}

/// The hitbox grown by the margins: the lower-left corner moves out by the
/// left and bottom margins, the sides grow by both margins, saturating at
/// the side-length limit.
pub open spec fn with_margin_spec(hb: Hitbox, m: Margin) -> Hitbox {
    Hitbox {
        pos: Position {
            x: clamp_coord_spec(hb.pos.x - m.left * SUBUNITS) as i64,
            y: clamp_coord_spec(hb.pos.y - m.bottom * SUBUNITS) as i64,
        },
        rect: Rectangle {
            width: sat_u32(hb.rect.width + m.left + m.right) as u32,
            height: sat_u32(hb.rect.height + m.bottom + m.top) as u32,
        },
    }
}

impl Hitbox {
    /// Which edge of `self` sticks out of `other`, or `None` when `self`
    /// lies inside it; the inverse of the separating collision test.
    pub fn colides_with_axis_inverted(&self, other: &Hitbox) -> (r: Option<CollisionAxis>)
        requires
            self.wf(),
            other.wf(),
        ensures
            r == inverted_axis(self@, other@),
    {
        if self.right() > other.right() {
            Some(CollisionAxis::Right)
        } else if self.left() < other.left() {
            Some(CollisionAxis::Left)
        } else if self.bottom() < other.bottom() {
            Some(CollisionAxis::Down)
        } else if self.top() > other.top() {
            Some(CollisionAxis::Up)
        } else {
            None
        }
    }

    /// This hitbox grown by the margins.
    pub fn with_margin(&self, margin: &Margin) -> (r: Hitbox)
        requires
            self.wf(),
        ensures
            r == with_margin_spec(*self, *margin),
            r.wf(),
    {
        let width_sum = (self.rect.width as u64) + (margin.left as u64) + (margin.right as u64);
        let height_sum = (self.rect.height as u64) + (margin.bottom as u64) + (margin.top as u64);
        let width = if width_sum > (u32::MAX as u64) {
            u32::MAX
        } else {
            width_sum as u32
        };
        let height = if height_sum > (u32::MAX as u64) {
            u32::MAX
        } else {
            height_sum as u32
        };
        Hitbox {
            pos: Position {
                x: clamp_coord(self.pos.x - (margin.left as i64) * SUBUNITS),
                y: clamp_coord(self.pos.y - (margin.bottom as i64) * SUBUNITS),
            },
            rect: Rectangle { width, height },
        }
    }
}

/// The camera's deadzone entity: camera-marked, placed, shaped and
/// margined, and not the player.
pub open spec fn is_cam(w: WorldView, i: int) -> bool {
    &&& 0 <= i < w.len()
    &&& w.camera_hitboxes[i] is Some
    &&& w.positions[i] is Some
    &&& w.rects[i] is Some
    &&& w.margins[i] is Some
    &&& w.players[i] is None
}

/// Exactly one entity is the camera's deadzone.
pub open spec fn unique_cam(w: WorldView) -> bool {
    &&& exists|i: int| is_cam(w, i)
    &&& forall|i: int, j: int| is_cam(w, i) && is_cam(w, j) ==> i == j
}

/// The index of the camera's deadzone entity.
pub open spec fn cam_ix(w: WorldView) -> int {
    choose|i: int| is_cam(w, i)
}

/// A world whose camera-deadzone tables are untouched, and whose placed
/// entities stay placed, keeps its unique deadzone and its index.
pub proof fn lemma_cam_preserved(a: WorldView, b: WorldView)
    requires
        unique_cam(a),
        b.camera_hitboxes == a.camera_hitboxes,
        b.margins == a.margins,
        b.players == a.players,
        b.rects == a.rects,
        b.positions.len() == a.positions.len(),
        forall|i: int|
            0 <= i < a.positions.len() ==> ((#[trigger] b.positions[i]) is Some <==> a.positions[i]
                is Some),
    ensures
        unique_cam(b),
        cam_ix(b) == cam_ix(a),
{
    assert(is_cam(a, cam_ix(a)));
    assert(is_cam(b, cam_ix(a)));
    assert forall|i: int, j: int| is_cam(b, i) && is_cam(b, j) implies i == j by {
        assert(is_cam(a, i));
        assert(is_cam(a, j));
    };
    assert(unique_cam(b));
    assert(is_cam(b, cam_ix(b)));
    assert(is_cam(a, cam_ix(b)));
}

/// A world with the same deadzone entities keeps its unique deadzone and
/// its index, whatever else changed.
pub proof fn lemma_cam_same(a: WorldView, b: WorldView)
    requires
        unique_cam(a),
        forall|i: int| (#[trigger] is_cam(b, i)) <==> is_cam(a, i),
    ensures
        unique_cam(b),
        cam_ix(b) == cam_ix(a),
{
    assert(is_cam(a, cam_ix(a)));
    assert(is_cam(b, cam_ix(a)));
    assert forall|i: int, j: int| is_cam(b, i) && is_cam(b, j) implies i == j by {
        assert(is_cam(a, i));
        assert(is_cam(a, j));
    };
    assert(unique_cam(b));
    assert(is_cam(b, cam_ix(b)));
    assert(is_cam(a, cam_ix(b)));
}

/// A position shifted so that one edge of its box lands on a target edge.
pub open spec fn shift_pos(pos: Position, axis: CollisionAxis, dx: int, dy: int) -> Position {
    match axis {
        CollisionAxis::Up | CollisionAxis::Down => Position {
            x: pos.x,
            y: clamp_coord_spec(pos.y + dy) as i64,
        },
        CollisionAxis::Left | CollisionAxis::Right => Position {
            x: clamp_coord_spec(pos.x + dx) as i64,
            y: pos.y,
        },
    }
}

/// The edge difference the inverted axis asks to close, as an x and y
/// shift.
pub open spec fn edge_delta(axis: CollisionAxis, a: BoxEdges, b: BoxEdges) -> (int, int) {
    match axis {
        CollisionAxis::Up => (0, a.top - b.top),
        CollisionAxis::Down => (0, a.bottom - b.bottom),
        CollisionAxis::Left => (a.left - b.left, 0),
        CollisionAxis::Right => (a.right - b.right, 0),
    }
}

/// The deadzone position and camera after one follow step: the deadzone
/// chases the player out of itself, then the camera viewport is pulled to
/// contain the deadzone-with-margin box.
pub open spec fn move_camera_tr(w: WorldView, cam: Camera) -> (WorldView, Camera) {
    let c = cam_ix(w);
    let cpos = w.positions[c]->0;
    let crect = w.rects[c]->0;
    let margin = w.margins[c]->0;
    let pb = player_box(w);
    let cb = box_edges(cpos, crect);
    match inverted_axis(pb, cb) {
        None => (w, cam),
        Some(axis) => {
            let d = edge_delta(axis, pb, cb);
            let cpos2 = shift_pos(cpos, axis, d.0, d.1);
            let w2 = WorldView { positions: w.positions.update(c, Some(cpos2)), ..w };
            let mb = with_margin_spec(Hitbox { pos: cpos2, rect: crect }, margin);
            let camb = box_edges(cam.pos, cam.rect);
            match inverted_axis(box_edges(mb.pos, mb.rect), camb) {
                None => (w2, cam),
                Some(axis2) => {
                    let d2 = edge_delta(axis2, box_edges(mb.pos, mb.rect), camb);
                    let cam2 = Camera {
                        pos: shift_pos(cam.pos, axis2, d2.0, d2.1),
                        rect: cam.rect,
                    };
                    (w2, cam2)
                },
            }
        },
    }
}

/// Moves the camera's deadzone to chase the player when the player leaves
/// it, then pulls the camera viewport along so the deadzone with its
/// margins stays inside the viewport.
#[verifier::loop_isolation(false)]
pub fn move_camera(camera: &mut Camera, ecs: &mut Ecs)
    requires
        old(ecs)@.wf(),
        old(camera).wf(),
        unique_player(old(ecs)@),
        old(ecs)@.positions[player_ix(old(ecs)@)] is Some,
        old(ecs)@.rects[player_ix(old(ecs)@)] is Some,
        unique_cam(old(ecs)@),
    ensures
        final(ecs)@ == move_camera_tr(old(ecs)@, *old(camera)).0,
        *final(camera) == move_camera_tr(old(ecs)@, *old(camera)).1,
        final(ecs)@.wf(),
        final(camera).wf(),
{
    let ghost w0 = ecs@;
    let n = ecs.players.len();
    let mut p: usize = 0;
    let mut found = false;
    let mut k: usize = 0;
    while k < n
        invariant
            k <= n,
            !found ==> forall|m: int| 0 <= m < k ==> w0.players[m] is None,
            found ==> (p < n && w0.players[p as int] is Some),
        decreases n - k,
    {
        if !found && ecs.players[k].is_some() {
            p = k;
            found = true;
        }
        k = k + 1;
    }
    proof {
        assert(is_player(w0, player_ix(w0)));
        assert(found);
        assert(is_player(w0, p as int));
        assert(p as int == player_ix(w0));
    }
    let mut c: usize = 0;
    let mut cfound = false;
    let mut k2: usize = 0;
    while k2 < n
        invariant
            k2 <= n,
            !cfound ==> forall|m: int| 0 <= m < k2 ==> !is_cam(w0, m),
            cfound ==> is_cam(w0, c as int),
        decreases n - k2,
    {
        if !cfound && ecs.camera_hitboxes[k2].is_some() && ecs.positions[k2].is_some()
            && ecs.rects[k2].is_some() && ecs.margins[k2].is_some() && ecs.players[k2].is_none() {
            c = k2;
            cfound = true;
        }
        k2 = k2 + 1;
    }
    proof {
        assert(is_cam(w0, cam_ix(w0)));
        assert(cfound);
        assert(c as int == cam_ix(w0));
    }
    let ppos = ecs.positions[p].unwrap();
    let prect = ecs.rects[p].unwrap();
    let player_hb = prect.on_position(&ppos);
    let mut cpos = ecs.positions[c].unwrap();
    let crect = ecs.rects[c].unwrap();
    let margin = ecs.margins[c].unwrap();
    let cam_hb = crect.on_position(&cpos);

    let axis = match player_hb.colides_with_axis_inverted(&cam_hb) {
        Some(a) => a,
        None => {
            return ;
        },
    };
    match axis {
        CollisionAxis::Up => {
            cpos.y = clamp_coord(cpos.y + (player_hb.top() - cam_hb.top()));
        },
        CollisionAxis::Down => {
            cpos.y = clamp_coord(cpos.y + (player_hb.bottom() - cam_hb.bottom()));
        },
        CollisionAxis::Left => {
            cpos.x = clamp_coord(cpos.x + (player_hb.left() - cam_hb.left()));
        },
        CollisionAxis::Right => {
            cpos.x = clamp_coord(cpos.x + (player_hb.right() - cam_hb.right()));
        },
    }
    ecs.positions.set(c, Some(cpos));

    let moved_hb = crect.on_position(&cpos);
    let margin_hb = moved_hb.with_margin(&margin);
    let cam_view_hb = camera.hitbox();
    let axis2 = match margin_hb.colides_with_axis_inverted(&cam_view_hb) {
        Some(a) => a,
        None => {
            return ;
        },
    };
    match axis2 {
        CollisionAxis::Up => {
            camera.pos.y = clamp_coord(camera.pos.y + (margin_hb.top() - cam_view_hb.top()));
        },
        CollisionAxis::Down => {
            camera.pos.y = clamp_coord(
                camera.pos.y + (margin_hb.bottom() - cam_view_hb.bottom()),
            );
        },
        CollisionAxis::Left => {
            camera.pos.x = clamp_coord(camera.pos.x + (margin_hb.left() - cam_view_hb.left()));
        },
        CollisionAxis::Right => {
            camera.pos.x = clamp_coord(
                camera.pos.x + (margin_hb.right() - cam_view_hb.right()),
            );
        },
    }
}

} // verus!
