//! Pieces of the streaming window loop: the cursor crosshair drawn into the
//! frame buffer, mouse-button edge detection, and the reconnect policy.

use vstd::prelude::*;

verus! {

/// Colour of the cursor crosshair (white, 0RGB).
pub const CURSOR_COLOR: u32 = 0x00FF_FFFF;

/// Side of the crosshair box in pixels.
pub const CROSSHAIR_SIZE: usize = 8;

/// Whether pixel `(px, py)` belongs to the 8x8 crosshair whose top-left
/// corner is `(cx, cy)`: the two middle rows and the two middle columns.
pub open spec fn in_crosshair(px: int, py: int, cx: int, cy: int) -> bool {
    &&& cx <= px < cx + 8
    &&& cy <= py < cy + 8
    &&& (px - cx == 3 || px - cx == 4 || py - cy == 3 || py - cy == 4)
}

/// The crosshair pixels drawn so far when the row loop is at `dy` and the
/// column loop at `dx`.
spec fn drawn_before(px: int, py: int, cx: int, cy: int, dy: int, dx: int) -> bool {
    in_crosshair(px, py, cx, cy) && (py - cy < dy || (py - cy == dy && px - cx < dx))
}

proof fn lemma_grid_index_injective(r1: int, c1: int, r2: int, c2: int, w: int)
    requires
        0 <= r1,
        0 <= r2,
        0 <= c1 < w,
        0 <= c2 < w,
        r1 * w + c1 == r2 * w + c2,
    ensures
        r1 == r2,
        c1 == c2,
{
    if r1 < r2 {
        assert(r1 * w + w <= r2 * w) by (nonlinear_arith)
            requires
                r1 < r2,
                0 <= c1 < w,
        ;
    } else if r2 < r1 {
        assert(r2 * w + w <= r1 * w) by (nonlinear_arith)
            requires
                r2 < r1,
                0 <= c1 < w,
        ;
    }
}

proof fn lemma_grid_index_bound(r: int, c: int, w: int, h: int)
    requires
        0 <= r < h,
        0 <= c < w,
    ensures
        0 <= r * w + c < w * h,
{
    assert(0 <= r * w + c < w * h) by (nonlinear_arith)
        requires
            0 <= r < h,
            0 <= c < w,
    ;
}

/// Draw the 8x8 crosshair with top-left corner `(cx, cy)` into a
/// `width x height` 0RGB buffer, clipping it at the right and bottom edges.
pub fn draw_crosshair(buffer: &mut Vec<u32>, width: usize, height: usize, cx: usize, cy: usize)
    requires
        width * height <= old(buffer)@.len(),
        cx + 7 <= usize::MAX,
        cy + 7 <= usize::MAX,
    ensures
        final(buffer)@.len() == old(buffer)@.len(),
        forall|py: int, px: int|
            0 <= py < height && 0 <= px < width ==> #[trigger] final(buffer)@[py * width + px]
                == if in_crosshair(px, py, cx as int, cy as int) {
                CURSOR_COLOR
            } else {
                old(buffer)@[py * width + px]
            },
        forall|i: int| width * height <= i < old(buffer)@.len() ==> #[trigger] final(buffer)@[i] == old(buffer)@[i],
{
    if width == 0 || height == 0 {
        return;
    }
    let ghost orig = buffer@;
    let mut dy: usize = 0;
    while dy < CROSSHAIR_SIZE
        invariant
            dy <= CROSSHAIR_SIZE,
            width > 0,
            height > 0,
            width * height <= orig.len(),
            cx + 7 <= usize::MAX,
            cy + 7 <= usize::MAX,
            buffer@.len() == orig.len(),
            forall|py: int, px: int|
                0 <= py < height && 0 <= px < width ==> #[trigger] buffer@[py * width + px]
                    == if drawn_before(px, py, cx as int, cy as int, dy as int, 0) {
                    CURSOR_COLOR
                } else {
                    orig[py * width + px]
                },
            forall|i: int| width * height <= i < orig.len() ==> #[trigger] buffer@[i] == orig[i],
        decreases CROSSHAIR_SIZE - dy,
    {
        let mut dx: usize = 0;
        while dx < CROSSHAIR_SIZE
            invariant
                dy < CROSSHAIR_SIZE,
                dx <= CROSSHAIR_SIZE,
                width > 0,
                height > 0,
                width * height <= orig.len(),
                cx + 7 <= usize::MAX,
                cy + 7 <= usize::MAX,
                buffer@.len() == orig.len(),
                forall|py: int, px: int|
                    0 <= py < height && 0 <= px < width ==> #[trigger] buffer@[py * width + px]
                        == if drawn_before(px, py, cx as int, cy as int, dy as int, dx as int) {
                        CURSOR_COLOR
                    } else {
                        orig[py * width + px]
                    },
                forall|i: int| width * height <= i < orig.len() ==> #[trigger] buffer@[i] == orig[i],
            decreases CROSSHAIR_SIZE - dx,
        {
            let px = cx + dx;
            let py = cy + dy;
            if px < width && py < height && (dx == 3 || dx == 4 || dy == 3 || dy == 4) {
                let blen = buffer.len();
                proof {
                    lemma_grid_index_bound(py as int, px as int, width as int, height as int);
                    assert(py * width <= py * width + px) by (nonlinear_arith)
                        requires
                            0 <= px,
                            0 <= py,
                    ;
                }
                let k = py * width + px;
                let ghost before = buffer@;
                buffer.set(k, CURSOR_COLOR);
                proof {
                    assert forall|qy: int, qx: int|
                        0 <= qy < height && 0 <= qx < width implies #[trigger] buffer@[qy * width
                            + qx] == if drawn_before(
                            qx,
                            qy,
                            cx as int,
                            cy as int,
                            dy as int,
                            dx + 1,
                        ) {
                            CURSOR_COLOR
                        } else {
                            orig[qy * width + qx]
                        } by {
                        lemma_grid_index_bound(qy, qx, width as int, height as int);
                        if qy * width + qx == k {
                            lemma_grid_index_injective(qy, qx, py as int, px as int, width as int);
                        }
                    }
                    assert forall|i: int| width * height <= i < orig.len() implies #[trigger] buffer@[i]
                        == orig[i] by {
                        assert(buffer@[i] == before[i]);
                    }
                }
            } else {
                proof {
                    assert forall|qy: int, qx: int|
                        0 <= qy < height && 0 <= qx < width implies #[trigger] buffer@[qy * width
                            + qx] == if drawn_before(
                            qx,
                            qy,
                            cx as int,
                            cy as int,
                            dy as int,
                            dx + 1,
                        ) {
                            CURSOR_COLOR
                        } else {
                            orig[qy * width + qx]
                        } by {
                        assert(drawn_before(qx, qy, cx as int, cy as int, dy as int, dx + 1)
                            == drawn_before(qx, qy, cx as int, cy as int, dy as int, dx as int));
                    }
                }
            }
            dx = dx + 1;
        }
        proof {
            assert forall|qy: int, qx: int|
                0 <= qy < height && 0 <= qx < width implies #[trigger] buffer@[qy * width + qx]
                    == if drawn_before(qx, qy, cx as int, cy as int, dy + 1, 0) {
                    CURSOR_COLOR
                } else {
                    orig[qy * width + qx]
                } by {
                assert(drawn_before(qx, qy, cx as int, cy as int, dy + 1, 0) == drawn_before(
                    qx,
                    qy,
                    cx as int,
                    cy as int,
                    dy as int,
                    8,
                ));
            }
        }
        dy = dy + 1;
    }
    proof {
        assert forall|qy: int, qx: int|
            0 <= qy < height && 0 <= qx < width implies #[trigger] buffer@[qy * width + qx] == if in_crosshair(
                qx,
                qy,
                cx as int,
                cy as int,
            ) {
                CURSOR_COLOR
            } else {
                orig[qy * width + qx]
            } by {
            assert(drawn_before(qx, qy, cx as int, cy as int, 8, 0) == in_crosshair(
                qx,
                qy,
                cx as int,
                cy as int,
            ));
        }
    }
}


/// A change of a mouse button between two polls of the window.
#[derive(Debug, Clone, Copy, PartialEq, Eq, Structural)]
pub enum ButtonEdge {
    Pressed,
    Released,
}

/// The event to forward for a button that is `down` now and was `was_down`
/// at the previous poll: a press, a release, or nothing.
pub fn button_edge(down: bool, was_down: bool) -> (e: Option<ButtonEdge>)
    ensures
        e == (if down && !was_down {
            Some(ButtonEdge::Pressed)
        } else if !down && was_down {
            Some(ButtonEdge::Released)
        } else {
            None
        }),
{
    if down && !was_down {
        Some(ButtonEdge::Pressed)
    } else if !down && was_down {
        Some(ButtonEdge::Released)
    } else {
        None
    }
}

/// Number of failed connection attempts after which the client gives up.
pub const MAX_RECONNECT_ATTEMPTS: u32 = 100;

/// Seconds to wait before the next connection attempt.
pub const RECONNECT_DELAY_SECS: u64 = 3;

/// What to do after a connection attempt failed.
#[derive(Debug, Clone, Copy, PartialEq, Eq, Structural)]
pub enum ReconnectDecision {
    /// Wait this many seconds, then try again.
    RetryAfter(u64),
    /// Stop and report the last error.
    GiveUp,
}

/// The answer to the failure that brings the count to `failures`.
pub open spec fn decision_after(failures: nat) -> ReconnectDecision {
    if failures >= MAX_RECONNECT_ATTEMPTS {
        ReconnectDecision::GiveUp
    } else {
        ReconnectDecision::RetryAfter(RECONNECT_DELAY_SECS)
    }
}

/// From a fresh policy, every failure before the hundredth is retried and
/// the hundredth gives up: when every attempt fails, exactly 100 are made.
pub proof fn lemma_gives_up_at_last_attempt()
    ensures
        forall|k: nat| 1 <= k < MAX_RECONNECT_ATTEMPTS ==> #[trigger] decision_after(k)
            == ReconnectDecision::RetryAfter(RECONNECT_DELAY_SECS),
        decision_after(MAX_RECONNECT_ATTEMPTS as nat) == ReconnectDecision::GiveUp,
        MAX_RECONNECT_ATTEMPTS == 100,
{
}

/// Counts failed connection attempts of the streaming client.
pub struct ReconnectPolicy {
    attempt: u32,
}

impl ReconnectPolicy {
    pub closed spec fn failures(&self) -> nat {
        self.attempt as nat
    }

    /// A policy that has seen no failure yet.
    pub fn new() -> (p: ReconnectPolicy)
        ensures
            p.failures() == 0,
    {
        ReconnectPolicy { attempt: 0 }
    }

    /// Record a failed attempt: retry after three seconds for the first 99
    /// failures, give up at the 100th, so that at most 100 attempts are made.
    pub fn on_failure(&mut self) -> (d: ReconnectDecision)
        requires
            old(self).failures() < u32::MAX,
        ensures
            final(self).failures() == old(self).failures() + 1,
            d == decision_after(final(self).failures()),
    {
        self.attempt = self.attempt + 1;
        if self.attempt >= MAX_RECONNECT_ATTEMPTS {
            ReconnectDecision::GiveUp
        } else {
            ReconnectDecision::RetryAfter(RECONNECT_DELAY_SECS)
        }
    }
}

} // verus!
