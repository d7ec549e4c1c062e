//! The renderer cache: a single-slot, size-keyed cache of the GPU render
//! target (color texture + framebuffer) behind the renderer.
//!
//! Requested sizes are padded up to a multiple of 16 pixels per axis, so that
//! repeated rasterizations at nearby sizes reuse one allocation.  The cache
//! holds only the decision state (which padded size the current target was
//! allocated at, and how many target allocations have happened); the GPU
//! objects themselves live in the unverified shell, which executes the
//! [`TargetAction`] this cache returns.

use vstd::prelude::*;
use crate::geom::MAX_PIXEL_DIM;

verus! {

/// `n` rounded up to the next multiple of 16, for `n >= 0`.
pub open spec fn pad16(n: int) -> int {
    ((n + 15) / 16) * 16
}

/// The padding really is the least multiple of 16 at or above `n`.
pub proof fn lemma_pad16(n: int)
    requires
        0 <= n,
    ensures
        pad16(n) >= n,
        pad16(n) % 16 == 0,
        pad16(n) < n + 16,
        n <= MAX_PIXEL_DIM ==> pad16(n) <= MAX_PIXEL_DIM,
{
    let q = (n + 15) / 16;
    assert(q * 16 >= n && q * 16 < n + 16 && (q * 16) % 16 == 0) by (nonlinear_arith)
        requires 0 <= n && q == (n + 15) / 16,
    ;
    assert(n <= 16384 ==> q * 16 <= 16384) by (nonlinear_arith)
        requires 0 <= n && q == (n + 15) / 16,
    ;
}

/// `n` rounded up to the next multiple of 16.
pub fn pad_to_16(n: u32) -> (r: u32)
    requires
        n <= MAX_PIXEL_DIM,
    ensures
        r == pad16(n as int),
        n <= r <= MAX_PIXEL_DIM,
{
    proof {
        lemma_pad16(n as int);
    }
    ((n + 15) / 16) * 16
}

/// What the shell must do to the GPU objects before rendering at the
/// requested size.
#[derive(Clone, Copy, Debug, PartialEq, Eq, Structural)]
pub enum TargetAction {
    /// No device exists yet: create the GPU device, a color texture and a
    /// framebuffer of the padded size, and the renderer bound to them.
    CreateDeviceAndTarget,
    /// A device and renderer exist, but the padded size changed: allocate a
    /// new texture + framebuffer of the padded size and rebind the renderer's
    /// destination.  The device itself is kept.
    ReplaceTarget,
    /// The current target already has the padded size: reuse it unmodified.
    Reuse,
}

/// Decision state of the single-slot renderer cache.
///
/// `cached` is the padded size the current target was allocated at (`None`
/// until the first request, when the device is created).  `allocations`
/// counts texture/framebuffer allocations, so that reuse is observable.
#[derive(Clone, Copy, Debug, PartialEq, Eq)]
pub struct RendererCache {
    pub cached: Option<(u32, u32)>,
    pub allocations: u64,
}

/// Whether the cache already holds a target of the padded size of a
/// `w` by `h` pixel request.
pub open spec fn cache_hit(c: RendererCache, w: int, h: int) -> bool {
    c.cached == Some((pad16(w) as u32, pad16(h) as u32))
}

/// The action a `w` by `h` pixel request takes on cache state `c`.
pub open spec fn action_of(c: RendererCache, w: int, h: int) -> TargetAction {
    if c.cached is None {
        TargetAction::CreateDeviceAndTarget
    } else if cache_hit(c, w, h) {
        TargetAction::Reuse
    } else {
        TargetAction::ReplaceTarget
    }
}

/// The cache state after a `w` by `h` pixel request on state `c`: the slot
/// holds the padded size, and one more allocation happened unless the
/// request was a hit.
pub open spec fn cache_after(c: RendererCache, w: int, h: int) -> RendererCache {
    RendererCache {
        cached: Some((pad16(w) as u32, pad16(h) as u32)),
        allocations: if cache_hit(c, w, h) {
            c.allocations
        } else {
            (c.allocations + 1) as u64
        },
    }
}

impl RendererCache {
    /// An empty cache: no device, no target, nothing allocated yet.
    pub fn new() -> (r: Self)
        ensures
            r.cached is None,
            r.allocations == 0,
    {
        RendererCache { cached: None, allocations: 0 }
    }

    /// Decides what must happen to the GPU target for a rasterization of
    /// `req_w` by `req_h` pixels, and records the new padded size.
    ///
    /// At most one allocation happens per call, and none on a hit.
    pub fn prepare(&mut self, req_w: u32, req_h: u32) -> (a: TargetAction)
        requires
            req_w <= MAX_PIXEL_DIM,
            req_h <= MAX_PIXEL_DIM,
            old(self).allocations < u64::MAX,
        ensures
            *final(self) == cache_after(*old(self), req_w as int, req_h as int),
            a == action_of(*old(self), req_w as int, req_h as int),
    {
        let pw = pad_to_16(req_w);
        let ph = pad_to_16(req_h);
        match self.cached {
            None => {
                self.cached = Some((pw, ph));
                self.allocations = self.allocations + 1;
                TargetAction::CreateDeviceAndTarget
            },
            Some((cw, ch)) => {
                if cw == pw && ch == ph {
                    TargetAction::Reuse
                } else {
                    self.cached = Some((pw, ph));
                    self.allocations = self.allocations + 1;
                    TargetAction::ReplaceTarget
                }
            },
        }
    }
}

/// Law: two requests of the same pixel size share one target.  After a
/// request of `w` by `h`, a second request of the same size reuses the
/// target and allocates nothing.
pub proof fn lemma_idempotent_sizing(c: RendererCache, w: int, h: int)
    requires
        0 <= w,
        0 <= h,
    ensures
        ({
            let c1 = cache_after(c, w, h);
            action_of(c1, w, h) == TargetAction::Reuse && cache_after(c1, w, h) == c1
        }),
{
}

/// Law: after any request the cached padded size dominates the request
/// componentwise, and equals the request rounded up to a multiple of 16.
pub proof fn lemma_cache_size_bounds(c: RendererCache, w: int, h: int)
    requires
        0 <= w <= MAX_PIXEL_DIM,
        0 <= h <= MAX_PIXEL_DIM,
    ensures
        ({
            let c1 = cache_after(c, w, h);
            c1.cached matches Some(p)
                && w <= p.0 <= MAX_PIXEL_DIM
                && h <= p.1 <= MAX_PIXEL_DIM
                && p.0 == pad16(w)
                && p.1 == pad16(h)
                && p.0 as int % 16 == 0
                && p.1 as int % 16 == 0
        }),
{
    lemma_pad16(w);
    lemma_pad16(h);
}

} // verus!
