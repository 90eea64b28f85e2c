//! Per-frame orchestration: the sizes of the surface and of every resource that
//! follows it, the decisions taken on window resizes and on a failed surface
//! acquisition, and the ordered list of draw passes of one frame.
use vstd::prelude::*;

verus! {

/// A size in physical pixels.
#[derive(Clone, Copy, Debug, PartialEq, Eq, Structural)]
pub struct Extent {
    pub width: u32,
    pub height: u32,
}

pub open spec fn min(a: int, b: int) -> int {
    if a < b {
        a
    } else {
        b
    }
}

/// The surface and the resources sized with it (depth buffer, intermediate
/// HDR target, projection aspect), which always share one size.
#[derive(Clone, Copy, Debug, PartialEq, Eq, Structural)]
pub struct SurfaceState {
    /// Whether the surface has been configured since startup; frames are
    /// only drawn into a configured surface.
    pub configured: bool,
    /// The size of the surface and of every size-dependent resource.
    pub size: Extent,
    /// The last window size reported, after clamping.
    pub window: Extent,
    /// The largest texture dimension the device accepts.
    pub max_dimension: u32,
}

/// The state after asking for the surface to be sized `e`: a size with a zero
/// dimension is ignored and changes nothing.
pub open spec fn resized(s: SurfaceState, e: Extent) -> SurfaceState {
    if e.width > 0 && e.height > 0 {
        SurfaceState { configured: true, size: e, ..s }
    } else {
        s
    }
}

/// `e` with each dimension held to `max`.
pub open spec fn clamped(e: Extent, max: int) -> Extent {
    Extent { width: min(e.width as int, max) as u32, height: min(e.height as int, max) as u32 }
}

/// What a window resize asks of the application.
#[derive(Clone, Copy, Debug, PartialEq, Eq, Structural)]
pub struct ResizeResponse {
    /// The size at which the surface and every size-dependent resource must be
    /// recreated, or `None` when nothing changes.
    pub reallocate: Option<Extent>,
    /// A size the window must be asked to take, with a redraw, when the
    /// reported one exceeded the device limit.
    pub request_window: Option<Extent>,
}

/// How an attempt to acquire the next surface image ended.
#[derive(Clone, Copy, Debug, PartialEq, Eq, Structural)]
pub enum AcquireOutcome {
    Acquired,
    Timeout,
    Outdated,
    Lost,
    OutOfMemory,
    Other,
}

/// What to do with the frame once acquisition has ended.
#[derive(Clone, Copy, Debug, PartialEq, Eq, Structural)]
pub enum FrameAction {
    /// Tonemap into the acquired image, submit and present.
    Present,
    /// The surface went stale: recreate it and the resources sized with it at
    /// this size; this frame is dropped.
    Reconfigure(Extent),
    /// The surface went stale while the window has no area: drop the frame.
    Skip,
    /// Any other failure: report it and drop the frame; the next frame is
    /// attempted as usual.
    Report,
}

pub open spec fn acquire_action(s: SurfaceState, o: AcquireOutcome) -> FrameAction {
    match o {
        AcquireOutcome::Acquired => FrameAction::Present,
        AcquireOutcome::Outdated | AcquireOutcome::Lost => if s.window.width > 0
            && s.window.height > 0 {
            FrameAction::Reconfigure(s.window)
        } else {
            FrameAction::Skip
        },
        _ => FrameAction::Report,
    }
}

pub open spec fn after_acquire(s: SurfaceState, o: AcquireOutcome) -> SurfaceState {
    match o {
        AcquireOutcome::Outdated | AcquireOutcome::Lost => resized(s, s.window),
        _ => s,
    }
}

impl SurfaceState {
    /// The state at startup: the surface is sized to the window but not yet
    /// configured.
    pub fn new(window: Extent, max_dimension: u32) -> (r: SurfaceState)
        ensures
            r == (SurfaceState { configured: false, size: window, window, max_dimension }),
    {
        SurfaceState { configured: false, size: window, window, max_dimension }
    }

    /// Resizes the surface and every resource sized with it to `e`, unless a
    /// dimension is zero, in which case nothing changes. Returns the size to
    /// reallocate at, if any.
    pub fn resize(&mut self, e: Extent) -> (r: Option<Extent>)
        ensures
            *final(self) == resized(*old(self), e),
            r == (if e.width > 0 && e.height > 0 {
                Some(e)
            } else {
                None
            }),
    {
        if e.width > 0 && e.height > 0 {
            self.configured = true;
            self.size = e;
            Some(e)
        } else {
            None
        }
    }

    /// Takes a size reported by the window. A size over the device limit is
    /// clamped to it and the window is asked to take the clamped size.
    pub fn on_window_resized(&mut self, e: Extent) -> (r: ResizeResponse)
        ensures
            ({
                let c = clamped(e, old(self).max_dimension as int);
                &&& *final(self) == resized(SurfaceState { window: c, ..*old(self) }, c)
                &&& r.reallocate == (if c.width > 0 && c.height > 0 {
                    Some(c)
                } else {
                    None
                })
                &&& r.request_window == (if c != e {
                    Some(c)
                } else {
                    None
                })
            }),
    {
        let max = self.max_dimension;
        let c = Extent {
            width: if e.width < max {
                e.width
            } else {
                max
            },
            height: if e.height < max {
                e.height
            } else {
                max
            },
        };
        self.window = c;
        let reallocate = self.resize(c);
        let request_window = if c.width != e.width || c.height != e.height {
            Some(c)
        } else {
            None
        };
        ResizeResponse { reallocate, request_window }
    }

    /// Whether a frame may be drawn now.
    pub fn can_render(&self) -> (r: bool)
        ensures
            r == self.configured,
    {
        self.configured
    }

    /// Decides what follows an acquisition attempt. A stale surface (lost or
    /// outdated) is recreated at the last known window size rather than
    /// failing the frame.
    pub fn on_acquire(&mut self, outcome: AcquireOutcome) -> (r: FrameAction)
        ensures
            r == acquire_action(*old(self), outcome),
            *final(self) == after_acquire(*old(self), outcome),
    {
        match outcome {
            AcquireOutcome::Acquired => FrameAction::Present,
            AcquireOutcome::Outdated | AcquireOutcome::Lost => {
                let w = self.window;
                match self.resize(w) {
                    Some(e) => FrameAction::Reconfigure(e),
                    None => FrameAction::Skip,
                }
            },
            _ => FrameAction::Report,
        }
    }
}

/// The first of the surface's formats that is sRGB, or the first format when
/// none is.
pub open spec fn preferred_format(is_srgb: Seq<bool>) -> int {
    if exists|k: int| 0 <= k < is_srgb.len() && is_srgb[k] {
        choose|k: int|
            0 <= k < is_srgb.len() && is_srgb[k] && forall|j: int| 0 <= j < k ==> !is_srgb[j]
    } else {
        0
    }
}

/// Picks the index of the surface format to render to, given for each format
/// the surface offers whether it is sRGB.
pub fn pick_surface_format(is_srgb: &Vec<bool>) -> (r: usize)
    requires
        is_srgb@.len() > 0,
    ensures
        r < is_srgb@.len(),
        (exists|k: int| 0 <= k < is_srgb@.len() && is_srgb@[k]) ==> is_srgb@[r as int],
        forall|j: int| 0 <= j < r ==> !is_srgb@[j],
        r == preferred_format(is_srgb@),
{
    let mut k: usize = 0;
    while k < is_srgb.len()
        invariant
            k <= is_srgb@.len(),
            forall|j: int| 0 <= j < k ==> !is_srgb@[j],
        decreases is_srgb@.len() - k,
    {
        if is_srgb[k] {
            proof {
                let w = choose|w: int|
                    0 <= w < is_srgb@.len() && is_srgb@[w] && forall|j: int|
                        0 <= j < w ==> !is_srgb@[j];
                assert(0 <= k < is_srgb@.len() && is_srgb@[k as int] && forall|j: int|
                    0 <= j < k ==> !is_srgb@[j]);
                assert(w == k) by {
                    if w < k {
                        assert(!is_srgb@[w]);
                    }
                    if w > k {
                        assert(!is_srgb@[k as int]);
                    }
                }
            }
            return k;
        }
        k = k + 1;
    }
    0
}

/// A resize with a zero dimension leaves the surface and every resource sized
/// with it as they were, and asks for no reallocation.
pub proof fn lemma_zero_resize_is_noop(s: SurfaceState, e: Extent)
    requires
        e.width == 0 || e.height == 0,
    ensures
        resized(s, e) == s,
{
}

/// After a stale surface has been recreated at the window's size, the surface
/// is configured at that size and the next successful acquisition presents.
pub proof fn lemma_stale_surface_recovers(s: SurfaceState, o: AcquireOutcome)
    requires
        o == AcquireOutcome::Outdated || o == AcquireOutcome::Lost,
        s.window.width > 0,
        s.window.height > 0,
    ensures
        acquire_action(s, o) == FrameAction::Reconfigure(s.window),
        after_acquire(s, o).configured,
        after_acquire(s, o).size == s.window,
        acquire_action(after_acquire(s, o), AcquireOutcome::Acquired) == FrameAction::Present,
{
}

} // verus!
