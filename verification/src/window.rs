//! The headless window itself: a surface-state holder that synthesizes the
//! event stream a windowing-driven compositor expects.
//!
//! The window owns the compositor-visible state (current logical size, the
//! edge-triggered resize flag, fullscreen and animation flags, the configured
//! pixel density). The opaque surface provider that holds the actual pixel
//! buffer lives with the embedder; the window's resize operation returns the
//! request the provider must be given, exactly when the realized size
//! changes, so the embedder performs provider calls only on the window's
//! decision.

use vstd::prelude::*;
use crate::geometry::{
    DeviceIntPoint, DeviceIntRect, DeviceIntSize, PixelDensity, Rotation3D, Vector3D, DENSITY_ONE,
};
use crate::media::{GlApi, GlContext, NativeDisplay};
use crate::windowing::WindowEvent;
use crate::windowing::AnimationState;
use crate::windowing::EmbedderCoordinates;

verus! {

/// The identifier of a window. A headless session has no platform window, so
/// every window carries the same placeholder identifier.
#[derive(Clone, Copy, PartialEq, Eq, Structural, Debug)]
pub struct WindowId {
    pub dummy: u64,
}

/// One dimension of a resize request, clamped to the minimum the surface
/// provider accepts: providers reject zero-area surfaces, so a dimension that
/// is not positive is realized as exactly 1, and a positive dimension is
/// realized unchanged.
pub open spec fn clamp_dim(v: i32) -> i32 {
    if v > 0 { v } else { 1i32 }
}

/// A resize request with both dimensions clamped independently.
pub open spec fn clamp_size(s: DeviceIntSize) -> DeviceIntSize {
    DeviceIntSize { width: clamp_dim(s.width), height: clamp_dim(s.height) }
}

/// The state of a headless window.
pub struct Window {
    /// Whether the compositor reported an animation as running.
    pub animation_state: AnimationState,
    /// The purely informational fullscreen flag.
    pub fullscreen: bool,
    /// The configured pixel-density override; when absent, a factor of one
    /// device pixel per logical pixel is in force.
    pub device_pixels_per_px: Option<PixelDensity>,
    /// The size last realized for the surface, in density-independent pixels.
    pub inner_size: DeviceIntSize,
    /// True iff a resize occurred since the last event poll. Edge-triggered:
    /// however many resizes occur between polls, at most one notification is
    /// pending.
    pub size_changed: bool,
}

impl Window {
    /// A window is well formed when its stored size has no negative dimension
    /// and any configured density is positive.
    pub open spec fn wf(self) -> bool {
        &&& self.inner_size.width >= 0
        &&& self.inner_size.height >= 0
        &&& (self.device_pixels_per_px matches Some(d) ==> d.wf())
    }

    /// The pixel-density factor in force: the configured override, or exactly
    /// one device pixel per logical pixel when none was configured.
    pub open spec fn spec_hidpi_factor(self) -> PixelDensity {
        match self.device_pixels_per_px {
            Some(d) => d,
            None => PixelDensity { thousandths: DENSITY_ONE },
        }
    }

    /// The window state after a resize request: the clamped size is stored
    /// and an event is pending — unconditionally, so that a request to resize
    /// to the current size still announces a redraw rather than being lost.
    pub open spec fn after_resize(self, size: DeviceIntSize) -> Window {
        Window { inner_size: clamp_size(size), size_changed: true, ..self }
    }

    /// The resize the surface provider must be instructed to perform for a
    /// given request: the clamped size exactly when it differs from the
    /// stored size, and nothing otherwise (the surface already has that size).
    pub open spec fn provider_resize_request(self, size: DeviceIntSize) -> Option<DeviceIntSize> {
        if clamp_size(size) != self.inner_size {
            Some(clamp_size(size))
        } else {
            None
        }
    }

    /// The events the next poll will deliver: exactly one resize event when
    /// one is pending, and none otherwise.
    pub open spec fn pending_events(self) -> Seq<WindowEvent> {
        if self.size_changed {
            seq![WindowEvent::Resize]
        } else {
            Seq::<WindowEvent>::empty()
        }
    }

    /// The window state after a poll: the pending flag is cleared and nothing
    /// else moves.
    pub open spec fn after_poll(self) -> Window {
        Window { size_changed: false, ..self }
    }

    /// Creates the state of a fresh headless window at the requested size.
    ///
    /// The requested size is stored as given — degenerate zero dimensions
    /// included — since the provider surface is created separately by the
    /// embedder; every later resize goes through the clamping of
    /// [`Window::set_inner_size`]. No event is pending, the window is not
    /// fullscreen, and no animation is running.
    pub fn new(width: u32, height: u32, device_pixels_per_px: Option<PixelDensity>) -> (w: Window)
        requires
            width <= i32::MAX,
            height <= i32::MAX,
            device_pixels_per_px matches Some(d) ==> d.wf(),
        ensures
            w.inner_size == (DeviceIntSize { width: width as i32, height: height as i32 }),
            w.size_changed == false,
            w.fullscreen == false,
            w.animation_state == AnimationState::Idle,
            w.device_pixels_per_px == device_pixels_per_px,
            w.wf(),
    {
        Window {
            animation_state: AnimationState::Idle,
            fullscreen: false,
            device_pixels_per_px,
            inner_size: DeviceIntSize { width: width as i32, height: height as i32 },
            size_changed: false,
        }
    }

    /// Applies a resize request and decides the provider call.
    ///
    /// Each dimension is clamped to a minimum of 1 — the provider rejects
    /// zero-area surfaces — and the clamped size becomes the stored size. The
    /// returned value is the resize the embedder must now perform on the
    /// surface provider: `Some` exactly when the clamped size differs from
    /// the previously stored size. Whether or not the size changed, an event
    /// becomes pending.
    pub fn set_inner_size(&mut self, size: DeviceIntSize) -> (provider_resize: Option<
        DeviceIntSize,
    >)
        ensures
            *final(self) == old(self).after_resize(size),
            provider_resize == old(self).provider_resize_request(size),
            old(self).wf() ==> final(self).wf(),
    {
        let width: i32 = if size.width > 0 { size.width } else { 1 };
        let height: i32 = if size.height > 0 { size.height } else { 1 };
        let new_size = DeviceIntSize { width, height };
        let changed = new_size != self.inner_size;
        if changed {
            self.inner_size = new_size;
        }
        self.size_changed = true;
        if changed {
            Some(new_size)
        } else {
            None
        }
    }

    /// Polls for pending events: delivers exactly one resize event when one
    /// is pending, none otherwise, and clears the pending flag either way.
    pub fn get_events(&mut self) -> (events: Vec<WindowEvent>)
        ensures
            events@ == old(self).pending_events(),
            *final(self) == old(self).after_poll(),
    {
        let mut events: Vec<WindowEvent> = Vec::new();
        if self.size_changed {
            events.push(WindowEvent::Resize);
            self.size_changed = false;
        }
        proof {
            assert(events@ =~= old(self).pending_events());
        }
        events
    }

    /// Answers whether the next poll would deliver any event, reading the
    /// pending flag without clearing it.
    pub fn has_events(&self) -> (r: bool)
        ensures
            r == self.size_changed,
    {
        self.size_changed
    }

    /// The page height the compositor reports, in thousandths of a device
    /// pixel: the height the provider's live surface reports (zero when its
    /// info is unavailable — geometry queries never fail) scaled by the
    /// pixel-density factor.
    pub open spec fn spec_page_height(self, surface_height: Option<i32>) -> int {
        (match surface_height {
            Some(h) => h as int,
            None => 0,
        }) * self.spec_hidpi_factor().thousandths
    }

    /// The geometry reported to the compositor for a given provider-reported
    /// surface size: every rectangle collapses to that size (zero when the
    /// provider's info is unavailable), anchored at the origin, with the
    /// pixel-density factor in force.
    pub open spec fn spec_coordinates(self, surface_size: Option<DeviceIntSize>) -> EmbedderCoordinates {
        let size = match surface_size {
            Some(s) => s,
            None => DeviceIntSize { width: 0, height: 0 },
        };
        let origin = DeviceIntPoint { x: 0, y: 0 };
        EmbedderCoordinates {
            viewport: DeviceIntRect { origin: origin, size: size },
            framebuffer: size,
            window: (size, origin),
            screen: size,
            screen_avail: size,
            hidpi_factor: self.spec_hidpi_factor(),
        }
    }

    /// The pixel-density factor in force: the configured override, or one
    /// device pixel per logical pixel when none was configured.
    pub fn servo_hidpi_factor(&self) -> (r: PixelDensity)
        ensures
            r == self.spec_hidpi_factor(),
    {
        match self.device_pixels_per_px {
            Some(d) => d,
            None => PixelDensity { thousandths: DENSITY_ONE },
        }
    }

    /// Reports the page height, in thousandths of a device pixel, for the
    /// height the provider's live surface reports: that height (zero when the
    /// provider had no info to give) times the pixel-density factor.
    pub fn page_height(&self, surface_height: Option<i32>) -> (r: i64)
        ensures
            r == self.spec_page_height(surface_height),
    {
        let h: i64 = match surface_height {
            Some(v) => v as i64,
            None => 0i64,
        };
        let m: i64 = self.servo_hidpi_factor().thousandths as i64;
        proof {
            let hi = h as int;
            let mi = m as int;
            assert(-0x8000_0000_0000_0000 <= hi * mi <= 0x7fff_ffff_ffff_ffff)
                by (nonlinear_arith)
                requires
                    -0x8000_0000 <= hi <= 0x7fff_ffff,
                    0 <= mi <= 0xffff_ffff,
            ;
        }
        h * m
    }

    /// Reports the geometry the compositor asked for, from the size the
    /// provider's live surface reports. The provider is the source of truth
    /// for realized pixel dimensions, so the stored logical size plays no
    /// part; when the provider's info is unavailable every rectangle is
    /// zero-sized rather than the query failing.
    pub fn get_coordinates(&self, surface_size: Option<DeviceIntSize>) -> (r: EmbedderCoordinates)
        ensures
            r == self.spec_coordinates(surface_size),
    {
        let size = match surface_size {
            Some(s) => s,
            None => DeviceIntSize { width: 0, height: 0 },
        };
        let origin = DeviceIntPoint { x: 0, y: 0 };
        EmbedderCoordinates {
            viewport: DeviceIntRect { origin, size },
            framebuffer: size,
            window: (size, origin),
            screen: size,
            screen_avail: size,
            hidpi_factor: self.servo_hidpi_factor(),
        }
    }

    /// Stores the purely informational fullscreen flag; headless mode has no
    /// real fullscreen transition to perform, so nothing else moves.
    pub fn set_fullscreen(&mut self, state: bool)
        ensures
            *final(self) == (Window { fullscreen: state, ..*old(self) }),
    {
        self.fullscreen = state;
    }

    /// Reads the fullscreen flag.
    pub fn get_fullscreen(&self) -> (r: bool)
        ensures
            r == self.fullscreen,
    {
        self.fullscreen
    }

    /// Stores the animation state the compositor reported. Any state may
    /// replace any other; no transition is validated.
    pub fn set_animation_state(&mut self, state: AnimationState)
        ensures
            *final(self) == (Window { animation_state: state, ..*old(self) }),
    {
        self.animation_state = state;
    }

    /// True iff the stored animation state is the animating variant.
    pub fn is_animating(&self) -> (r: bool)
        ensures
            r == (self.animation_state == AnimationState::Animating),
    {
        self.animation_state == AnimationState::Animating
    }

    /// The placeholder identifier of this window: there is no platform window
    /// behind a headless session, so every window answers with the same one.
    pub fn id(&self) -> (r: WindowId)
        ensures
            r == (WindowId { dummy: 0 }),
    {
        WindowId { dummy: 0 }
    }

    /// No GL context can be shared with a media player in headless mode.
    pub fn get_gl_context(&self) -> (r: GlContext)
        ensures
            r == GlContext::Unknown,
    {
        GlContext::Unknown
    }

    /// No native display can be handed to a media player in headless mode.
    pub fn get_native_display(&self) -> (r: NativeDisplay)
        ensures
            r == NativeDisplay::Unknown,
    {
        NativeDisplay::Unknown
    }

    /// No GL API is driven on behalf of media playback in headless mode.
    pub fn get_gl_api(&self) -> (r: GlApi)
        ensures
            r == GlApi::NoApi,
    {
        GlApi::NoApi
    }

    /// A headless secondary rendering surface has no spatial transform: its
    /// rotation is the identity.
    pub fn get_rotation(&self) -> (r: Rotation3D)
        ensures
            r == Rotation3D::spec_identity(),
    {
        Rotation3D { x: 0, y: 0, z: 0, w: 1 }
    }

    /// A headless secondary rendering surface has no spatial transform: its
    /// translation is zero.
    pub fn get_translation(&self) -> (r: Vector3D)
        ensures
            r == Vector3D::spec_zero(),
    {
        Vector3D { x: 0, y: 0, z: 0 }
    }
}

/// Resize clamping: a requested dimension that is not positive is realized as
/// exactly 1, a positive one is realized unchanged, and the realized size
/// therefore never has a dimension below 1 — whatever state the window was in.
pub proof fn lemma_resize_clamping(w: Window, size: DeviceIntSize)
    ensures
        size.width <= 0 ==> w.after_resize(size).inner_size.width == 1,
        size.width > 0 ==> w.after_resize(size).inner_size.width == size.width,
        size.height <= 0 ==> w.after_resize(size).inner_size.height == 1,
        size.height > 0 ==> w.after_resize(size).inner_size.height == size.height,
        w.after_resize(size).inner_size.width >= 1,
        w.after_resize(size).inner_size.height >= 1,
{
}

/// A resize marks an event pending unconditionally — a request for the
/// currently stored size included — while the provider is asked to resize
/// exactly when the clamped size differs from the stored size, and then to
/// the size the window stores.
pub proof fn lemma_resize_event_and_provider(w: Window, size: DeviceIntSize)
    ensures
        w.after_resize(size).size_changed,
        w.provider_resize_request(size) is Some <==> clamp_size(size) != w.inner_size,
        w.provider_resize_request(size) matches Some(s) ==> s == w.after_resize(size).inner_size,
        clamp_size(size) == w.inner_size ==> w.after_resize(size).inner_size == w.inner_size,
{
}

/// Poll-then-clear: after any resize the next poll delivers exactly one
/// resize event, and the poll after that delivers none.
pub proof fn lemma_poll_then_clear(w: Window, size: DeviceIntSize)
    ensures
        w.after_resize(size).pending_events() =~= seq![WindowEvent::Resize],
        w.after_resize(size).after_poll().pending_events() =~= Seq::<WindowEvent>::empty(),
{
}

/// The pending flag that `has_events` reads answers exactly whether the next
/// poll would deliver any event; `has_events` itself takes the window by
/// shared reference, so reading it repeatedly clears nothing.
pub proof fn lemma_has_events_predicts_poll(w: Window)
    ensures
        w.size_changed <==> w.pending_events().len() > 0,
{
}

/// The fullscreen and animation flags are independent of resize activity:
/// neither a resize nor a poll moves them, and neither changes the stored
/// size or the pending flag in turn.
pub proof fn lemma_flags_independent_of_resize(w: Window, size: DeviceIntSize)
    ensures
        w.after_resize(size).fullscreen == w.fullscreen,
        w.after_resize(size).animation_state == w.animation_state,
        w.after_poll().fullscreen == w.fullscreen,
        w.after_poll().animation_state == w.animation_state,
        (Window { fullscreen: !w.fullscreen, ..w }).inner_size == w.inner_size,
        (Window { fullscreen: !w.fullscreen, ..w }).size_changed == w.size_changed,
        (Window { animation_state: AnimationState::Animating, ..w }).inner_size == w.inner_size,
        (Window { animation_state: AnimationState::Animating, ..w }).size_changed == w.size_changed,
{
}

} // verus!
