//! The renderer's state between frames and the decisions it takes on window
//! events and on the outcome of each frame. The GPU work that a decision asks
//! for is carried out by the caller, which hands the outcome back.
use vstd::prelude::*;
use crate::mesh::Mesh;

verus! {

/// A size in physical pixels.
#[derive(Clone, Copy, Debug, PartialEq, Eq, Structural)]
pub struct Size {
    pub width: u32,
    pub height: u32,
}

/// How finished frames are synchronised with the display.
#[derive(Clone, Copy, Debug, PartialEq, Eq, Structural)]
pub enum PresentMode {
    /// Wait for the vertical blank; never tears.
    Fifo,
    Mailbox,
    Immediate,
}

/// How the surface makes the textures that frames are drawn into.
#[derive(Clone, Copy, Debug, PartialEq, Eq, Structural)]
pub struct SurfaceConfig {
    pub width: u32,
    pub height: u32,
    pub present_mode: PresentMode,
}

/// One colour channel as the fraction `num / den`.
#[derive(Clone, Copy, Debug, PartialEq, Eq, Structural)]
pub struct Channel {
    pub num: i64,
    pub den: u32,
}

/// The colour each frame is cleared to.
#[derive(Clone, Copy, Debug, PartialEq, Eq, Structural)]
pub struct ClearColor {
    pub r: Channel,
    pub g: Channel,
    pub b: Channel,
    pub a: Channel,
}

/// A window event, as far as the renderer tells events apart.
#[derive(Clone, Copy, Debug, PartialEq, Eq, Structural)]
pub enum WindowEvent {
    /// The pointer moved to `(x, y)`, in physical pixels from the top left.
    CursorMoved { x: i64, y: i64 },
    /// The window's inner size changed.
    Resized(Size),
    /// The scale factor changed, and with it the inner size.
    ScaleFactorChanged(Size),
    CloseRequested,
    /// The escape key went down.
    EscapePressed,
    Other,
}

/// Why no frame could be drawn into.
#[derive(Clone, Copy, Debug, PartialEq, Eq, Structural)]
pub enum FrameError {
    /// The surface must be configured again.
    Lost,
    /// The surface no longer matches the window; the next frame will do.
    Outdated,
    /// No frame came in time; the next frame will do.
    Timeout,
    /// Out of memory: nothing more can be drawn.
    OutOfMemory,
}

/// What the event loop does next.
#[derive(Clone, Copy, Debug, PartialEq, Eq, Structural)]
pub enum LoopAction {
    /// Nothing to do.
    Continue,
    /// Apply this configuration to the surface.
    Reconfigure(SurfaceConfig),
    /// Report the error and skip this frame.
    SkipFrame(FrameError),
    /// Leave the event loop and end the program.
    Exit,
}

/// The commands of one frame: clear the frame to `clear`, then one indexed
/// draw of the mesh.
#[derive(Clone, Copy, Debug, PartialEq, Eq, Structural)]
pub struct FramePlan {
    pub clear: ClearColor,
    /// Size of the surface the frame is drawn into.
    pub width: u32,
    pub height: u32,
    pub first_index: u32,
    pub index_count: u32,
    pub base_vertex: i32,
    pub first_instance: u32,
    pub instance_count: u32,
}

/// The renderer's state between frames.
#[derive(Clone, Copy, Debug, PartialEq, Eq, Structural)]
pub struct State {
    pub config: SurfaceConfig,
    pub size: Size,
    pub clear_color: ClearColor,
    pub num_indices: u32,
}

/// The fraction `n / d` as a channel.
pub open spec fn ratio(n: int, d: int) -> Channel {
    Channel { num: n as i64, den: d as u32 }
}

/// Opaque black.
pub open spec fn black() -> ClearColor {
    ClearColor { r: ratio(0, 1), g: ratio(0, 1), b: ratio(0, 1), a: ratio(1, 1) }
}

/// The channel lies in `[0, 1]`.
pub open spec fn in_unit(c: Channel) -> bool {
    c.den > 0 && 0 <= c.num <= c.den
}

/// How far along a side of `len` pixels the pixel `p` lies: `p / len`, with
/// `p` clamped into `[0, len]`; a side of no length gives 0.
pub open spec fn along(p: int, len: int) -> Channel {
    if len <= 0 {
        ratio(0, 1)
    } else if p < 0 {
        ratio(0, len)
    } else if p > len {
        ratio(len, len)
    } else {
        ratio(p, len)
    }
}

/// The clear colour for the pointer at `(x, y)` in a window of size `s`:
/// red follows x across the width, green follows y down the height, blue and
/// alpha are full. A pointer outside the window counts as on its nearest
/// edge.
pub open spec fn pointer_color(x: i64, y: i64, s: Size) -> ClearColor {
    ClearColor {
        r: along(x as int, s.width as int),
        g: along(y as int, s.height as int),
        b: ratio(1, 1),
        a: ratio(1, 1),
    }
}

impl ClearColor {
    /// Every channel lies in `[0, 1]`.
    pub open spec fn in_range(&self) -> bool {
        in_unit(self.r) && in_unit(self.g) && in_unit(self.b) && in_unit(self.a)
    }
}

/// `p / len` as a channel, with `p` clamped into `[0, len]`, and 0 where
/// `len` is 0.
pub fn fraction_along(p: i64, len: u32) -> (r: Channel)
    ensures
        r == along(p as int, len as int),
{
    if len == 0 {
        Channel { num: 0, den: 1 }
    } else if p < 0 {
        Channel { num: 0, den: len }
    } else if p > len as i64 {
        Channel { num: len as i64, den: len }
    } else {
        Channel { num: p, den: len }
    }
}

impl State {
    /// The surface configuration always matches the size, frames are
    /// presented in step with the display, and the clear colour lies in
    /// `[0, 1]`.
    pub open spec fn wf(&self) -> bool {
        &&& self.config.width == self.size.width
        &&& self.config.height == self.size.height
        &&& self.config.present_mode == PresentMode::Fifo
        &&& self.clear_color.in_range()
    }

    /// The state after a resize to `s`: taken where both sides are positive,
    /// ignored otherwise.
    pub open spec fn resized(self, s: Size) -> State {
        if s.width > 0 && s.height > 0 {
            State {
                size: s,
                config: SurfaceConfig { width: s.width, height: s.height, ..self.config },
                ..self
            }
        } else {
            self
        }
    }

    /// The state after input `e`, and whether `e` was consumed.
    pub open spec fn after_input(self, e: WindowEvent) -> (State, bool) {
        match e {
            WindowEvent::CursorMoved { x, y } => (State { clear_color: pointer_color(x, y, self.size), ..self }, true),
            _ => (self, false),
        }
    }

    /// The frame that `render` plans.
    pub open spec fn plan(self) -> FramePlan {
        FramePlan {
            clear: self.clear_color,
            width: self.config.width,
            height: self.config.height,
            first_index: 0,
            index_count: self.num_indices,
            base_vertex: 0,
            first_instance: 0,
            instance_count: 1,
        }
    }

    /// The renderer for a window of `size` drawing `mesh`: the surface is
    /// configured to the size with FIFO presentation, and the clear colour
    /// is black.
    pub fn new(size: Size, mesh: &Mesh) -> (r: State)
        requires
            mesh.wf(),
            mesh.indices@.len() <= u32::MAX,
        ensures
            r.wf(),
            r.size == size,
            r.clear_color == black(),
            r.num_indices == mesh.indices@.len(),
    {
        State {
            config: SurfaceConfig { width: size.width, height: size.height, present_mode: PresentMode::Fifo },
            size,
            clear_color: ClearColor {
                r: Channel { num: 0, den: 1 },
                g: Channel { num: 0, den: 1 },
                b: Channel { num: 0, den: 1 },
                a: Channel { num: 1, den: 1 },
            },
            num_indices: mesh.index_count(),
        }
    }

    /// Takes the new window size where both sides are positive, and returns
    /// whether the surface must be configured again (with `self.config`).
    /// A size with a zero side changes nothing.
    pub fn resize(&mut self, new_size: Size) -> (reconfigure: bool)
        ensures
            *final(self) == old(self).resized(new_size),
            old(self).wf() ==> final(self).wf(),
            reconfigure == (new_size.width > 0 && new_size.height > 0),
    {
        if new_size.width > 0 && new_size.height > 0 {
            self.size = new_size;
            self.config.width = new_size.width;
            self.config.height = new_size.height;
            true
        } else {
            false
        }
    }

    /// Lets the renderer handle `event`: a pointer move sets the clear
    /// colour from the pointer's place in the window, clamped to the window,
    /// and is consumed; any other event is left to the caller.
    pub fn input(&mut self, event: &WindowEvent) -> (consumed: bool)
        ensures
            (*final(self), consumed) == old(self).after_input(*event),
            old(self).wf() ==> final(self).wf(),
    {
        match event {
            WindowEvent::CursorMoved { x, y } => {
                self.clear_color = ClearColor {
                    r: fraction_along(*x, self.size.width),
                    g: fraction_along(*y, self.size.height),
                    b: Channel { num: 1, den: 1 },
                    a: Channel { num: 1, den: 1 },
                };
                true
            },
            _ => false,
        }
    }

    /// Advances the scene by one frame; the scene does not move.
    pub fn update(&mut self)
        ensures
            *final(self) == *old(self),
    {
    }

    /// The commands of the next frame: clear to the current colour, then
    /// draw every index of the mesh once, as one instance.
    pub fn render(&self) -> (r: FramePlan)
        ensures
            r == self.plan(),
    {
        FramePlan {
            clear: self.clear_color,
            width: self.config.width,
            height: self.config.height,
            first_index: 0,
            index_count: self.num_indices,
            base_vertex: 0,
            first_instance: 0,
            instance_count: 1,
        }
    }

    /// What the event loop does with a window event: the renderer's own
    /// input first; then closing or escape ends the program, and a new size
    /// resizes the surface.
    pub open spec fn on_event(self, e: WindowEvent) -> (State, LoopAction) {
        let (s, consumed) = self.after_input(e);
        if consumed {
            (s, LoopAction::Continue)
        } else {
            match e {
                WindowEvent::CloseRequested => (s, LoopAction::Exit),
                WindowEvent::EscapePressed => (s, LoopAction::Exit),
                WindowEvent::Resized(n) => resize_action(s, n),
                WindowEvent::ScaleFactorChanged(n) => resize_action(s, n),
                _ => (s, LoopAction::Continue),
            }
        }
    }

    /// What the event loop does once a frame has been tried: a lost
    /// surface is configured again at the current size and the next frame
    /// tries again; out of memory ends the program; any other error skips
    /// the frame.
    pub open spec fn on_frame(self, outcome: Option<FrameError>) -> (State, LoopAction) {
        match outcome {
            None => (self, LoopAction::Continue),
            Some(FrameError::Lost) => resize_action(self, self.size),
            Some(FrameError::OutOfMemory) => (self, LoopAction::Exit),
            Some(e) => (self, LoopAction::SkipFrame(e)),
        }
    }

    /// The configuration to apply to the surface now, or `None` while a side
    /// is zero: a surface of no size cannot be configured.
    pub fn surface_config(&self) -> (r: Option<SurfaceConfig>)
        ensures
            r == (if self.config.width > 0 && self.config.height > 0 {
                Some(self.config)
            } else {
                None::<SurfaceConfig>
            }),
    {
        if self.config.width > 0 && self.config.height > 0 {
            Some(self.config)
        } else {
            None
        }
    }

    /// Hands a window event to the renderer and decides what the event
    /// loop does next.
    pub fn handle_event(&mut self, event: &WindowEvent) -> (r: LoopAction)
        ensures
            (*final(self), r) == old(self).on_event(*event),
            old(self).wf() ==> final(self).wf(),
    {
        if self.input(event) {
            return LoopAction::Continue;
        }
        match event {
            WindowEvent::CloseRequested | WindowEvent::EscapePressed => LoopAction::Exit,
            WindowEvent::Resized(n) | WindowEvent::ScaleFactorChanged(n) => self.resize_to(*n),
            _ => LoopAction::Continue,
        }
    }

    /// Decides what the event loop does after a frame: `outcome` is `None`
    /// when the frame was drawn and presented, else why it was not.
    pub fn after_frame(&mut self, outcome: Option<FrameError>) -> (r: LoopAction)
        ensures
            (*final(self), r) == old(self).on_frame(outcome),
            old(self).wf() ==> final(self).wf(),
    {
        match outcome {
            None => LoopAction::Continue,
            Some(FrameError::Lost) => {
                let size = self.size;
                self.resize_to(size)
            },
            Some(FrameError::OutOfMemory) => LoopAction::Exit,
            Some(e) => LoopAction::SkipFrame(e),
        }
    }

    fn resize_to(&mut self, n: Size) -> (r: LoopAction)
        ensures
            (*final(self), r) == resize_action(*old(self), n),
            old(self).wf() ==> final(self).wf(),
    {
        if self.resize(n) {
            LoopAction::Reconfigure(self.config)
        } else {
            LoopAction::Continue
        }
    }
}

/// Resizes `s` to `n`; the surface is configured again where the size was
/// taken.
pub open spec fn resize_action(s: State, n: Size) -> (State, LoopAction) {
    let t = s.resized(n);
    if n.width > 0 && n.height > 0 {
        (t, LoopAction::Reconfigure(t.config))
    } else {
        (t, LoopAction::Continue)
    }
}

/// After a resize to a size with both sides positive, the next frame is
/// planned for a surface of exactly that size, and the surface configuration
/// holds it.
pub proof fn lemma_resize_then_render(s: State, w: u32, h: u32)
    requires
        s.wf(),
        w > 0,
        h > 0,
    ensures
        s.resized(Size { width: w, height: h }).plan().width == w,
        s.resized(Size { width: w, height: h }).plan().height == h,
        s.resized(Size { width: w, height: h }).config.width == w,
        s.resized(Size { width: w, height: h }).config.height == h,
        s.resized(Size { width: w, height: h }).wf(),
{
}

/// A resize to a size with a zero side leaves the state as it was.
pub proof fn lemma_resize_zero_ignored(s: State, w: u32, h: u32)
    ensures
        s.resized(Size { width: 0, height: h }) == s,
        s.resized(Size { width: w, height: 0 }) == s,
{
}

/// Resizing twice to the same size is the same as resizing once, and
/// resizing a well-formed state to its own size changes nothing.
pub proof fn lemma_resize_idempotent(s: State, n: Size)
    ensures
        s.resized(n).resized(n) == s.resized(n),
        s.wf() ==> s.resized(s.size) == s,
{
}

/// A pointer move anywhere is consumed and leaves every channel of the
/// clear colour in `[0, 1]`.
pub proof fn lemma_pointer_color_in_range(s: State, x: i64, y: i64)
    ensures
        s.after_input(WindowEvent::CursorMoved { x, y }).1,
        s.after_input(WindowEvent::CursorMoved { x, y }).0.clear_color.in_range(),
{
}

/// A pointer move inside the window is consumed and sets the clear colour
/// to `(x / width, y / height, 1, 1)`.
pub proof fn lemma_pointer_sets_color(s: State, x: i64, y: i64)
    requires
        0 <= x < s.size.width,
        0 <= y < s.size.height,
    ensures
        s.after_input(WindowEvent::CursorMoved { x, y }).1,
        s.after_input(WindowEvent::CursorMoved { x, y }).0.clear_color == (ClearColor {
            r: Channel { num: x, den: s.size.width },
            g: Channel { num: y, den: s.size.height },
            b: Channel { num: 1, den: 1 },
            a: Channel { num: 1, den: 1 },
        }),
{
}

} // verus!
