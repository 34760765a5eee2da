//! The application host: the lifecycle of the window and what each
//! platform event leads to.
//!
//! Every operation is a step of a state machine. It returns the action the
//! caller owes the platform: apply a configuration to the surface, acquire
//! a texture, carry out a frame's plan, leave the event loop.

use vstd::prelude::*;
use crate::size::{PhysicalSize, SizeState};
use crate::event::WindowEvent;
use crate::surface::{
    initial_config, plan_for, ContextView, FramePlan, GraphicsContext, Recovery, SurfaceConfig,
    SurfaceError,
};

verus! {

/// Which system buttons the window shows.
#[derive(Clone, Copy, Debug, PartialEq, Eq, Structural)]
pub struct WindowButtons {
    pub close: bool,
    pub minimize: bool,
    pub maximize: bool,
}

/// What the host asks of the window it has created for it.
#[derive(Debug, PartialEq, Eq)]
pub struct WindowOptions {
    pub title: String,
    pub resizable: bool,
    pub buttons: WindowButtons,
    /// The inner size in logical units.
    pub width: u32,
    pub height: u32,
}

/// Where the host is in its life.
pub enum HostState {
    /// No window yet.
    Uninitialized,
    /// The window is up and the context can render to it.
    Active(ContextView),
    /// The platform has taken the surface away; the context is gone.
    Suspended,
    /// The application is leaving and stays so.
    Terminated,
}

/// What the host owes the platform after a window event.
#[derive(Clone, Copy, Debug, PartialEq, Eq)]
pub enum HostAction {
    /// Nothing.
    Ignored,
    /// Nothing: the content took the event for itself.
    Handled,
    /// Leave the event loop.
    Exit,
    /// Apply this configuration to the surface.
    Configure(SurfaceConfig),
    /// Acquire the surface's next texture and run a redraw tick on the
    /// outcome.
    Redraw,
}

/// What the host owes the platform after a redraw tick.
#[derive(Clone, Copy, Debug, PartialEq, Eq)]
pub enum TickAction {
    /// Record, submit and present this frame.
    Present(FramePlan),
    /// Present nothing; apply this configuration to the surface.
    Configure(SurfaceConfig),
    /// Present nothing.
    Skip,
    /// Present nothing and log the error.
    Report(SurfaceError),
    /// Present nothing and leave the event loop.
    Exit,
}

/// What a host holds.
pub struct HostView {
    pub state: HostState,
    pub size: SizeState,
}

impl HostView {
    pub open spec fn is_active(self) -> bool {
        self.state is Active
    }

    pub open spec fn is_terminated(self) -> bool {
        self.state is Terminated
    }

    /// Whether the window has been created. It stays once it is there.
    pub open spec fn has_window(self) -> bool {
        !(self.state is Uninitialized)
    }

    /// The surface is configured with the extent the host has cached.
    pub open spec fn in_step(self) -> bool {
        match self.state {
            HostState::Active(ctx) => ctx.size() == self.size.extent(),
            _ => true,
        }
    }

    /// The host after the platform has said that GPU resources can be
    /// created, for a window of extent `size` whose surface reports
    /// `formats` and `alpha_modes`.
    pub open spec fn resumed(
        self,
        size: PhysicalSize,
        formats: Seq<wgpu::TextureFormat>,
        alpha_modes: Seq<wgpu::CompositeAlphaMode>,
    ) -> HostView {
        if self.state is Terminated {
            self
        } else {
            HostView {
                state: HostState::Active(
                    ContextView {
                        config: initial_config(size, formats, alpha_modes),
                        in_flight: None,
                        upcoming: 0,
                    },
                ),
                size: SizeState::Physical { width: size.width, height: size.height },
            }
        }
    }

    /// The host after the platform has taken the surface away.
    pub open spec fn suspended(self) -> HostView {
        if self.state is Active {
            HostView { state: HostState::Suspended, ..self }
        } else {
            self
        }
    }

    /// The host after a resize to `size`.
    pub open spec fn resized(self, size: PhysicalSize) -> HostView {
        match self.state {
            HostState::Active(ctx) if size.has_area() => HostView {
                state: HostState::Active(ctx.reconfigured(size)),
                size: SizeState::Physical { width: size.width, height: size.height },
            },
            _ => self,
        }
    }

    /// What a resize to `size` asks of the surface.
    pub open spec fn resize_config(self, size: PhysicalSize) -> Option<SurfaceConfig> {
        match self.state {
            HostState::Active(ctx) if size.has_area() => Some(ctx.config.with_extent(size)),
            _ => None,
        }
    }

    /// Whether the content takes the event before the host sees it.
    pub open spec fn intercepted(self, event: WindowEvent) -> bool {
        match self.state {
            HostState::Active(ctx) => ctx.handles(event),
            _ => false,
        }
    }

    /// The host after a window event.
    pub open spec fn after_event(self, event: WindowEvent) -> HostView {
        if self.intercepted(event) {
            self
        } else if event.requests_exit() {
            HostView { state: HostState::Terminated, ..self }
        } else {
            match event {
                WindowEvent::Resized(size) => self.resized(size),
                _ => self,
            }
        }
    }

    /// What a window event asks of the caller.
    pub open spec fn event_action(self, event: WindowEvent) -> HostAction {
        if self.intercepted(event) {
            HostAction::Handled
        } else if event.requests_exit() {
            HostAction::Exit
        } else {
            match event {
                WindowEvent::Resized(size) => match self.resize_config(size) {
                    Some(config) => HostAction::Configure(config),
                    None => HostAction::Ignored,
                },
                WindowEvent::RedrawRequested => if self.state is Active {
                    HostAction::Redraw
                } else {
                    HostAction::Ignored
                },
                _ => HostAction::Ignored,
            }
        }
    }

    /// The host after a redraw tick on the outcome of the acquisition.
    pub open spec fn after_tick(self, acquisition: Result<(), SurfaceError>) -> HostView {
        match self.state {
            HostState::Active(ctx) => match acquisition {
                Ok(_) => HostView {
                    state: HostState::Active(ctx.acquired().submitted(ctx.next_ticket())),
                    ..self
                },
                Err(e) => match e.recovery() {
                    Recovery::Reconfigure => HostView {
                        state: HostState::Active(ctx.reconfigured(ctx.size())),
                        ..self
                    },
                    Recovery::Terminate => HostView { state: HostState::Terminated, ..self },
                    _ => self,
                },
            },
            _ => self,
        }
    }

    /// What a redraw tick asks of the caller.
    pub open spec fn tick_action(self, acquisition: Result<(), SurfaceError>) -> TickAction {
        match self.state {
            HostState::Active(ctx) => match acquisition {
                Ok(_) => TickAction::Present(plan_for(ctx.next_ticket())),
                Err(e) => match e.recovery() {
                    Recovery::Reconfigure => if ctx.size().has_area() {
                        TickAction::Configure(ctx.config)
                    } else {
                        TickAction::Skip
                    },
                    Recovery::Terminate => TickAction::Exit,
                    Recovery::Skip => TickAction::Skip,
                    Recovery::Report => TickAction::Report(e),
                },
            },
            _ => TickAction::Skip,
        }
    }
}

/// The phases of the host, the context held by the active one.
#[derive(Debug)]
enum Phase {
    Uninitialized,
    Active(GraphicsContext),
    Suspended,
    Terminated,
}

/// The owner of the window's lifecycle.
#[derive(Debug)]
pub struct ApplicationHost {
    phase: Phase,
    size: SizeState,
}

impl View for ApplicationHost {
    type V = HostView;

    closed spec fn view(&self) -> HostView {
        HostView {
            state: match self.phase {
                Phase::Uninitialized => HostState::Uninitialized,
                Phase::Active(ctx) => HostState::Active(ctx@),
                Phase::Suspended => HostState::Suspended,
                Phase::Terminated => HostState::Terminated,
            },
            size: self.size,
        }
    }
}

impl ApplicationHost {
    /// A host that has no window yet and asks for one of 1280 by 720.
    pub fn new() -> (r: ApplicationHost)
        ensures
            r@.state is Uninitialized,
            r@.size == (SizeState::Logical { width: 1280, height: 720 }),
    {
        ApplicationHost { phase: Phase::Uninitialized, size: SizeState::initial() }
    }

    /// The options of the window to create: titled, not resizable by the
    /// user, with a close button only, of the cached size.
    pub fn window_options(&self) -> (r: WindowOptions)
        ensures
            r.title@ == "[WGPU] Logic Game"@,
            !r.resizable,
            r.buttons == (WindowButtons { close: true, minimize: false, maximize: false }),
            r.width == self@.size.extent().width,
            r.height == self@.size.extent().height,
    {
        let extent = self.size.to_physical();
        WindowOptions {
            title: "[WGPU] Logic Game".to_owned(),
            resizable: false,
            buttons: WindowButtons { close: true, minimize: false, maximize: false },
            width: extent.width,
            height: extent.height,
        }
    }

    /// The cached size of the window.
    pub fn size(&self) -> (r: SizeState)
        ensures
            r == self@.size,
    {
        self.size
    }

    pub fn is_active(&self) -> (r: bool)
        ensures
            r == self@.is_active(),
    {
        match &self.phase {
            Phase::Active(_) => true,
            _ => false,
        }
    }

    pub fn is_terminated(&self) -> (r: bool)
        ensures
            r == self@.is_terminated(),
    {
        match &self.phase {
            Phase::Terminated => true,
            _ => false,
        }
    }

    /// The configuration of the surface, while the host is active.
    pub fn surface_config(&self) -> (r: Option<SurfaceConfig>)
        ensures
            match self@.state {
                HostState::Active(ctx) => r == Some(ctx.config),
                _ => r.is_none(),
            },
    {
        match &self.phase {
            Phase::Active(ctx) => Some(ctx.config()),
            _ => None,
        }
    }

    /// The platform is ready for GPU resources: the window of extent `size`
    /// exists and its surface reports `formats` and `alpha_modes`. Unless
    /// the host has terminated it becomes active with a new context, and
    /// the configuration to apply to the surface is returned.
    pub fn on_resumed(
        &mut self,
        size: PhysicalSize,
        formats: &Vec<wgpu::TextureFormat>,
        alpha_modes: &Vec<wgpu::CompositeAlphaMode>,
    ) -> (r: Option<SurfaceConfig>)
        requires
            formats.len() > 0,
            alpha_modes.len() > 0,
        ensures
            final(self)@ == old(self)@.resumed(size, formats@, alpha_modes@),
            old(self)@.is_terminated() ==> r.is_none(),
            !old(self)@.is_terminated() ==> r == Some(
                initial_config(size, formats@, alpha_modes@),
            ),
    {
        if self.is_terminated() {
            return None;
        }
        let ctx = GraphicsContext::create(size, formats, alpha_modes);
        let config = ctx.config();
        self.phase = Phase::Active(ctx);
        self.size = SizeState::from_physical(size);
        Some(config)
    }

    /// The platform has taken the surface away: an active host drops its
    /// context and waits to be resumed.
    pub fn on_suspended(&mut self)
        ensures
            final(self)@ == old(self)@.suspended(),
    {
        if self.is_active() {
            self.phase = Phase::Suspended;
        }
    }

    /// The window has a new physical extent. An extent without area, as of
    /// a minimized window, is ignored; so is any while the host is not
    /// active. Else the extent is cached and becomes the surface's, and the
    /// configuration to apply is returned.
    pub fn on_resize(&mut self, size: PhysicalSize) -> (r: Option<SurfaceConfig>)
        ensures
            final(self)@ == old(self)@.resized(size),
            r == old(self)@.resize_config(size),
            !size.has_area() ==> final(self)@ == old(self)@ && r.is_none(),
    {
        if !size.is_drawable() {
            return None;
        }
        match &mut self.phase {
            Phase::Active(ctx) => {
                let config = ctx.reconfigure(size);
                self.size = SizeState::from_physical(size);
                config
            },
            _ => None,
        }
    }

    /// Takes one window event. The content sees it first; an event it
    /// leaves alone ends the application if it asks for that, resizes the
    /// surface, or starts a redraw.
    pub fn on_window_event(&mut self, event: WindowEvent) -> (r: HostAction)
        ensures
            final(self)@ == old(self)@.after_event(event),
            r == old(self)@.event_action(event),
            event.requests_exit() ==> final(self)@.is_terminated() && r == HostAction::Exit,
            old(self)@.is_terminated() ==> final(self)@.is_terminated(),
    {
        let handled = match &mut self.phase {
            Phase::Active(ctx) => ctx.input(&event),
            _ => false,
        };
        if handled {
            return HostAction::Handled;
        }
        if event.is_exit_request() {
            self.phase = Phase::Terminated;
            return HostAction::Exit;
        }
        match event {
            WindowEvent::Resized(size) => match self.on_resize(size) {
                Some(config) => HostAction::Configure(config),
                None => HostAction::Ignored,
            },
            WindowEvent::RedrawRequested => if self.is_active() {
                HostAction::Redraw
            } else {
                HostAction::Ignored
            },
            _ => HostAction::Ignored,
        }
    }

    /// Runs one redraw tick on the outcome of acquiring the surface's next
    /// texture. An acquired frame is planned and handed out for
    /// presentation. A lost surface has the current configuration applied
    /// again, exhausted memory ends the application, and every other
    /// failure skips the frame.
    pub fn on_redraw_tick(&mut self, acquisition: Result<(), SurfaceError>) -> (r: TickAction)
        ensures
            final(self)@ == old(self)@.after_tick(acquisition),
            r == old(self)@.tick_action(acquisition),
    {
        let recovery = match &mut self.phase {
            Phase::Active(ctx) => {
                ctx.update();
                match ctx.begin_frame(acquisition) {
                    Ok(ticket) => {
                        return match ctx.submit_frame(ticket) {
                            Some(plan) => TickAction::Present(plan),
                            None => TickAction::Skip,
                        };
                    },
                    Err(e) => match e.classify() {
                        Recovery::Reconfigure => {
                            let current = ctx.size();
                            return match ctx.reconfigure(current) {
                                Some(config) => TickAction::Configure(config),
                                None => TickAction::Skip,
                            };
                        },
                        Recovery::Terminate => TickAction::Exit,
                        Recovery::Skip => TickAction::Skip,
                        Recovery::Report => TickAction::Report(e),
                    },
                }
            },
            _ => TickAction::Skip,
        };
        match recovery {
            TickAction::Exit => {
                self.phase = Phase::Terminated;
            },
            _ => {},
        }
        recovery
    }

    /// All pending events are handled: whether to ask the window for
    /// another redraw. The host asks every time, whatever happened before,
    /// once there is a window to ask; the pace is the presentation mode's.
    pub fn about_to_wait(&self) -> (redraw: bool)
        ensures
            redraw == self@.has_window(),
    {
        match &self.phase {
            Phase::Uninitialized => false,
            _ => true,
        }
    }
}

/// A new host is in step, and every step of the host keeps it so: while
/// the host is active, the surface's configured extent is the cached size
/// of the window.
pub proof fn lemma_size_stays_in_step(
    host: HostView,
    size: PhysicalSize,
    formats: Seq<wgpu::TextureFormat>,
    alpha_modes: Seq<wgpu::CompositeAlphaMode>,
    event: WindowEvent,
    acquisition: Result<(), SurfaceError>,
)
    requires
        host.in_step(),
    ensures
        host.resumed(size, formats, alpha_modes).in_step(),
        host.suspended().in_step(),
        host.resized(size).in_step(),
        host.after_event(event).in_step(),
        host.after_tick(acquisition).in_step(),
{
}

/// A resize to an extent without area changes nothing and asks nothing of
/// the surface, as a window event or as a direct call.
pub proof fn lemma_resize_without_area(host: HostView, size: PhysicalSize)
    requires
        size.width == 0 || size.height == 0,
    ensures
        host.resized(size) == host,
        host.resize_config(size).is_none(),
        host.after_event(WindowEvent::Resized(size)) == host,
        host.event_action(WindowEvent::Resized(size)) == HostAction::Ignored,
{
}

/// A resize of an active host to an extent with area makes that extent
/// both the cached size and the extent of the next frame.
pub proof fn lemma_resize_then_frame(host: HostView, size: PhysicalSize)
    requires
        host.is_active(),
        size.has_area(),
    ensures
        host.resized(size).is_active(),
        host.resized(size).size.extent() == size,
        host.resized(size).tick_action(Ok(())) matches TickAction::Present(plan)
            && plan.width == size.width && plan.height == size.height,
{
}

/// An exit request terminates the host from every state, and a terminated
/// host stays terminated whatever comes.
pub proof fn lemma_terminated_is_final(
    host: HostView,
    size: PhysicalSize,
    formats: Seq<wgpu::TextureFormat>,
    alpha_modes: Seq<wgpu::CompositeAlphaMode>,
    event: WindowEvent,
    acquisition: Result<(), SurfaceError>,
)
    ensures
        event.requests_exit() ==> host.after_event(event).is_terminated() && host.event_action(
            event,
        ) == HostAction::Exit,
        host.is_terminated() ==> {
            &&& host.resumed(size, formats, alpha_modes) == host
            &&& host.suspended() == host
            &&& host.resized(size) == host
            &&& host.after_event(event) == host
            &&& host.after_tick(acquisition) == host
            &&& host.tick_action(acquisition) == TickAction::Skip
        },
{
}

/// Only an exit request or exhausted device memory terminates a host.
pub proof fn lemma_what_terminates(
    host: HostView,
    event: WindowEvent,
    acquisition: Result<(), SurfaceError>,
)
    requires
        !host.is_terminated(),
    ensures
        host.after_event(event).is_terminated() <==> event.requests_exit(),
        host.after_tick(acquisition).is_terminated() <==> host.is_active() && acquisition
            == Err::<(), SurfaceError>(SurfaceError::OutOfMemory),
        host.tick_action(acquisition) == TickAction::Exit <==> host.after_tick(
            acquisition,
        ).is_terminated(),
{
}

/// A lost surface costs one frame: the tick presents nothing and has the
/// configuration of the last good extent applied again, unchanged, and the
/// next tick with an acquired texture presents a frame of that extent.
pub proof fn lemma_surface_lost_recovers(host: HostView, ctx: ContextView)
    requires
        host.state == HostState::Active(ctx),
        ctx.size().has_area(),
    ensures
        host.tick_action(Err(SurfaceError::Lost)) == TickAction::Configure(ctx.config),
        host.after_tick(Err(SurfaceError::Lost)).state matches HostState::Active(after)
            && after.config == ctx.config && after.in_flight.is_none(),
        host.after_tick(Err(SurfaceError::Lost)).size == host.size,
        host.after_tick(Err(SurfaceError::Lost)).tick_action(Ok(())) matches TickAction::Present(
            plan,
        ) && plan.width == ctx.config.width && plan.height == ctx.config.height,
{
}

/// A tick leaves no ticket out: the frame it acquires it also submits.
pub proof fn lemma_tick_leaves_no_ticket(host: HostView, ctx: ContextView)
    requires
        host.state == HostState::Active(ctx),
    ensures
        host.after_tick(Ok(())).state matches HostState::Active(after)
            && after.in_flight.is_none() && after.config == ctx.config,
{
}

} // verus!
