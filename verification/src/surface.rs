//! The graphics context: the surface's configuration and the protocol of a
//! frame, from acquisition to presentation.
//!
//! The context decides; the caller, which holds the device and the surface,
//! acquires the texture and carries out the plan that `submit_frame` returns.

use vstd::prelude::*;
use crate::size::PhysicalSize;
use crate::event::WindowEvent;
use crate::format::{preferred_index, select_format};

verus! {

/// How many frames may be queued ahead of presentation.
pub const MAX_FRAME_LATENCY: u32 = 2;

/// Which adapter the platform is asked to prefer.
#[derive(Clone, Copy, Debug, PartialEq, Eq, Structural)]
pub enum PowerPreference {
    /// The platform's own default tier.
    PlatformDefault,
    LowPower,
    HighPerformance,
}

/// Which of the platform's graphics backends the instance may use.
#[derive(Clone, Copy, Debug, PartialEq, Eq, Structural)]
pub enum BackendFamily {
    /// The backends with first-class support on the platform.
    Primary,
    /// The backends with best-effort support.
    Secondary,
    All,
}

/// What the device has to offer beyond the adapter's word.
#[derive(Clone, Copy, Debug, PartialEq, Eq, Structural)]
pub enum DeviceRequirements {
    /// No optional feature, the default limits.
    Default,
    /// No optional feature, the limits of downlevel hardware.
    Downlevel,
}

/// What the context asks of the GPU before it can be created.
#[derive(Clone, Copy, Debug, PartialEq, Eq, Structural)]
pub struct Negotiation {
    pub backends: BackendFamily,
    pub power_preference: PowerPreference,
    /// Whether the software adapter is asked for in place of the hardware.
    pub software_fallback: bool,
    pub requirements: DeviceRequirements,
}

/// The steps of the negotiation that can fail. Each failure is final: it
/// reflects what the machine has, and is not tried again.
#[derive(Clone, Copy, Debug, PartialEq, Eq, Structural)]
pub enum NegotiationStep {
    Surface,
    Adapter,
    Device,
}

impl NegotiationStep {
    /// The message a failure of the step aborts the start with.
    pub open spec fn message(self) -> Seq<char> {
        match self {
            NegotiationStep::Surface => {
                "An error occured while creating a surface with the instance"@
            },
            NegotiationStep::Adapter => {
                "An error occured while requesting an adapter with the instance"@
            },
            NegotiationStep::Device => {
                "An error occured while requesting a device from the adapter"@
            },
        }
    }

    /// Describes the failure of the step.
    pub fn failure_message(&self) -> (r: String)
        ensures
            r@ == self.message(),
    {
        match self {
            NegotiationStep::Surface => {
                "An error occured while creating a surface with the instance".to_owned()
            },
            NegotiationStep::Adapter => {
                "An error occured while requesting an adapter with the instance".to_owned()
            },
            NegotiationStep::Device => {
                "An error occured while requesting a device from the adapter".to_owned()
            },
        }
    }
}

/// How finished frames reach the display.
#[derive(Clone, Copy, Debug, PartialEq, Eq, Structural)]
pub enum PresentMode {
    AutoVsync,
    AutoNoVsync,
    Fifo,
    FifoRelaxed,
    Immediate,
    Mailbox,
}

/// The mutable configuration of the surface.
#[derive(Clone, Copy, Debug, PartialEq, Eq)]
pub struct SurfaceConfig {
    pub width: u32,
    pub height: u32,
    pub format: wgpu::TextureFormat,
    pub present_mode: PresentMode,
    pub alpha_mode: wgpu::CompositeAlphaMode,
    pub desired_maximum_frame_latency: u32,
}

impl SurfaceConfig {
    /// The configuration with another extent and everything else kept.
    pub open spec fn with_extent(self, size: PhysicalSize) -> SurfaceConfig {
        SurfaceConfig { width: size.width, height: size.height, ..self }
    }

    pub open spec fn extent(self) -> PhysicalSize {
        PhysicalSize { width: self.width, height: self.height }
    }
}

/// The configuration a new context starts with: the given extent, the
/// preferred format, vsync-locked presentation, the first alpha mode the
/// surface reports, and at most two frames queued.
pub open spec fn initial_config(
    size: PhysicalSize,
    formats: Seq<wgpu::TextureFormat>,
    alpha_modes: Seq<wgpu::CompositeAlphaMode>,
) -> SurfaceConfig {
    SurfaceConfig {
        width: size.width,
        height: size.height,
        format: formats[preferred_index(formats)],
        present_mode: PresentMode::Fifo,
        alpha_mode: alpha_modes[0],
        desired_maximum_frame_latency: 2,
    }
}

/// Why the surface handed out no texture.
#[derive(Clone, Copy, Debug, PartialEq, Eq, Structural)]
pub enum SurfaceError {
    Timeout,
    Outdated,
    Lost,
    OutOfMemory,
    Other,
}

/// What the host does about a failed acquisition.
#[derive(Clone, Copy, Debug, PartialEq, Eq, Structural)]
pub enum Recovery {
    /// Re-apply the current configuration and skip the frame.
    Reconfigure,
    /// Skip the frame and try again on the next tick.
    Skip,
    /// Report the error and skip the frame.
    Report,
    /// Leave the event loop.
    Terminate,
}

impl SurfaceError {
    pub open spec fn recovery(self) -> Recovery {
        match self {
            SurfaceError::Lost => Recovery::Reconfigure,
            SurfaceError::OutOfMemory => Recovery::Terminate,
            SurfaceError::Timeout => Recovery::Skip,
            SurfaceError::Outdated => Recovery::Skip,
            SurfaceError::Other => Recovery::Report,
        }
    }

    /// Only exhausted device memory ends the application.
    pub open spec fn is_fatal(self) -> bool {
        self == SurfaceError::OutOfMemory
    }

    /// Sorts a failed acquisition into what the host does about it.
    pub fn classify(&self) -> (r: Recovery)
        ensures
            r == self.recovery(),
            (r == Recovery::Terminate) == self.is_fatal(),
    {
        match self {
            SurfaceError::Lost => Recovery::Reconfigure,
            SurfaceError::OutOfMemory => Recovery::Terminate,
            SurfaceError::Timeout => Recovery::Skip,
            SurfaceError::Outdated => Recovery::Skip,
            SurfaceError::Other => Recovery::Report,
        }
    }
}

/// A colour with eight bits per channel.
#[derive(Clone, Copy, Debug, PartialEq, Eq, Structural)]
pub struct ClearColor {
    pub r: u8,
    pub g: u8,
    pub b: u8,
    pub a: u8,
}

/// The background every frame starts from: a fifth of full intensity on
/// each colour channel, fully opaque.
pub open spec fn background() -> ClearColor {
    ClearColor { r: 51, g: 51, b: 51, a: 255 }
}

/// What a ticket stands for.
pub struct TicketView {
    pub serial: u64,
    pub width: u32,
    pub height: u32,
}

/// One acquired frame that has not been presented yet. It is neither
/// copied nor built from outside: `begin_frame` makes it and `submit_frame`
/// takes it.
#[derive(Debug)]
pub struct FrameTicket {
    serial: u64,
    width: u32,
    height: u32,
}

impl View for FrameTicket {
    type V = TicketView;

    closed spec fn view(&self) -> TicketView {
        TicketView { serial: self.serial, width: self.width, height: self.height }
    }
}

impl FrameTicket {
    /// The width of the texture behind the ticket.
    pub fn width(&self) -> (r: u32)
        ensures
            r == self@.width,
    {
        self.width
    }

    /// The height of the texture behind the ticket.
    pub fn height(&self) -> (r: u32)
        ensures
            r == self@.height,
    {
        self.height
    }

    /// The number that tells this acquisition from the others.
    pub fn serial(&self) -> (r: u64)
        ensures
            r == self@.serial,
    {
        self.serial
    }
}

/// The commands of one frame: a single render pass on the ticket's texture
/// that clears it to `clear` and draws nothing else, then the presentation.
#[derive(Clone, Copy, Debug, PartialEq, Eq, Structural)]
pub struct FramePlan {
    pub serial: u64,
    pub width: u32,
    pub height: u32,
    pub clear: ClearColor,
}

/// The plan that presents a ticket.
pub open spec fn plan_for(ticket: TicketView) -> FramePlan {
    FramePlan {
        serial: ticket.serial,
        width: ticket.width,
        height: ticket.height,
        clear: background(),
    }
}

/// The serial after `serial`; the count starts over after the last one.
pub open spec fn next_serial(serial: u64) -> u64 {
    if serial == u64::MAX {
        0
    } else {
        (serial + 1) as u64
    }
}

/// What a context holds.
pub struct ContextView {
    pub config: SurfaceConfig,
    /// The serial of the ticket that is out, if one is.
    pub in_flight: Option<u64>,
    /// The serial of the next ticket.
    pub upcoming: u64,
}

impl ContextView {
    /// The extent the surface is configured with.
    pub open spec fn size(self) -> PhysicalSize {
        self.config.extent()
    }

    /// The context after `reconfigure(size)`: an extent without area changes
    /// nothing; any other becomes the configured extent, and a ticket
    /// acquired under the old configuration is no longer accepted.
    pub open spec fn reconfigured(self, size: PhysicalSize) -> ContextView {
        if size.has_area() {
            ContextView { config: self.config.with_extent(size), in_flight: None, ..self }
        } else {
            self
        }
    }

    /// The ticket that the next successful acquisition yields.
    pub open spec fn next_ticket(self) -> TicketView {
        TicketView {
            serial: self.upcoming,
            width: self.config.width,
            height: self.config.height,
        }
    }

    /// Whether the content takes `event` for itself, so that the host's own
    /// handling is passed over. There is no content yet: it takes none.
    pub open spec fn handles(self, event: WindowEvent) -> bool {
        false
    }

    /// The context after a successful acquisition.
    pub open spec fn acquired(self) -> ContextView {
        ContextView {
            in_flight: Some(self.upcoming),
            upcoming: next_serial(self.upcoming),
            ..self
        }
    }

    /// Whether `ticket` is the one that is out.
    pub open spec fn accepts(self, ticket: TicketView) -> bool {
        self.in_flight == Some(ticket.serial)
    }

    /// The context after `submit_frame(ticket)`.
    pub open spec fn submitted(self, ticket: TicketView) -> ContextView {
        if self.accepts(ticket) {
            ContextView { in_flight: None, ..self }
        } else {
            self
        }
    }
}

/// The surface's configuration and the state of the frame protocol.
#[derive(Debug)]
pub struct GraphicsContext {
    config: SurfaceConfig,
    in_flight: Option<u64>,
    upcoming: u64,
}

impl View for GraphicsContext {
    type V = ContextView;

    closed spec fn view(&self) -> ContextView {
        ContextView { config: self.config, in_flight: self.in_flight, upcoming: self.upcoming }
    }
}

impl GraphicsContext {
    /// What to ask of the GPU for a context: the primary backends only, the
    /// platform's default power tier, no software adapter, and a device
    /// with no optional feature and the default limits.
    pub fn negotiation() -> (r: Negotiation)
        ensures
            r == (Negotiation {
                backends: BackendFamily::Primary,
                power_preference: PowerPreference::PlatformDefault,
                software_fallback: false,
                requirements: DeviceRequirements::Default,
            }),
    {
        Negotiation {
            backends: BackendFamily::Primary,
            power_preference: PowerPreference::PlatformDefault,
            software_fallback: false,
            requirements: DeviceRequirements::Default,
        }
    }

    /// Builds the context for a surface of the given extent from what the
    /// surface reports for the chosen adapter. The configuration is to be
    /// applied to the surface before the first frame.
    pub fn create(
        size: PhysicalSize,
        formats: &Vec<wgpu::TextureFormat>,
        alpha_modes: &Vec<wgpu::CompositeAlphaMode>,
    ) -> (r: GraphicsContext)
        requires
            formats.len() > 0,
            alpha_modes.len() > 0,
        ensures
            r@.config == initial_config(size, formats@, alpha_modes@),
            r@.size() == size,
            r@.in_flight.is_none(),
            r@.upcoming == 0,
    {
        let config = SurfaceConfig {
            width: size.width,
            height: size.height,
            format: select_format(formats),
            present_mode: PresentMode::Fifo,
            alpha_mode: alpha_modes[0],
            desired_maximum_frame_latency: MAX_FRAME_LATENCY,
        };
        GraphicsContext { config, in_flight: None, upcoming: 0 }
    }

    /// The current configuration of the surface.
    pub fn config(&self) -> (r: SurfaceConfig)
        ensures
            r == self@.config,
    {
        self.config
    }

    /// The extent the surface is configured with.
    pub fn size(&self) -> (r: PhysicalSize)
        ensures
            r == self@.size(),
    {
        PhysicalSize { width: self.config.width, height: self.config.height }
    }

    /// Whether a ticket is out.
    pub fn has_frame_in_flight(&self) -> (r: bool)
        ensures
            r == self@.in_flight.is_some(),
    {
        self.in_flight.is_some()
    }

    /// Takes a new extent. Returns the configuration to apply to the
    /// surface, or `None` where the extent has no area and nothing changed.
    pub fn reconfigure(&mut self, size: PhysicalSize) -> (r: Option<SurfaceConfig>)
        ensures
            final(self)@ == old(self)@.reconfigured(size),
            size.has_area() ==> r == Some(old(self)@.config.with_extent(size)),
            !size.has_area() ==> r.is_none() && final(self)@ == old(self)@,
    {
        if size.width == 0 || size.height == 0 {
            return None;
        }
        self.config.width = size.width;
        self.config.height = size.height;
        self.in_flight = None;
        Some(self.config)
    }

    /// The hook for input that the content wants for itself. There is no
    /// content yet: nothing is handled.
    pub fn input(&mut self, event: &WindowEvent) -> (handled: bool)
        ensures
            handled == old(self)@.handles(*event),
            !handled,
            final(self)@ == old(self)@,
    {
        false
    }

    /// The hook that advances the content by one tick. There is no content
    /// yet: nothing changes.
    pub fn update(&mut self)
        ensures
            final(self)@ == old(self)@,
    {
    }

    /// Records the outcome of acquiring the surface's next texture. A
    /// successful acquisition yields the ticket for a texture of the
    /// configured extent; a failed one is handed back and changes nothing.
    pub fn begin_frame(&mut self, acquisition: Result<(), SurfaceError>) -> (r: Result<
        FrameTicket,
        SurfaceError,
    >)
        ensures
            match acquisition {
                Ok(_) => r matches Ok(ticket) && ticket@ == old(self)@.next_ticket()
                    && final(self)@ == old(self)@.acquired(),
                Err(e) => r matches Err(f) && f == e && final(self)@ == old(self)@,
            },
    {
        match acquisition {
            Ok(_) => {
                let serial: u64 = self.upcoming;
                self.in_flight = Some(serial);
                self.upcoming = if serial == u64::MAX {
                    0
                } else {
                    serial + 1
                };
                Ok(FrameTicket { serial, width: self.config.width, height: self.config.height })
            },
            Err(e) => Err(e),
        }
    }

    /// Takes the ticket and returns the plan of its frame: one render pass
    /// that clears the ticket's texture to the background, then the
    /// presentation. A ticket that is not the one out is refused with
    /// `None`, and nothing changes.
    pub fn submit_frame(&mut self, ticket: FrameTicket) -> (r: Option<FramePlan>)
        ensures
            final(self)@ == old(self)@.submitted(ticket@),
            old(self)@.accepts(ticket@) ==> r == Some(plan_for(ticket@)),
            !old(self)@.accepts(ticket@) ==> r.is_none(),
    {
        let out = match self.in_flight {
            Some(serial) => serial == ticket.serial,
            None => false,
        };
        if !out {
            return None;
        }
        self.in_flight = None;
        Some(
            FramePlan {
                serial: ticket.serial,
                width: ticket.width,
                height: ticket.height,
                clear: ClearColor { r: 51, g: 51, b: 51, a: 255 },
            },
        )
    }
}

/// After `reconfigure` with an extent that has area, the next acquired
/// ticket has exactly that extent, and the context accepts it.
pub proof fn lemma_reconfigure_then_begin_frame(ctx: ContextView, size: PhysicalSize)
    requires
        size.has_area(),
    ensures
        ctx.reconfigured(size).size() == size,
        ctx.reconfigured(size).next_ticket().width == size.width,
        ctx.reconfigured(size).next_ticket().height == size.height,
        ctx.reconfigured(size).acquired().accepts(ctx.reconfigured(size).next_ticket()),
        ctx.reconfigured(size).acquired().config == ctx.reconfigured(size).config,
{
}

/// `reconfigure` with an extent without area changes nothing.
pub proof fn lemma_reconfigure_without_area(ctx: ContextView, size: PhysicalSize)
    requires
        size.width == 0 || size.height == 0,
    ensures
        ctx.reconfigured(size) == ctx,
{
}

/// `reconfigure` touches the extent only: format, presentation mode, alpha
/// mode and latency bound stay what they were.
pub proof fn lemma_reconfigure_keeps_the_rest(ctx: ContextView, size: PhysicalSize)
    ensures
        ctx.reconfigured(size).config.format == ctx.config.format,
        ctx.reconfigured(size).config.present_mode == ctx.config.present_mode,
        ctx.reconfigured(size).config.alpha_mode == ctx.config.alpha_mode,
        ctx.reconfigured(size).config.desired_maximum_frame_latency
            == ctx.config.desired_maximum_frame_latency,
        ctx.reconfigured(size).upcoming == ctx.upcoming,
{
}

/// A ticket is presented at most once: once the context has taken a
/// ticket, it accepts no ticket, that one included, until the next
/// acquisition.
pub proof fn lemma_ticket_presented_once(ctx: ContextView, ticket: TicketView, other: TicketView)
    requires
        ctx.accepts(ticket),
    ensures
        !ctx.submitted(ticket).accepts(other),
        !ctx.submitted(ticket).accepts(ticket),
        ctx.submitted(ticket).submitted(ticket) == ctx.submitted(ticket),
{
}

/// Of two tickets acquired one after the other, only the later is accepted.
pub proof fn lemma_only_latest_ticket(ctx: ContextView)
    ensures
        ctx.acquired().accepts(ctx.next_ticket()),
        !ctx.acquired().acquired().accepts(ctx.next_ticket()),
{
}

} // verus!
