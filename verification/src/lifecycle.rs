//! The life of the renderer as a state machine: from no device to a bound
//! surface, through resize, suspend and resume, to the end.
//!
//! The machine decides and the host acts. The host reports what happened as
//! an `Event`; `Runner::step` moves to the next state and answers with the
//! `Action` the host has to carry out.

use vstd::prelude::*;
use crate::constants::{ConfigError, SIZE_BYTES};
use crate::input::{InputEvent, InputState};
use crate::pipeline::{
    chain, device_request, device_suffices, draw, pipeline_spec, ChainConfig, ColorFormat,
    DeviceFeatures, DrawCommand, PipelineConfig, REQUIRED_PUSH_CONSTANT_SIZE,
};
use crate::scalar::Scalar;

verus! {

/// Where the renderer stands.
#[derive(Clone, Copy, Debug, PartialEq, Eq, Structural)]
pub enum Phase {
    /// No device yet.
    Uninitialized,
    /// A device and its queue are held.
    DeviceReady,
    /// The program is loaded and the pipeline described; the host builds it.
    PipelineReady,
    /// An image chain is bound to the window: frames can be drawn.
    SurfaceBound,
    /// The surface and its image chain are released; device and pipeline
    /// are kept.
    SurfaceDetached,
    /// The frame loop has stopped.
    Terminated,
}

/// Why the renderer cannot go on.
#[derive(Clone, Copy, Debug, PartialEq, Eq, Structural)]
pub enum FatalError {
    /// No adapter can render to the window.
    NoAdapter,
    /// The adapter gave no device.
    DeviceRefused,
    /// The device lacks in-band transfer, or grants too little of it.
    UnsupportedDevice,
    /// The program package did not load.
    ProgramRejected,
    /// The pipeline cannot be described for this device.
    Config(ConfigError),
    /// No image could be acquired from a chain that is bound.
    FrameUnavailable,
}

/// What the host reports.
#[derive(Clone, Copy, Debug, PartialEq, Eq, Structural)]
pub enum Event {
    /// No adapter was found.
    AdapterMissing,
    /// An adapter was found, with what its devices can grant.
    AdapterFound { offered: DeviceFeatures },
    /// The adapter refused to give a device.
    DeviceRefused,
    /// A device was acquired, with what it grants.
    DeviceAcquired { granted: DeviceFeatures },
    /// The program package was loaded.
    ProgramLoaded,
    /// The program package was refused.
    ProgramRejected,
    /// The pipeline layout and the pipeline were built.
    PipelineBuilt,
    /// All pending window events have been handled.
    MainEventsCleared,
    /// The window can be drawn to (again).
    Resumed,
    /// The window can no longer be drawn to.
    Suspended,
    /// The drawable size changed.
    Resized { width: u32, height: u32 },
    /// A redraw is due; the live drawable size and the seconds since start
    /// come with it.
    RedrawRequested { width: u32, height: u32, time: Scalar },
    /// The chain gave no image for the frame that was asked for.
    FrameUnavailable,
    /// The window was asked to close.
    CloseRequested,
    /// The escape key was pressed.
    EscapePressed,
    /// The primary button went down or up.
    MouseLeft { pressed: bool },
    /// The pointer moved.
    CursorMoved { x: Scalar, y: Scalar },
    /// Anything else.
    Other,
}

/// What the host has to do.
#[derive(Clone, Copy, Debug, PartialEq, Eq, Structural)]
pub enum Action {
    /// Nothing.
    Idle,
    /// Ask the adapter for a device that grants this much.
    RequestDevice(DeviceFeatures),
    /// Load the program package.
    LoadProgram,
    /// Build the pipeline layout and the pipeline.
    BuildPipeline(PipelineConfig),
    /// Create a surface for the window and an image chain on it, dropping
    /// any that are held.
    BindSurface(ChainConfig),
    /// Replace the image chain on the surface that is held.
    RebuildChain(ChainConfig),
    /// Drop the surface and its image chain.
    ReleaseSurface,
    /// Ask the window for a redraw.
    RequestRedraw,
    /// Record, submit and present one frame.
    Draw(DrawCommand),
    /// Leave the frame loop.
    Exit,
    /// Stop with a diagnostic.
    Fail(FatalError),
}

/// The renderer's whole host-side state.
#[derive(Clone, Copy, Debug, PartialEq, Eq, Structural)]
pub struct Runner {
    pub phase: Phase,
    /// Format of the colour target, fixed at the start.
    pub format: ColorFormat,
    /// Width at which the next image chain is made.
    pub chain_width: u32,
    /// Height at which the next image chain is made.
    pub chain_height: u32,
    /// In-band capacity of the device, once one is held.
    pub max_push_constant_size: u32,
    /// The pointer tracker.
    pub input: InputState,
}

impl FatalError {
    /// The diagnostic for the error.
    pub open spec fn message_spec(self) -> Seq<char> {
        match self {
            FatalError::NoAdapter => "Failed to find an appropriate adapter"@,
            FatalError::DeviceRefused => "Failed to create device"@,
            FatalError::UnsupportedDevice => "Device lacks push constants of the required size"@,
            FatalError::ProgramRejected => "Failed to load the shader program"@,
            FatalError::Config(_) => "Shader constants exceed the push constant limit"@,
            FatalError::FrameUnavailable => "Failed to acquire next swap chain texture"@,
        }
    }

    /// The diagnostic that the host stops with.
    pub fn message(self) -> (text: &'static str)
        ensures
            text@ == self.message_spec(),
    {
        match self {
            FatalError::NoAdapter => "Failed to find an appropriate adapter",
            FatalError::DeviceRefused => "Failed to create device",
            FatalError::UnsupportedDevice => "Device lacks push constants of the required size",
            FatalError::ProgramRejected => "Failed to load the shader program",
            FatalError::Config(_) => "Shader constants exceed the push constant limit",
            FatalError::FrameUnavailable => "Failed to acquire next swap chain texture",
        }
    }
}

/// Whether the event asks the renderer to stop.
pub open spec fn is_quit(event: Event) -> bool {
    event == Event::CloseRequested || event == Event::EscapePressed
}

impl Runner {
    /// The renderer before anything has happened.
    pub open spec fn initial(format: ColorFormat, width: u32, height: u32) -> Runner {
        Runner {
            phase: Phase::Uninitialized,
            format,
            chain_width: width,
            chain_height: height,
            max_push_constant_size: 0,
            input: InputState::initial(),
        }
    }

    /// The image chain that would be made now.
    pub open spec fn chain_config(self) -> ChainConfig {
        chain(self.format, self.chain_width, self.chain_height)
    }

    /// What the event means to the pointer tracker, if anything. A redraw is
    /// a frame to the tracker only when a frame is drawn.
    pub open spec fn input_event(self, event: Event) -> Option<InputEvent> {
        if self.phase == Phase::Terminated {
            None
        } else {
            match event {
                Event::MouseLeft { pressed } => Some(InputEvent::Button { pressed }),
                Event::CursorMoved { x, y } => Some(InputEvent::CursorMoved { x, y }),
                Event::RedrawRequested { .. } => if self.phase == Phase::SurfaceBound {
                    Some(InputEvent::Frame)
                } else {
                    None
                },
                _ => None,
            }
        }
    }

    /// The phase after the event.
    pub open spec fn next_phase(self, event: Event) -> Phase {
        match (self.phase, event) {
            (Phase::Terminated, _) => Phase::Terminated,
            (_, Event::CloseRequested) => Phase::Terminated,
            (_, Event::EscapePressed) => Phase::Terminated,
            (Phase::Uninitialized, Event::AdapterMissing) => Phase::Terminated,
            (Phase::Uninitialized, Event::AdapterFound { offered }) => if device_suffices(
                offered,
            ) {
                Phase::Uninitialized
            } else {
                Phase::Terminated
            },
            (Phase::Uninitialized, Event::DeviceRefused) => Phase::Terminated,
            (Phase::Uninitialized, Event::DeviceAcquired { granted }) => if device_suffices(
                granted,
            ) {
                Phase::DeviceReady
            } else {
                Phase::Terminated
            },
            (Phase::DeviceReady, Event::ProgramLoaded) => if SIZE_BYTES
                <= self.max_push_constant_size {
                Phase::PipelineReady
            } else {
                Phase::Terminated
            },
            (Phase::DeviceReady, Event::ProgramRejected) => Phase::Terminated,
            (Phase::PipelineReady, Event::PipelineBuilt) => Phase::SurfaceBound,
            (Phase::SurfaceDetached, Event::Resumed) => Phase::SurfaceBound,
            (Phase::SurfaceBound, Event::Suspended) => Phase::SurfaceDetached,
            (Phase::SurfaceBound, Event::FrameUnavailable) => Phase::Terminated,
            (phase, _) => phase,
        }
    }

    /// The state after the event.
    pub open spec fn next(self, event: Event) -> Runner {
        if self.phase == Phase::Terminated {
            self
        } else {
            Runner {
                phase: self.next_phase(event),
                format: self.format,
                chain_width: match event {
                    Event::Resized { width, height } => width,
                    _ => self.chain_width,
                },
                chain_height: match event {
                    Event::Resized { width, height } => height,
                    _ => self.chain_height,
                },
                max_push_constant_size: match (self.phase, event) {
                    (Phase::Uninitialized, Event::DeviceAcquired { granted }) => if device_suffices(
                        granted,
                    ) {
                        granted.max_push_constant_size
                    } else {
                        self.max_push_constant_size
                    },
                    _ => self.max_push_constant_size,
                },
                input: match self.input_event(event) {
                    Some(e) => self.input.after(e),
                    None => self.input,
                },
            }
        }
    }

    /// What the host has to do on the event.
    pub open spec fn action(self, event: Event) -> Action {
        match (self.phase, event) {
            (Phase::Terminated, _) => Action::Idle,
            (_, Event::CloseRequested) => Action::Exit,
            (_, Event::EscapePressed) => Action::Exit,
            (Phase::Uninitialized, Event::AdapterMissing) => Action::Fail(FatalError::NoAdapter),
            (Phase::Uninitialized, Event::AdapterFound { offered }) => if device_suffices(
                offered,
            ) {
                Action::RequestDevice(device_request())
            } else {
                Action::Fail(FatalError::UnsupportedDevice)
            },
            (Phase::Uninitialized, Event::DeviceRefused) => Action::Fail(
                FatalError::DeviceRefused,
            ),
            (Phase::Uninitialized, Event::DeviceAcquired { granted }) => if device_suffices(
                granted,
            ) {
                Action::LoadProgram
            } else {
                Action::Fail(FatalError::UnsupportedDevice)
            },
            (Phase::DeviceReady, Event::ProgramLoaded) => if SIZE_BYTES
                <= self.max_push_constant_size {
                Action::BuildPipeline(pipeline_spec(self.format))
            } else {
                Action::Fail(
                    FatalError::Config(
                        ConfigError::PushConstantsExceedLimit {
                            required: SIZE_BYTES,
                            limit: self.max_push_constant_size,
                        },
                    ),
                )
            },
            (Phase::DeviceReady, Event::ProgramRejected) => Action::Fail(
                FatalError::ProgramRejected,
            ),
            (Phase::PipelineReady, Event::PipelineBuilt) => Action::BindSurface(
                self.chain_config(),
            ),
            (Phase::SurfaceDetached, Event::Resumed) => Action::BindSurface(self.chain_config()),
            (Phase::SurfaceBound, Event::Resumed) => Action::BindSurface(self.chain_config()),
            (Phase::SurfaceBound, Event::Suspended) => Action::ReleaseSurface,
            (Phase::SurfaceBound, Event::Resized { width, height }) => Action::RebuildChain(
                chain(self.format, width, height),
            ),
            (Phase::SurfaceBound, Event::RedrawRequested { width, height, time }) => Action::Draw(
                draw(self.input.constants(width, height, time)),
            ),
            (Phase::SurfaceBound, Event::FrameUnavailable) => Action::Fail(
                FatalError::FrameUnavailable,
            ),
            (_, Event::MainEventsCleared) => Action::RequestRedraw,
            (_, _) => Action::Idle,
        }
    }

    /// A renderer for a window of the given size, with nothing acquired.
    pub fn new(format: ColorFormat, width: u32, height: u32) -> (r: Runner)
        ensures
            r == Runner::initial(format, width, height),
    {
        Runner {
            phase: Phase::Uninitialized,
            format,
            chain_width: width,
            chain_height: height,
            max_push_constant_size: 0,
            input: InputState::new(),
        }
    }

    /// Whether a frame can be drawn now.
    pub fn can_draw(&self) -> (r: bool)
        ensures
            r == (self.phase == Phase::SurfaceBound),
    {
        match self.phase {
            Phase::SurfaceBound => true,
            _ => false,
        }
    }

    /// Whether the frame loop has stopped.
    pub fn is_terminated(&self) -> (r: bool)
        ensures
            r == (self.phase == Phase::Terminated),
    {
        match self.phase {
            Phase::Terminated => true,
            _ => false,
        }
    }

    /// Takes a run of events in order and returns the action that answers
    /// each of them.
    pub fn run(&mut self, events: &[Event]) -> (actions: Vec<Action>)
        ensures
            *final(self) == old(self).after_all(events@),
            actions@.len() == events@.len(),
            forall|i: int|
                0 <= i < events@.len() ==> actions@[i] == old(self).action_at(events@, i),
    {
        let mut actions: Vec<Action> = Vec::new();
        let mut i: usize = 0;
        while i < events.len()
            invariant
                i <= events@.len(),
                *self == old(self).after_all(events@.take(i as int)),
                actions@.len() == i,
                forall|k: int| 0 <= k < i ==> actions@[k] == old(self).action_at(events@, k),
            decreases events@.len() - i,
        {
            assert(events@.take(i + 1).drop_last() =~= events@.take(i as int));
            let action = self.step(events[i]);
            actions.push(action);
            i = i + 1;
        }
        assert(events@.take(events@.len() as int) =~= events@);
        actions
    }

    /// Takes one event: moves to the next state and says what the host has
    /// to do. An event that does not apply in the current phase changes
    /// nothing and asks for nothing.
    pub fn step(&mut self, event: Event) -> (action: Action)
        ensures
            *final(self) == old(self).next(event),
            action == old(self).action(event),
    {
        match self.phase {
            Phase::Terminated => {
                return Action::Idle;
            },
            _ => {},
        }
        match event {
            Event::CloseRequested | Event::EscapePressed => {
                self.phase = Phase::Terminated;
                Action::Exit
            },
            Event::AdapterMissing => match self.phase {
                Phase::Uninitialized => {
                    self.phase = Phase::Terminated;
                    Action::Fail(FatalError::NoAdapter)
                },
                _ => Action::Idle,
            },
            Event::AdapterFound { offered } => match self.phase {
                Phase::Uninitialized => {
                    if device_suffices(offered) {
                        Action::RequestDevice(device_request())
                    } else {
                        self.phase = Phase::Terminated;
                        Action::Fail(FatalError::UnsupportedDevice)
                    }
                },
                _ => Action::Idle,
            },
            Event::DeviceRefused => match self.phase {
                Phase::Uninitialized => {
                    self.phase = Phase::Terminated;
                    Action::Fail(FatalError::DeviceRefused)
                },
                _ => Action::Idle,
            },
            Event::DeviceAcquired { granted } => match self.phase {
                Phase::Uninitialized => {
                    if device_suffices(granted) {
                        self.phase = Phase::DeviceReady;
                        self.max_push_constant_size = granted.max_push_constant_size;
                        Action::LoadProgram
                    } else {
                        self.phase = Phase::Terminated;
                        Action::Fail(FatalError::UnsupportedDevice)
                    }
                },
                _ => Action::Idle,
            },
            Event::ProgramLoaded => match self.phase {
                Phase::DeviceReady => {
                    match PipelineConfig::new(self.format, self.max_push_constant_size) {
                        Ok(config) => {
                            self.phase = Phase::PipelineReady;
                            Action::BuildPipeline(config)
                        },
                        Err(e) => {
                            self.phase = Phase::Terminated;
                            Action::Fail(FatalError::Config(e))
                        },
                    }
                },
                _ => Action::Idle,
            },
            Event::ProgramRejected => match self.phase {
                Phase::DeviceReady => {
                    self.phase = Phase::Terminated;
                    Action::Fail(FatalError::ProgramRejected)
                },
                _ => Action::Idle,
            },
            Event::PipelineBuilt => match self.phase {
                Phase::PipelineReady => {
                    self.phase = Phase::SurfaceBound;
                    Action::BindSurface(chain(self.format, self.chain_width, self.chain_height))
                },
                _ => Action::Idle,
            },
            Event::MainEventsCleared => Action::RequestRedraw,
            Event::Resumed => match self.phase {
                Phase::SurfaceDetached | Phase::SurfaceBound => {
                    self.phase = Phase::SurfaceBound;
                    Action::BindSurface(chain(self.format, self.chain_width, self.chain_height))
                },
                _ => Action::Idle,
            },
            Event::Suspended => match self.phase {
                Phase::SurfaceBound => {
                    self.phase = Phase::SurfaceDetached;
                    Action::ReleaseSurface
                },
                _ => Action::Idle,
            },
            Event::Resized { width, height } => {
                self.chain_width = width;
                self.chain_height = height;
                match self.phase {
                    Phase::SurfaceBound => Action::RebuildChain(chain(self.format, width, height)),
                    _ => Action::Idle,
                }
            },
            Event::RedrawRequested { width, height, time } => match self.phase {
                Phase::SurfaceBound => {
                    let constants = self.input.frame(width, height, time);
                    Action::Draw(draw(constants))
                },
                _ => Action::Idle,
            },
            Event::FrameUnavailable => match self.phase {
                Phase::SurfaceBound => {
                    self.phase = Phase::Terminated;
                    Action::Fail(FatalError::FrameUnavailable)
                },
                _ => Action::Idle,
            },
            Event::MouseLeft { pressed } => {
                self.input.button(pressed);
                Action::Idle
            },
            Event::CursorMoved { x, y } => {
                self.input.cursor_moved(x, y);
                Action::Idle
            },
            Event::Other => Action::Idle,
        }
    }
}

/// The image chain that the host holds after it has carried out `action`,
/// given the one it held before.
pub open spec fn chain_after_action(held: Option<ChainConfig>, action: Action) -> Option<
    ChainConfig,
> {
    match action {
        Action::BindSurface(config) => Some(config),
        Action::RebuildChain(config) => Some(config),
        Action::ReleaseSurface => None,
        _ => held,
    }
}

/// The drawable size after a run of events: that of the last resize, or the
/// one before the run if there was none.
pub open spec fn size_after(width: u32, height: u32, events: Seq<Event>) -> (u32, u32)
    decreases events.len(),
{
    if events.len() == 0 {
        (width, height)
    } else {
        match events.last() {
            Event::Resized { width: w, height: h } => (w, h),
            _ => size_after(width, height, events.drop_last()),
        }
    }
}

/// How many presses of the primary button `events` holds.
pub open spec fn press_events(events: Seq<Event>) -> nat
    decreases events.len(),
{
    if events.len() == 0 {
        0
    } else {
        press_events(events.drop_last()) + if events.last() == (Event::MouseLeft {
            pressed: true,
        }) {
            1nat
        } else {
            0nat
        }
    }
}

/// Whether the action draws a frame that reports a click.
pub open spec fn draws_click(action: Action) -> bool {
    match action {
        Action::Draw(command) => command.constants.mouse_left_clicked,
        _ => false,
    }
}

impl Runner {
    /// The state after a run of events, first to last.
    pub open spec fn after_all(self, events: Seq<Event>) -> Runner
        decreases events.len(),
    {
        if events.len() == 0 {
            self
        } else {
            self.after_all(events.drop_last()).next(events.last())
        }
    }

    /// The action that answers event `index` of the run.
    pub open spec fn action_at(self, events: Seq<Event>, index: int) -> Action
        recommends
            0 <= index < events.len(),
    {
        self.after_all(events.take(index)).action(events[index])
    }

    /// The image chain that the host holds after the run, if it has carried
    /// out every action, given the one it held before.
    pub open spec fn chain_after(self, held: Option<ChainConfig>, events: Seq<Event>) -> Option<
        ChainConfig,
    >
        decreases events.len(),
    {
        if events.len() == 0 {
            held
        } else {
            chain_after_action(
                self.chain_after(held, events.drop_last()),
                self.after_all(events.drop_last()).action(events.last()),
            )
        }
    }

    /// How many frames of the run were drawn with the click flag up.
    pub open spec fn clicked_draws(self, events: Seq<Event>) -> nat
        decreases events.len(),
    {
        if events.len() == 0 {
            0
        } else {
            self.clicked_draws(events.drop_last()) + if draws_click(
                self.after_all(events.drop_last()).action(events.last()),
            ) {
                1nat
            } else {
                0nat
            }
        }
    }

    /// Whether the chain that the host holds is the one the state speaks of:
    /// bound at the recorded size while a surface is bound, and absent while
    /// none is. Once the loop has stopped nothing is said.
    pub open spec fn agrees_with(self, held: Option<ChainConfig>) -> bool {
        match self.phase {
            Phase::SurfaceBound => held == Some(self.chain_config()),
            Phase::Terminated => true,
            _ => held is None,
        }
    }
}

/// Once the loop has stopped, no event changes anything or asks for
/// anything.
pub proof fn lemma_terminated_is_final(r: Runner, event: Event)
    requires
        r.phase == Phase::Terminated,
    ensures
        r.next(event) == r,
        r.action(event) == Action::Idle,
{
}

/// A request to close, or the escape key, stops the loop from every phase,
/// and the host is told to leave unless it already has.
pub proof fn lemma_quit_terminates(r: Runner, event: Event)
    requires
        is_quit(event),
    ensures
        r.next(event).phase == Phase::Terminated,
        r.phase != Phase::Terminated ==> r.action(event) == Action::Exit,
{
}

/// A frame is drawn exactly on a redraw while a surface is bound, never
/// otherwise; it carries the tracker's block for the live size and time, and
/// it lowers the click flag.
pub proof fn lemma_draw_only_when_bound(r: Runner, event: Event)
    ensures
        r.action(event) is Draw <==> r.phase == Phase::SurfaceBound
            && event is RedrawRequested,
        r.phase == Phase::SurfaceBound ==> forall|width: u32, height: u32, time: Scalar|
            #![trigger r.action(Event::RedrawRequested { width, height, time })]
            {
                let e = Event::RedrawRequested { width, height, time };
                &&& r.action(e) == Action::Draw(draw(r.input.constants(width, height, time)))
                &&& r.next(e) == Runner { input: r.input.after_frame(), ..r }
            },
{
}

/// What is fixed at the start stays fixed: no event changes the format, and
/// once a device is held none changes its capacity. The pipeline is asked
/// for only on the way out of `DeviceReady`, so it is built at most once.
pub proof fn lemma_device_and_pipeline_kept(r: Runner, event: Event)
    ensures
        r.next(event).format == r.format,
        r.phase != Phase::Uninitialized ==> r.next(event).max_push_constant_size
            == r.max_push_constant_size,
        r.action(event) is BuildPipeline ==> r.phase == Phase::DeviceReady && r.next(event).phase
            == Phase::PipelineReady,
        r.action(event) is LoadProgram ==> r.phase == Phase::Uninitialized && r.next(event).phase
            == Phase::DeviceReady,
        r.action(event) is RequestDevice ==> r.phase == Phase::Uninitialized && r.action(event)
            == Action::RequestDevice(device_request()),
{
}

/// Once the host reports the pipeline built, a surface is bound at the
/// recorded size; nothing else changes. The report means nothing in any
/// other phase.
pub proof fn lemma_built_pipeline_binds_surface(r: Runner)
    ensures
        r.phase == Phase::PipelineReady ==> r.action(Event::PipelineBuilt) == Action::BindSurface(
            r.chain_config(),
        ) && r.next(Event::PipelineBuilt) == (Runner { phase: Phase::SurfaceBound, ..r }),
        r.phase != Phase::PipelineReady ==> r.action(Event::PipelineBuilt) == Action::Idle
            && r.next(Event::PipelineBuilt) == r,
{
}

/// A resize while a surface is bound rebuilds the image chain at exactly
/// the new size and changes nothing else but the recorded size. While no
/// surface is bound it only records the size, for the next binding.
pub proof fn lemma_resize_rebuilds_chain(r: Runner, width: u32, height: u32)
    requires
        r.phase != Phase::Terminated,
    ensures
        ({
            let e = Event::Resized { width, height };
            &&& r.next(e) == Runner { chain_width: width, chain_height: height, ..r }
            &&& r.phase == Phase::SurfaceBound ==> r.action(e) == Action::RebuildChain(
                chain(r.format, width, height),
            )
            &&& r.phase != Phase::SurfaceBound ==> r.action(e) == Action::Idle
        }),
{
}

/// A suspend releases a bound surface and keeps everything else; a resume
/// from there binds a new surface and chain at the recorded size.
pub proof fn lemma_suspend_then_resume(r: Runner)
    requires
        r.phase == Phase::SurfaceBound,
    ensures
        r.action(Event::Suspended) == Action::ReleaseSurface,
        r.next(Event::Suspended) == (Runner { phase: Phase::SurfaceDetached, ..r }),
        r.next(Event::Suspended).action(Event::Resumed) == Action::BindSurface(r.chain_config()),
        r.next(Event::Suspended).next(Event::Resumed) == r,
{
}

/// One step keeps the host's chain in agreement with the state.
pub proof fn lemma_step_keeps_agreement(r: Runner, held: Option<ChainConfig>, event: Event)
    requires
        r.agrees_with(held),
    ensures
        r.next(event).agrees_with(chain_after_action(held, r.action(event))),
{
}

/// From the start and over every run of events, the chain that the host
/// holds agrees with the state: whenever a frame can be drawn a chain is
/// bound, at the size of the last resize, and after a suspend none is held
/// until the next resume.
pub proof fn lemma_chain_follows_events(
    format: ColorFormat,
    width: u32,
    height: u32,
    events: Seq<Event>,
)
    ensures
        ({
            let start = Runner::initial(format, width, height);
            let end = start.after_all(events);
            let held = start.chain_after(None, events);
            &&& end.agrees_with(held)
            &&& end.format == format
            &&& end.phase != Phase::Terminated ==> (end.chain_width, end.chain_height)
                == size_after(width, height, events)
            &&& end.phase == Phase::SurfaceBound ==> held == Some(
                chain(
                    format,
                    size_after(width, height, events).0,
                    size_after(width, height, events).1,
                ),
            )
        }),
    decreases events.len(),
{
    let start = Runner::initial(format, width, height);
    if events.len() > 0 {
        let init = events.drop_last();
        lemma_chain_follows_events(format, width, height, init);
        lemma_step_keeps_agreement(
            start.after_all(init),
            start.chain_after(None, init),
            events.last(),
        );
        lemma_stays_terminated(start, init, events.last());
    }
}

/// From the start and over every run of events, a device that is held was
/// accepted, so it can take the block: once the program has loaded, the
/// pipeline is always described and the configuration error never comes.
pub proof fn lemma_held_device_takes_block(
    format: ColorFormat,
    width: u32,
    height: u32,
    events: Seq<Event>,
)
    ensures
        ({
            let end = Runner::initial(format, width, height).after_all(events);
            &&& end.phase != Phase::Uninitialized && end.phase != Phase::Terminated
                ==> end.max_push_constant_size >= REQUIRED_PUSH_CONSTANT_SIZE
            &&& end.phase == Phase::DeviceReady ==> end.action(Event::ProgramLoaded)
                == Action::BuildPipeline(pipeline_spec(format)) && end.next(
                Event::ProgramLoaded,
            ).phase == Phase::PipelineReady
        }),
    decreases events.len(),
{
    if events.len() > 0 {
        lemma_held_device_takes_block(format, width, height, events.drop_last());
        lemma_chain_follows_events(format, width, height, events.drop_last());
    }
    lemma_chain_follows_events(format, width, height, events);
}

/// After a suspend nothing is drawn and no image chain is made until the
/// window resumes: over every run of events without a resume, from a state
/// whose surface is released, no action draws, binds or rebuilds, and no
/// surface is bound at the end.
pub proof fn lemma_no_draw_until_resume(r: Runner, events: Seq<Event>, index: int)
    requires
        r.phase == Phase::SurfaceDetached,
        forall|k: int| 0 <= k < events.len() ==> #[trigger] events[k] != Event::Resumed,
        0 <= index < events.len(),
    ensures
        r.after_all(events).phase != Phase::SurfaceBound,
        !(r.action_at(events, index) is Draw),
        !(r.action_at(events, index) is BindSurface),
        !(r.action_at(events, index) is RebuildChain),
{
    lemma_detached_without_resume(r, events);
    let before = events.take(index);
    assert forall|k: int| 0 <= k < before.len() implies #[trigger] before[k] != Event::Resumed by {
        assert(before[k] == events[k]);
    }
    lemma_detached_without_resume(r, before);
}

/// Without a resume a released surface stays released, or the loop stops.
proof fn lemma_detached_without_resume(r: Runner, events: Seq<Event>)
    requires
        r.phase == Phase::SurfaceDetached,
        forall|k: int| 0 <= k < events.len() ==> #[trigger] events[k] != Event::Resumed,
    ensures
        r.after_all(events).phase == Phase::SurfaceDetached || r.after_all(events).phase
            == Phase::Terminated,
    decreases events.len(),
{
    if events.len() > 0 {
        let init = events.drop_last();
        assert forall|k: int| 0 <= k < init.len() implies #[trigger] init[k] != Event::Resumed by {
            assert(init[k] == events[k]);
        }
        lemma_detached_without_resume(r, init);
        assert(events.last() == events[events.len() - 1]);
    }
}

/// A run that has stopped stays stopped.
proof fn lemma_stays_terminated(r: Runner, events: Seq<Event>, event: Event)
    ensures
        r.after_all(events).phase == Phase::Terminated ==> r.after_all(events).next(event).phase
            == Phase::Terminated,
{
}

/// Over every run of events, the frames drawn with the click flag up are at
/// most as many as the presses: each press is reported by at most one
/// frame. A click waiting at the start counts as one more press, and one
/// still waiting at the end as one more frame.
pub proof fn lemma_clicks_drawn_at_most_once(r: Runner, events: Seq<Event>)
    ensures
        r.clicked_draws(events) + (if r.after_all(events).input.mouse_left_clicked {
            1nat
        } else {
            0nat
        }) <= press_events(events) + (if r.input.mouse_left_clicked {
            1nat
        } else {
            0nat
        }),
    decreases events.len(),
{
    if events.len() > 0 {
        lemma_clicks_drawn_at_most_once(r, events.drop_last());
    }
}

} // verus!
