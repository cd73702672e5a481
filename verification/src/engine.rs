//! The engine: startup, the frame and shutdown.
//!
//! The engine starts in `Initializing`. It asks the shell for one resource at
//! a time, in a fixed order, and takes in how each request went. When the last
//! resource is there it is `Running`; if any request fails it is `Failed` and
//! stays so. While running it takes in input events and gives the order of
//! the device calls of a frame. Shutdown hands back what was allocated, newest
//! first.

use vstd::prelude::*;
use crate::camera::OrbitCamera;
use crate::controls::{lemma_event_keeps_bounds, ControlState, Controls};
use crate::frame::{FrameTarget, FrameView};
use crate::input::InputEvent;
use crate::program::{BuildError, BuildFailure, GPUProgram, ProgramKind, ProgramView, Stage};
use crate::uniform::{
    overwritten,
    objects_image,
    BlockView,
    LayoutError,
    ObjectRecord,
    UniformBlock,
    CAMERA_BINDING,
    CAMERA_BLOCK_BYTES,
    DISK_BINDING,
    DISK_BLOCK_BYTES,
    MAX_OBJECTS,
    OBJECTS_BINDING,
    OBJECTS_BLOCK_BYTES,
    WORD_BYTES,
};

verus! {

/// The number of resources that startup allocates.
pub const RESOURCE_COUNT: usize = 7;

/// Major version of the device context that the programs need.
pub const CONTEXT_MAJOR: u32 = 4;

/// Minor version of the device context that the programs need.
pub const CONTEXT_MINOR: u32 = 3;

/// The constants an engine is made with.
#[derive(Clone, Copy, Debug, PartialEq, Eq, Structural)]
pub struct EngineConfig {
    /// Width of the window, in pixels.
    pub window_width: u32,
    /// Height of the window, in pixels.
    pub window_height: u32,
    /// Width of the pixel buffer that the compute program fills.
    pub compute_width: u32,
    /// Height of the pixel buffer that the compute program fills.
    pub compute_height: u32,
    /// Width of the viewport, in metres.
    pub viewport_width: u64,
    /// Height of the viewport, in metres.
    pub viewport_height: u64,
}

/// The usual constants: a window of 800 by 600 pixels, a pixel buffer of 200
/// by 150, and a viewport of a hundred million kilometres by seventy-five.
pub open spec fn standard_config() -> EngineConfig {
    EngineConfig {
        window_width: 800,
        window_height: 600,
        compute_width: 200,
        compute_height: 150,
        viewport_width: 100_000_000_000,
        viewport_height: 75_000_000_000,
    }
}

impl EngineConfig {
    /// The usual constants.
    pub fn standard() -> (config: EngineConfig)
        ensures
            config == standard_config(),
    {
        EngineConfig {
            window_width: 800,
            window_height: 600,
            compute_width: 200,
            compute_height: 150,
            viewport_width: 100_000_000_000,
            viewport_height: 75_000_000_000,
        }
    }
}

/// One of the three uniform blocks.
#[derive(Clone, Copy, Debug, PartialEq, Eq, Structural)]
pub enum BlockId {
    Camera,
    Disk,
    Objects,
}

impl BlockId {
    /// The binding point of the block.
    pub open spec fn binding_point(self) -> u32 {
        match self {
            BlockId::Camera => CAMERA_BINDING,
            BlockId::Disk => DISK_BINDING,
            BlockId::Objects => OBJECTS_BINDING,
        }
    }

    /// The capacity of the block, in bytes.
    pub open spec fn byte_size(self) -> usize {
        match self {
            BlockId::Camera => CAMERA_BLOCK_BYTES,
            BlockId::Disk => DISK_BLOCK_BYTES,
            BlockId::Objects => OBJECTS_BLOCK_BYTES,
        }
    }

    /// The binding point of the block.
    pub fn binding(self) -> (binding: u32)
        ensures
            binding == self.binding_point(),
    {
        match self {
            BlockId::Camera => CAMERA_BINDING,
            BlockId::Disk => DISK_BINDING,
            BlockId::Objects => OBJECTS_BINDING,
        }
    }

    /// The capacity of the block, in bytes.
    pub fn capacity(self) -> (capacity: usize)
        ensures
            capacity == self.byte_size(),
    {
        match self {
            BlockId::Camera => CAMERA_BLOCK_BYTES,
            BlockId::Disk => DISK_BLOCK_BYTES,
            BlockId::Objects => OBJECTS_BLOCK_BYTES,
        }
    }
}

/// A resource that startup allocates.
#[derive(Clone, Copy, Debug, PartialEq, Eq, Structural)]
pub enum Resource {
    Context,
    Program { kind: ProgramKind },
    Block { block: BlockId },
    FrameTarget,
}

/// The resources in the order startup allocates them.
pub open spec fn allocation_order() -> Seq<Resource> {
    seq![
        Resource::Context,
        Resource::Program { kind: ProgramKind::Raster },
        Resource::Program { kind: ProgramKind::Compute },
        Resource::Block { block: BlockId::Camera },
        Resource::Block { block: BlockId::Disk },
        Resource::Block { block: BlockId::Objects },
        Resource::FrameTarget,
    ]
}

/// Why startup failed, with texts as sequences of characters.
pub enum EngineFailure {
    FileRead { path: Seq<char>, diagnostic: Seq<char> },
    ShaderCompile { stage: Stage, diagnostic: Seq<char> },
    ProgramLink { diagnostic: Seq<char> },
}

/// Why startup failed. Each of these is fatal.
#[derive(Debug, PartialEq, Eq)]
pub enum EngineError {
    /// The source text at `path` is missing or cannot be read.
    FileRead { path: String, diagnostic: String },
    /// A stage did not compile.
    ShaderCompile { stage: Stage, diagnostic: String },
    /// The stages did not link.
    ProgramLink { diagnostic: String },
}

impl View for EngineError {
    type V = EngineFailure;

    open spec fn view(&self) -> EngineFailure {
        match *self {
            EngineError::FileRead { path, diagnostic } => EngineFailure::FileRead {
                path: path@,
                diagnostic: diagnostic@,
            },
            EngineError::ShaderCompile { stage, diagnostic } => EngineFailure::ShaderCompile {
                stage,
                diagnostic: diagnostic@,
            },
            EngineError::ProgramLink { diagnostic } => EngineFailure::ProgramLink {
                diagnostic: diagnostic@,
            },
        }
    }
}

/// The startup failure that a failed build amounts to.
pub open spec fn failure_of_build(failure: BuildFailure) -> EngineFailure {
    match failure {
        BuildFailure::ShaderCompile { stage, diagnostic } => EngineFailure::ShaderCompile {
            stage,
            diagnostic,
        },
        BuildFailure::ProgramLink { diagnostic } => EngineFailure::ProgramLink { diagnostic },
    }
}

impl EngineError {
    /// The startup failure that a failed build amounts to.
    pub fn from_build(error: BuildError) -> (failure: EngineError)
        ensures
            failure@ == failure_of_build(error@),
    {
        match error {
            BuildError::ShaderCompile { stage, diagnostic } => EngineError::ShaderCompile {
                stage,
                diagnostic,
            },
            BuildError::ProgramLink { diagnostic } => EngineError::ProgramLink { diagnostic },
        }
    }
}

/// The engine's mode.
#[derive(Clone, Copy, Debug, PartialEq, Eq, Structural)]
pub enum EngineMode {
    /// Startup is under way.
    Initializing,
    /// Every resource is there; frames can be rendered.
    Running,
    /// Startup failed.
    Failed,
    /// The engine has been shut down.
    Stopped,
}

/// What the engine asks of the shell next.
#[derive(Clone, Copy, Debug, PartialEq, Eq, Structural)]
pub enum Request {
    /// Open the window and create a device context of at least the given
    /// version.
    CreateContext { width: u32, height: u32, major: u32, minor: u32 },
    /// Read the sources of a program of this kind and build it.
    BuildProgram { kind: ProgramKind },
    /// Allocate a zero-filled buffer of `capacity` bytes and bind it at
    /// `binding`.
    AllocateBlock { binding: u32, capacity: usize },
    /// Create the quad and a pixel buffer of the given resolution.
    CreateFrameTarget { width: u32, height: u32 },
    /// Startup is complete: run the frame loop.
    Run,
    /// Startup failed: report the failure and exit.
    Abort,
    /// The engine has been shut down: nothing.
    Halt,
}

/// How a request went, with texts as sequences of characters.
pub enum OutcomeView {
    Done,
    Built { program: ProgramView },
    Failed { failure: EngineFailure },
}

/// How a request went.
#[derive(Debug)]
pub enum StepOutcome {
    /// The resource was allocated.
    Done,
    /// The program was built.
    Built { program: GPUProgram },
    /// The request failed.
    Failed { error: EngineError },
}

impl View for StepOutcome {
    type V = OutcomeView;

    open spec fn view(&self) -> OutcomeView {
        match *self {
            StepOutcome::Done => OutcomeView::Done,
            StepOutcome::Built { program } => OutcomeView::Built { program: program@ },
            StepOutcome::Failed { error } => OutcomeView::Failed { failure: error@ },
        }
    }
}

/// A device call of a frame.
#[derive(Clone, Copy, Debug, PartialEq, Eq, Structural)]
pub enum FrameCommand {
    /// Upload the camera block.
    UploadCamera,
    /// Run the compute program over the pixel buffer.
    RunCompute,
    /// Draw the frame target with the raster program.
    DrawFrame,
    /// Show the frame.
    Present,
}

/// The device calls of a frame, in order. The compute program writes the
/// pixel buffer before the draw reads it.
pub open spec fn frame_order() -> Seq<FrameCommand> {
    seq![
        FrameCommand::UploadCamera,
        FrameCommand::RunCompute,
        FrameCommand::DrawFrame,
        FrameCommand::Present,
    ]
}

/// Why a frame or a write was refused.
#[derive(Clone, Copy, Debug, PartialEq, Eq, Structural)]
pub enum FrameError {
    /// The engine is not running with its resources in place.
    NotRunning,
    /// The write does not fit the block's layout.
    Layout { error: LayoutError },
}

/// Something to release at shutdown.
#[derive(Clone, Copy, Debug, PartialEq, Eq, Structural)]
pub enum Release {
    /// The quad and the pixel buffer.
    FrameTarget,
    /// The buffer bound at `binding`.
    Block { binding: u32 },
    /// The program with the handle `handle`.
    Program { handle: u32 },
    /// The device context and the window.
    Context,
}

/// A uniform block as startup allocates it: zero-filled, at its binding point.
pub open spec fn fresh_block(block: BlockId) -> BlockView {
    BlockView {
        binding: block.binding_point() as int,
        bytes: Seq::new(block.byte_size() as nat, |i: int| 0u8),
    }
}

/// Everything the engine holds.
pub struct EngineState {
    pub config: EngineConfig,
    pub mode: EngineMode,
    /// How many resources have been allocated.
    pub done: nat,
    pub raster: Option<ProgramView>,
    pub compute: Option<ProgramView>,
    pub camera_block: Option<BlockView>,
    pub disk_block: Option<BlockView>,
    pub objects_block: Option<BlockView>,
    pub frame: Option<FrameView>,
    pub controls: ControlState,
    pub failure: Option<EngineFailure>,
}

impl EngineState {
    /// The engine before startup has asked for anything.
    pub open spec fn start(config: EngineConfig) -> EngineState {
        EngineState {
            config,
            mode: EngineMode::Initializing,
            done: 0,
            raster: None,
            compute: None,
            camera_block: None,
            disk_block: None,
            objects_block: None,
            frame: None,
            controls: ControlState::initial(),
            failure: None,
        }
    }

    /// Whether the block `block`, if it is there, is bound where it belongs
    /// and has the capacity of its layout.
    pub open spec fn block_fits(held: Option<BlockView>, block: BlockId) -> bool {
        held matches Some(view) ==> view.binding == block.binding_point() && view.bytes.len()
            == block.byte_size()
    }

    /// The states an engine can be in. Each resource is there exactly if
    /// startup has come past it, so a running engine has them all.
    pub open spec fn wf(self) -> bool {
        &&& self.done <= RESOURCE_COUNT
        &&& self.mode == EngineMode::Initializing ==> self.done < RESOURCE_COUNT && self.failure
            is None
        &&& self.mode == EngineMode::Running ==> self.done == RESOURCE_COUNT && self.failure
            is None
        &&& self.mode == EngineMode::Failed ==> self.done < RESOURCE_COUNT && self.failure
            is Some
        &&& self.mode == EngineMode::Stopped ==> self.done == 0
        &&& self.raster is Some <==> self.done >= 2
        &&& self.compute is Some <==> self.done >= 3
        &&& self.camera_block is Some <==> self.done >= 4
        &&& self.disk_block is Some <==> self.done >= 5
        &&& self.objects_block is Some <==> self.done >= 6
        &&& self.frame is Some <==> self.done >= 7
        &&& self.raster matches Some(program) ==> program.kind == ProgramKind::Raster
        &&& self.compute matches Some(program) ==> program.kind == ProgramKind::Compute
        &&& Self::block_fits(self.camera_block, BlockId::Camera)
        &&& Self::block_fits(self.disk_block, BlockId::Disk)
        &&& Self::block_fits(self.objects_block, BlockId::Objects)
        &&& self.frame matches Some(frame) ==> frame.width == self.config.compute_width
            && frame.height == self.config.compute_height
        &&& self.controls.camera.wf()
    }

    /// What startup asks for when `done` resources are there.
    pub open spec fn step(self) -> Request {
        if self.done == 0 {
            Request::CreateContext {
                width: self.config.window_width,
                height: self.config.window_height,
                major: CONTEXT_MAJOR,
                minor: CONTEXT_MINOR,
            }
        } else if self.done == 1 {
            Request::BuildProgram { kind: ProgramKind::Raster }
        } else if self.done == 2 {
            Request::BuildProgram { kind: ProgramKind::Compute }
        } else if self.done == 3 {
            Request::AllocateBlock { binding: CAMERA_BINDING, capacity: CAMERA_BLOCK_BYTES }
        } else if self.done == 4 {
            Request::AllocateBlock { binding: DISK_BINDING, capacity: DISK_BLOCK_BYTES }
        } else if self.done == 5 {
            Request::AllocateBlock { binding: OBJECTS_BINDING, capacity: OBJECTS_BLOCK_BYTES }
        } else {
            Request::CreateFrameTarget {
                width: self.config.compute_width,
                height: self.config.compute_height,
            }
        }
    }

    /// What the engine asks of the shell in this state.
    pub open spec fn request(self) -> Request {
        match self.mode {
            EngineMode::Initializing => self.step(),
            EngineMode::Running => Request::Run,
            EngineMode::Failed => Request::Abort,
            EngineMode::Stopped => Request::Halt,
        }
    }

    /// The state with one more resource counted, running once they are all
    /// there.
    pub open spec fn stepped(self) -> EngineState {
        EngineState {
            done: self.done + 1,
            mode: if self.done + 1 == RESOURCE_COUNT {
                EngineMode::Running
            } else {
                EngineMode::Initializing
            },
            ..self
        }
    }

    /// The state after the shell has reported how the current request went.
    ///
    /// During startup a failure is fatal, whatever the request was. A program
    /// of the kind asked for, or `Done` for any other resource, brings startup
    /// one step on. An outcome that does not answer the request changes
    /// nothing, and outside startup no outcome does.
    pub open spec fn after_outcome(self, outcome: OutcomeView) -> EngineState {
        if self.mode != EngineMode::Initializing {
            self
        } else {
            match outcome {
                OutcomeView::Failed { failure } => EngineState {
                    mode: EngineMode::Failed,
                    failure: Some(failure),
                    ..self
                },
                OutcomeView::Built { program } => if self.done == 1 && program.kind
                    == ProgramKind::Raster {
                    EngineState { raster: Some(program), ..self }.stepped()
                } else if self.done == 2 && program.kind == ProgramKind::Compute {
                    EngineState { compute: Some(program), ..self }.stepped()
                } else {
                    self
                },
                OutcomeView::Done => if self.done == 0 {
                    self.stepped()
                } else if self.done == 3 {
                    EngineState {
                        camera_block: Some(fresh_block(BlockId::Camera)),
                        ..self
                    }.stepped()
                } else if self.done == 4 {
                    EngineState { disk_block: Some(fresh_block(BlockId::Disk)), ..self }.stepped()
                } else if self.done == 5 {
                    EngineState {
                        objects_block: Some(fresh_block(BlockId::Objects)),
                        ..self
                    }.stepped()
                } else if self.done == 6 {
                    EngineState {
                        frame: Some(
                            FrameView {
                                width: self.config.compute_width as int,
                                height: self.config.compute_height as int,
                            },
                        ),
                        ..self
                    }.stepped()
                } else {
                    self
                },
            }
        }
    }

    /// The state after `event`: a running engine hands it to the controls,
    /// any other ignores it.
    pub open spec fn after_event(self, event: InputEvent) -> EngineState {
        if self.mode == EngineMode::Running {
            EngineState { controls: self.controls.after(event), ..self }
        } else {
            self
        }
    }

    /// The block `block`, if it is there.
    pub open spec fn block(self, block: BlockId) -> Option<BlockView> {
        match block {
            BlockId::Camera => self.camera_block,
            BlockId::Disk => self.disk_block,
            BlockId::Objects => self.objects_block,
        }
    }

    /// The state with `bytes` as the contents of the block `block`, which
    /// stays bound where it was.
    pub open spec fn with_block_bytes(self, block: BlockId, bytes: Seq<u8>) -> EngineState {
        let view = Some(BlockView { binding: self.block(block)->0.binding, bytes });
        match block {
            BlockId::Camera => EngineState { camera_block: view, ..self },
            BlockId::Disk => EngineState { disk_block: view, ..self },
            BlockId::Objects => EngineState { objects_block: view, ..self },
        }
    }

    /// Whether the block `block` can be written: the engine is running and
    /// the block is there.
    pub open spec fn writable(self, block: BlockId) -> bool {
        self.mode == EngineMode::Running && self.block(block) is Some
    }

    /// What shutdown releases for each resource, newest resource first:
    /// nothing where the resource is not there.
    pub open spec fn release_parts(self) -> (
        Seq<Release>,
        Seq<Release>,
        Seq<Release>,
        Seq<Release>,
        Seq<Release>,
        Seq<Release>,
        Seq<Release>,
    ) {
        (
            if self.frame is Some {
                seq![Release::FrameTarget]
            } else {
                Seq::empty()
            },
            if self.objects_block is Some {
                seq![Release::Block { binding: OBJECTS_BINDING }]
            } else {
                Seq::empty()
            },
            if self.disk_block is Some {
                seq![Release::Block { binding: DISK_BINDING }]
            } else {
                Seq::empty()
            },
            if self.camera_block is Some {
                seq![Release::Block { binding: CAMERA_BINDING }]
            } else {
                Seq::empty()
            },
            match self.compute {
                Some(program) => seq![Release::Program { handle: program.handle }],
                None => Seq::empty(),
            },
            match self.raster {
                Some(program) => seq![Release::Program { handle: program.handle }],
                None => Seq::empty(),
            },
            if self.done >= 1 {
                seq![Release::Context]
            } else {
                Seq::empty()
            },
        )
    }

    /// What shutdown releases: everything that is there, newest first.
    pub open spec fn releases(self) -> Seq<Release> {
        let parts = self.release_parts();
        parts.0 + parts.1 + parts.2 + parts.3 + parts.4 + parts.5 + parts.6
    }

    /// Whether `release` gives back `resource` as this state holds it.
    pub open spec fn gives_back(self, release: Release, resource: Resource) -> bool {
        match resource {
            Resource::Context => release == Release::Context,
            Resource::Program { kind } => match kind {
                ProgramKind::Raster => self.raster matches Some(program) && release
                    == (Release::Program { handle: program.handle }),
                ProgramKind::Compute => self.compute matches Some(program) && release
                    == (Release::Program { handle: program.handle }),
            },
            Resource::Block { block } => release == (Release::Block {
                binding: block.binding_point(),
            }),
            Resource::FrameTarget => release == Release::FrameTarget,
        }
    }

    /// The state after the shell has reported each of `outcomes` in turn.
    pub open spec fn after_outcomes(self, outcomes: Seq<OutcomeView>) -> EngineState
        decreases outcomes.len(),
    {
        if outcomes.len() == 0 {
            self
        } else {
            self.after_outcomes(outcomes.drop_last()).after_outcome(outcomes.last())
        }
    }

    /// The state after shutdown: stopped, with nothing allocated.
    pub open spec fn stopped(self) -> EngineState {
        EngineState {
            mode: EngineMode::Stopped,
            done: 0,
            raster: None,
            compute: None,
            camera_block: None,
            disk_block: None,
            objects_block: None,
            frame: None,
            ..self
        }
    }
}

/// The handle to delete for a program that is given up, if there is one.
fn handle_of(program: Option<GPUProgram>) -> (handle: Option<u32>)
    ensures
        handle == match program {
            Some(held) => Some(held@.handle),
            None => None,
        },
{
    match program {
        Some(held) => Some(held.release()),
        None => None,
    }
}

/// Appends `release` where the resource was there.
fn note_if(releases: &mut Vec<Release>, present: bool, release: Release)
    ensures
        final(releases)@ == old(releases)@ + if present {
            seq![release]
        } else {
            Seq::empty()
        },
{
    if present {
        releases.push(release);
    }
}

/// Appends the release of a program where there was one.
fn note_program(releases: &mut Vec<Release>, handle: Option<u32>)
    ensures
        final(releases)@ == old(releases)@ + match handle {
            Some(handle) => seq![Release::Program { handle }],
            None => Seq::empty(),
        },
{
    match handle {
        Some(handle) => {
            releases.push(Release::Program { handle });
        },
        None => {},
    }
}

/// The engine.
#[derive(Debug)]
pub struct Engine {
    config: EngineConfig,
    mode: EngineMode,
    done: usize,
    raster: Option<GPUProgram>,
    compute: Option<GPUProgram>,
    camera_block: Option<UniformBlock>,
    disk_block: Option<UniformBlock>,
    objects_block: Option<UniformBlock>,
    frame: Option<FrameTarget>,
    controls: Controls,
    failure: Option<EngineError>,
}

impl View for Engine {
    type V = EngineState;

    closed spec fn view(&self) -> EngineState {
        EngineState {
            config: self.config,
            mode: self.mode,
            done: self.done as nat,
            raster: match self.raster {
                Some(program) => Some(program@),
                None => None,
            },
            compute: match self.compute {
                Some(program) => Some(program@),
                None => None,
            },
            camera_block: match self.camera_block {
                Some(block) => Some(block@),
                None => None,
            },
            disk_block: match self.disk_block {
                Some(block) => Some(block@),
                None => None,
            },
            objects_block: match self.objects_block {
                Some(block) => Some(block@),
                None => None,
            },
            frame: match self.frame {
                Some(frame) => Some(frame@),
                None => None,
            },
            controls: self.controls@,
            failure: match self.failure {
                Some(error) => Some(error@),
                None => None,
            },
        }
    }
}

impl Engine {
    /// An engine about to start up.
    pub fn new(config: EngineConfig) -> (engine: Engine)
        ensures
            engine@ == EngineState::start(config),
            engine@.wf(),
    {
        Engine {
            config,
            mode: EngineMode::Initializing,
            done: 0,
            raster: None,
            compute: None,
            camera_block: None,
            disk_block: None,
            objects_block: None,
            frame: None,
            controls: Controls::new(),
            failure: None,
        }
    }

    /// The constants the engine was made with.
    pub fn config(&self) -> (config: EngineConfig)
        ensures
            config == self@.config,
    {
        self.config
    }

    /// The engine's mode.
    pub fn mode(&self) -> (mode: EngineMode)
        ensures
            mode == self@.mode,
    {
        self.mode
    }

    /// Why startup failed, if it did.
    pub fn failure(&self) -> (failure: Option<&EngineError>)
        ensures
            failure is Some <==> self@.failure is Some,
            failure matches Some(error) ==> self@.failure == Some(error@),
    {
        self.failure.as_ref()
    }

    /// The camera, the gravity switch and the request to stop.
    pub fn controls(&self) -> (controls: &Controls)
        ensures
            controls@ == self@.controls,
    {
        &self.controls
    }

    /// The camera.
    pub fn camera(&self) -> (camera: &OrbitCamera)
        ensures
            camera@ == self@.controls.camera,
    {
        self.controls.camera()
    }

    /// Whether gravity is on.
    pub fn gravity_enabled(&self) -> (enabled: bool)
        ensures
            enabled == self@.controls.gravity,
    {
        self.controls.gravity_enabled()
    }

    /// Whether the user has asked the engine to stop.
    pub fn close_requested(&self) -> (closing: bool)
        ensures
            closing == self@.controls.closing,
    {
        self.controls.close_requested()
    }

    /// The raster program, once it has been built.
    pub fn raster_program(&self) -> (program: Option<&GPUProgram>)
        ensures
            program is Some <==> self@.raster is Some,
            program matches Some(held) ==> self@.raster == Some(held@),
    {
        self.raster.as_ref()
    }

    /// The compute program, once it has been built.
    pub fn compute_program(&self) -> (program: Option<&GPUProgram>)
        ensures
            program is Some <==> self@.compute is Some,
            program matches Some(held) ==> self@.compute == Some(held@),
    {
        self.compute.as_ref()
    }

    /// The frame target, once it has been created.
    pub fn frame_target(&self) -> (frame: Option<&FrameTarget>)
        ensures
            frame is Some <==> self@.frame is Some,
            frame matches Some(held) ==> self@.frame == Some(held@),
    {
        self.frame.as_ref()
    }

    /// The uniform block `block`, once it has been allocated.
    pub fn block(&self, block: BlockId) -> (held: Option<&UniformBlock>)
        ensures
            held is Some <==> self@.block(block) is Some,
            held matches Some(found) ==> self@.block(block) == Some(found@),
    {
        match block {
            BlockId::Camera => self.camera_block.as_ref(),
            BlockId::Disk => self.disk_block.as_ref(),
            BlockId::Objects => self.objects_block.as_ref(),
        }
    }

    /// What to ask of the shell next.
    pub fn request(&self) -> (request: Request)
        ensures
            request == self@.request(),
    {
        match self.mode {
            EngineMode::Initializing => {
                if self.done == 0 {
                    Request::CreateContext {
                        width: self.config.window_width,
                        height: self.config.window_height,
                        major: CONTEXT_MAJOR,
                        minor: CONTEXT_MINOR,
                    }
                } else if self.done == 1 {
                    Request::BuildProgram { kind: ProgramKind::Raster }
                } else if self.done == 2 {
                    Request::BuildProgram { kind: ProgramKind::Compute }
                } else if self.done == 3 {
                    Request::AllocateBlock {
                        binding: BlockId::Camera.binding(),
                        capacity: BlockId::Camera.capacity(),
                    }
                } else if self.done == 4 {
                    Request::AllocateBlock {
                        binding: BlockId::Disk.binding(),
                        capacity: BlockId::Disk.capacity(),
                    }
                } else if self.done == 5 {
                    Request::AllocateBlock {
                        binding: BlockId::Objects.binding(),
                        capacity: BlockId::Objects.capacity(),
                    }
                } else {
                    Request::CreateFrameTarget {
                        width: self.config.compute_width,
                        height: self.config.compute_height,
                    }
                }
            },
            EngineMode::Running => Request::Run,
            EngineMode::Failed => Request::Abort,
            EngineMode::Stopped => Request::Halt,
        }
    }

    /// Counts one more resource, and runs once they are all there.
    fn step(&mut self)
        requires
            old(self).done < RESOURCE_COUNT,
        ensures
            final(self)@ == old(self)@.stepped(),
    {
        self.done = self.done + 1;
        if self.done == RESOURCE_COUNT {
            self.mode = EngineMode::Running;
        } else {
            self.mode = EngineMode::Initializing;
        }
    }

    /// Takes in how the current request went and returns what to ask next.
    pub fn complete(&mut self, outcome: StepOutcome) -> (request: Request)
        ensures
            final(self)@ == old(self)@.after_outcome(outcome@),
            old(self)@.wf() ==> final(self)@.wf(),
            request == final(self)@.request(),
    {
        proof {
            if self@.wf() {
                lemma_outcome_keeps_wf(self@, outcome@);
            }
        }
        match self.mode {
            EngineMode::Initializing => match outcome {
                StepOutcome::Failed { error } => {
                    self.mode = EngineMode::Failed;
                    self.failure = Some(error);
                },
                StepOutcome::Built { program } => {
                    if self.done == 1 && program.kind() == ProgramKind::Raster {
                        self.raster = Some(program);
                        self.step();
                    } else if self.done == 2 && program.kind() == ProgramKind::Compute {
                        self.compute = Some(program);
                        self.step();
                    }
                },
                StepOutcome::Done => {
                    if self.done == 0 {
                        self.step();
                    } else if self.done == 3 {
                        self.camera_block = Some(
                            UniformBlock::allocate(
                                BlockId::Camera.binding(),
                                BlockId::Camera.capacity(),
                            ),
                        );
                        self.step();
                    } else if self.done == 4 {
                        self.disk_block = Some(
                            UniformBlock::allocate(
                                BlockId::Disk.binding(),
                                BlockId::Disk.capacity(),
                            ),
                        );
                        self.step();
                    } else if self.done == 5 {
                        self.objects_block = Some(
                            UniformBlock::allocate(
                                BlockId::Objects.binding(),
                                BlockId::Objects.capacity(),
                            ),
                        );
                        self.step();
                    } else if self.done == 6 {
                        self.frame = Some(
                            FrameTarget::new(self.config.compute_width, self.config.compute_height),
                        );
                        self.step();
                    }
                },
            },
            _ => {},
        }
        self.request()
    }

    /// Takes in one input event. Returns the new gravity setting where the
    /// user is to be told of it. An engine that is not running ignores the
    /// event.
    pub fn handle_event(&mut self, event: InputEvent) -> (notice: Option<bool>)
        ensures
            final(self)@ == old(self)@.after_event(event),
            old(self)@.wf() ==> final(self)@.wf(),
            notice == if old(self)@.mode == EngineMode::Running {
                old(self)@.controls.notice(event)
            } else {
                None
            },
    {
        match self.mode {
            EngineMode::Running => self.controls.handle(event),
            _ => None,
        }
    }

    /// Takes in the input events of one poll, in arrival order. Returns the
    /// gravity settings that the user is to be told of, in order. An engine
    /// that is not running ignores the events.
    pub fn handle_events(&mut self, events: &[InputEvent]) -> (notices: Vec<bool>)
        ensures
            old(self)@.wf() ==> final(self)@.wf(),
            old(self)@.mode == EngineMode::Running ==> final(self)@ == (EngineState {
                controls: old(self)@.controls.after_all(events@),
                ..old(self)@
            }) && notices@ == old(self)@.controls.notices(events@),
            old(self)@.mode != EngineMode::Running ==> final(self)@ == old(self)@ && notices@
                == Seq::<bool>::empty(),
    {
        match self.mode {
            EngineMode::Running => self.controls.handle_all(events),
            _ => Vec::new(),
        }
    }

    /// Overwrites the bytes of the block `block` from `offset` on with
    /// `data`.
    ///
    /// The engine must be running, the offset a multiple of the word size,
    /// and the data must fit; otherwise the write is refused and nothing
    /// changes. The refusals are tried in that order.
    pub fn write_block(&mut self, block: BlockId, offset: usize, data: &[u8]) -> (outcome: Result<
        (),
        FrameError,
    >)
        ensures
            old(self)@.wf() ==> final(self)@.wf(),
            !old(self)@.writable(block) ==> outcome == Err::<(), FrameError>(
                FrameError::NotRunning,
            ) && final(self)@ == old(self)@,
            old(self)@.writable(block) && offset % WORD_BYTES != 0 ==> outcome == Err::<
                (),
                FrameError,
            >(FrameError::Layout { error: LayoutError::Misaligned }) && final(self)@ == old(
                self,
            )@,
            old(self)@.writable(block) && offset % WORD_BYTES == 0 && offset + data@.len() > old(
                self,
            )@.block(block)->0.bytes.len() ==> outcome == Err::<(), FrameError>(
                FrameError::Layout { error: LayoutError::OutOfBounds },
            ) && final(self)@ == old(self)@,
            old(self)@.writable(block) && offset % WORD_BYTES == 0 && offset + data@.len() <= old(
                self,
            )@.block(block)->0.bytes.len() ==> outcome == Ok::<(), FrameError>(()) && final(self)@
                == old(self)@.with_block_bytes(
                block,
                overwritten(old(self)@.block(block)->0.bytes, offset as int, data@),
            ),
    {
        match self.mode {
            EngineMode::Running => {},
            _ => {
                return Err(FrameError::NotRunning);
            },
        }
        let written = match block {
            BlockId::Camera => match &mut self.camera_block {
                Some(held) => held.try_write(offset, data),
                None => {
                    return Err(FrameError::NotRunning);
                },
            },
            BlockId::Disk => match &mut self.disk_block {
                Some(held) => held.try_write(offset, data),
                None => {
                    return Err(FrameError::NotRunning);
                },
            },
            BlockId::Objects => match &mut self.objects_block {
                Some(held) => held.try_write(offset, data),
                None => {
                    return Err(FrameError::NotRunning);
                },
            },
        };
        match written {
            Ok(()) => Ok(()),
            Err(error) => Err(FrameError::Layout { error }),
        }
    }

    /// Writes the object count and the records into the objects block.
    ///
    /// The engine must be running, the block must have the capacity of the
    /// objects layout, and neither `count` nor the number of records may
    /// exceed the sixteen slots; otherwise the write is refused and nothing
    /// changes. The refusals are tried in that order.
    pub fn write_objects(&mut self, count: u32, records: &[ObjectRecord]) -> (outcome: Result<
        (),
        FrameError,
    >)
        ensures
            old(self)@.wf() ==> final(self)@.wf(),
            !old(self)@.writable(BlockId::Objects) ==> outcome == Err::<(), FrameError>(
                FrameError::NotRunning,
            ) && final(self)@ == old(self)@,
            old(self)@.writable(BlockId::Objects) && old(self)@.objects_block->0.bytes.len()
                != OBJECTS_BLOCK_BYTES ==> outcome == Err::<(), FrameError>(
                FrameError::Layout { error: LayoutError::LayoutMismatch },
            ) && final(self)@ == old(self)@,
            old(self)@.writable(BlockId::Objects) && old(self)@.objects_block->0.bytes.len()
                == OBJECTS_BLOCK_BYTES && (count > MAX_OBJECTS || records@.len() > MAX_OBJECTS)
                ==> outcome == Err::<(), FrameError>(
                FrameError::Layout { error: LayoutError::TooManyObjects },
            ) && final(self)@ == old(self)@,
            old(self)@.writable(BlockId::Objects) && old(self)@.objects_block->0.bytes.len()
                == OBJECTS_BLOCK_BYTES && count <= MAX_OBJECTS && records@.len() <= MAX_OBJECTS
                ==> outcome == Ok::<(), FrameError>(()) && final(self)@ == old(
                self,
            )@.with_block_bytes(
                BlockId::Objects,
                objects_image(old(self)@.objects_block->0.bytes, count, records@),
            ),
    {
        match self.mode {
            EngineMode::Running => {},
            _ => {
                return Err(FrameError::NotRunning);
            },
        }
        let written = match &mut self.objects_block {
            Some(held) => held.write_objects(count, records),
            None => {
                return Err(FrameError::NotRunning);
            },
        };
        match written {
            Ok(()) => Ok(()),
            Err(error) => Err(FrameError::Layout { error }),
        }
    }

    /// Prepares a frame: stores `eye`, the camera's payload, at the start of
    /// the camera block and returns the device calls of the frame in order.
    ///
    /// The engine must be running and the payload must fit the camera block;
    /// otherwise the frame is refused and nothing changes.
    pub fn render(&mut self, eye: &[u8]) -> (outcome: Result<Vec<FrameCommand>, FrameError>)
        ensures
            old(self)@.wf() ==> final(self)@.wf(),
            !old(self)@.writable(BlockId::Camera) ==> outcome == Err::<
                Vec<FrameCommand>,
                FrameError,
            >(FrameError::NotRunning) && final(self)@ == old(self)@,
            old(self)@.writable(BlockId::Camera) && eye@.len() > old(
                self,
            )@.camera_block->0.bytes.len() ==> outcome == Err::<Vec<FrameCommand>, FrameError>(
                FrameError::Layout { error: LayoutError::OutOfBounds },
            ) && final(self)@ == old(self)@,
            old(self)@.writable(BlockId::Camera) && eye@.len() <= old(
                self,
            )@.camera_block->0.bytes.len() ==> outcome is Ok && outcome->Ok_0@ == frame_order()
                && final(self)@ == old(self)@.with_block_bytes(
                BlockId::Camera,
                overwritten(old(self)@.camera_block->0.bytes, 0, eye@),
            ),
    {
        match self.write_block(BlockId::Camera, 0, eye) {
            Ok(()) => {},
            Err(error) => {
                return Err(error);
            },
        }
        let mut commands: Vec<FrameCommand> = Vec::new();
        commands.push(FrameCommand::UploadCamera);
        commands.push(FrameCommand::RunCompute);
        commands.push(FrameCommand::DrawFrame);
        commands.push(FrameCommand::Present);
        assert(commands@ =~= frame_order());
        Ok(commands)
    }

    /// Shuts the engine down. Returns what the shell is to release, newest
    /// first, and leaves the engine stopped with nothing allocated.
    pub fn shutdown(&mut self) -> (releases: Vec<Release>)
        ensures
            final(self)@ == old(self)@.stopped(),
            old(self)@.wf() ==> final(self)@.wf(),
            releases@ == old(self)@.releases(),
    {
        let ghost before = self@;
        let mut releases: Vec<Release> = Vec::new();
        let frame = self.frame.take().is_some();
        let objects = self.objects_block.take().is_some();
        let disk = self.disk_block.take().is_some();
        let camera = self.camera_block.take().is_some();
        let compute = handle_of(self.compute.take());
        let raster = handle_of(self.raster.take());
        let context = self.done >= 1;
        self.done = 0;
        self.mode = EngineMode::Stopped;
        assert(self@ == before.stopped());
        note_if(&mut releases, frame, Release::FrameTarget);
        note_if(&mut releases, objects, Release::Block { binding: OBJECTS_BINDING });
        note_if(&mut releases, disk, Release::Block { binding: DISK_BINDING });
        note_if(&mut releases, camera, Release::Block { binding: CAMERA_BINDING });
        note_program(&mut releases, compute);
        note_program(&mut releases, raster);
        note_if(&mut releases, context, Release::Context);
        releases
    }
}

/// Whatever the shell reports, the engine stays in one of its states. In
/// particular it runs only with every resource there.
pub proof fn lemma_outcome_keeps_wf(state: EngineState, outcome: OutcomeView)
    requires
        state.wf(),
    ensures
        state.after_outcome(outcome).wf(),
{
}

/// No partly started engine runs: whatever the shell reports during startup,
/// and in whatever order, an engine that is running holds both programs, all
/// three blocks and the frame target, and none of the reports was a failure
/// that it took in.
pub proof fn lemma_running_engine_is_complete(config: EngineConfig, outcomes: Seq<OutcomeView>)
    ensures
        ({
            let end = EngineState::start(config).after_outcomes(outcomes);
            &&& end.wf()
            &&& end.mode == EngineMode::Running ==> {
                &&& end.raster is Some
                &&& end.compute is Some
                &&& end.camera_block == Some(fresh_block(BlockId::Camera))
                &&& end.disk_block == Some(fresh_block(BlockId::Disk))
                &&& end.objects_block == Some(fresh_block(BlockId::Objects))
                &&& end.frame is Some
                &&& end.failure is None
            }
        }),
    decreases outcomes.len(),
{
    if outcomes.len() > 0 {
        let before = EngineState::start(config).after_outcomes(outcomes.drop_last());
        lemma_running_engine_is_complete(config, outcomes.drop_last());
        lemma_outcome_keeps_wf(before, outcomes.last());
        lemma_startup_leaves_blocks_fresh(config, outcomes.drop_last());
        lemma_startup_leaves_blocks_fresh(config, outcomes);
    }
}

/// Startup writes to no block: each one that is there is as it was allocated.
proof fn lemma_startup_leaves_blocks_fresh(config: EngineConfig, outcomes: Seq<OutcomeView>)
    ensures
        ({
            let end = EngineState::start(config).after_outcomes(outcomes);
            &&& end.camera_block is Some ==> end.camera_block == Some(fresh_block(BlockId::Camera))
            &&& end.disk_block is Some ==> end.disk_block == Some(fresh_block(BlockId::Disk))
            &&& end.objects_block is Some ==> end.objects_block == Some(
                fresh_block(BlockId::Objects),
            )
        }),
    decreases outcomes.len(),
{
    if outcomes.len() > 0 {
        lemma_startup_leaves_blocks_fresh(config, outcomes.drop_last());
    }
}

/// A failure during startup is fatal: a failed engine stays failed whatever
/// is reported to it, and takes in no input.
pub proof fn lemma_failure_is_fatal(state: EngineState, outcome: OutcomeView, event: InputEvent)
    requires
        state.mode == EngineMode::Failed,
    ensures
        state.after_outcome(outcome) == state,
        state.after_event(event) == state,
{
}

/// Input changes the controls and nothing else, and keeps the camera in
/// bounds: after any event an engine still holds every resource as it was.
pub proof fn lemma_input_keeps_resources(state: EngineState, event: InputEvent)
    requires
        state.wf(),
    ensures
        state.after_event(event).wf(),
        state.after_event(event) == (EngineState {
            controls: state.after_event(event).controls,
            ..state
        }),
{
    lemma_event_keeps_bounds(state.controls, event);
}

/// Shutdown releases exactly what was allocated, in the reverse of the order
/// of allocation.
pub proof fn lemma_shutdown_reverses_allocation(state: EngineState, index: int)
    requires
        state.wf(),
        0 <= index < state.done,
    ensures
        state.releases().len() == state.done,
        state.gives_back(state.releases()[index], allocation_order()[state.done - 1 - index]),
        state.stopped().releases().len() == 0,
{
}

/// In every frame the compute program runs before the frame is drawn, and the
/// camera block is uploaded before either.
pub proof fn lemma_compute_precedes_draw(upload: int, run: int, draw: int)
    requires
        0 <= upload < frame_order().len(),
        0 <= run < frame_order().len(),
        0 <= draw < frame_order().len(),
        frame_order()[upload] == FrameCommand::UploadCamera,
        frame_order()[run] == FrameCommand::RunCompute,
        frame_order()[draw] == FrameCommand::DrawFrame,
    ensures
        upload < run < draw,
{
}

} // verus!
