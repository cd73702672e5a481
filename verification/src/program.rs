//! Building GPU programs: the protocol between the host and the device's
//! compiler and linker.
//!
//! The device does the compiling and linking; what to ask of it next, and what
//! its answers mean, is decided here. A build is a small state machine. The
//! shell asks it for the next request, carries the request out, and reports
//! what happened. When the build has finished it yields either a linked
//! program or the reason it failed, and every stage object that was created on
//! the way has been released.

use vstd::prelude::*;

verus! {

/// One stage of a GPU program.
#[derive(Clone, Copy, Debug, PartialEq, Eq, Structural)]
pub enum Stage {
    Vertex,
    Fragment,
    Compute,
}

/// What a program is made of.
#[derive(Clone, Copy, Debug, PartialEq, Eq, Structural)]
pub enum ProgramKind {
    /// A vertex stage and a fragment stage.
    Raster,
    /// A single compute stage.
    Compute,
}

/// The name of `stage` as it appears in diagnostics.
pub open spec fn stage_tag(stage: Stage) -> Seq<char> {
    match stage {
        Stage::Vertex => "Vertex"@,
        Stage::Fragment => "Fragment"@,
        Stage::Compute => "Compute"@,
    }
}

impl Stage {
    /// The name of the stage as it appears in diagnostics.
    pub fn tag(&self) -> (tag: &'static str)
        ensures
            tag@ == stage_tag(*self),
    {
        match self {
            Stage::Vertex => "Vertex",
            Stage::Fragment => "Fragment",
            Stage::Compute => "Compute",
        }
    }
}

impl ProgramKind {
    /// The stages of a program of this kind, in the order they are compiled.
    pub open spec fn stages(self) -> Seq<Stage> {
        match self {
            ProgramKind::Raster => seq![Stage::Vertex, Stage::Fragment],
            ProgramKind::Compute => seq![Stage::Compute],
        }
    }

    /// The stage compiled at position `index`; past the end, the last one.
    pub open spec fn stage(self, index: int) -> Stage {
        if 0 <= index < self.stages().len() {
            self.stages()[index]
        } else {
            self.stages().last()
        }
    }

    /// The number of stages of a program of this kind.
    pub fn stage_count(self) -> (count: usize)
        ensures
            count == self.stages().len(),
    {
        match self {
            ProgramKind::Raster => 2,
            ProgramKind::Compute => 1,
        }
    }

    /// The stage compiled at position `index`; past the end, the last one.
    pub fn stage_at(self, index: usize) -> (stage: Stage)
        ensures
            stage == self.stage(index as int),
    {
        match self {
            ProgramKind::Raster => if index == 0 {
                Stage::Vertex
            } else {
                Stage::Fragment
            },
            ProgramKind::Compute => Stage::Compute,
        }
    }
}

/// What a linked program is: its device handle and its kind.
pub struct ProgramView {
    pub handle: u32,
    pub kind: ProgramKind,
}

/// A compiled and linked program.
///
/// Only a finished build makes one, and releasing it consumes it, so a handle
/// held in a `GPUProgram` is one that was linked and has not been released.
#[derive(Debug, PartialEq, Eq)]
pub struct GPUProgram {
    handle: u32,
    kind: ProgramKind,
}

impl View for GPUProgram {
    type V = ProgramView;

    closed spec fn view(&self) -> ProgramView {
        ProgramView { handle: self.handle, kind: self.kind }
    }
}

impl GPUProgram {
    /// The device's handle of the program.
    pub fn handle(&self) -> (handle: u32)
        ensures
            handle == self@.handle,
    {
        self.handle
    }

    /// Whether this is a raster or a compute program.
    pub fn kind(&self) -> (kind: ProgramKind)
        ensures
            kind == self@.kind,
    {
        self.kind
    }

    /// Gives the program up and returns the handle that the device is to
    /// delete.
    pub fn release(self) -> (handle: u32)
        ensures
            handle == self@.handle,
    {
        self.handle
    }
}

/// Why a build failed, with the device's log as a sequence of characters.
pub enum BuildFailure {
    ShaderCompile { stage: Stage, diagnostic: Seq<char> },
    ProgramLink { diagnostic: Seq<char> },
}

/// Why a build failed.
#[derive(Debug, PartialEq, Eq)]
pub enum BuildError {
    /// A stage did not compile; `diagnostic` is the compiler's log.
    ShaderCompile { stage: Stage, diagnostic: String },
    /// The stages did not link; `diagnostic` is the linker's log.
    ProgramLink { diagnostic: String },
}

impl View for BuildError {
    type V = BuildFailure;

    open spec fn view(&self) -> BuildFailure {
        match *self {
            BuildError::ShaderCompile { stage, diagnostic } => BuildFailure::ShaderCompile {
                stage,
                diagnostic: diagnostic@,
            },
            BuildError::ProgramLink { diagnostic } => BuildFailure::ProgramLink {
                diagnostic: diagnostic@,
            },
        }
    }
}

/// What the device reported, with its log as a sequence of characters.
pub enum DeviceReport {
    Compiled { shader: u32 },
    CompileFailed { shader: u32, diagnostic: Seq<char> },
    Linked { program: u32 },
    LinkFailed { program: u32, diagnostic: Seq<char> },
    Released,
}

/// What the device reported after carrying out a request.
#[derive(Debug, PartialEq, Eq)]
pub enum BuildEvent {
    /// The stage compiled into the stage object `shader`.
    Compiled { shader: u32 },
    /// The stage object `shader` was created but its source did not compile.
    CompileFailed { shader: u32, diagnostic: String },
    /// The stages linked into the program object `program`.
    Linked { program: u32 },
    /// The program object `program` was created but the stages did not link.
    LinkFailed { program: u32, diagnostic: String },
    /// The object named in the last release request is gone.
    Released,
}

impl View for BuildEvent {
    type V = DeviceReport;

    open spec fn view(&self) -> DeviceReport {
        match *self {
            BuildEvent::Compiled { shader } => DeviceReport::Compiled { shader },
            BuildEvent::CompileFailed { shader, diagnostic } => DeviceReport::CompileFailed {
                shader,
                diagnostic: diagnostic@,
            },
            BuildEvent::Linked { program } => DeviceReport::Linked { program },
            BuildEvent::LinkFailed { program, diagnostic } => DeviceReport::LinkFailed {
                program,
                diagnostic: diagnostic@,
            },
            BuildEvent::Released => DeviceReport::Released,
        }
    }
}

/// What the build asks of the device next.
#[derive(Clone, Copy, Debug, PartialEq, Eq, Structural)]
pub enum BuildRequest {
    /// Create a stage object for `stage` and compile its source.
    Compile { stage: Stage },
    /// Create a program object, attach the live stage objects and link.
    Link,
    /// Delete the stage object `shader`.
    ReleaseStage { shader: u32 },
    /// Delete the program object `program`, which did not link.
    ReleaseProgram { program: u32 },
    /// Nothing: the build is over.
    Finished,
}

/// How far a build has come.
#[derive(Clone, Copy, Debug, PartialEq, Eq, Structural)]
pub enum BuildPhase {
    Compiling,
    Linking,
    Releasing,
    Finished,
}

/// The state of a build.
pub struct BuildState {
    pub kind: ProgramKind,
    pub phase: BuildPhase,
    /// The stage objects that exist, oldest first. While compiling there is
    /// one for each stage that has compiled.
    pub live: Seq<u32>,
    /// The program object, once the link has been tried and until it is
    /// released.
    pub program: Option<u32>,
    /// The first failure, if there was one.
    pub failure: Option<BuildFailure>,
}

impl BuildState {
    /// The state a build starts in.
    pub open spec fn start(kind: ProgramKind) -> BuildState {
        BuildState {
            kind,
            phase: BuildPhase::Compiling,
            live: Seq::empty(),
            program: None,
            failure: None,
        }
    }

    /// Whether the build holds a program object that did not link.
    pub open spec fn doomed(self) -> bool {
        self.failure is Some && self.program is Some
    }

    /// Whether an object is still waiting to be released.
    pub open spec fn owes_release(self) -> bool {
        self.live.len() > 0 || self.doomed()
    }

    /// The states that a build started by `start` passes through.
    pub open spec fn wf(self) -> bool {
        match self.phase {
            BuildPhase::Compiling => {
                &&& self.live.len() < self.kind.stages().len()
                &&& self.program is None
                &&& self.failure is None
            },
            BuildPhase::Linking => {
                &&& self.live.len() == self.kind.stages().len()
                &&& self.program is None
                &&& self.failure is None
            },
            BuildPhase::Releasing => {
                &&& self.owes_release()
                &&& self.live.len() <= self.kind.stages().len()
                &&& self.failure is None ==> self.program is Some
            },
            BuildPhase::Finished => {
                &&& self.live.len() == 0
                &&& self.failure is None <==> self.program is Some
            },
        }
    }

    /// The stage that is compiled next.
    pub open spec fn current_stage(self) -> Stage {
        self.kind.stage(self.live.len() as int)
    }

    /// What the build asks of the device in this state.
    ///
    /// While releasing, a program that did not link goes first, then the stage
    /// objects, newest first.
    pub open spec fn request(self) -> BuildRequest {
        match self.phase {
            BuildPhase::Compiling => BuildRequest::Compile { stage: self.current_stage() },
            BuildPhase::Linking => BuildRequest::Link,
            BuildPhase::Releasing => if self.doomed() {
                BuildRequest::ReleaseProgram { program: self.program->0 }
            } else if self.live.len() > 0 {
                BuildRequest::ReleaseStage { shader: self.live.last() }
            } else {
                BuildRequest::Finished
            },
            BuildPhase::Finished => BuildRequest::Finished,
        }
    }

    /// The state with its phase set to `Releasing`, or to `Finished` when
    /// nothing is left to release.
    pub open spec fn settle(self) -> BuildState {
        BuildState {
            phase: if self.owes_release() {
                BuildPhase::Releasing
            } else {
                BuildPhase::Finished
            },
            ..self
        }
    }

    /// The state after the device has reported `report`.
    ///
    /// A report that does not answer the current request changes nothing.
    pub open spec fn after(self, report: DeviceReport) -> BuildState {
        match (self.phase, report) {
            (BuildPhase::Compiling, DeviceReport::Compiled { shader }) => BuildState {
                phase: if self.live.len() + 1 >= self.kind.stages().len() {
                    BuildPhase::Linking
                } else {
                    BuildPhase::Compiling
                },
                live: self.live.push(shader),
                ..self
            },
            (BuildPhase::Compiling, DeviceReport::CompileFailed { shader, diagnostic }) => BuildState {
                live: self.live.push(shader),
                failure: Some(
                    BuildFailure::ShaderCompile { stage: self.current_stage(), diagnostic },
                ),
                ..self
            }.settle(),
            (BuildPhase::Linking, DeviceReport::Linked { program }) => BuildState {
                program: Some(program),
                ..self
            }.settle(),
            (BuildPhase::Linking, DeviceReport::LinkFailed { program, diagnostic }) => BuildState {
                program: Some(program),
                failure: Some(BuildFailure::ProgramLink { diagnostic }),
                ..self
            }.settle(),
            (BuildPhase::Releasing, DeviceReport::Released) => if self.doomed() {
                BuildState { program: None, ..self }.settle()
            } else if self.live.len() > 0 {
                BuildState { live: self.live.drop_last(), ..self }.settle()
            } else {
                self.settle()
            },
            _ => self,
        }
    }

    /// The state after the device has made each of `reports` in turn.
    pub open spec fn after_all(self, reports: Seq<DeviceReport>) -> BuildState
        decreases reports.len(),
    {
        if reports.len() == 0 {
            self
        } else {
            self.after_all(reports.drop_last()).after(reports.last())
        }
    }

    /// An upper bound on the number of answered reports that the build still
    /// needs before it has finished.
    pub open spec fn steps_left(self) -> nat {
        let ahead: nat = match self.phase {
            BuildPhase::Compiling | BuildPhase::Linking => (2 + 2 * (self.kind.stages().len()
                - self.live.len())) as nat,
            _ => 0,
        };
        let doomed: nat = if self.doomed() {
            1
        } else {
            0
        };
        ahead + self.live.len() + doomed
    }

    /// What the build yields: once it has finished, the linked program or the
    /// failure; before that, nothing.
    pub open spec fn outcome(self) -> Option<Result<ProgramView, BuildFailure>> {
        if self.phase != BuildPhase::Finished {
            None
        } else {
            match (self.failure, self.program) {
                (Some(failure), _) => Some(Err(failure)),
                (None, Some(handle)) => Some(Ok(ProgramView { handle, kind: self.kind })),
                (None, None) => None,
            }
        }
    }
}

/// A build in progress.
#[derive(Debug)]
pub struct ProgramBuild {
    kind: ProgramKind,
    phase: BuildPhase,
    live: Vec<u32>,
    program: Option<u32>,
    failure: Option<BuildError>,
}

impl View for ProgramBuild {
    type V = BuildState;

    closed spec fn view(&self) -> BuildState {
        BuildState {
            kind: self.kind,
            phase: self.phase,
            live: self.live@,
            program: self.program,
            failure: match self.failure {
                Some(error) => Some(error@),
                None => None,
            },
        }
    }
}

impl ProgramBuild {
    /// Starts the build of a raster program: a vertex stage, then a fragment
    /// stage.
    pub fn raster() -> (build: ProgramBuild)
        ensures
            build@ == BuildState::start(ProgramKind::Raster),
            build@.wf(),
    {
        ProgramBuild::start(ProgramKind::Raster)
    }

    /// Starts the build of a compute program: a single compute stage.
    pub fn compute() -> (build: ProgramBuild)
        ensures
            build@ == BuildState::start(ProgramKind::Compute),
            build@.wf(),
    {
        ProgramBuild::start(ProgramKind::Compute)
    }

    /// Starts the build of a program of the given kind.
    pub fn start(kind: ProgramKind) -> (build: ProgramBuild)
        ensures
            build@ == BuildState::start(kind),
            build@.wf(),
    {
        ProgramBuild { kind, phase: BuildPhase::Compiling, live: Vec::new(), program: None, failure: None }
    }

    /// The kind of program being built.
    pub fn kind(&self) -> (kind: ProgramKind)
        ensures
            kind == self@.kind,
    {
        self.kind
    }

    /// How far the build has come.
    pub fn phase(&self) -> (phase: BuildPhase)
        ensures
            phase == self@.phase,
    {
        self.phase
    }

    /// The stage objects that exist, oldest first: what a link attaches.
    pub fn live_stages(&self) -> (live: &Vec<u32>)
        ensures
            live@ == self@.live,
    {
        &self.live
    }

    /// What to ask of the device next.
    pub fn request(&self) -> (request: BuildRequest)
        ensures
            request == self@.request(),
    {
        match self.phase {
            BuildPhase::Compiling => BuildRequest::Compile {
                stage: self.kind.stage_at(self.live.len()),
            },
            BuildPhase::Linking => BuildRequest::Link,
            BuildPhase::Releasing => {
                match self.program {
                    Some(program) if self.failure.is_some() => BuildRequest::ReleaseProgram {
                        program,
                    },
                    _ => if self.live.len() > 0 {
                        BuildRequest::ReleaseStage { shader: self.live[self.live.len() - 1] }
                    } else {
                        BuildRequest::Finished
                    },
                }
            },
            BuildPhase::Finished => BuildRequest::Finished,
        }
    }

    /// Sets the phase to `Releasing`, or to `Finished` when nothing is left to
    /// release.
    fn settle(&mut self)
        ensures
            final(self)@ == old(self)@.settle(),
    {
        if self.live.len() > 0 || (self.failure.is_some() && self.program.is_some()) {
            self.phase = BuildPhase::Releasing;
        } else {
            self.phase = BuildPhase::Finished;
        }
    }

    /// Takes in what the device reported and returns what to ask of it next.
    ///
    /// A report that does not answer the current request changes nothing, and
    /// the request is repeated.
    pub fn advance(&mut self, event: BuildEvent) -> (request: BuildRequest)
        ensures
            final(self)@ == old(self)@.after(event@),
            old(self)@.wf() ==> final(self)@.wf(),
            request == final(self)@.request(),
    {
        proof {
            if self@.wf() {
                lemma_step_keeps_wf(self@, event@);
            }
        }
        match self.phase {
            BuildPhase::Compiling => match event {
                BuildEvent::Compiled { shader } => {
                    self.live.push(shader);
                    if self.live.len() >= self.kind.stage_count() {
                        self.phase = BuildPhase::Linking;
                    }
                },
                BuildEvent::CompileFailed { shader, diagnostic } => {
                    let stage = self.kind.stage_at(self.live.len());
                    self.live.push(shader);
                    self.failure = Some(BuildError::ShaderCompile { stage, diagnostic });
                    self.settle();
                },
                _ => {},
            },
            BuildPhase::Linking => match event {
                BuildEvent::Linked { program } => {
                    self.program = Some(program);
                    self.settle();
                },
                BuildEvent::LinkFailed { program, diagnostic } => {
                    self.program = Some(program);
                    self.failure = Some(BuildError::ProgramLink { diagnostic });
                    self.settle();
                },
                _ => {},
            },
            BuildPhase::Releasing => match event {
                BuildEvent::Released => {
                    if self.failure.is_some() && self.program.is_some() {
                        self.program = None;
                    } else if self.live.len() > 0 {
                        self.live.pop();
                    }
                    self.settle();
                },
                _ => {},
            },
            BuildPhase::Finished => {},
        }
        self.request()
    }

    /// Ends the build. A build that has finished yields the linked program or
    /// the reason it failed; one that has not yields nothing.
    pub fn finish(self) -> (outcome: Option<Result<GPUProgram, BuildError>>)
        ensures
            match outcome {
                Some(Ok(program)) => self@.outcome() == Some(
                    Ok::<ProgramView, BuildFailure>(program@),
                ),
                Some(Err(error)) => self@.outcome() == Some(
                    Err::<ProgramView, BuildFailure>(error@),
                ),
                None => self@.outcome() is None,
            },
    {
        match self.phase {
            BuildPhase::Finished => {},
            _ => {
                return None;
            },
        }
        match self.failure {
            Some(error) => Some(Err(error)),
            None => match self.program {
                Some(handle) => Some(Ok(GPUProgram { handle, kind: self.kind })),
                None => None,
            },
        }
    }
}

/// Every report, answered or not, takes a build from one of its states to
/// another.
pub proof fn lemma_step_keeps_wf(state: BuildState, report: DeviceReport)
    requires
        state.wf(),
    ensures
        state.after(report).wf(),
{
}

/// Whatever the device reports, and in whatever order, a build that has
/// finished holds no stage object, and yields a program exactly if nothing
/// failed.
pub proof fn lemma_finished_build_is_clean(kind: ProgramKind, reports: Seq<DeviceReport>)
    ensures
        ({
            let end = BuildState::start(kind).after_all(reports);
            &&& end.wf()
            &&& end.phase == BuildPhase::Finished ==> end.live.len() == 0
            &&& end.phase == BuildPhase::Finished ==> (end.failure is None <==> end.program is Some)
            &&& end.phase == BuildPhase::Finished ==> end.outcome() is Some
            &&& end.phase == BuildPhase::Finished ==> (end.outcome()->0 is Ok <==> end.failure
                is None)
        }),
    decreases reports.len(),
{
    if reports.len() > 0 {
        lemma_finished_build_is_clean(kind, reports.drop_last());
        lemma_step_keeps_wf(
            BuildState::start(kind).after_all(reports.drop_last()),
            reports.last(),
        );
    }
}

/// Stage objects come and go one at a time: a report of a compiled or failed
/// stage adds its object as the newest, and a release that was asked for a
/// stage removes the very object that the request named.
pub proof fn lemma_release_takes_what_was_named(state: BuildState, shader: u32)
    requires
        state.wf(),
    ensures
        state.phase == BuildPhase::Compiling ==> state.after(
            DeviceReport::Compiled { shader },
        ).live == state.live.push(shader),
        state.request() == (BuildRequest::ReleaseStage { shader }) ==> state.live.len() > 0
            && state.live.last() == shader && state.after(DeviceReport::Released).live
            == state.live.drop_last(),
        state.request() is ReleaseProgram ==> state.after(DeviceReport::Released).program is None
            && state.after(DeviceReport::Released).live == state.live,
{
}

/// Once a build has failed, no later report changes the failure: the first
/// one is the one it ends with.
pub proof fn lemma_failure_is_kept(state: BuildState, report: DeviceReport)
    requires
        state.wf(),
        state.failure is Some,
    ensures
        state.after(report).failure == state.failure,
{
}

/// A report that answers the current request brings the build closer to its
/// end, and only a finished build has nothing left to do. A build of `n`
/// stages therefore finishes after at most `2 n + 2` answered reports.
pub proof fn lemma_answered_report_makes_progress(state: BuildState, report: DeviceReport)
    requires
        state.wf(),
    ensures
        state.after(report) != state ==> state.after(report).steps_left() < state.steps_left(),
        state.steps_left() == 0 <==> state.phase == BuildPhase::Finished,
        BuildState::start(state.kind).steps_left() == 2 * state.kind.stages().len() + 2,
{
}

} // verus!
