//! One run of the watched file, as a state machine: the caller performs each
//! step (inspect an image, ask, pull, probe, spawn) and reports what came of
//! it; the machine decides what comes next.
use vstd::prelude::*;
use crate::docker::{
    container_run_spec, plan_container_run, resolve_image, resolve_image_spec, ContainerRun,
    ContainerRunView, DockerImage, ImageRefView,
};
use crate::file_type::{
    candidates_spec, default_image_spec, host_command_spec, is_compiled_spec, FileType,
};
use crate::local::{
    artifact_for, artifact_for_path, artifact_invocation, artifact_run_spec, build_invocation,
    build_spec, env_pairs, interpret_invocation, interpret_spec, override_invocation,
    override_spec, parse_env, Invocation, InvocationView,
};
use crate::path::stem_of;

verus! {

/// What one run is asked to do.
pub struct ExecutionRequest {
    pub file_type: FileType,
    pub path: String,
    /// A command that replaces the runtime's own.
    pub command: Option<String>,
    /// An image that replaces the runtime's default.
    pub image: Option<DockerImage>,
    /// `KEY=VALUE` entries added to the environment of host processes.
    pub env: Vec<String>,
    pub no_docker: bool,
    /// The user's shell, which runs shell scripts.
    pub shell: Option<String>,
}

/// A request as the contracts see it.
pub struct RequestView {
    pub file_type: FileType,
    pub path: Seq<char>,
    pub command: Option<Seq<char>>,
    pub image: Option<ImageRefView>,
    pub env: Seq<Seq<char>>,
    pub no_docker: bool,
    pub shell: Option<Seq<char>>,
}

impl View for ExecutionRequest {
    type V = RequestView;

    open spec fn view(&self) -> RequestView {
        RequestView {
            file_type: self.file_type,
            path: self.path@,
            command: self.command.deep_view(),
            image: match self.image {
                Some(i) => Some(i@),
                None => None,
            },
            env: self.env.deep_view(),
            no_docker: self.no_docker,
            shell: self.shell.deep_view(),
        }
    }
}

/// The timings of a finished run, and the image it ran in, if any.
pub struct ExecutionOutcome {
    pub build_nanos: u64,
    pub run_nanos: u64,
    pub image: Option<String>,
}

/// An outcome as the contracts see it.
pub struct OutcomeView {
    pub build_nanos: u64,
    pub run_nanos: u64,
    pub image: Option<Seq<char>>,
}

impl View for ExecutionOutcome {
    type V = OutcomeView;

    open spec fn view(&self) -> OutcomeView {
        OutcomeView {
            build_nanos: self.build_nanos,
            run_nanos: self.run_nanos,
            image: self.image.deep_view(),
        }
    }
}

/// Why a run failed.
#[derive(Debug)]
pub enum RunError {
    /// The runtime cannot run this file, on the host or in a container.
    Unsupported(FileType),
    /// None of the runtime's executables could be started; names the command.
    RuntimeNotFound(String),
    /// An environment entry without `=`.
    InvalidEnv(String),
    /// The user's command holds no word.
    EmptyCommand,
    /// The path names no file, so no artifact can be named after it.
    InvalidPath,
    /// Pulling the image failed; carries the engine's diagnostics.
    PullFailed { image: String, diagnostics: String },
    /// The caller reported something that the current step did not ask for.
    UnexpectedEvent,
}

/// A run error as the contracts see it.
pub enum RunErrorView {
    Unsupported(FileType),
    RuntimeNotFound(Seq<char>),
    InvalidEnv(Seq<char>),
    EmptyCommand,
    InvalidPath,
    PullFailed { image: Seq<char>, diagnostics: Seq<char> },
    UnexpectedEvent,
}

impl View for RunError {
    type V = RunErrorView;

    open spec fn view(&self) -> RunErrorView {
        match self {
            RunError::Unsupported(ft) => RunErrorView::Unsupported(*ft),
            RunError::RuntimeNotFound(c) => RunErrorView::RuntimeNotFound(c@),
            RunError::InvalidEnv(e) => RunErrorView::InvalidEnv(e@),
            RunError::EmptyCommand => RunErrorView::EmptyCommand,
            RunError::InvalidPath => RunErrorView::InvalidPath,
            RunError::PullFailed { image, diagnostics } => RunErrorView::PullFailed {
                image: image@,
                diagnostics: diagnostics@,
            },
            RunError::UnexpectedEvent => RunErrorView::UnexpectedEvent,
        }
    }
}

impl RunError {
    /// Whether the watch session ends on this error, rather than only the
    /// current run: a failed pull and a missing runtime leave it watching.
    pub fn ends_session(&self) -> (r: bool)
        ensures
            r == !(self is PullFailed || self is RuntimeNotFound),
    {
        !matches!(self, RunError::PullFailed { .. } | RunError::RuntimeNotFound(_))
    }
}

/// Where a run stands.
#[derive(Debug, Clone, Copy, PartialEq, Eq, Structural)]
pub enum Stage {
    /// Nothing done yet.
    Ready,
    /// Waiting to learn whether the image is on this machine.
    Inspecting,
    /// Waiting for the user to allow pulling the image.
    Confirming,
    /// Waiting for the pull to end.
    Pulling,
    /// Waiting for the container to exit.
    InContainer,
    /// Waiting for the probe of the candidate executable at this index.
    Probing(usize),
    /// Waiting for the build to exit.
    Building,
    /// Waiting for the program to exit; holds the build time.
    Running(u64),
    /// The run is over.
    Done,
}

/// What the caller reports.
pub enum Event {
    /// Start the run.
    Begin,
    /// Whether the image is present on this machine.
    Presence(bool),
    /// Whether the user allows the pull.
    Confirmation(bool),
    /// How the pull ended, with the engine's error output.
    PullOutcome { success: bool, diagnostics: String },
    /// Whether the probed executable started.
    ProbeOutcome(bool),
    /// The spawned process exited after this many nanoseconds.
    Exited(u64),
}

/// An event as the contracts see it.
pub enum EventView {
    Begin,
    Presence(bool),
    Confirmation(bool),
    PullOutcome { success: bool, diagnostics: Seq<char> },
    ProbeOutcome(bool),
    Exited(u64),
}

impl View for Event {
    type V = EventView;

    open spec fn view(&self) -> EventView {
        match self {
            Event::Begin => EventView::Begin,
            Event::Presence(p) => EventView::Presence(*p),
            Event::Confirmation(c) => EventView::Confirmation(*c),
            Event::PullOutcome { success, diagnostics } => EventView::PullOutcome {
                success: *success,
                diagnostics: diagnostics@,
            },
            Event::ProbeOutcome(ok) => EventView::ProbeOutcome(*ok),
            Event::Exited(n) => EventView::Exited(*n),
        }
    }
}

/// What the caller is to do next.
pub enum Step {
    /// Ask the container engine whether this image is present.
    Inspect(String),
    /// Ask the user whether to pull this missing image.
    AskToPull(String),
    /// Pull this image.
    Pull(String),
    /// Run this container, timed, and report its exit.
    RunContainer(ContainerRun),
    /// Try to start this executable and report whether it started.
    Probe(String),
    /// Start this process, wait for it, and report its exit with its time.
    Spawn(Invocation),
    /// The run is over with this outcome.
    Finish(ExecutionOutcome),
    /// The run is abandoned; nothing to report.
    Skip,
    /// The run failed.
    Fail(RunError),
}

/// A step as the contracts see it.
pub enum StepView {
    Inspect(Seq<char>),
    AskToPull(Seq<char>),
    Pull(Seq<char>),
    RunContainer(ContainerRunView),
    Probe(Seq<char>),
    Spawn(InvocationView),
    Finish(OutcomeView),
    Skip,
    Fail(RunErrorView),
}

impl View for Step {
    type V = StepView;

    open spec fn view(&self) -> StepView {
        match self {
            Step::Inspect(i) => StepView::Inspect(i@),
            Step::AskToPull(i) => StepView::AskToPull(i@),
            Step::Pull(i) => StepView::Pull(i@),
            Step::RunContainer(r) => StepView::RunContainer(r@),
            Step::Probe(c) => StepView::Probe(c@),
            Step::Spawn(inv) => StepView::Spawn(inv@),
            Step::Finish(o) => StepView::Finish(o@),
            Step::Skip => StepView::Skip,
            Step::Fail(e) => StepView::Fail(e@),
        }
    }
}

/// Whether the run goes to a container: containers are not disabled and the
/// runtime has a default image.
pub open spec fn containerized(q: RequestView) -> bool {
    !q.no_docker && default_image_spec(q.file_type) is Some
}

/// The environment variables of host processes; empty if an entry is malformed.
pub open spec fn env_of(q: RequestView) -> Seq<(Seq<char>, Seq<char>)> {
    match env_pairs(q.env) {
        Ok(v) => v,
        Err(_) => seq![],
    }
}

/// The answer to an event that the current stage did not wait for.
pub open spec fn unexpected() -> (Stage, StepView) {
    (Stage::Done, StepView::Fail(RunErrorView::UnexpectedEvent))
}

/// Probe the candidate at index `i`, or fail once none is left.
pub open spec fn probe_from(q: RequestView, i: int) -> (Stage, StepView) {
    let c = candidates_spec(q.file_type, q.shell);
    if 0 <= i < c.len() {
        (Stage::Probing(i as usize), StepView::Probe(c[i]))
    } else {
        (
            Stage::Done,
            StepView::Fail(RunErrorView::RuntimeNotFound(host_command_spec(q.file_type, q.shell))),
        )
    }
}

/// The first phase on the host once `program` is known to start.
pub open spec fn first_phase(q: RequestView, program: Seq<char>) -> (Stage, StepView) {
    if is_compiled_spec(q.file_type) {
        match artifact_for_path(q.path) {
            Some(a) => (Stage::Building, StepView::Spawn(build_spec(program, q.path, a, env_of(q)))),
            None => (Stage::Done, StepView::Fail(RunErrorView::InvalidPath)),
        }
    } else {
        (Stage::Running(0), StepView::Spawn(interpret_spec(q.file_type, program, q.path, env_of(q))))
    }
}

/// How a run starts.
pub open spec fn begin_spec(q: RequestView) -> (Stage, StepView) {
    if q.file_type is Unsupported {
        (Stage::Done, StepView::Fail(RunErrorView::Unsupported(q.file_type)))
    } else {
        match env_pairs(q.env) {
            Err(e) => (Stage::Done, StepView::Fail(RunErrorView::InvalidEnv(e))),
            Ok(env) => if containerized(q) {
                match resolve_image_spec(q.file_type, q.image) {
                    Some(img) => (Stage::Inspecting, StepView::Inspect(img.reference())),
                    None => unexpected(),
                }
            } else {
                match q.command {
                    Some(c) => match override_spec(c, q.path, env) {
                        Some(inv) => (Stage::Running(0), StepView::Spawn(inv)),
                        None => (Stage::Done, StepView::Fail(RunErrorView::EmptyCommand)),
                    },
                    None => probe_from(q, 0),
                }
            },
        }
    }
}

/// Run the container in image `img`, or fail when the runtime cannot.
pub open spec fn container_step(q: RequestView, img: ImageRefView) -> (Stage, StepView) {
    match container_run_spec(q.file_type, q.path, q.command, img) {
        Some(run) => (Stage::InContainer, StepView::RunContainer(run)),
        None => (Stage::Done, StepView::Fail(RunErrorView::Unsupported(q.file_type))),
    }
}

/// The next stage and step of a run of `q` at `stage` on event `ev`.
pub open spec fn transition(q: RequestView, stage: Stage, ev: EventView) -> (Stage, StepView) {
    let image = resolve_image_spec(q.file_type, q.image);
    match stage {
        Stage::Ready => match ev {
            EventView::Begin => begin_spec(q),
            _ => unexpected(),
        },
        Stage::Inspecting => match (ev, image) {
            (EventView::Presence(present), Some(img)) => if present {
                container_step(q, img)
            } else {
                (Stage::Confirming, StepView::AskToPull(img.reference()))
            },
            _ => unexpected(),
        },
        Stage::Confirming => match (ev, image) {
            (EventView::Confirmation(yes), Some(img)) => if yes {
                (Stage::Pulling, StepView::Pull(img.reference()))
            } else {
                (Stage::Done, StepView::Skip)
            },
            _ => unexpected(),
        },
        Stage::Pulling => match (ev, image) {
            (EventView::PullOutcome { success, diagnostics }, Some(img)) => if success {
                container_step(q, img)
            } else {
                (
                    Stage::Done,
                    StepView::Fail(
                        RunErrorView::PullFailed { image: img.reference(), diagnostics },
                    ),
                )
            },
            _ => unexpected(),
        },
        Stage::InContainer => match (ev, image) {
            (EventView::Exited(n), Some(img)) => (
                Stage::Done,
                StepView::Finish(
                    OutcomeView { build_nanos: 0, run_nanos: n, image: Some(img.reference()) },
                ),
            ),
            _ => unexpected(),
        },
        Stage::Probing(i) => match ev {
            EventView::ProbeOutcome(started) => {
                let c = candidates_spec(q.file_type, q.shell);
                if i >= c.len() {
                    unexpected()
                } else if started {
                    first_phase(q, c[i as int])
                } else {
                    probe_from(q, i + 1)
                }
            },
            _ => unexpected(),
        },
        Stage::Building => match ev {
            EventView::Exited(b) => match artifact_for_path(q.path) {
                Some(a) => (Stage::Running(b), StepView::Spawn(artifact_run_spec(a, env_of(q)))),
                None => (Stage::Done, StepView::Fail(RunErrorView::InvalidPath)),
            },
            _ => unexpected(),
        },
        Stage::Running(b) => match ev {
            EventView::Exited(r) => (
                Stage::Done,
                StepView::Finish(OutcomeView { build_nanos: b, run_nanos: r, image: None }),
            ),
            _ => unexpected(),
        },
        Stage::Done => unexpected(),
    }
}

/// An unsupported runtime fails at once with a resolution error, whatever
/// else the request holds: the first step is that failure, after which the
/// run only fails, so nothing is ever spawned; and no container run can be
/// assembled for it, with any image or command.
pub proof fn lemma_unsupported_fails_fast(
    q: RequestView,
    command: Option<Seq<char>>,
    img: ImageRefView,
)
    requires
        q.file_type == FileType::Unsupported,
    ensures
        transition(q, Stage::Ready, EventView::Begin) == (
            Stage::Done,
            StepView::Fail(RunErrorView::Unsupported(FileType::Unsupported)),
        ),
        forall|ev: EventView| #[trigger] transition(q, Stage::Done, ev) == unexpected(),
        container_run_spec(FileType::Unsupported, q.path, command, img) is None,
        !containerized(q),
{
}

/// An explicit image always wins over the runtime's default, also when the
/// runtime has one: it is the image inspected, pulled and run.
pub proof fn lemma_image_override_wins(q: RequestView, o: ImageRefView)
    requires
        q.image == Some(o),
    ensures
        resolve_image_spec(q.file_type, q.image) == Some(o),
        containerized(q) && env_pairs(q.env) is Ok ==> transition(
            q,
            Stage::Ready,
            EventView::Begin,
        ) == (Stage::Inspecting, StepView::Inspect(o.reference())),
        transition(q, Stage::Inspecting, EventView::Presence(false)) == (
            Stage::Confirming,
            StepView::AskToPull(o.reference()),
        ),
        transition(q, Stage::Confirming, EventView::Confirmation(true)) == (
            Stage::Pulling,
            StepView::Pull(o.reference()),
        ),
        forall|n: u64|
            #![auto]
            transition(q, Stage::InContainer, EventView::Exited(n)) == (
                Stage::Done,
                StepView::Finish(
                    OutcomeView { build_nanos: 0, run_nanos: n, image: Some(o.reference()) },
                ),
            ),
{
}

/// A compiled runtime runs in two timed phases: once its compiler is found,
/// the build writes the artifact named after the source's stem, the artifact
/// then runs with no arguments, and the outcome reports the build time and
/// the run time apart.
pub proof fn lemma_compiled_runs_in_two_phases(q: RequestView, i: usize, b: u64, r: u64)
    requires
        is_compiled_spec(q.file_type),
        i < candidates_spec(q.file_type, q.shell).len(),
        artifact_for_path(q.path) is Some,
    ensures
        transition(q, Stage::Probing(i), EventView::ProbeOutcome(true)) == (
            Stage::Building,
            StepView::Spawn(
                build_spec(
                    candidates_spec(q.file_type, q.shell)[i as int],
                    q.path,
                    artifact_for_path(q.path)->0,
                    env_of(q),
                ),
            ),
        ),
        transition(q, Stage::Building, EventView::Exited(b)) == (
            Stage::Running(b),
            StepView::Spawn(artifact_run_spec(artifact_for_path(q.path)->0, env_of(q))),
        ),
        transition(q, Stage::Running(b), EventView::Exited(r)) == (
            Stage::Done,
            StepView::Finish(OutcomeView { build_nanos: b, run_nanos: r, image: None }),
        ),
{
}

/// The artifact of a build depends on the source's stem alone.
pub proof fn lemma_artifact_follows_stem(p1: Seq<char>, p2: Seq<char>)
    requires
        stem_of(p1) == stem_of(p2),
    ensures
        artifact_for_path(p1) == artifact_for_path(p2),
{
}

/// The view of an optional owned string, borrowed.
pub fn opt_str(o: &Option<String>) -> (r: Option<&str>)
    ensures
        match r {
            Some(s) => o.deep_view() == Some(s@),
            None => o is None,
        },
{
    match o {
        Some(s) => Some(s.as_str()),
        None => None,
    }
}

/// One run of the watched file, from its request to its outcome.
pub struct Orchestrator {
    request: ExecutionRequest,
    stage: Stage,
}

/// A run as the contracts see it: its request and its stage.
pub struct OrchestratorView {
    pub request: RequestView,
    pub stage: Stage,
}

impl View for Orchestrator {
    type V = OrchestratorView;

    closed spec fn view(&self) -> OrchestratorView {
        OrchestratorView { request: self.request@, stage: self.stage }
    }
}

impl Orchestrator {
    /// A run of `request` that has not started.
    pub fn new(request: ExecutionRequest) -> (r: Self)
        ensures
            r@.request == request@,
            r@.stage == Stage::Ready,
    {
        Orchestrator { request, stage: Stage::Ready }
    }

    /// Where the run stands.
    pub fn stage(&self) -> (r: Stage)
        ensures
            r == self@.stage,
    {
        self.stage
    }

    /// Whether the run goes to the host although containers are allowed,
    /// because the runtime has no image; the caller tells the user so.
    pub fn falls_back_to_host(&self) -> (r: bool)
        ensures
            r == (!self@.request.no_docker && default_image_spec(self@.request.file_type) is None),
    {
        !self.request.no_docker && !self.request.file_type.has_docker_image()
    }

    fn shell(&self) -> (r: Option<&str>)
        ensures
            match r {
                Some(s) => self@.request.shell == Some(s@),
                None => self@.request.shell is None,
            },
    {
        opt_str(&self.request.shell)
    }

    fn env(&self) -> (r: Vec<(String, String)>)
        ensures
            r.deep_view() == env_of(self@.request),
    {
        match parse_env(&self.request.env) {
            Ok(v) => v,
            Err(_) => {
                let v: Vec<(String, String)> = Vec::new();
                assert(v.deep_view() =~= seq![]);
                v
            },
        }
    }

    fn image(&self) -> (r: Option<DockerImage>)
        ensures
            match r {
                Some(i) => resolve_image_spec(self@.request.file_type, self@.request.image) == Some(
                    i@,
                ),
                None => resolve_image_spec(self@.request.file_type, self@.request.image) is None,
            },
    {
        let given = match &self.request.image {
            Some(i) => Some(i),
            None => None,
        };
        match resolve_image(self.request.file_type, given) {
            Ok(i) => Some(i),
            Err(_) => None,
        }
    }

    fn probe_from(&self, i: usize) -> (r: (Stage, Step))
        ensures
            (r.0, r.1@) == probe_from(self@.request, i as int),
    {
        let ft = self.request.file_type;
        let c = ft.probe_candidates(self.shell());
        if i < c.len() {
            let name = c[i].clone();
            assert(c.deep_view()[i as int] == c[i as int]@);
            (Stage::Probing(i), Step::Probe(name))
        } else {
            (Stage::Done, Step::Fail(RunError::RuntimeNotFound(ft.host_command(self.shell()))))
        }
    }

    fn first_phase(&self, program: &str) -> (r: (Stage, Step))
        ensures
            (r.0, r.1@) == first_phase(self@.request, program@),
    {
        let ft = self.request.file_type;
        let path = self.request.path.as_str();
        if ft.is_compiled() {
            match artifact_for(path) {
                Some(a) => (
                    Stage::Building,
                    Step::Spawn(build_invocation(program, path, a.as_str(), self.env())),
                ),
                None => (Stage::Done, Step::Fail(RunError::InvalidPath)),
            }
        } else {
            (Stage::Running(0), Step::Spawn(interpret_invocation(ft, program, path, self.env())))
        }
    }

    fn container_step(&self, img: &DockerImage) -> (r: (Stage, Step))
        ensures
            (r.0, r.1@) == container_step(self@.request, img@),
    {
        let ft = self.request.file_type;
        let command = opt_str(&self.request.command);
        match plan_container_run(ft, self.request.path.as_str(), command, img, true) {
            Ok(run) => (Stage::InContainer, Step::RunContainer(run)),
            Err(_) => (Stage::Done, Step::Fail(RunError::Unsupported(ft))),
        }
    }

    fn begin(&self) -> (r: (Stage, Step))
        ensures
            (r.0, r.1@) == begin_spec(self@.request),
    {
        let ft = self.request.file_type;
        if matches!(ft, FileType::Unsupported) {
            return (Stage::Done, Step::Fail(RunError::Unsupported(ft)));
        }
        let env = match parse_env(&self.request.env) {
            Ok(v) => v,
            Err(e) => return (Stage::Done, Step::Fail(RunError::InvalidEnv(e))),
        };
        if !self.request.no_docker && ft.has_docker_image() {
            return match self.image() {
                Some(img) => (Stage::Inspecting, Step::Inspect(img.get_image())),
                None => (Stage::Done, Step::Fail(RunError::UnexpectedEvent)),
            };
        }
        match &self.request.command {
            Some(c) => match override_invocation(c.as_str(), self.request.path.as_str(), env) {
                Some(inv) => (Stage::Running(0), Step::Spawn(inv)),
                None => (Stage::Done, Step::Fail(RunError::EmptyCommand)),
            },
            None => self.probe_from(0),
        }
    }

    fn decide(&self, ev: Event) -> (r: (Stage, Step))
        ensures
            (r.0, r.1@) == transition(self@.request, self@.stage, ev@),
    {
        let unexpected = (Stage::Done, Step::Fail(RunError::UnexpectedEvent));
        match self.stage {
            Stage::Ready => match ev {
                Event::Begin => self.begin(),
                _ => unexpected,
            },
            Stage::Inspecting => match (ev, self.image()) {
                (Event::Presence(present), Some(img)) => {
                    if present {
                        self.container_step(&img)
                    } else {
                        (Stage::Confirming, Step::AskToPull(img.get_image()))
                    }
                },
                _ => unexpected,
            },
            Stage::Confirming => match (ev, self.image()) {
                (Event::Confirmation(yes), Some(img)) => {
                    if yes {
                        (Stage::Pulling, Step::Pull(img.get_image()))
                    } else {
                        (Stage::Done, Step::Skip)
                    }
                },
                _ => unexpected,
            },
            Stage::Pulling => match (ev, self.image()) {
                (Event::PullOutcome { success, diagnostics }, Some(img)) => {
                    if success {
                        self.container_step(&img)
                    } else {
                        (
                            Stage::Done,
                            Step::Fail(RunError::PullFailed { image: img.get_image(), diagnostics }),
                        )
                    }
                },
                _ => unexpected,
            },
            Stage::InContainer => match (ev, self.image()) {
                (Event::Exited(n), Some(img)) => (
                    Stage::Done,
                    Step::Finish(
                        ExecutionOutcome { build_nanos: 0, run_nanos: n, image: Some(img.get_image()) },
                    ),
                ),
                _ => unexpected,
            },
            Stage::Probing(i) => match ev {
                Event::ProbeOutcome(started) => {
                    let c = self.request.file_type.probe_candidates(self.shell());
                    if i >= c.len() {
                        unexpected
                    } else if started {
                        assert(c.deep_view()[i as int] == c[i as int]@);
                        self.first_phase(c[i].as_str())
                    } else {
                        self.probe_from(i + 1)
                    }
                },
                _ => unexpected,
            },
            Stage::Building => match ev {
                Event::Exited(b) => match artifact_for(self.request.path.as_str()) {
                    Some(a) => (Stage::Running(b), Step::Spawn(artifact_invocation(a.as_str(), self.env()))),
                    None => (Stage::Done, Step::Fail(RunError::InvalidPath)),
                },
                _ => unexpected,
            },
            Stage::Running(b) => match ev {
                Event::Exited(r) => (
                    Stage::Done,
                    Step::Finish(ExecutionOutcome { build_nanos: b, run_nanos: r, image: None }),
                ),
                _ => unexpected,
            },
            Stage::Done => unexpected,
        }
    }

    /// Advances the run on `ev` and says what the caller is to do next.
    pub fn step(&mut self, ev: Event) -> (r: Step)
        ensures
            (final(self)@.stage, r@) == transition(old(self)@.request, old(self)@.stage, ev@),
            final(self)@.request == old(self)@.request,
    {
        let (stage, step) = self.decide(ev);
        self.stage = stage;
        step
    }
}

} // verus!
