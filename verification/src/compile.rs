//! Compiling a preview: from a source path to the path of the artifact, or
//! to a failure that says what went wrong.
//!
//! Running a compiler takes seconds and happens outside the library, so a
//! compilation is a session. The session says what the host has to do next;
//! the host does it and reports what happened; the session then says what
//! follows, until it finishes with the artifact's path or with a failure.

use crate::backend::{
    artifact_extension, fixed_base_name, invalid_path, layout_of, no_parent_message, plan_layout,
    texts, Backend, Layout, LayoutView,
};
use crate::diagnostics::{decode_lossy, utf8_lossy_text};
use crate::failure::{io_failure, Failure, FailureKind, FailureView};
use crate::paths::{file_stem_of, join, parent_of, path_file_stem, path_join, path_parent};
use vstd::prelude::*;

verus! {

/// A request to compile the document at `source_path`.
#[derive(Debug, PartialEq, Eq)]
pub struct CompileRequest {
    pub source_path: String,
}

/// What a back end made of a document: the artifact, or the text that names
/// the failure. Never both.
#[derive(Debug, PartialEq, Eq)]
pub enum CompileResult {
    Success { output_path: String },
    Failure { diagnostic: String },
}

/// A `CompileResult` as a mathematical value.
pub enum CompileResultView {
    Success { output_path: Seq<char> },
    Failure { diagnostic: Seq<char> },
}

impl View for CompileResult {
    type V = CompileResultView;

    open spec fn view(&self) -> CompileResultView {
        match self {
            CompileResult::Success { output_path } => CompileResultView::Success {
                output_path: output_path@,
            },
            CompileResult::Failure { diagnostic } => CompileResultView::Failure {
                diagnostic: diagnostic@,
            },
        }
    }
}

/// The point at which a process could not be run.
#[derive(Clone, Copy, PartialEq, Eq, Debug, Structural)]
pub enum LaunchStage {
    /// The command could not be put together.
    Create,
    /// The command was put together and could not be executed.
    Execute,
}

/// What a session is waiting for.
#[derive(Clone, Copy, PartialEq, Eq, Debug, Structural)]
pub enum Stage {
    /// For the compiler process to exit.
    AwaitingProcess,
    /// For the text of the source document.
    AwaitingSource,
    /// For the compilation routine to return.
    AwaitingLibrary,
    /// For the artifact to be written.
    AwaitingWrite,
    /// For nothing: the session has given its outcome.
    Finished,
}

/// What the host reports to a session.
#[derive(Debug, PartialEq, Eq)]
pub enum BackendEvent {
    /// The compiler process could not be run.
    LaunchFailed { stage: LaunchStage, reason: String },
    /// The compiler process exited; `success` says whether its status was
    /// zero, and the two streams hold all that it wrote.
    ProcessExited { success: bool, stdout: Vec<u8>, stderr: Vec<u8> },
    /// The source document was read.
    SourceRead { text: String },
    /// The source document could not be read.
    SourceUnreadable { reason: String },
    /// The compilation routine returned the artifact.
    LibrarySucceeded { artifact: Vec<u8>, stdout: Vec<u8>, stderr: Vec<u8> },
    /// The compilation routine raised a failure.
    LibraryFailed { description: String, stdout: Vec<u8>, stderr: Vec<u8> },
    /// The artifact was written.
    ArtifactWritten,
    /// The artifact could not be written.
    ArtifactNotWritten { reason: String },
}

/// A `BackendEvent` as a mathematical value.
pub enum EventView {
    LaunchFailed { stage: LaunchStage, reason: Seq<char> },
    ProcessExited { success: bool, stdout: Seq<u8>, stderr: Seq<u8> },
    SourceRead { text: Seq<char> },
    SourceUnreadable { reason: Seq<char> },
    LibrarySucceeded { artifact: Seq<u8>, stdout: Seq<u8>, stderr: Seq<u8> },
    LibraryFailed { description: Seq<char>, stdout: Seq<u8>, stderr: Seq<u8> },
    ArtifactWritten,
    ArtifactNotWritten { reason: Seq<char> },
}

impl View for BackendEvent {
    type V = EventView;

    open spec fn view(&self) -> EventView {
        match self {
            BackendEvent::LaunchFailed { stage, reason } => EventView::LaunchFailed {
                stage: *stage,
                reason: reason@,
            },
            BackendEvent::ProcessExited { success, stdout, stderr } => EventView::ProcessExited {
                success: *success,
                stdout: stdout@,
                stderr: stderr@,
            },
            BackendEvent::SourceRead { text } => EventView::SourceRead { text: text@ },
            BackendEvent::SourceUnreadable { reason } => EventView::SourceUnreadable {
                reason: reason@,
            },
            BackendEvent::LibrarySucceeded { artifact, stdout, stderr } => {
                EventView::LibrarySucceeded {
                    artifact: artifact@,
                    stdout: stdout@,
                    stderr: stderr@,
                }
            },
            BackendEvent::LibraryFailed { description, stdout, stderr } => {
                EventView::LibraryFailed {
                    description: description@,
                    stdout: stdout@,
                    stderr: stderr@,
                }
            },
            BackendEvent::ArtifactWritten => EventView::ArtifactWritten,
            BackendEvent::ArtifactNotWritten { reason } => EventView::ArtifactNotWritten {
                reason: reason@,
            },
        }
    }
}

/// What a session asks of the host.
#[derive(Debug, PartialEq, Eq)]
pub enum CompileAction {
    /// Run `program` with `args`, wait for it, and capture both streams.
    RunProcess { program: String, args: Vec<String> },
    /// Read the document at `path` as text.
    ReadSource { path: String },
    /// Hand `source_text` to the compilation routine.
    CompileText { source_text: String },
    /// Write `bytes` to `path`.
    WriteArtifact { path: String, bytes: Vec<u8> },
    /// Nothing more: the compilation ended with `outcome`.
    Finish { outcome: Result<String, Failure> },
}

/// A `CompileAction` as a mathematical value.
pub enum ActionView {
    RunProcess { program: Seq<char>, args: Seq<Seq<char>> },
    ReadSource { path: Seq<char> },
    CompileText { source_text: Seq<char> },
    WriteArtifact { path: Seq<char>, bytes: Seq<u8> },
    Finish { outcome: Result<Seq<char>, FailureView> },
}

/// An outcome as a mathematical value.
pub open spec fn outcome_view(outcome: Result<String, Failure>) -> Result<Seq<char>, FailureView> {
    match outcome {
        Ok(path) => Ok(path@),
        Err(f) => Err(f@),
    }
}

impl View for CompileAction {
    type V = ActionView;

    open spec fn view(&self) -> ActionView {
        match self {
            CompileAction::RunProcess { program, args } => ActionView::RunProcess {
                program: program@,
                args: texts(args@),
            },
            CompileAction::ReadSource { path } => ActionView::ReadSource { path: path@ },
            CompileAction::CompileText { source_text } => ActionView::CompileText {
                source_text: source_text@,
            },
            CompileAction::WriteArtifact { path, bytes } => ActionView::WriteArtifact {
                path: path@,
                bytes: bytes@,
            },
            CompileAction::Finish { outcome } => ActionView::Finish {
                outcome: outcome_view(*outcome),
            },
        }
    }
}

/// One compilation under way.
#[derive(Debug, PartialEq, Eq)]
pub struct CompileSession {
    /// The back end that compiles.
    pub backend: Backend,
    /// The document that is compiled.
    pub source_path: String,
    /// The directory that the artifact goes to.
    pub output_dir: String,
    /// The path of the artifact.
    pub output_path: String,
    /// What the session is waiting for.
    pub stage: Stage,
    /// What the back end wrote to standard output, once it has run.
    pub stdout_log: String,
    /// What the back end wrote to standard error, once it has run.
    pub stderr_log: String,
}

/// A `CompileSession` as a mathematical value.
pub struct SessionView {
    pub backend: Backend,
    pub source_path: Seq<char>,
    pub output_dir: Seq<char>,
    pub output_path: Seq<char>,
    pub stage: Stage,
    pub stdout_log: Seq<char>,
    pub stderr_log: Seq<char>,
}

impl View for CompileSession {
    type V = SessionView;

    open spec fn view(&self) -> SessionView {
        SessionView {
            backend: self.backend,
            source_path: self.source_path@,
            output_dir: self.output_dir@,
            output_path: self.output_path@,
            stage: self.stage,
            stdout_log: self.stdout_log@,
            stderr_log: self.stderr_log@,
        }
    }
}

impl SessionView {
    /// The stage fits the back end: only a process back end waits for a
    /// process, and only the embedded routine waits for the source text, for
    /// the routine or for the artifact to be written.
    pub open spec fn well_formed(self) -> bool {
        match self.stage {
            Stage::AwaitingProcess => self.backend.runs_process(),
            Stage::AwaitingSource | Stage::AwaitingLibrary | Stage::AwaitingWrite => {
                !self.backend.runs_process()
            },
            Stage::Finished => true,
        }
    }
}

/// What every message about a failed compilation begins with.
pub open spec fn failure_prefix() -> Seq<char> {
    "Compilation failed:\n"@
}

/// What is said of an event that the session was not waiting for.
pub open spec fn out_of_order_message() -> Seq<char> {
    "Compilation failed:\nthe compiler back end reported an event out of order"@
}

/// What a message about a process that could not be run begins with.
pub open spec fn launch_prefix(backend: Backend, stage: LaunchStage) -> Seq<char> {
    match (backend, stage) {
        (Backend::SystemBinary, LaunchStage::Create) => "Failed to create compiler command: "@,
        (Backend::SystemBinary, LaunchStage::Execute) => "Failed to execute compiler: "@,
        (_, LaunchStage::Create) => "Failed to create sidecar command: "@,
        (_, LaunchStage::Execute) => "Failed to execute Tectonic: "@,
    }
}

/// A failure of the compilation, with its message.
pub open spec fn compile_failure(message: Seq<char>) -> FailureView {
    FailureView { kind: FailureKind::CompileFailure, message }
}

/// What the caller gets for a back end's result: the artifact's path, or one
/// message that wraps the back end's diagnostic.
pub open spec fn outcome_of(result: CompileResultView) -> Result<Seq<char>, FailureView> {
    match result {
        CompileResultView::Success { output_path } => Ok(output_path),
        CompileResultView::Failure { diagnostic } => Err(
            compile_failure(failure_prefix() + diagnostic),
        ),
    }
}

/// What a process back end made of the document, judged by how its process
/// exited: success is an exit status of zero and nothing else.
pub open spec fn exit_result(
    backend: Backend,
    output_path: Seq<char>,
    success: bool,
    stdout: Seq<u8>,
    stderr: Seq<u8>,
) -> CompileResultView {
    if success {
        CompileResultView::Success { output_path }
    } else {
        CompileResultView::Failure { diagnostic: backend.diagnostic(stdout, stderr) }
    }
}

/// The session at its end, with its outcome.
pub open spec fn finish(s: SessionView, outcome: Result<Seq<char>, FailureView>) -> (
    SessionView,
    ActionView,
) {
    (SessionView { stage: Stage::Finished, ..s }, ActionView::Finish { outcome })
}

/// The session with the text of what the back end wrote.
pub open spec fn with_logs(s: SessionView, stdout: Seq<u8>, stderr: Seq<u8>) -> SessionView {
    SessionView { stdout_log: utf8_lossy_text(stdout), stderr_log: utf8_lossy_text(stderr), ..s }
}

/// The session that compiles `source_path` into `output_path`, and what it
/// asks for first: a process back end has its program run, the embedded
/// routine needs the source text.
pub open spec fn open_session(
    backend: Backend,
    source_path: Seq<char>,
    layout: LayoutView,
    output_path: Seq<char>,
) -> (SessionView, ActionView) {
    let session = SessionView {
        backend,
        source_path,
        output_dir: layout.output_dir,
        output_path,
        stage: if backend.runs_process() {
            Stage::AwaitingProcess
        } else {
            Stage::AwaitingSource
        },
        stdout_log: Seq::empty(),
        stderr_log: Seq::empty(),
    };
    if backend.runs_process() {
        (
            session,
            ActionView::RunProcess {
                program: backend.program(),
                args: backend.arguments(layout.output_dir, source_path),
            },
        )
    } else {
        (session, ActionView::ReadSource { path: source_path })
    }
}

/// How a compilation of `source_path` begins: with a failure where no output
/// path can be derived, else with a session whose artifact lies in the
/// source's parent directory under the back end's file name.
pub open spec fn begin_model(backend: Backend, source_path: Seq<char>) -> Result<
    (SessionView, ActionView),
    FailureView,
> {
    match layout_of(backend, path_parent(source_path), path_file_stem(source_path)) {
        Err(f) => Err(f),
        Ok(l) => Ok(
            open_session(backend, source_path, l, path_join(l.output_dir, l.file_name)),
        ),
    }
}

/// What a session does with an event: the session afterwards, and what it
/// asks of the host. An event that the session was not waiting for ends it
/// in failure.
pub open spec fn step(s: SessionView, e: EventView) -> (SessionView, ActionView) {
    match (s.stage, e) {
        (Stage::AwaitingProcess, EventView::LaunchFailed { stage, reason }) => finish(
            s,
            Err(compile_failure(launch_prefix(s.backend, stage) + reason)),
        ),
        (Stage::AwaitingProcess, EventView::ProcessExited { success, stdout, stderr }) => finish(
            with_logs(s, stdout, stderr),
            outcome_of(exit_result(s.backend, s.output_path, success, stdout, stderr)),
        ),
        (Stage::AwaitingSource, EventView::SourceRead { text }) => (
            SessionView { stage: Stage::AwaitingLibrary, ..s },
            ActionView::CompileText { source_text: text },
        ),
        (Stage::AwaitingSource, EventView::SourceUnreadable { reason }) => finish(
            s,
            Err(io_failure(reason)),
        ),
        (Stage::AwaitingLibrary, EventView::LibrarySucceeded { artifact, stdout, stderr }) => (
            SessionView { stage: Stage::AwaitingWrite, ..with_logs(s, stdout, stderr) },
            ActionView::WriteArtifact { path: s.output_path, bytes: artifact },
        ),
        (Stage::AwaitingLibrary, EventView::LibraryFailed { description, stdout, stderr }) => {
            finish(
                with_logs(s, stdout, stderr),
                outcome_of(CompileResultView::Failure { diagnostic: description }),
            )
        },
        (Stage::AwaitingWrite, EventView::ArtifactWritten) => finish(s, Ok(s.output_path)),
        (Stage::AwaitingWrite, EventView::ArtifactNotWritten { reason }) => finish(
            s,
            Err(io_failure(reason)),
        ),
        _ => finish(s, Err(compile_failure(out_of_order_message()))),
    }
}

impl CompileResult {
    /// Turns a back end's result into what the caller gets: the artifact's
    /// path, or a failure whose one message wraps the diagnostic.
    pub fn into_outcome(self) -> (outcome: Result<String, Failure>)
        ensures
            outcome_view(outcome) == outcome_of(self@),
    {
        match self {
            CompileResult::Success { output_path } => Ok(output_path),
            CompileResult::Failure { diagnostic } => {
                let message = "Compilation failed:\n".to_owned().concat(diagnostic.as_str());
                Err(Failure::new(FailureKind::CompileFailure, message))
            },
        }
    }
}

/// Judges a process back end by how its process exited.
pub fn judge_exit(
    backend: Backend,
    output_path: String,
    success: bool,
    stdout: &[u8],
    stderr: &[u8],
) -> (result: CompileResult)
    ensures
        result@ == exit_result(backend, output_path@, success, stdout@, stderr@),
{
    if success {
        CompileResult::Success { output_path }
    } else {
        CompileResult::Failure { diagnostic: backend.failure_text(stdout, stderr) }
    }
}

/// The words that a message about a process that could not be run begins
/// with.
pub fn launch_failure_prefix(backend: Backend, stage: LaunchStage) -> (prefix: String)
    ensures
        prefix@ == launch_prefix(backend, stage),
{
    match backend {
        Backend::SystemBinary => match stage {
            LaunchStage::Create => "Failed to create compiler command: ".to_owned(),
            LaunchStage::Execute => "Failed to execute compiler: ".to_owned(),
        },
        _ => match stage {
            LaunchStage::Create => "Failed to create sidecar command: ".to_owned(),
            LaunchStage::Execute => "Failed to execute Tectonic: ".to_owned(),
        },
    }
}

impl CompileSession {
    /// Begins the compilation of the requested document with `backend`.
    ///
    /// The source path must have a parent directory, and a file name where
    /// the back end names the artifact after it; else nothing is started and
    /// the failure says which is missing.
    pub fn begin(backend: Backend, request: CompileRequest) -> (r: Result<
        (CompileSession, CompileAction),
        Failure,
    >)
        ensures
            match begin_model(backend, request.source_path@) {
                Ok(started) => r matches Ok(pair) && (pair.0@, pair.1@) == started,
                Err(f) => r matches Err(e) && e@ == f,
            },
            request.source_path@.len() == 0 ==> (r matches Err(e) && e@ == invalid_path(
                no_parent_message(),
            )),
    {
        let parent = parent_of(request.source_path.as_str());
        let stem = file_stem_of(request.source_path.as_str());
        match plan_layout(backend, parent, stem) {
            Err(e) => Err(e),
            Ok(layout) => {
                let output_path = join(layout.output_dir.as_str(), layout.file_name.as_str());
                Ok(CompileSession::open(backend, request.source_path, layout, output_path))
            },
        }
    }

    /// Opens the session that compiles `source_path` into `output_path`, and
    /// says what it asks for first.
    pub fn open(backend: Backend, source_path: String, layout: Layout, output_path: String) -> (r: (
        CompileSession,
        CompileAction,
    ))
        ensures
            (r.0@, r.1@) == open_session(backend, source_path@, layout@, output_path@),
    {
        if backend.is_process() {
            let action = CompileAction::RunProcess {
                program: backend.program_name(),
                args: backend.argument_list(layout.output_dir.as_str(), source_path.as_str()),
            };
            let session = CompileSession {
                backend,
                source_path,
                output_dir: layout.output_dir,
                output_path,
                stage: Stage::AwaitingProcess,
                stdout_log: String::new(),
                stderr_log: String::new(),
            };
            (session, action)
        } else {
            let action = CompileAction::ReadSource { path: source_path.clone() };
            let session = CompileSession {
                backend,
                source_path,
                output_dir: layout.output_dir,
                output_path,
                stage: Stage::AwaitingSource,
                stdout_log: String::new(),
                stderr_log: String::new(),
            };
            (session, action)
        }
    }

    /// Ends the session with `outcome`.
    fn finish_with(self, outcome: Result<String, Failure>) -> (r: (CompileSession, CompileAction))
        ensures
            (r.0@, r.1@) == finish(self@, outcome_view(outcome)),
    {
        let mut session = self;
        session.stage = Stage::Finished;
        (session, CompileAction::Finish { outcome })
    }

    /// Ends the session because of an event that it was not waiting for.
    fn reject(self) -> (r: (CompileSession, CompileAction))
        ensures
            (r.0@, r.1@) == finish(self@, Err(compile_failure(out_of_order_message()))),
    {
        let message =
            "Compilation failed:\nthe compiler back end reported an event out of order".to_owned();
        self.finish_with(Err(Failure::new(FailureKind::CompileFailure, message)))
    }

    /// Keeps the text of what the back end wrote on its two streams.
    fn keep_logs(self, stdout: &[u8], stderr: &[u8]) -> (session: CompileSession)
        ensures
            session@ == with_logs(self@, stdout@, stderr@),
    {
        let mut session = self;
        session.stdout_log = decode_lossy(stdout);
        session.stderr_log = decode_lossy(stderr);
        session
    }

    /// Takes what the host reports and says what follows.
    ///
    /// A process that could not be run, or that exited without success, ends
    /// the session in failure; one that exited with success ends it with the
    /// artifact's path. The embedded routine is given the source text, and
    /// its artifact is then written to the output path. What the back end
    /// wrote on its streams is kept in the session, on success too.
    pub fn advance(self, event: BackendEvent) -> (r: (CompileSession, CompileAction))
        ensures
            (r.0@, r.1@) == step(self@, event@),
    {
        match self.stage {
            Stage::AwaitingProcess => match event {
                BackendEvent::LaunchFailed { stage, reason } => {
                    let message = launch_failure_prefix(self.backend, stage).concat(
                        reason.as_str(),
                    );
                    self.finish_with(Err(Failure::new(FailureKind::CompileFailure, message)))
                },
                BackendEvent::ProcessExited { success, stdout, stderr } => {
                    let result = judge_exit(
                        self.backend,
                        self.output_path.clone(),
                        success,
                        stdout.as_slice(),
                        stderr.as_slice(),
                    );
                    let session = self.keep_logs(stdout.as_slice(), stderr.as_slice());
                    session.finish_with(result.into_outcome())
                },
                _ => self.reject(),
            },
            Stage::AwaitingSource => match event {
                BackendEvent::SourceRead { text } => {
                    let mut session = self;
                    session.stage = Stage::AwaitingLibrary;
                    (session, CompileAction::CompileText { source_text: text })
                },
                BackendEvent::SourceUnreadable { reason } => self.finish_with(
                    Err(Failure::io(reason)),
                ),
                _ => self.reject(),
            },
            Stage::AwaitingLibrary => match event {
                BackendEvent::LibrarySucceeded { artifact, stdout, stderr } => {
                    let mut session = self.keep_logs(stdout.as_slice(), stderr.as_slice());
                    session.stage = Stage::AwaitingWrite;
                    let path = session.output_path.clone();
                    (session, CompileAction::WriteArtifact { path, bytes: artifact })
                },
                BackendEvent::LibraryFailed { description, stdout, stderr } => {
                    let session = self.keep_logs(stdout.as_slice(), stderr.as_slice());
                    let result = CompileResult::Failure { diagnostic: description };
                    session.finish_with(result.into_outcome())
                },
                _ => self.reject(),
            },
            Stage::AwaitingWrite => match event {
                BackendEvent::ArtifactWritten => {
                    let path = self.output_path.clone();
                    self.finish_with(Ok(path))
                },
                BackendEvent::ArtifactNotWritten { reason } => self.finish_with(
                    Err(Failure::io(reason)),
                ),
                _ => self.reject(),
            },
            Stage::Finished => self.reject(),
        }
    }
}

/// How many events a session in `stage` can still take before it is
/// finished.
pub open spec fn steps_left(stage: Stage) -> nat {
    match stage {
        Stage::AwaitingSource => 3,
        Stage::AwaitingLibrary => 2,
        Stage::AwaitingWrite => 1,
        Stage::AwaitingProcess => 1,
        Stage::Finished => 0,
    }
}

/// The session after a run of events.
pub open spec fn run(s: SessionView, events: Seq<EventView>) -> SessionView
    decreases events.len(),
{
    if events.len() == 0 {
        s
    } else {
        run(step(s, events[0]).0, events.drop_first())
    }
}

/// A compilation is refused exactly where no output path can be derived: the
/// source path has no parent directory, or the back end names the artifact
/// after the source and the path has no file name. The failure is then an
/// invalid path, and the missing parent is reported before the missing name.
pub proof fn law_begin_refuses_underivable_paths(backend: Backend, source_path: Seq<char>)
    ensures
        begin_model(backend, source_path) is Err <==> (path_parent(source_path) is None || (
            backend.names_artifact_after_source() && path_file_stem(source_path) is None)),
        begin_model(backend, source_path) matches Err(f) ==> f.kind == FailureKind::InvalidPath
            && (f.message == no_parent_message() <== path_parent(source_path) is None),
{
}

/// The artifact lies in the source's parent directory. The system compiler
/// names it by the fixed base name, whatever the source is called; the other
/// back ends name it by the source's file stem.
pub proof fn law_artifact_lies_beside_source(backend: Backend, source_path: Seq<char>)
    ensures
        match begin_model(backend, source_path) {
            Err(_) => true,
            Ok(started) => {
                let session = started.0;
                let dir = path_parent(source_path)->Some_0;
                &&& path_parent(source_path) is Some
                &&& session.output_dir == dir
                &&& session.source_path == source_path
                &&& session.backend == backend
                &&& backend == Backend::SystemBinary ==> session.output_path == path_join(
                    dir,
                    fixed_base_name() + artifact_extension(),
                )
                &&& backend != Backend::SystemBinary ==> path_file_stem(source_path) is Some
                    && session.output_path == path_join(
                    dir,
                    path_file_stem(source_path)->Some_0 + artifact_extension(),
                )
            },
        },
{
}

/// Every session that is begun is well formed, and no event makes a well
/// formed session ill formed.
pub proof fn law_sessions_stay_well_formed(
    backend: Backend,
    source_path: Seq<char>,
    layout: LayoutView,
    output_path: Seq<char>,
    s: SessionView,
    e: EventView,
)
    ensures
        open_session(backend, source_path, layout, output_path).0.well_formed(),
        s.well_formed() ==> step(s, e).0.well_formed(),
{
}

/// A session keeps what it was begun with: the back end, the source and the
/// place of the artifact are the same after every event.
pub proof fn law_step_keeps_request(s: SessionView, e: EventView)
    ensures
        step(s, e).0.backend == s.backend,
        step(s, e).0.source_path == s.source_path,
        step(s, e).0.output_dir == s.output_dir,
        step(s, e).0.output_path == s.output_path,
{
}

/// Every event brings a session nearer to its end, and a finished session
/// stays finished.
pub proof fn law_step_makes_progress(s: SessionView, e: EventView)
    ensures
        s.stage != Stage::Finished ==> steps_left(step(s, e).0.stage) < steps_left(s.stage),
        s.stage == Stage::Finished ==> step(s, e).0.stage == Stage::Finished,
{
}

/// A session gives its outcome exactly when it finishes: there is no state
/// in which it has neither an outcome nor something to ask of the host.
pub proof fn law_outcome_exactly_at_the_end(s: SessionView, e: EventView)
    ensures
        step(s, e).1 is Finish <==> step(s, e).0.stage == Stage::Finished,
{
}

/// A session that succeeds names the output path that it was begun with,
/// and only an exit with success or a written artifact makes it succeed.
pub proof fn law_success_names_the_artifact(s: SessionView, e: EventView)
    requires
        step(s, e).1 matches ActionView::Finish { outcome } && outcome is Ok,
    ensures
        step(s, e).1->Finish_outcome == Ok::<Seq<char>, FailureView>(s.output_path),
        (s.stage == Stage::AwaitingProcess && e is ProcessExited && e->ProcessExited_success) || (
        s.stage == Stage::AwaitingWrite && e is ArtifactWritten),
{
}

/// A failed compilation always says something: the message of a compile
/// failure is never empty, whatever the back end left on its streams.
pub proof fn law_compile_failure_is_never_silent(s: SessionView, e: EventView)
    requires
        step(s, e).1 matches ActionView::Finish { outcome } && outcome matches Err(f) && f.kind
            == FailureKind::CompileFailure,
    ensures
        step(s, e).1->Finish_outcome->Err_0.message.len() > 0,
{
    reveal_strlit("Compilation failed:\n");
    reveal_strlit("Compilation failed:\nthe compiler back end reported an event out of order");
    reveal_strlit("Failed to create compiler command: ");
    reveal_strlit("Failed to execute compiler: ");
    reveal_strlit("Failed to create sidecar command: ");
    reveal_strlit("Failed to execute Tectonic: ");
}

/// A process that exits without success fails the compilation with the
/// back end's diagnostic behind the common prefix, and one that exits with
/// success never fails it.
pub proof fn law_exit_status_decides(
    s: SessionView,
    success: bool,
    stdout: Seq<u8>,
    stderr: Seq<u8>,
)
    requires
        s.stage == Stage::AwaitingProcess,
    ensures
        ({
            let after = step(s, EventView::ProcessExited { success, stdout, stderr });
            &&& success ==> after.1 == ActionView::Finish { outcome: Ok(s.output_path) }
            &&& !success ==> after.1 == ActionView::Finish {
                outcome: Err(
                    compile_failure(failure_prefix() + s.backend.diagnostic(stdout, stderr)),
                ),
            }
            &&& after.0.stdout_log == utf8_lossy_text(stdout)
            &&& after.0.stderr_log == utf8_lossy_text(stderr)
        }),
{
}

/// No session goes on for ever: after as many events as its stage leaves
/// room for, three at most, it is finished.
pub proof fn law_session_ends(s: SessionView, events: Seq<EventView>)
    requires
        events.len() >= steps_left(s.stage),
    ensures
        run(s, events).stage == Stage::Finished,
    decreases events.len(),
{
    if events.len() > 0 {
        law_step_makes_progress(s, events[0]);
        law_session_ends(step(s, events[0]).0, events.drop_first());
    }
}

} // verus!
