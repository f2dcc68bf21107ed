use vstd::prelude::*;

verus! {

/// The name under which the native functions are registered for import.
pub const NATIVE_MODULE: &'static str = "robot_api";

/// The directory, relative to the working directory, added to the search path
/// for script-side helper modules.
pub const SCRIPT_SEARCH_PATH: &'static str = "python";

/// The module that is imported before the script body runs.
pub const ENTRY_MODULE: &'static str = "robot";

/// The entry module's zero-argument initialization callback.
pub const INIT_CALLBACK: &'static str = "python_callback";

/// The entry module's one-argument callback, called after initialization.
pub const HANDSHAKE_CALLBACK: &'static str = "take_string";

/// The text handed to the one-argument callback.
pub const HANDSHAKE_TEXT: &'static str = "Rust string sent to python";

/// Severity of a log entry.
#[derive(Clone, Copy, PartialEq, Eq, Structural, Debug)]
pub enum Level {
    Error,
    Info,
}

/// How the script body ended.
#[derive(Clone, Copy, PartialEq, Eq, Structural, Debug)]
pub enum Outcome {
    SyntaxError,
    RuntimeError,
    Success,
}

pub open spec fn outcome_label(outcome: Outcome) -> Seq<char> {
    match outcome {
        Outcome::SyntaxError => "Syntax error"@,
        Outcome::RuntimeError => "Runtime error"@,
        Outcome::Success => "Success"@,
    }
}

pub open spec fn outcome_level(outcome: Outcome) -> Level {
    match outcome {
        Outcome::Success => Level::Info,
        _ => Level::Error,
    }
}

/// A diagnostic for the host's log: the script's path and the interpreter's
/// rendered text (a diagnostic, or the final result on success).
pub struct LogEntry {
    pub outcome: Outcome,
    pub path: String,
    pub detail: String,
}

pub ghost struct EntryModel {
    pub outcome: Outcome,
    pub path: Seq<char>,
    pub detail: Seq<char>,
}

impl LogEntry {
    pub open spec fn view(&self) -> EntryModel {
        EntryModel { outcome: self.outcome, path: self.path@, detail: self.detail@ }
    }

    pub fn level(&self) -> (r: Level)
        ensures
            r == outcome_level(self.outcome),
    {
        match self.outcome {
            Outcome::Success => Level::Info,
            _ => Level::Error,
        }
    }

    /// The words that open the logged line.
    pub fn label(&self) -> (r: &'static str)
        ensures
            r@ == outcome_label(self.outcome),
    {
        match self.outcome {
            Outcome::SyntaxError => "Syntax error",
            Outcome::RuntimeError => "Runtime error",
            Outcome::Success => "Success",
        }
    }
}

/// Where a session stands.
#[derive(Clone, Copy, PartialEq, Eq, Structural, Debug)]
pub enum Stage {
    /// Nothing done yet.
    Start,
    /// Importing the entry module.
    Importing,
    /// Calling the entry module's initialization callback.
    Initializing,
    /// Calling the entry module's one-argument callback with the host's text.
    Handshaking,
    /// Compiling the script's source.
    Compiling,
    /// Executing the compiled script body.
    Running,
    /// The script body was compiled and run, or failed; the outcome was reported.
    Finished,
    /// The entry contract was broken; the process must stop.
    Aborted,
}

/// The result of the last directive, as the host observed it: the rendered
/// result on success, the rendered diagnostic on failure.
pub enum Event {
    Succeeded(String),
    Failed(String),
}

pub ghost enum EventModel {
    Succeeded(Seq<char>),
    Failed(Seq<char>),
}

impl Event {
    pub open spec fn view(&self) -> EventModel {
        match self {
            Event::Succeeded(s) => EventModel::Succeeded(s@),
            Event::Failed(s) => EventModel::Failed(s@),
        }
    }
}

/// What the host must do next on the session's behalf.
pub enum Directive {
    /// Import the entry module.
    ImportEntry,
    /// Call the entry module's zero-argument initialization callback.
    CallInit,
    /// Call the entry module's one-argument callback with the handshake text.
    CallHandshake,
    /// Compile the script's source, labelled with its path.
    Compile,
    /// Execute the compiled program in a scope with the builtins.
    Execute,
    /// Log this entry at its level; the session is over.
    Report(LogEntry),
    /// Stop the process with this diagnostic.
    Abort(String),
    /// Nothing more to do.
    Idle,
}

pub ghost enum DirectiveModel {
    ImportEntry,
    CallInit,
    CallHandshake,
    Compile,
    Execute,
    Report(EntryModel),
    Abort(Seq<char>),
    Idle,
}

impl Directive {
    pub open spec fn view(&self) -> DirectiveModel {
        match self {
            Directive::ImportEntry => DirectiveModel::ImportEntry,
            Directive::CallInit => DirectiveModel::CallInit,
            Directive::CallHandshake => DirectiveModel::CallHandshake,
            Directive::Compile => DirectiveModel::Compile,
            Directive::Execute => DirectiveModel::Execute,
            Directive::Report(e) => DirectiveModel::Report(e@),
            Directive::Abort(d) => DirectiveModel::Abort(d@),
            Directive::Idle => DirectiveModel::Idle,
        }
    }
}

/// The session's transition: from a stage and the outcome of the last
/// directive, the next stage and the next directive. The first transition,
/// from `Start`, ignores its event.
pub open spec fn next(path: Seq<char>, stage: Stage, event: EventModel) -> (Stage, DirectiveModel) {
    match stage {
        Stage::Start => (Stage::Importing, DirectiveModel::ImportEntry),
        Stage::Importing => match event {
            EventModel::Succeeded(_) => (Stage::Initializing, DirectiveModel::CallInit),
            EventModel::Failed(d) => (Stage::Aborted, DirectiveModel::Abort(d)),
        },
        Stage::Initializing => match event {
            EventModel::Succeeded(_) => (Stage::Handshaking, DirectiveModel::CallHandshake),
            EventModel::Failed(d) => (Stage::Aborted, DirectiveModel::Abort(d)),
        },
        Stage::Handshaking => match event {
            EventModel::Succeeded(_) => (Stage::Compiling, DirectiveModel::Compile),
            EventModel::Failed(d) => (Stage::Aborted, DirectiveModel::Abort(d)),
        },
        Stage::Compiling => match event {
            EventModel::Succeeded(_) => (Stage::Running, DirectiveModel::Execute),
            EventModel::Failed(d) => (
                Stage::Finished,
                DirectiveModel::Report(
                    EntryModel { outcome: Outcome::SyntaxError, path, detail: d },
                ),
            ),
        },
        Stage::Running => match event {
            EventModel::Succeeded(r) => (
                Stage::Finished,
                DirectiveModel::Report(EntryModel { outcome: Outcome::Success, path, detail: r }),
            ),
            EventModel::Failed(d) => (
                Stage::Finished,
                DirectiveModel::Report(
                    EntryModel { outcome: Outcome::RuntimeError, path, detail: d },
                ),
            ),
        },
        Stage::Finished => (Stage::Finished, DirectiveModel::Idle),
        Stage::Aborted => (Stage::Aborted, DirectiveModel::Idle),
    }
}

/// The directives a session issues from `stage` as it is fed `events`.
pub open spec fn trace(path: Seq<char>, stage: Stage, events: Seq<EventModel>) -> Seq<
    DirectiveModel,
>
    decreases events.len(),
{
    if events.len() == 0 {
        Seq::empty()
    } else {
        let (s, d) = next(path, stage, events[0]);
        seq![d] + trace(path, s, events.drop_first())
    }
}

/// One run of one script: the decisions of the interpreter session, apart
/// from the interpreter itself, which the host drives.
pub struct Session {
    path: String,
    stage: Stage,
}

impl Session {
    pub closed spec fn path(&self) -> Seq<char> {
        self.path@
    }

    pub closed spec fn stage(&self) -> Stage {
        self.stage
    }

    pub fn new(path: String) -> (r: Session)
        ensures
            r.path() == path@,
            r.stage() == Stage::Start,
    {
        Session { path, stage: Stage::Start }
    }

    pub fn current_stage(&self) -> (r: Stage)
        ensures
            r == self.stage(),
    {
        self.stage
    }

    pub fn script_path(&self) -> (r: &str)
        ensures
            r@ == self.path(),
    {
        self.path.as_str()
    }

    /// Takes the first step: the host is to import the entry module.
    pub fn begin(&mut self) -> (r: Directive)
        ensures
            final(self).path() == old(self).path(),
            (final(self).stage(), r@) == next(
                old(self).path(),
                old(self).stage(),
                EventModel::Succeeded(Seq::empty()),
            ),
    {
        self.advance(Event::Succeeded(String::new()))
    }

    /// Takes the outcome of the last directive and decides the next one.
    pub fn advance(&mut self, event: Event) -> (r: Directive)
        ensures
            final(self).path() == old(self).path(),
            (final(self).stage(), r@) == next(old(self).path(), old(self).stage(), event@),
    {
        match self.stage {
            Stage::Start => {
                self.stage = Stage::Importing;
                Directive::ImportEntry
            },
            Stage::Importing => match event {
                Event::Succeeded(_) => {
                    self.stage = Stage::Initializing;
                    Directive::CallInit
                },
                Event::Failed(d) => {
                    self.stage = Stage::Aborted;
                    Directive::Abort(d)
                },
            },
            Stage::Initializing => match event {
                Event::Succeeded(_) => {
                    self.stage = Stage::Handshaking;
                    Directive::CallHandshake
                },
                Event::Failed(d) => {
                    self.stage = Stage::Aborted;
                    Directive::Abort(d)
                },
            },
            Stage::Handshaking => match event {
                Event::Succeeded(_) => {
                    self.stage = Stage::Compiling;
                    Directive::Compile
                },
                Event::Failed(d) => {
                    self.stage = Stage::Aborted;
                    Directive::Abort(d)
                },
            },
            Stage::Compiling => match event {
                Event::Succeeded(_) => {
                    self.stage = Stage::Running;
                    Directive::Execute
                },
                Event::Failed(d) => {
                    self.stage = Stage::Finished;
                    Directive::Report(
                        LogEntry { outcome: Outcome::SyntaxError, path: self.path.clone(), detail: d },
                    )
                },
            },
            Stage::Running => {
                self.stage = Stage::Finished;
                match event {
                    Event::Succeeded(r) => Directive::Report(
                        LogEntry { outcome: Outcome::Success, path: self.path.clone(), detail: r },
                    ),
                    Event::Failed(d) => Directive::Report(
                        LogEntry { outcome: Outcome::RuntimeError, path: self.path.clone(), detail: d },
                    ),
                }
            },
            Stage::Finished => Directive::Idle,
            Stage::Aborted => Directive::Idle,
        }
    }
}

pub open spec fn is_quiet(stage: Stage) -> bool {
    stage == Stage::Finished || stage == Stage::Aborted
}

pub open spec fn is_syntax_report(d: DirectiveModel) -> bool {
    d is Report && d->Report_0.outcome == Outcome::SyntaxError
}

pub open spec fn is_error_report(d: DirectiveModel) -> bool {
    d is Report && outcome_level(d->Report_0.outcome) == Level::Error
}

/// A session issues one directive per event.
pub proof fn lemma_trace_len(path: Seq<char>, stage: Stage, events: Seq<EventModel>)
    ensures
        trace(path, stage, events).len() == events.len(),
    decreases events.len(),
{
    if events.len() > 0 {
        lemma_trace_len(path, next(path, stage, events[0]).0, events.drop_first());
    }
}

/// A finished or aborted session does nothing more, whatever it is told.
pub proof fn lemma_quiet_stays_idle(path: Seq<char>, stage: Stage, events: Seq<EventModel>)
    requires
        is_quiet(stage),
    ensures
        forall|i: int|
            0 <= i < events.len() ==> #[trigger] trace(path, stage, events)[i]
                == DirectiveModel::Idle,
    decreases events.len(),
{
    lemma_trace_len(path, stage, events);
    if events.len() > 0 {
        let rest = events.drop_first();
        lemma_quiet_stays_idle(path, stage, rest);
        lemma_trace_len(path, stage, rest);
        assert forall|i: int| 0 <= i < events.len() implies #[trigger] trace(
            path,
            stage,
            events,
        )[i] == DirectiveModel::Idle by {
            if i > 0 {
                assert(trace(path, stage, events)[i] == trace(path, stage, rest)[i - 1]);
            }
        }
    }
}

/// Once the script body runs, the next directive reports how it ended, never
/// as a syntax error, and nothing follows.
pub proof fn lemma_running_reports_then_idles(path: Seq<char>, events: Seq<EventModel>)
    ensures
        events.len() > 0 ==> trace(path, Stage::Running, events)[0] is Report && !is_syntax_report(
            trace(path, Stage::Running, events)[0],
        ),
        forall|k: int|
            1 <= k < events.len() ==> #[trigger] trace(path, Stage::Running, events)[k]
                == DirectiveModel::Idle,
{
    lemma_trace_len(path, Stage::Running, events);
    if events.len() > 0 {
        let rest = events.drop_first();
        lemma_quiet_stays_idle(path, Stage::Finished, rest);
        lemma_trace_len(path, Stage::Finished, rest);
        assert forall|k: int| 1 <= k < events.len() implies #[trigger] trace(
            path,
            Stage::Running,
            events,
        )[k] == DirectiveModel::Idle by {
            assert(trace(path, Stage::Running, events)[k] == trace(path, Stage::Finished, rest)[k
                - 1]);
        }
    }
}

/// A compilation failure is reported exactly once, as an error that names the
/// script's path, and the script body is never executed, so no command is sent.
pub proof fn lemma_compile_failure_reported_once(
    path: Seq<char>,
    stage: Stage,
    events: Seq<EventModel>,
    i: int,
)
    requires
        0 <= i < events.len(),
        is_syntax_report(trace(path, stage, events)[i]),
    ensures
        trace(path, stage, events)[i]->Report_0.path == path,
        is_error_report(trace(path, stage, events)[i]),
        forall|j: int|
            0 <= j < events.len() && j != i ==> !(#[trigger] trace(path, stage, events)[j] is Execute)
                && !is_error_report(trace(path, stage, events)[j]),
    decreases events.len(),
{
    let t = trace(path, stage, events);
    let (s, d) = next(path, stage, events[0]);
    let rest = events.drop_first();
    lemma_trace_len(path, stage, events);
    lemma_trace_len(path, s, rest);
    assert(t[0] == d);
    assert forall|j: int| 1 <= j < events.len() implies #[trigger] t[j] == trace(path, s, rest)[j
        - 1] by {}
    if i == 0 {
        lemma_quiet_stays_idle(path, s, rest);
        assert forall|j: int| 0 <= j < events.len() && j != i implies !(#[trigger] t[j] is Execute)
            && !is_error_report(t[j]) by {
            assert(t[j] == trace(path, s, rest)[j - 1]);
        }
    } else {
        assert(is_syntax_report(trace(path, s, rest)[i - 1]));
        lemma_compile_failure_reported_once(path, s, rest, i - 1);
        if s == Stage::Running {
            lemma_running_reports_then_idles(path, rest);
            if i - 1 > 0 {
                assert(trace(path, s, rest)[i - 1] == DirectiveModel::Idle);
            }
        }
        if is_quiet(s) {
            lemma_quiet_stays_idle(path, s, rest);
        }
        assert forall|j: int| 0 <= j < events.len() && j != i implies !(#[trigger] t[j] is Execute)
            && !is_error_report(t[j]) by {
            if j > 0 {
                assert(t[j] == trace(path, s, rest)[j - 1]);
            }
        }
    }
}

/// When the entry module cannot be imported, or a lifecycle callback fails,
/// the session stops there: the script body is never executed, so no native
/// function is ever called from it, and nothing follows the abort.
pub proof fn lemma_abort_ends_session(path: Seq<char>, stage: Stage, events: Seq<EventModel>, i: int)
    requires
        0 <= i < events.len(),
        trace(path, stage, events)[i] is Abort,
    ensures
        forall|j: int| 0 <= j < events.len() ==> !(#[trigger] trace(path, stage, events)[j] is Execute),
        forall|j: int|
            i < j < events.len() ==> #[trigger] trace(path, stage, events)[j] == DirectiveModel::Idle,
    decreases events.len(),
{
    let t = trace(path, stage, events);
    let (s, d) = next(path, stage, events[0]);
    let rest = events.drop_first();
    lemma_trace_len(path, stage, events);
    lemma_trace_len(path, s, rest);
    assert(t[0] == d);
    assert forall|j: int| 1 <= j < events.len() implies #[trigger] t[j] == trace(path, s, rest)[j
        - 1] by {}
    if i == 0 {
        lemma_quiet_stays_idle(path, s, rest);
        assert forall|j: int| 0 <= j < events.len() implies !(#[trigger] t[j] is Execute) by {
            if j > 0 {
                assert(t[j] == trace(path, s, rest)[j - 1]);
            }
        }
        assert forall|j: int| i < j < events.len() implies #[trigger] t[j] == DirectiveModel::Idle by {
            assert(t[j] == trace(path, s, rest)[j - 1]);
        }
    } else {
        assert(trace(path, s, rest)[i - 1] is Abort);
        lemma_abort_ends_session(path, s, rest, i - 1);
        if s == Stage::Running {
            lemma_running_reports_then_idles(path, rest);
            if i - 1 > 0 {
                assert(trace(path, s, rest)[i - 1] == DirectiveModel::Idle);
            }
        }
        assert forall|j: int| 0 <= j < events.len() implies !(#[trigger] t[j] is Execute) by {
            if j > 0 {
                assert(t[j] == trace(path, s, rest)[j - 1]);
            }
        }
        assert forall|j: int| i < j < events.len() implies #[trigger] t[j] == DirectiveModel::Idle by {
            assert(t[j] == trace(path, s, rest)[j - 1]);
        }
    }
}

} // verus!
