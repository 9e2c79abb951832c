//! The process supervisor: the worker's lifecycle, the rule that only a
//! running worker is written to, and what each event from the worker becomes.

use vstd::prelude::*;

use crate::codec::{
    decode, decodes_to, encode, is_one_line, fields_at, json_object_of, response_of, trim_of,
    ProtocolError, PythonRequest, PythonResponse, SerializationError,
};

verus! {

/// Where the worker is in its life.
#[derive(PartialEq, Eq, Structural, Clone, Copy, Debug)]
pub enum Lifecycle {
    Unstarted,
    Running,
    Terminated,
}

/// What the worker process handle reports.
pub enum WorkerEvent {
    /// A line on the worker's standard output.
    Stdout(String),
    /// A line on the worker's standard error.
    Stderr(String),
    /// An error from the operating system while spawning or running.
    Error(String),
    /// The process ended, with its exit code and signal where known.
    Terminated { code: Option<i32>, signal: Option<i32> },
}

/// What goes to the diagnostics path.
pub enum Diagnostic {
    Protocol(ProtocolError),
    WorkerLog(String),
    ProcessError(String),
    Terminated { code: Option<i32>, signal: Option<i32> },
}

/// What the read loop does with one event.
pub enum Dispatch {
    /// Hand the response to the event sink.
    Deliver(PythonResponse),
    /// Report on the diagnostics path.
    Report(Diagnostic),
    /// Nothing: the line was blank.
    Nothing,
}

/// Why a request was not sent.
pub enum SendError {
    NotRunning,
    Serialization(SerializationError),
}

/// The supervisor was started before.
#[derive(PartialEq, Eq, Structural, Clone, Copy, Debug)]
pub enum StartError {
    AlreadyStarted,
}

/// The lifecycle state machine of one worker.
pub struct Supervisor {
    state: Lifecycle,
}

impl View for Supervisor {
    type V = Lifecycle;

    closed spec fn view(&self) -> Lifecycle {
        self.state
    }
}

/// The state after the worker reports `e`: an error or the end of the
/// process terminates; output leaves the state as it was.
pub open spec fn state_after(s: Lifecycle, e: WorkerEvent) -> Lifecycle {
    match e {
        WorkerEvent::Error(_) => Lifecycle::Terminated,
        WorkerEvent::Terminated { .. } => Lifecycle::Terminated,
        _ => s,
    }
}

/// The state after the worker reports each of `events` in turn.
pub open spec fn state_after_all(s: Lifecycle, events: Seq<WorkerEvent>) -> Lifecycle
    decreases events.len(),
{
    if events.len() == 0 {
        s
    } else {
        state_after_all(state_after(s, events[0]), events.drop_first())
    }
}

/// Whether a send is refused without touching the worker.
pub open spec fn send_refused(s: Lifecycle) -> bool {
    s != Lifecycle::Running
}

/// What the read loop does with a decoded output line.
pub open spec fn dispatch_of(decoded: Result<Option<PythonResponse>, ProtocolError>) -> Dispatch {
    match decoded {
        Ok(Some(r)) => Dispatch::Deliver(r),
        Ok(None) => Dispatch::Nothing,
        Err(e) => Dispatch::Report(Diagnostic::Protocol(e)),
    }
}

/// What the read loop reports for an event that is not protocol output.
pub open spec fn report_of(e: WorkerEvent) -> Option<Diagnostic> {
    match e {
        WorkerEvent::Stdout(_) => None,
        WorkerEvent::Stderr(t) => Some(Diagnostic::WorkerLog(t)),
        WorkerEvent::Error(m) => Some(Diagnostic::ProcessError(m)),
        WorkerEvent::Terminated { code, signal } => Some(Diagnostic::Terminated { code, signal }),
    }
}

/// Turns a decoded output line into what the read loop does with it.
pub fn dispatch(decoded: Result<Option<PythonResponse>, ProtocolError>) -> (d: Dispatch)
    ensures
        d == dispatch_of(decoded),
{
    match decoded {
        Ok(Some(r)) => Dispatch::Deliver(r),
        Ok(None) => Dispatch::Nothing,
        Err(e) => Dispatch::Report(Diagnostic::Protocol(e)),
    }
}

impl Supervisor {
    pub fn new() -> (s: Self)
        ensures
            s@ == Lifecycle::Unstarted,
    {
        Supervisor { state: Lifecycle::Unstarted }
    }

    pub fn state(&self) -> (s: Lifecycle)
        ensures
            s == self@,
    {
        self.state
    }

    /// Moves an unstarted supervisor to running; a second start is refused.
    pub fn start(&mut self) -> (r: Result<(), StartError>)
        ensures
            old(self)@ == Lifecycle::Unstarted ==> r is Ok && final(self)@ == Lifecycle::Running,
            old(self)@ != Lifecycle::Unstarted ==> r == Err::<(), StartError>(
                StartError::AlreadyStarted,
            ) && final(self)@ == old(self)@,
    {
        match self.state {
            Lifecycle::Unstarted => {
                self.state = Lifecycle::Running;
                Ok(())
            },
            _ => Err(StartError::AlreadyStarted),
        }
    }

    /// The line to write to the worker for `request`. Only a running worker
    /// is written to; the line ends in its only line feed.
    pub fn send(&self, request: &PythonRequest) -> (r: Result<String, SendError>)
        ensures
            send_refused(self@) <==> r matches Err(SendError::NotRunning),
            !send_refused(self@) ==> r is Ok,
            r matches Ok(line) ==> is_one_line(line@),
            r matches Ok(line) ==> exists|p: Seq<char>|
                !p.contains('\n') && line@ == crate::codec::request_line(
                    request.request_id@,
                    request.module@,
                    request.action@,
                    p,
                ),
    {
        if self.state != Lifecycle::Running {
            return Err(SendError::NotRunning);
        }
        match encode(request) {
            Ok(line) => Ok(line),
            Err(e) => Err(SendError::Serialization(e)),
        }
    }

    /// Terminates the supervisor; safe in any state. Says whether the worker
    /// was running, so that its input is to be closed.
    pub fn stop(&mut self) -> (was_running: bool)
        ensures
            final(self)@ == Lifecycle::Terminated,
            was_running == (old(self)@ == Lifecycle::Running),
    {
        let was_running = self.state == Lifecycle::Running;
        self.state = Lifecycle::Terminated;
        was_running
    }

    /// Handles one event from the worker: decodes output lines, reports the
    /// rest, and terminates on an error or the end of the process.
    pub fn on_output(&mut self, event: WorkerEvent) -> (d: Dispatch)
        ensures
            final(self)@ == state_after(old(self)@, event),
            event matches WorkerEvent::Stdout(line) ==> exists|r: Result<
                Option<PythonResponse>,
                ProtocolError,
            >| decodes_to(line@, r) && d == dispatch_of(r),
            !(event is Stdout) ==> report_of(event) == Some(d->Report_0),
            !(event is Stdout) ==> d is Report,
    {
        let ghost e = event;
        match event {
            WorkerEvent::Stdout(line) => dispatch(decode(line.as_str())),
            WorkerEvent::Stderr(t) => Dispatch::Report(Diagnostic::WorkerLog(t)),
            WorkerEvent::Error(m) => {
                self.state = Lifecycle::Terminated;
                Dispatch::Report(Diagnostic::ProcessError(m))
            },
            WorkerEvent::Terminated { code, signal } => {
                self.state = Lifecycle::Terminated;
                Dispatch::Report(Diagnostic::Terminated { code, signal })
            },
        }
    }
}

/// Before `start`, every send is refused as not running, and nothing is
/// written.
pub proof fn lemma_send_before_start()
    ensures
        send_refused(Lifecycle::Unstarted),
{
}

/// Once the worker has ended, the supervisor stays terminated whatever the
/// worker reports later, the end is reported with its exit details, and
/// every later send is refused as not running.
pub proof fn lemma_termination_is_final(
    s: Lifecycle,
    code: Option<i32>,
    signal: Option<i32>,
    later: Seq<WorkerEvent>,
)
    ensures
        state_after(s, WorkerEvent::Terminated { code, signal }) == Lifecycle::Terminated,
        report_of(WorkerEvent::Terminated { code, signal }) == Some(
            Diagnostic::Terminated { code, signal },
        ),
        state_after_all(Lifecycle::Terminated, later) == Lifecycle::Terminated,
        send_refused(state_after_all(Lifecycle::Terminated, later)),
    decreases later.len(),
{
    if later.len() > 0 {
        lemma_termination_is_final(s, code, signal, later.drop_first());
    }
}

/// The read loop goes on past a malformed line: a line that is not blank and
/// is not a well-formed response is reported as a protocol error carrying
/// the trimmed line, nothing is delivered for it and the state stays as it
/// was; a well-formed line after it is delivered as the response it holds.
pub proof fn lemma_malformed_line_keeps_loop(
    s: Lifecycle,
    bad_line: String,
    bad: Result<Option<PythonResponse>, ProtocolError>,
    good_line: String,
    good: Result<Option<PythonResponse>, ProtocolError>,
)
    requires
        trim_of(bad_line@).len() > 0,
        !(json_object_of(trim_of(bad_line@)) == Ok::<bool, Seq<char>>(true) && response_of(
            fields_at(trim_of(bad_line@)),
        ) is Ok),
        decodes_to(bad_line@, bad),
        trim_of(good_line@).len() > 0,
        json_object_of(trim_of(good_line@)) == Ok::<bool, Seq<char>>(true),
        response_of(fields_at(trim_of(good_line@))) is Ok,
        decodes_to(good_line@, good),
    ensures
        dispatch_of(bad) matches Dispatch::Report(diag) && diag matches Diagnostic::Protocol(e)
            && e.line@ == trim_of(bad_line@),
        state_after(s, WorkerEvent::Stdout(bad_line)) == s,
        state_after_all(s, seq![WorkerEvent::Stdout(bad_line), WorkerEvent::Stdout(good_line)]) == s,
        dispatch_of(good) == Dispatch::Deliver(response_of(fields_at(trim_of(good_line@)))->Ok_0),
{
    let evs = seq![WorkerEvent::Stdout(bad_line), WorkerEvent::Stdout(good_line)];
    let rest = evs.drop_first();
    assert(rest =~= seq![WorkerEvent::Stdout(good_line)]);
    assert(rest.drop_first() =~= Seq::<WorkerEvent>::empty());
    assert(state_after_all(s, rest.drop_first()) == s);
    assert(state_after_all(s, rest) == s);
}

} // verus!
