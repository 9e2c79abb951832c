//! The facade: one supervisor per application, started once and sent to any
//! number of times. Errors come back as the messages that callers show.

use vstd::prelude::*;

use crate::codec::{decodes_to, is_one_line, request_line, ProtocolError, PythonRequest, PythonResponse};
use crate::supervisor::{dispatch_of, report_of, send_refused, state_after, Dispatch, Lifecycle, SendError, Supervisor, WorkerEvent};

verus! {

/// The message of a send to a worker that is not running.
pub open spec fn not_running_message() -> Seq<char> {
    "Python backend not running"@
}

/// The message of a second start.
pub open spec fn already_started_message() -> Seq<char> {
    "Python backend already started"@
}

/// The bridge to one worker process.
pub struct PythonBridge {
    supervisor: Supervisor,
}

impl View for PythonBridge {
    type V = Lifecycle;

    closed spec fn view(&self) -> Lifecycle {
        self.supervisor@
    }
}

impl PythonBridge {
    pub fn new() -> (b: Self)
        ensures
            b@ == Lifecycle::Unstarted,
    {
        PythonBridge { supervisor: Supervisor::new() }
    }

    pub fn state(&self) -> (s: Lifecycle)
        ensures
            s == self@,
    {
        self.supervisor.state()
    }

    /// Marks the worker as running once it has been spawned; only the first
    /// start is accepted.
    pub fn start(&mut self) -> (r: Result<(), String>)
        ensures
            old(self)@ == Lifecycle::Unstarted ==> r is Ok && final(self)@ == Lifecycle::Running,
            old(self)@ != Lifecycle::Unstarted ==> (r matches Err(m)
                && m@ == already_started_message()) && final(self)@ == old(self)@,
    {
        match self.supervisor.start() {
            Ok(()) => Ok(()),
            Err(_) => {
                proof {
                    reveal_strlit("Python backend already started");
                }
                Err(String::from_str("Python backend already started"))
            },
        }
    }

    /// The line to write to the worker's input for `request`, or why it is
    /// not sent.
    pub fn send_command(&self, request: PythonRequest) -> (r: Result<String, String>)
        ensures
            send_refused(self@) ==> (r matches Err(m) && m@ == not_running_message()),
            !send_refused(self@) ==> r is Ok,
            r matches Ok(line) ==> is_one_line(line@),
            r matches Ok(line) ==> exists|p: Seq<char>|
                !p.contains('\n') && line@ == request_line(
                    request.request_id@,
                    request.module@,
                    request.action@,
                    p,
                ),
    {
        match self.supervisor.send(&request) {
            Ok(line) => Ok(line),
            Err(SendError::NotRunning) => {
                proof {
                    reveal_strlit("Python backend not running");
                }
                Err(String::from_str("Python backend not running"))
            },
            Err(SendError::Serialization(e)) => Err(e.detail),
        }
    }

    /// Handles one event from the worker; see `Supervisor::on_output`.
    pub fn handle_output(&mut self, event: WorkerEvent) -> (d: Dispatch)
        ensures
            final(self)@ == state_after(old(self)@, event),
            event matches WorkerEvent::Stdout(line) ==> exists|r: Result<
                Option<PythonResponse>,
                ProtocolError,
            >| decodes_to(line@, r) && d == dispatch_of(r),
            !(event is Stdout) ==> report_of(event) == Some(d->Report_0),
            !(event is Stdout) ==> d is Report,
    {
        self.supervisor.on_output(event)
    }

    /// Terminates the bridge; says whether the worker was running.
    pub fn stop(&mut self) -> (was_running: bool)
        ensures
            final(self)@ == Lifecycle::Terminated,
            was_running == (old(self)@ == Lifecycle::Running),
    {
        self.supervisor.stop()
    }
}

} // verus!
