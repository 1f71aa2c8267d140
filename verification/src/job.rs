//! The raw print-job protocol, as a state machine.
//!
//! A job runs strictly sequentially through the spooler protocol:
//! open the device, start a document, start a page, write the payload,
//! then end the page, end the document and close the handle. The machine
//! here decides, after each operating-system call returns, what the next
//! state is and which calls must be performed next; the caller performs
//! the calls and reports their results back as [`JobEvent`] values.
//!
//! The central guarantee is handle hygiene: once the open call succeeds,
//! every path through the machine emits exactly one [`JobAction::CloseHandle`],
//! and none before an acquisition. Cleanup steps (end page, end document,
//! close) are best-effort: their results are not reported back and cannot
//! change a job's outcome.

use vstd::prelude::*;
use crate::OsError;

verus! {

/// The state of one raw print job.
#[derive(Clone, Copy, Debug, PartialEq, Eq, Structural)]
pub enum JobState {
    /// No device handle is held and no job has run yet.
    Closed,
    /// The device handle has been acquired.
    Opened,
    /// A document was started against the handle; `job` is the non-zero
    /// job identifier the spooler returned.
    DocumentStarted { job: u32 },
    /// Start-of-page was signalled for the document `job`.
    PageStarted { job: u32 },
    /// The payload was written and cleanup was requested; `count` is the
    /// number of bytes the operating system reported as written.
    Completed { count: u32 },
    /// A protocol step failed; `error` is the platform error code of the
    /// failing step. Any acquired handle has had its release requested.
    Failed { error: OsError },
}

/// The result of one operating-system call, reported back to the machine.
#[derive(Clone, Copy, Debug, PartialEq, Eq, Structural)]
pub enum JobEvent {
    /// The open call returned; `error` is meaningful only when `ok` is false.
    OpenReturned { ok: bool, error: u32 },
    /// The start-document call returned `job`; zero is the spooler's
    /// "no job" sentinel and means the call failed with code `error`.
    StartDocReturned { job: u32, error: u32 },
    /// The start-page call returned; `error` is meaningful only when `ok` is false.
    StartPageReturned { ok: bool, error: u32 },
    /// The write call returned; on success `written` is the byte count the
    /// operating system reported, on failure `error` is the platform code.
    WriteReturned { ok: bool, written: u32, error: u32 },
}

/// A call the caller must perform next, in the order emitted.
#[derive(Clone, Copy, Debug, PartialEq, Eq, Structural)]
pub enum JobAction {
    /// Start a document (raw datatype, fixed label, no output file).
    StartDocument,
    /// Signal start-of-page.
    StartPage,
    /// Write the whole payload in one call.
    WritePayload,
    /// Best-effort cleanup: signal end-of-page.
    EndPage,
    /// Best-effort cleanup: signal end-of-document.
    EndDocument,
    /// Best-effort cleanup: release the device handle.
    CloseHandle,
}

/// The metadata of one raw print job, created immediately before the
/// document is started and without existence after the job ends.
pub struct JobDescriptor {
    /// The fixed document label under which the job appears in the queue.
    pub doc_name: String,
    /// The datatype tag telling the spooler to pass the payload through
    /// unmodified.
    pub datatype: String,
    /// Where the spooler should redirect output; a raw job has no target.
    pub output_file: Option<String>,
}

/// The one Job Descriptor this protocol ever submits: the fixed label,
/// the raw pass-through datatype, and no output redirection.
pub fn raw_job_descriptor() -> (d: JobDescriptor)
    ensures
        d.doc_name@ == "ZPL-Label"@,
        d.datatype@ == "RAW"@,
        d.output_file is None,
{
    JobDescriptor {
        doc_name: String::from_str("ZPL-Label"),
        datatype: String::from_str("RAW"),
        output_file: None,
    }
}

/// True while the machine holds the device handle: between a successful
/// open and the step that requests its release.
pub open spec fn holds_handle(s: JobState) -> bool {
    match s {
        JobState::Opened => true,
        JobState::DocumentStarted { .. } => true,
        JobState::PageStarted { .. } => true,
        _ => false,
    }
}

/// True once the job has finished, successfully or not.
pub open spec fn is_terminal(s: JobState) -> bool {
    s is Completed || s is Failed
}

/// Which event each state is waiting for. The protocol is strictly
/// sequential: exactly one kind of call is outstanding in each live state,
/// and a terminal state waits for nothing.
pub open spec fn expects(s: JobState, e: JobEvent) -> bool {
    match (s, e) {
        (JobState::Closed, JobEvent::OpenReturned { .. }) => true,
        (JobState::Opened, JobEvent::StartDocReturned { .. }) => true,
        (JobState::DocumentStarted { .. }, JobEvent::StartPageReturned { .. }) => true,
        (JobState::PageStarted { .. }, JobEvent::WriteReturned { .. }) => true,
        _ => false,
    }
}

/// The transition table: next state, and the calls to perform next.
///
/// Failure exits surface the platform error code and request the cleanup
/// owed at that point: nothing before the open succeeded, the close alone
/// when no document was started, and end-of-document (and end-of-page once
/// a page was started) before the close otherwise. Cleanup is deliberately
/// uniform and best-effort on every exit: in particular, a start-page
/// failure still requests end-of-document for the document that was
/// started, rather than skipping it on that one path.
pub open spec fn step_spec(s: JobState, e: JobEvent) -> (JobState, Seq<JobAction>)
    recommends
        expects(s, e),
{
    match (s, e) {
        (JobState::Closed, JobEvent::OpenReturned { ok, error }) => if ok {
            (JobState::Opened, seq![JobAction::StartDocument])
        } else {
            (JobState::Failed { error: OsError { code: error } }, seq![])
        },
        (JobState::Opened, JobEvent::StartDocReturned { job, error }) => if job != 0 {
            (JobState::DocumentStarted { job }, seq![JobAction::StartPage])
        } else {
            (JobState::Failed { error: OsError { code: error } }, seq![JobAction::CloseHandle])
        },
        (JobState::DocumentStarted { job }, JobEvent::StartPageReturned { ok, error }) => if ok {
            (JobState::PageStarted { job }, seq![JobAction::WritePayload])
        } else {
            (
                JobState::Failed { error: OsError { code: error } },
                seq![JobAction::EndDocument, JobAction::CloseHandle],
            )
        },
        (JobState::PageStarted { .. }, JobEvent::WriteReturned { ok, written, error }) => if ok {
            (
                JobState::Completed { count: written },
                seq![JobAction::EndPage, JobAction::EndDocument, JobAction::CloseHandle],
            )
        } else {
            (
                JobState::Failed { error: OsError { code: error } },
                seq![JobAction::EndPage, JobAction::EndDocument, JobAction::CloseHandle],
            )
        },
        _ => (s, seq![]),
    }
}

/// Advance the machine by one reported call result.
///
/// Returns the next state and the calls the caller must now perform, in
/// order. Every action sequence that contains a [`JobAction::CloseHandle`]
/// is emitted exactly at the step where the handle ceases to be held.
pub fn step(s: JobState, e: JobEvent) -> (r: (JobState, Vec<JobAction>))
    requires
        expects(s, e),
    ensures
        r.0 == step_spec(s, e).0,
        r.1@ == step_spec(s, e).1,
{
    match (s, e) {
        (JobState::Closed, JobEvent::OpenReturned { ok, error }) => if ok {
            let acts: Vec<JobAction> = vec![JobAction::StartDocument];
            (JobState::Opened, acts)
        } else {
            let acts: Vec<JobAction> = vec![];
            (JobState::Failed { error: OsError { code: error } }, acts)
        },
        (JobState::Opened, JobEvent::StartDocReturned { job, error }) => if job != 0 {
            let acts: Vec<JobAction> = vec![JobAction::StartPage];
            (JobState::DocumentStarted { job }, acts)
        } else {
            let acts: Vec<JobAction> = vec![JobAction::CloseHandle];
            (JobState::Failed { error: OsError { code: error } }, acts)
        },
        (JobState::DocumentStarted { job }, JobEvent::StartPageReturned { ok, error }) => if ok {
            let acts: Vec<JobAction> = vec![JobAction::WritePayload];
            (JobState::PageStarted { job }, acts)
        } else {
            let acts: Vec<JobAction> = vec![JobAction::EndDocument, JobAction::CloseHandle];
            (JobState::Failed { error: OsError { code: error } }, acts)
        },
        (JobState::PageStarted { job: _ }, JobEvent::WriteReturned { ok, written, error }) => if ok {
            let acts: Vec<JobAction> = vec![
                JobAction::EndPage,
                JobAction::EndDocument,
                JobAction::CloseHandle,
            ];
            (JobState::Completed { count: written }, acts)
        } else {
            let acts: Vec<JobAction> = vec![
                JobAction::EndPage,
                JobAction::EndDocument,
                JobAction::CloseHandle,
            ];
            (JobState::Failed { error: OsError { code: error } }, acts)
        },
        _ => {
            let acts: Vec<JobAction> = vec![];
            (s, acts)
        },
    }
}

/// The outcome the caller reports for a finished job: the written byte
/// count on success, the surfaced platform error otherwise; nothing while
/// the job is still running.
pub fn job_outcome(s: &JobState) -> (r: Option<Result<u32, OsError>>)
    ensures
        r == (match *s {
            JobState::Completed { count } => Some(Ok::<u32, OsError>(count)),
            JobState::Failed { error } => Some(Err::<u32, OsError>(error)),
            _ => None::<Result<u32, OsError>>,
        }),
{
    match *s {
        JobState::Completed { count } => Some(Ok(count)),
        JobState::Failed { error } => Some(Err(error)),
        _ => None,
    }
}

/// True when `events`, delivered in order from state `s`, answer exactly
/// the calls the machine has outstanding at each point.
pub open spec fn valid_script(s: JobState, events: Seq<JobEvent>) -> bool
    decreases events.len(),
{
    events.len() == 0 || (expects(s, events[0]) && valid_script(
        step_spec(s, events[0]).0,
        events.skip(1),
    ))
}

/// The state reached and the full action trace emitted when `events` are
/// delivered in order from state `s`.
pub open spec fn run_spec(s: JobState, events: Seq<JobEvent>) -> (JobState, Seq<JobAction>)
    decreases events.len(),
{
    if events.len() == 0 {
        (s, Seq::<JobAction>::empty())
    } else {
        let first = step_spec(s, events[0]);
        let rest = run_spec(first.0, events.skip(1));
        (rest.0, first.1 + rest.1)
    }
}

/// How many handle releases a trace of actions requests.
pub open spec fn close_count(acts: Seq<JobAction>) -> int
    decreases acts.len(),
{
    if acts.len() == 0 {
        0
    } else {
        (if acts[0] is CloseHandle {
            1int
        } else {
            0int
        }) + close_count(acts.skip(1))
    }
}

/// How many times a run acquires the device handle: the steps that move
/// the machine from a handle-free state into a handle-holding one.
pub open spec fn acquire_count(s: JobState, events: Seq<JobEvent>) -> int
    decreases events.len(),
{
    if events.len() == 0 {
        0
    } else {
        let s1 = step_spec(s, events[0]).0;
        (if !holds_handle(s) && holds_handle(s1) {
            1int
        } else {
            0int
        }) + acquire_count(s1, events.skip(1))
    }
}

proof fn lemma_close_count_concat(a: Seq<JobAction>, b: Seq<JobAction>)
    ensures
        close_count(a + b) == close_count(a) + close_count(b),
    decreases a.len(),
{
    if a.len() == 0 {
        assert(a + b =~= b);
    } else {
        assert((a + b).skip(1) =~= a.skip(1) + b);
        lemma_close_count_concat(a.skip(1), b);
    }
}

/// Each step balances the books: the releases it requests equal the handle
/// it held coming in, plus any acquisition it makes, minus the handle it
/// still holds going out.
proof fn lemma_step_close_accounting(s: JobState, e: JobEvent)
    requires
        expects(s, e),
    ensures
        close_count(step_spec(s, e).1) == (if holds_handle(s) {
            1int
        } else {
            0int
        }) + (if !holds_handle(s) && holds_handle(step_spec(s, e).0) {
            1int
        } else {
            0int
        }) - (if holds_handle(step_spec(s, e).0) {
            1int
        } else {
            0int
        }),
{
    reveal_with_fuel(close_count, 5);
}

/// A step never returns the machine to its initial state.
proof fn lemma_step_not_closed(s: JobState, e: JobEvent)
    requires
        expects(s, e),
    ensures
        !(step_spec(s, e).0 is Closed),
{
}

/// From any state other than the initial one, a run acquires nothing: the
/// open call happens once, at the very beginning, or not at all.
proof fn lemma_no_reacquisition(s: JobState, events: Seq<JobEvent>)
    requires
        valid_script(s, events),
        !(s is Closed),
    ensures
        acquire_count(s, events) == 0,
    decreases events.len(),
{
    if events.len() > 0 {
        let s1 = step_spec(s, events[0]).0;
        lemma_step_not_closed(s, events[0]);
        assert(!holds_handle(s) ==> !holds_handle(s1));
        lemma_no_reacquisition(s1, events.skip(1));
    }
}

/// Over a whole run, releases plus the handle still held equal the handle
/// held at the start plus the acquisitions made along the way.
proof fn lemma_run_close_accounting(s: JobState, events: Seq<JobEvent>)
    requires
        valid_script(s, events),
    ensures
        close_count(run_spec(s, events).1) + (if holds_handle(run_spec(s, events).0) {
            1int
        } else {
            0int
        }) == (if holds_handle(s) {
            1int
        } else {
            0int
        }) + acquire_count(s, events),
    decreases events.len(),
{
    reveal_with_fuel(close_count, 2);
    if events.len() > 0 {
        let first = step_spec(s, events[0]);
        lemma_step_close_accounting(s, events[0]);
        lemma_run_close_accounting(first.0, events.skip(1));
        lemma_close_count_concat(first.1, run_spec(first.0, events.skip(1)).1);
    }
}

/// Law: handle-release totality. Over any complete run of the job state
/// machine — any script of call results that the protocol can produce,
/// from the initial state — the device handle is acquired at most once,
/// and the run requests exactly one release for that acquisition once the
/// handle is no longer held (in particular at every terminal state, so at
/// every failure injection point and on success), and requests no release
/// at all when the open call never succeeded. No double release can occur.
pub proof fn lemma_handle_release_totality(events: Seq<JobEvent>)
    requires
        valid_script(JobState::Closed, events),
    ensures
        0 <= acquire_count(JobState::Closed, events) <= 1,
        close_count(run_spec(JobState::Closed, events).1) == acquire_count(
            JobState::Closed,
            events,
        ) - (if holds_handle(run_spec(JobState::Closed, events).0) {
            1int
        } else {
            0int
        }),
        is_terminal(run_spec(JobState::Closed, events).0) ==> close_count(
            run_spec(JobState::Closed, events).1,
        ) == acquire_count(JobState::Closed, events),
{
    lemma_run_close_accounting(JobState::Closed, events);
    if events.len() > 0 {
        let s1 = step_spec(JobState::Closed, events[0]).0;
        lemma_step_not_closed(JobState::Closed, events[0]);
        lemma_no_reacquisition(s1, events.skip(1));
    }
}

/// Law: byte-count fidelity. A run from the initial state ends in success
/// exactly when its last event is a successful write, and the count the
/// job reports is precisely the written-bytes value the operating system
/// reported in that event — never recomputed, never substituted.
pub proof fn lemma_byte_count_fidelity(events: Seq<JobEvent>)
    requires
        valid_script(JobState::Closed, events),
        run_spec(JobState::Closed, events).0 is Completed,
    ensures
        events.len() > 0,
        (events.last() matches JobEvent::WriteReturned { ok, written, .. } && ok && run_spec(
            JobState::Closed,
            events,
        ).0 == (JobState::Completed { count: written })),
{
    lemma_completion_from_write(JobState::Closed, events);
}

/// A run that reaches success from any non-successful state does so by a
/// final successful write event, whose reported count the final state carries.
proof fn lemma_completion_from_write(s: JobState, events: Seq<JobEvent>)
    requires
        valid_script(s, events),
        !(s is Completed),
        run_spec(s, events).0 is Completed,
    ensures
        events.len() > 0,
        (events.last() matches JobEvent::WriteReturned { ok, written, .. } && ok && run_spec(
            s,
            events,
        ).0 == (JobState::Completed { count: written })),
    decreases events.len(),
{
    let s1 = step_spec(s, events[0]).0;
    if s1 is Completed {
        assert(valid_script(s1, events.skip(1)));
        if events.skip(1).len() > 0 {
            assert(expects(s1, events.skip(1)[0]));
            assert(false);
        }
        assert(events.len() == 1);
        assert(events.last() == events[0]);
        assert(run_spec(s1, events.skip(1)).0 == s1);
    } else {
        lemma_completion_from_write(s1, events.skip(1));
        assert(events.skip(1).last() == events.last());
    }
}

/// Drive a whole job from the initial state through a script of call
/// results, returning the final state and the full trace of requested
/// calls, exactly as [`run_spec`] describes them.
pub fn run_job(events: &Vec<JobEvent>) -> (r: (JobState, Vec<JobAction>))
    requires
        valid_script(JobState::Closed, events@),
    ensures
        r.0 == run_spec(JobState::Closed, events@).0,
        r.1@ == run_spec(JobState::Closed, events@).1,
{
    let mut state = JobState::Closed;
    let mut trace: Vec<JobAction> = Vec::new();
    let mut i: usize = 0;
    proof {
        assert(events@.skip(0) =~= events@);
        assert(trace@ + run_spec(state, events@).1 =~= run_spec(state, events@).1);
    }
    while i < events.len()
        invariant
            0 <= i <= events@.len(),
            valid_script(state, events@.skip(i as int)),
            run_spec(JobState::Closed, events@).0 == run_spec(state, events@.skip(i as int)).0,
            run_spec(JobState::Closed, events@).1 == trace@ + run_spec(
                state,
                events@.skip(i as int),
            ).1,
        decreases events@.len() - i,
    {
        proof {
            assert(events@.skip(i as int)[0] == events@[i as int]);
            assert(events@.skip(i as int).skip(1) =~= events@.skip(i as int + 1));
        }
        let (next, mut acts) = step(state, events[i]);
        let ghost prefix = trace@;
        let ghost emitted = acts@;
        trace.append(&mut acts);
        proof {
            assert(trace@ =~= prefix + emitted);
            assert(prefix + (emitted + run_spec(next, events@.skip(i as int + 1)).1) =~= (prefix
                + emitted) + run_spec(next, events@.skip(i as int + 1)).1);
        }
        state = next;
        i = i + 1;
    }
    proof {
        assert(events@.skip(i as int) =~= Seq::<JobEvent>::empty());
        assert(trace@ + Seq::<JobAction>::empty() =~= trace@);
    }
    (state, trace)
}

} // verus!
