use rawspool::OsError;
use rawspool::job::{step, run_job, job_outcome, JobAction, JobEvent, JobState};
use rawspool::report::success_message;

fn close_handle_count(actions: &[JobAction]) -> usize {
    actions.iter().filter(|a| matches!(a, JobAction::CloseHandle)).count()
}

#[test]
fn full_success_run_reports_written_count() {
    // The round-trip scenario: a raw label payload accepted in full.
    let payload: &[u8] = b"^XA^FO50,50^A0N,50,50^FDTEST^FS^XZ";
    let written = payload.len() as u32;
    let events = vec![
        JobEvent::OpenReturned { ok: true, error: 0 },
        JobEvent::StartDocReturned { job: 3, error: 0 },
        JobEvent::StartPageReturned { ok: true, error: 0 },
        JobEvent::WriteReturned { ok: true, written, error: 0 },
    ];
    let (state, trace) = run_job(&events);
    assert_eq!(state, JobState::Completed { count: written });
    assert_eq!(job_outcome(&state), Some(Ok(written)));
    assert_eq!(
        trace,
        vec![
            JobAction::StartDocument,
            JobAction::StartPage,
            JobAction::WritePayload,
            JobAction::EndPage,
            JobAction::EndDocument,
            JobAction::CloseHandle,
        ]
    );
    assert_eq!(close_handle_count(&trace), 1);
    assert_eq!(success_message(written as u64), "wrote 34 bytes");
}

#[test]
fn open_failure_releases_nothing() {
    let events = vec![JobEvent::OpenReturned { ok: false, error: 1801 }];
    let (state, trace) = run_job(&events);
    assert_eq!(state, JobState::Failed { error: OsError { code: 1801 } });
    assert_eq!(job_outcome(&state), Some(Err(OsError { code: 1801 })));
    assert_eq!(close_handle_count(&trace), 0);
    assert!(trace.is_empty());
}

#[test]
fn start_doc_failure_releases_handle_once() {
    let events = vec![
        JobEvent::OpenReturned { ok: true, error: 0 },
        JobEvent::StartDocReturned { job: 0, error: 6 },
    ];
    let (state, trace) = run_job(&events);
    assert_eq!(state, JobState::Failed { error: OsError { code: 6 } });
    assert_eq!(trace, vec![JobAction::StartDocument, JobAction::CloseHandle]);
    assert_eq!(close_handle_count(&trace), 1);
}

#[test]
fn start_page_failure_releases_handle_once() {
    let events = vec![
        JobEvent::OpenReturned { ok: true, error: 0 },
        JobEvent::StartDocReturned { job: 9, error: 0 },
        JobEvent::StartPageReturned { ok: false, error: 5 },
    ];
    let (state, trace) = run_job(&events);
    assert_eq!(state, JobState::Failed { error: OsError { code: 5 } });
    assert_eq!(
        trace,
        vec![
            JobAction::StartDocument,
            JobAction::StartPage,
            JobAction::EndDocument,
            JobAction::CloseHandle,
        ]
    );
    assert_eq!(close_handle_count(&trace), 1);
}

#[test]
fn write_failure_releases_handle_once() {
    let events = vec![
        JobEvent::OpenReturned { ok: true, error: 0 },
        JobEvent::StartDocReturned { job: 9, error: 0 },
        JobEvent::StartPageReturned { ok: true, error: 0 },
        JobEvent::WriteReturned { ok: false, written: 0, error: 19 },
    ];
    let (state, trace) = run_job(&events);
    assert_eq!(state, JobState::Failed { error: OsError { code: 19 } });
    assert_eq!(
        trace,
        vec![
            JobAction::StartDocument,
            JobAction::StartPage,
            JobAction::WritePayload,
            JobAction::EndPage,
            JobAction::EndDocument,
            JobAction::CloseHandle,
        ]
    );
    assert_eq!(close_handle_count(&trace), 1);
}

#[test]
fn partial_write_count_is_reported_as_is() {
    // The machine passes the OS-reported count through without checking it
    // against the payload length.
    let events = vec![
        JobEvent::OpenReturned { ok: true, error: 0 },
        JobEvent::StartDocReturned { job: 1, error: 0 },
        JobEvent::StartPageReturned { ok: true, error: 0 },
        JobEvent::WriteReturned { ok: true, written: 12, error: 0 },
    ];
    let (state, _) = run_job(&events);
    assert_eq!(job_outcome(&state), Some(Ok(12)));
}

#[test]
fn single_steps_match_whole_run() {
    let events = [
        JobEvent::OpenReturned { ok: true, error: 0 },
        JobEvent::StartDocReturned { job: 2, error: 0 },
        JobEvent::StartPageReturned { ok: false, error: 8 },
    ];
    let mut state = JobState::Closed;
    let mut trace: Vec<JobAction> = Vec::new();
    for e in events {
        let (next, mut acts) = step(state, e);
        trace.append(&mut acts);
        state = next;
    }
    let (whole_state, whole_trace) = run_job(&events.to_vec());
    assert_eq!(state, whole_state);
    assert_eq!(trace, whole_trace);
}

#[test]
fn job_descriptor_is_fixed_and_raw() {
    let d = rawspool::job::raw_job_descriptor();
    assert_eq!(d.doc_name, "ZPL-Label");
    assert_eq!(d.datatype, "RAW");
    assert!(d.output_file.is_none());
}

#[test]
fn outcome_is_pending_while_running() {
    let (state, _) = step(
        JobState::Closed,
        JobEvent::OpenReturned { ok: true, error: 0 },
    );
    assert_eq!(state, JobState::Opened);
    assert_eq!(job_outcome(&state), None);
}
