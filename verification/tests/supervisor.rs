use ytdl_engine::logic::{
    progress_message, supervise, ProcessEvent, Progress, SupervisorAction, SupervisorState,
};
use ytdl_engine::types::{Message, Percent};

#[test]
fn supervisor_actions_by_state() {
    assert_eq!(SupervisorState::Starting.action(), SupervisorAction::Start);
    assert_eq!(SupervisorState::Running.action(), SupervisorAction::Read);
    assert_eq!(SupervisorState::Finished.action(), SupervisorAction::Rest);
}

#[test]
fn start_reports_zero_progress() {
    let (m, s) = supervise(4, SupervisorState::Starting, ProcessEvent::Started);
    assert_eq!(
        m,
        Message::DownloadProgress(4, Percent { thousandths: 0 }, String::new(), String::new())
    );
    assert_eq!(s, SupervisorState::Running);
}

#[test]
fn failed_start_ends_the_job() {
    let (m, s) = supervise(
        4,
        SupervisorState::Starting,
        ProcessEvent::StartFailed("No such file or directory (os error 2)".to_string()),
    );
    assert_eq!(
        m,
        Message::DownloadFailed(
            4,
            "Startup Fail: No such file or directory (os error 2)".to_string()
        )
    );
    assert_eq!(s, SupervisorState::Finished);
}

#[test]
fn progress_line_is_reported() {
    let (m, s) = supervise(
        2,
        SupervisorState::Running,
        ProcessEvent::Line("[download]  42.5% of 10.00MiB at 512.00KiB/s ETA 00:10\n".to_string()),
    );
    assert_eq!(
        m,
        Message::DownloadProgress(
            2,
            Percent { thousandths: 42_500 },
            "512.00KiB/s".to_string(),
            "10.00MiB".to_string()
        )
    );
    assert_eq!(s, SupervisorState::Running);
}

#[test]
fn other_line_is_passed_over() {
    let (m, s) = supervise(
        2,
        SupervisorState::Running,
        ProcessEvent::Line("[youtube] Extracting URL\n".to_string()),
    );
    assert_eq!(m, Message::Ignore);
    assert_eq!(s, SupervisorState::Running);
}

#[test]
fn successful_exit_finishes() {
    let (m, s) = supervise(
        9,
        SupervisorState::Running,
        ProcessEvent::Exited { success: true, error_text: "warning: x\n".to_string() },
    );
    assert_eq!(m, Message::DownloadFinished(9));
    assert_eq!(s, SupervisorState::Finished);
}

#[test]
fn failed_exit_reports_last_error_line() {
    let (m, s) = supervise(
        9,
        SupervisorState::Running,
        ProcessEvent::Exited {
            success: false,
            error_text: "WARNING: slow\nERROR: Video unavailable\n".to_string(),
        },
    );
    assert_eq!(m, Message::DownloadFailed(9, "ERROR: Video unavailable".to_string()));
    assert_eq!(s, SupervisorState::Finished);
}

#[test]
fn failed_exit_without_error_output_reports_placeholder() {
    let (m, s) = supervise(
        9,
        SupervisorState::Running,
        ProcessEvent::Exited { success: false, error_text: " \n".to_string() },
    );
    assert_eq!(m, Message::DownloadFailed(9, "Unknown error (Non-zero exit)".to_string()));
    assert_eq!(s, SupervisorState::Finished);
}

#[test]
fn read_failure_ends_the_job() {
    let (m, s) = supervise(
        1,
        SupervisorState::Running,
        ProcessEvent::ReadFailed("broken pipe".to_string()),
    );
    assert_eq!(m, Message::DownloadFailed(1, "IO Error: broken pipe".to_string()));
    assert_eq!(s, SupervisorState::Finished);
}

#[test]
fn finished_supervisor_reports_nothing() {
    let events = vec![
        ProcessEvent::Started,
        ProcessEvent::StartFailed("x".to_string()),
        ProcessEvent::Line("50% of 1MiB".to_string()),
        ProcessEvent::ReadFailed("x".to_string()),
        ProcessEvent::Exited { success: true, error_text: String::new() },
        ProcessEvent::Exited { success: false, error_text: "e".to_string() },
    ];
    for event in events {
        let (m, s) = supervise(3, SupervisorState::Finished, event);
        assert_eq!(m, Message::Ignore);
        assert_eq!(s, SupervisorState::Finished);
    }
}

#[test]
fn events_that_do_not_fit_are_passed_over() {
    let (m, s) =
        supervise(3, SupervisorState::Starting, ProcessEvent::Line("50% of 1MiB".to_string()));
    assert_eq!(m, Message::Ignore);
    assert_eq!(s, SupervisorState::Starting);
    let (m, s) = supervise(
        3,
        SupervisorState::Starting,
        ProcessEvent::Exited { success: true, error_text: String::new() },
    );
    assert_eq!(m, Message::Ignore);
    assert_eq!(s, SupervisorState::Starting);
    let (m, s) = supervise(3, SupervisorState::Running, ProcessEvent::Started);
    assert_eq!(m, Message::Ignore);
    assert_eq!(s, SupervisorState::Running);
    let (m, s) =
        supervise(3, SupervisorState::Running, ProcessEvent::StartFailed("x".to_string()));
    assert_eq!(m, Message::Ignore);
    assert_eq!(s, SupervisorState::Running);
}

#[test]
fn whole_run_of_a_download() {
    let mut state = SupervisorState::Starting;
    let mut seen = Vec::new();
    let events = vec![
        ProcessEvent::Started,
        ProcessEvent::Line("[download] Destination: a.mp4\n".to_string()),
        ProcessEvent::Line("[download]   0.0% of 5.00MiB at Unknown B/s\n".to_string()),
        ProcessEvent::Line("[download] 100% of 5.00MiB at 2.00MiB/s\n".to_string()),
        ProcessEvent::Exited { success: true, error_text: String::new() },
        ProcessEvent::Line("late\n".to_string()),
    ];
    for event in events {
        let (m, next) = supervise(0, state, event);
        state = next;
        seen.push(m);
    }
    assert_eq!(state, SupervisorState::Finished);
    assert_eq!(
        seen,
        vec![
            Message::DownloadProgress(0, Percent { thousandths: 0 }, String::new(), String::new()),
            Message::Ignore,
            Message::DownloadProgress(
                0,
                Percent { thousandths: 0 },
                "Unknown".to_string(),
                "5.00MiB".to_string()
            ),
            Message::DownloadProgress(
                0,
                Percent { thousandths: 100_000 },
                "2.00MiB/s".to_string(),
                "5.00MiB".to_string()
            ),
            Message::DownloadFinished(0),
            Message::Ignore,
        ]
    );
}

#[test]
fn progress_message_for_observation() {
    let p = Progress {
        percent: Percent { thousandths: 1_500 },
        size: "z".to_string(),
        speed: "s".to_string(),
    };
    assert_eq!(
        progress_message(5, Some(p)),
        Message::DownloadProgress(5, Percent { thousandths: 1_500 }, "s".into(), "z".into())
    );
    assert_eq!(progress_message(5, None), Message::Ignore);
}
