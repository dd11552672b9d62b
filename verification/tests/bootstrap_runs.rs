//! Whole bootstrap runs driven through the state machine.

use bootstrapper::machine::{run_events, Action, Event, FailureReason, Machine, Phase};
use bootstrapper::version::ResolveError;

fn year_success() -> Vec<Event> {
    vec![
        Event::DownloadFinished { ok: true },
        Event::ExtractFinished { ok: true },
    ]
}

#[test]
fn fresh_install_processes_every_year_then_finalizes() {
    let mut events = vec![
        Event::Start,
        Event::VersionResolved {
            result: Ok(b"7.0.1".to_vec()),
        },
        Event::LocalStateRead {
            dir_exists: false,
            marker: None,
        },
    ];
    for _ in 0..4 {
        events.extend(year_success());
    }
    events.push(Event::FinalizeFinished { ok: true });
    let (m, actions) = run_events(events);
    assert_eq!(m.phase, Phase::Done);
    assert!(!m.is_update);
    assert_eq!(
        actions,
        vec![
            Action::FetchVersion,
            Action::ReadLocalState,
            Action::StartDownload { year_index: 0 },
            Action::StartExtract { year_index: 0 },
            Action::StartDownload { year_index: 1 },
            Action::StartExtract { year_index: 1 },
            Action::StartDownload { year_index: 2 },
            Action::StartExtract { year_index: 2 },
            Action::StartDownload { year_index: 3 },
            Action::StartExtract { year_index: 3 },
            Action::Finalize,
            Action::OpenPostInstallPage,
        ]
    );
}

#[test]
fn up_to_date_run_does_nothing_but_the_version_fetch() {
    let events = vec![
        Event::Start,
        Event::VersionResolved {
            result: Ok(b"7.0.1".to_vec()),
        },
        Event::LocalStateRead {
            dir_exists: true,
            marker: Some(b"7.0.1\n".to_vec()),
        },
    ];
    let (m, actions) = run_events(events);
    assert_eq!(m.phase, Phase::UpToDate);
    assert_eq!(
        actions,
        vec![
            Action::FetchVersion,
            Action::ReadLocalState,
            Action::OpenGamesPage,
        ]
    );
    assert!(!actions.contains(&Action::Finalize));
}

#[test]
fn stale_marker_runs_an_update_and_rewrites_the_marker() {
    let mut events = vec![
        Event::Start,
        Event::VersionResolved {
            result: Ok(b"7.0.1".to_vec()),
        },
        Event::LocalStateRead {
            dir_exists: true,
            marker: Some(b"6.9.0".to_vec()),
        },
    ];
    for _ in 0..4 {
        events.extend(year_success());
    }
    events.push(Event::FinalizeFinished { ok: true });
    let (m, actions) = run_events(events);
    assert_eq!(m.phase, Phase::Done);
    assert!(m.is_update);
    assert_eq!(m.remote_version, Some(b"7.0.1".to_vec()));
    assert_eq!(
        actions.iter().filter(|a| **a == Action::Finalize).count(),
        1
    );
    assert_eq!(*actions.last().unwrap(), Action::Stop);
}

#[test]
fn an_exhausted_download_aborts_before_later_years_and_the_marker() {
    let events = vec![
        Event::Start,
        Event::VersionResolved {
            result: Ok(b"7.0.1".to_vec()),
        },
        Event::LocalStateRead {
            dir_exists: false,
            marker: None,
        },
        Event::DownloadFinished { ok: true },
        Event::ExtractFinished { ok: true },
        Event::DownloadFinished { ok: false },
    ];
    let (m, actions) = run_events(events);
    assert_eq!(
        m.phase,
        Phase::Failed {
            reason: FailureReason::Download { year_index: 1 }
        }
    );
    assert!(!actions.contains(&Action::Finalize));
    assert!(!actions.contains(&Action::StartDownload { year_index: 2 }));
    assert!(!actions.contains(&Action::StartDownload { year_index: 3 }));
    assert_eq!(*actions.last().unwrap(), Action::Stop);
}

#[test]
fn a_failed_version_resolution_is_fatal() {
    let events = vec![
        Event::Start,
        Event::VersionResolved {
            result: Err(ResolveError::Network),
        },
    ];
    let (m, actions) = run_events(events);
    assert_eq!(
        m.phase,
        Phase::Failed {
            reason: FailureReason::Resolve
        }
    );
    assert_eq!(actions, vec![Action::FetchVersion, Action::Stop]);
}

#[test]
fn an_unparsable_archive_is_fatal_for_the_run() {
    let events = vec![
        Event::Start,
        Event::VersionResolved {
            result: Ok(b"7.0.1".to_vec()),
        },
        Event::LocalStateRead {
            dir_exists: false,
            marker: None,
        },
        Event::DownloadFinished { ok: true },
        Event::ExtractFinished { ok: false },
    ];
    let (m, actions) = run_events(events);
    assert_eq!(
        m.phase,
        Phase::Failed {
            reason: FailureReason::Extract { year_index: 0 }
        }
    );
    assert!(!actions.contains(&Action::Finalize));
}

#[test]
fn a_failed_finalize_fails_the_run() {
    let mut events = vec![
        Event::Start,
        Event::VersionResolved {
            result: Ok(b"7.0.1".to_vec()),
        },
        Event::LocalStateRead {
            dir_exists: false,
            marker: None,
        },
    ];
    for _ in 0..4 {
        events.extend(year_success());
    }
    events.push(Event::FinalizeFinished { ok: false });
    let (m, _) = run_events(events);
    assert_eq!(
        m.phase,
        Phase::Failed {
            reason: FailureReason::Finalize
        }
    );
}

#[test]
fn stepping_by_hand_matches_the_driver() {
    let mut m = Machine::new();
    assert_eq!(m.phase, Phase::Idle);
    assert_eq!(m.step(Event::Start), Action::FetchVersion);
    assert_eq!(
        m.step(Event::VersionResolved {
            result: Ok(b"1.2.3".to_vec())
        }),
        Action::ReadLocalState
    );
    assert_eq!(
        m.step(Event::LocalStateRead {
            dir_exists: true,
            marker: Some(b"1.2.3".to_vec())
        }),
        Action::OpenGamesPage
    );
    assert_eq!(m.phase, Phase::UpToDate);
}
