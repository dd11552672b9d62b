//! Version handling, state evaluation and the retry policy on concrete runs.

use bootstrapper::bytes::{bytes_eq, trim_ascii};
use bootstrapper::config::{client_years, MAX_ATTEMPTS, RETRY_DELAY_SECS, YEAR_COUNT};
use bootstrapper::download::{
    download_outcome, validate_received, AttemptError, DownloadExhausted, RetryState,
};
use bootstrapper::version::{evaluate, parse_version_response, InstallationState, ResolveError};

#[test]
fn trim_strips_surrounding_whitespace() {
    let v = b" \t7.0.1\r\n".to_vec();
    assert_eq!(trim_ascii(&v), b"7.0.1".to_vec());
}

#[test]
fn trim_keeps_inner_whitespace() {
    let v = b"  a b  ".to_vec();
    assert_eq!(trim_ascii(&v), b"a b".to_vec());
}

#[test]
fn trim_of_all_whitespace_is_empty() {
    let v = b" \n\t ".to_vec();
    assert_eq!(trim_ascii(&v), Vec::<u8>::new());
    assert_eq!(trim_ascii(&Vec::new()), Vec::<u8>::new());
}

#[test]
fn bytes_eq_compares_contents() {
    assert!(bytes_eq(&b"7.0.1".to_vec(), &b"7.0.1".to_vec()));
    assert!(!bytes_eq(&b"7.0.1".to_vec(), &b"6.9.0".to_vec()));
    assert!(!bytes_eq(&b"7.0".to_vec(), &b"7.0.1".to_vec()));
}

#[test]
fn version_response_is_trimmed() {
    let r = parse_version_response(&b"\n 7.0.1 \n".to_vec());
    assert_eq!(r.unwrap(), b"7.0.1".to_vec());
}

#[test]
fn empty_version_response_is_a_protocol_error() {
    assert_eq!(
        parse_version_response(&b"".to_vec()),
        Err(ResolveError::Protocol)
    );
    assert_eq!(
        parse_version_response(&b" \r\n ".to_vec()),
        Err(ResolveError::Protocol)
    );
}

#[test]
fn missing_directory_is_a_fresh_install() {
    let st = evaluate(false, &Some(b"7.0.1".to_vec()), &b"7.0.1".to_vec());
    assert_eq!(st, InstallationState::FreshInstall);
}

#[test]
fn matching_marker_is_up_to_date() {
    let st = evaluate(true, &Some(b"7.0.1\n".to_vec()), &b"7.0.1".to_vec());
    assert_eq!(st, InstallationState::UpToDate);
}

#[test]
fn stale_or_missing_marker_is_an_update() {
    let stale = evaluate(true, &Some(b"6.9.0".to_vec()), &b"7.0.1".to_vec());
    assert_eq!(stale, InstallationState::UpdateAvailable);
    let missing = evaluate(true, &None, &b"7.0.1".to_vec());
    assert_eq!(missing, InstallationState::UpdateAvailable);
}

#[test]
fn advertised_length_must_match() {
    let body = b"abcdef".to_vec();
    assert_eq!(
        validate_received(body.clone(), Some(5)),
        Err(AttemptError::Validation)
    );
    assert_eq!(validate_received(body.clone(), Some(6)), Ok(body.clone()));
    assert_eq!(validate_received(body.clone(), None), Ok(body));
}

#[test]
fn two_failures_then_success_returns_the_bytes() {
    let attempts = vec![
        Err(AttemptError::Network),
        Err(AttemptError::Validation),
        Ok(b"payload".to_vec()),
    ];
    assert_eq!(download_outcome(&attempts), Ok(b"payload".to_vec()));
}

#[test]
fn first_success_wins() {
    let attempts = vec![
        Ok(b"first".to_vec()),
        Ok(b"second".to_vec()),
        Err(AttemptError::Network),
    ];
    assert_eq!(download_outcome(&attempts), Ok(b"first".to_vec()));
}

#[test]
fn three_failures_exhaust_the_budget() {
    let attempts = vec![
        Err(AttemptError::Network),
        Err(AttemptError::Network),
        Err(AttemptError::Validation),
    ];
    assert_eq!(
        download_outcome(&attempts),
        Err(DownloadExhausted {
            last: AttemptError::Validation
        })
    );
}

#[test]
fn retry_state_delays_and_budget() {
    assert_eq!(MAX_ATTEMPTS, 3);
    assert_eq!(RETRY_DELAY_SECS, 2);
    let mut st = RetryState::new();
    assert_eq!(st.delay_before_next(), None);
    assert!(st.record_failure());
    assert_eq!(st.delay_before_next(), Some(2));
    assert!(st.record_failure());
    assert_eq!(st.delay_before_next(), Some(2));
    assert!(!st.record_failure());
}

#[test]
fn endpoint_and_archive_urls_have_the_fixed_shape() {
    assert_eq!(
        bootstrapper::config::version_url(),
        "https://setup.pekora.zip/version"
    );
    assert_eq!(
        bootstrapper::config::archive_url("7.0.1", "2017L"),
        "https://setup.pekora.zip/7.0.1-ProjectXApp2017L.zip"
    );
}

#[test]
fn the_year_set_is_fixed() {
    let years = client_years();
    assert_eq!(years.len(), YEAR_COUNT);
    assert_eq!(years, vec!["2017L", "2018L", "2020L", "2021M"]);
}
