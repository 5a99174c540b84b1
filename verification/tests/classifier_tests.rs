use haval_tool::classify::{
    classify_line, classify_transcript, outcome_as_result, LineVerdict, Outcome, StreamEnd,
};
use haval_tool::errors::ApiError;
use haval_tool::session::ConnectionState;

fn lines(raw: &[&[u8]]) -> Vec<Vec<u8>> {
    raw.iter().map(|l| l.to_vec()).collect()
}

#[test]
fn success_after_blank_and_noise() {
    let t = lines(&[b"", b"garbage", b"FB5F2F27BE2DE104AC2B192F3E874DDA"]);
    assert_eq!(classify_transcript(&t, StreamEnd::Closed), Outcome::Success);
    assert_eq!(classify_transcript(&t, StreamEnd::DeadlineExpired), Outcome::Success);
}

#[test]
fn rollback_after_blank_and_noise() {
    let t = lines(&[b"", b"noise", b"FFF66E9B3D962FA319C8068B5C1997CD"]);
    assert_eq!(classify_transcript(&t, StreamEnd::Closed), Outcome::RollbackDetected);
}

#[test]
fn fingerprint_matched_after_trim_and_case_fold() {
    let t = lines(&[b"  Fb5f2f27be2de104ac2b192f3e874dda \r"]);
    assert_eq!(classify_transcript(&t, StreamEnd::Closed), Outcome::Success);
}

#[test]
fn fingerprint_matched_after_unicode_whitespace_trim() {
    // No-break space (U+00A0) on both sides.
    let t = lines(&[b"\xC2\xA0FB5F2F27BE2DE104AC2B192F3E874DDA\xC2\xA0"]);
    assert_eq!(classify_transcript(&t, StreamEnd::Closed), Outcome::Success);
    // Ideographic space (U+3000) and next line (U+0085).
    let t2 = lines(&[b"\xE3\x80\x80fb5f2f27be2de104ac2b192f3e874dda\xC2\x85"]);
    assert_eq!(classify_transcript(&t2, StreamEnd::Closed), Outcome::Success);
    // Em space (U+2003) around the rollback token.
    let t3 = lines(&[b"\xE2\x80\x83fff66e9b3d962fa319c8068b5c1997cd\xE2\x80\x83"]);
    assert_eq!(classify_transcript(&t3, StreamEnd::Closed), Outcome::RollbackDetected);
}

#[test]
fn line_of_only_unicode_whitespace_is_ignored() {
    assert_eq!(classify_line(b"\xC2\xA0\xE2\x80\xA8 \t"), LineVerdict::Ignore);
}

#[test]
fn unrelated_lines_time_out_when_deadline_expires() {
    let t = lines(&[b"booting", b"still waiting", b"fb5f almost but not quite"]);
    assert_eq!(classify_transcript(&t, StreamEnd::DeadlineExpired), Outcome::Timeout);
}

#[test]
fn unrelated_lines_resolve_not_connected_when_stream_closes() {
    let t = lines(&[b"booting", b"still waiting"]);
    assert_eq!(classify_transcript(&t, StreamEnd::Closed), Outcome::NotConnected);
}

#[test]
fn empty_transcript_resolves_by_end() {
    let t: Vec<Vec<u8>> = Vec::new();
    assert_eq!(classify_transcript(&t, StreamEnd::Closed), Outcome::NotConnected);
    assert_eq!(classify_transcript(&t, StreamEnd::DeadlineExpired), Outcome::Timeout);
}

#[test]
fn first_matching_line_decides() {
    let t = lines(&[
        b"fff66e9b3d962fa319c8068b5c1997cd",
        b"fb5f2f27be2de104ac2b192f3e874dda",
    ]);
    assert_eq!(classify_transcript(&t, StreamEnd::Closed), Outcome::RollbackDetected);
}

#[test]
fn line_verdicts() {
    assert_eq!(classify_line(b""), LineVerdict::Ignore);
    assert_eq!(classify_line(b"   \r\n"), LineVerdict::Ignore);
    assert_eq!(classify_line(b"hello"), LineVerdict::Ignore);
    assert_eq!(classify_line(b"fb5f2f27be2de104ac2b192f3e874dda"), LineVerdict::Success);
    assert_eq!(classify_line(b"FB5F2F27BE2DE104AC2B192F3E874DDA"), LineVerdict::Success);
    assert_eq!(classify_line(b"fff66e9b3d962fa319c8068b5c1997cd"), LineVerdict::Rollback);
    // A fingerprint with trailing junk is not a match.
    assert_eq!(classify_line(b"fb5f2f27be2de104ac2b192f3e874dda!"), LineVerdict::Ignore);
}

#[test]
fn outcome_surfaces_as_typed_result() {
    assert!(outcome_as_result(Outcome::Success).is_ok());
    assert!(matches!(
        outcome_as_result(Outcome::RollbackDetected),
        Err(ApiError::RollbackDetected)
    ));
    assert!(matches!(outcome_as_result(Outcome::Timeout), Err(ApiError::Timeout)));
    assert!(matches!(outcome_as_result(Outcome::NotConnected), Err(ApiError::NotConnected)));
}

#[test]
fn await_without_session_is_not_connected_at_once() {
    let state = ConnectionState::new();
    let t = lines(&[b"fb5f2f27be2de104ac2b192f3e874dda"]);
    assert_eq!(state.await_install_result(&t, StreamEnd::DeadlineExpired), Outcome::NotConnected);
}

#[test]
fn await_with_session_classifies_transcript() {
    let mut state = ConnectionState::new();
    state.connect_to_telnet();
    let t = lines(&[b"", b"fb5f2f27be2de104ac2b192f3e874dda"]);
    assert_eq!(state.await_install_result(&t, StreamEnd::DeadlineExpired), Outcome::Success);
    let noise = lines(&[b"nothing to see"]);
    assert_eq!(state.await_install_result(&noise, StreamEnd::DeadlineExpired), Outcome::Timeout);
}
