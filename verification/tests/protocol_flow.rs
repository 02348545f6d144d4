//! Reply decoding, status classification, and the job-handle state machine.

use beanstalkc::codec::{body_length, parse_reply_line, trim_body};
use beanstalkc::command::{ignore, release};
use beanstalkc::config::{Config, DEFAULT_JOB_PRIORITY};
use beanstalkc::dispatch::classify;
use beanstalkc::error::BeanstalkcError;
use beanstalkc::job::{priority_from_stats, JobState};
use beanstalkc::numbers::{parse_u64_digits, u64_to_digits};
use beanstalkc::response::Response;
use beanstalkc::status::Status;

fn reply(status: Status) -> Response {
    Response { status, params: vec![], body: None }
}

#[test]
fn inserted_reply_round_trips_to_job_id() {
    let resp = parse_reply_line(b"INSERTED 42\r\n").unwrap();
    assert_eq!(resp.status, Status::Inserted);
    assert_eq!(resp.params, vec!["42".to_string()]);
    assert!(resp.body.is_none());
    assert_eq!(resp.job_id().unwrap(), 42);
}

#[test]
fn reserved_reply_announces_body_length() {
    let resp = parse_reply_line(b"RESERVED 5 11\r\n").unwrap();
    assert_eq!(resp.status, Status::Reserved);
    assert_eq!(body_length(&resp).unwrap(), Some(11));

    let body = trim_body(b"hello world\r\n".to_vec(), 11).unwrap();
    assert_eq!(body, b"hello world".to_vec());
}

#[test]
fn ok_reply_takes_length_from_first_param() {
    let resp = parse_reply_line(b"OK 17\r\n").unwrap();
    assert_eq!(resp.status, Status::Okay);
    assert_eq!(body_length(&resp).unwrap(), Some(17));
}

#[test]
fn statuses_without_body_announce_none() {
    let resp = parse_reply_line(b"DELETED\r\n").unwrap();
    assert_eq!(resp.status, Status::Deleted);
    assert_eq!(body_length(&resp).unwrap(), None);
}

#[test]
fn short_or_long_body_buffer_is_a_framing_error() {
    assert!(matches!(
        trim_body(b"hello\r\n".to_vec(), 11),
        Err(BeanstalkcError::UnexpectedResponse(_))
    ));
    assert!(matches!(
        trim_body(b"hello world!!\r\n".to_vec(), 11),
        Err(BeanstalkcError::UnexpectedResponse(_))
    ));
}

#[test]
fn empty_reply_line_is_rejected() {
    assert!(matches!(
        parse_reply_line(b"\r\n"),
        Err(BeanstalkcError::UnexpectedResponse(_))
    ));
    assert!(matches!(
        parse_reply_line(b""),
        Err(BeanstalkcError::UnexpectedResponse(_))
    ));
}

#[test]
fn unknown_status_keyword_is_rejected() {
    assert!(matches!(
        parse_reply_line(b"BOGUS 1\r\n"),
        Err(BeanstalkcError::UnexpectedResponse(_))
    ));
}

#[test]
fn status_tokens_decode_exactly() {
    assert_eq!(Status::from_token(b"TIMED_OUT"), Some(Status::TimedOut));
    assert_eq!(Status::from_token(b"NOT_IGNORED"), Some(Status::NotIgnored));
    assert_eq!(Status::from_token(b"timed_out"), None);
    assert_eq!(Status::from_token(b"OKAY"), None);
}

#[test]
fn release_counts_released_and_buried_as_success() {
    let ok = classify(&release(1, 0, 0), reply(Status::Released));
    assert!(ok.is_ok());
    let ok = classify(&release(1, 0, 0), reply(Status::Buried));
    assert!(ok.is_ok());
    assert!(matches!(
        classify(&release(1, 0, 0), reply(Status::NotFound)),
        Err(BeanstalkcError::CommandFailed(_))
    ));
    assert!(matches!(
        classify(&release(1, 0, 0), reply(Status::InternalError)),
        Err(BeanstalkcError::UnexpectedResponse(_))
    ));
}

#[test]
fn ignore_surfaces_not_ignored_as_command_failed_every_time() {
    for _ in 0..3 {
        let r = classify(&ignore("default"), reply(Status::NotIgnored));
        match r {
            Err(BeanstalkcError::CommandFailed(msg)) => assert_eq!(msg, "NotIgnored"),
            other => panic!("expected CommandFailed, got {:?}", other),
        }
    }
}

#[test]
fn finalized_job_skips_release_and_bury() {
    let mut job = JobState::new(7, b"payload".to_vec(), true);
    assert!(job.reserved());
    assert!(job.issues_command());

    // A successful delete finalizes the handle ...
    job.finalize();
    assert!(!job.reserved());

    // ... after which release, bury and touch are local no-ops.
    assert!(!job.issues_command());
    assert_eq!(job.id(), 7);
    assert_eq!(job.body().as_slice(), b"payload");
}

#[test]
fn peeked_job_never_issues_reservation_commands() {
    let job = JobState::new(3, b"x".to_vec(), false);
    assert!(!job.issues_command());
}

#[test]
fn priority_falls_back_to_default() {
    let with_pri = Response {
        status: Status::Okay,
        params: vec![],
        body: Some(b"pri: 512\n".to_vec()),
    }
    .body_as_map()
    .unwrap();
    assert_eq!(priority_from_stats(&with_pri), 512);

    let without = Response { status: Status::Okay, params: vec![], body: Some(b"age: 3\n".to_vec()) }
        .body_as_map()
        .unwrap();
    assert_eq!(priority_from_stats(&without), DEFAULT_JOB_PRIORITY);

    let junk = Response {
        status: Status::Okay,
        params: vec![],
        body: Some(b"pri: soon\n".to_vec()),
    }
    .body_as_map()
    .unwrap();
    assert_eq!(priority_from_stats(&junk), DEFAULT_JOB_PRIORITY);

    let huge = Response {
        status: Status::Okay,
        params: vec![],
        body: Some(b"pri: 99999999999\n".to_vec()),
    }
    .body_as_map()
    .unwrap();
    assert_eq!(priority_from_stats(&huge), DEFAULT_JOB_PRIORITY);
}

#[test]
fn decimal_codec_round_trips() {
    assert_eq!(u64_to_digits(0), b"0".to_vec());
    assert_eq!(u64_to_digits(11300), b"11300".to_vec());
    assert_eq!(
        u64_to_digits(u64::MAX),
        b"18446744073709551615".to_vec()
    );

    assert_eq!(parse_u64_digits(b"0"), Some(0));
    assert_eq!(parse_u64_digits(b"007"), Some(7));
    assert_eq!(parse_u64_digits(b"18446744073709551615"), Some(u64::MAX));
    assert_eq!(parse_u64_digits(b"18446744073709551616"), None);
    assert_eq!(parse_u64_digits(b""), None);
    assert_eq!(parse_u64_digits(b"12a"), None);
    assert_eq!(parse_u64_digits(b"-1"), None);
}

#[test]
fn errors_describe_their_kind() {
    let e = BeanstalkcError::ConnectionError("invalid connection".to_string());
    assert_eq!(e.describe(), "Connection error: invalid connection");
    let e = BeanstalkcError::UnexpectedResponse("empty reply".to_string());
    assert_eq!(e.describe(), "Unexpected response: empty reply");
    let e = BeanstalkcError::CommandFailed("NotFound".to_string());
    assert_eq!(e.describe(), "Command failed: NotFound");
}

#[test]
fn default_config_matches_documented_values() {
    let c = Config::new();
    assert_eq!(c.host, "localhost");
    assert_eq!(c.port, 11300);
    assert_eq!(c.connection_timeout_secs, Some(120));
}

#[test]
fn using_reply_names_the_tube() {
    let resp = parse_reply_line(b"USING jobs\r\n").unwrap();
    assert_eq!(resp.status, Status::Using);
    assert_eq!(resp.get_param(0).unwrap(), "jobs".to_string());
}
