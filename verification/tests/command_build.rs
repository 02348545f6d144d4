//! Byte-exact wire encodings for every command constructor.

use beanstalkc::command::{
    bury, delete, ignore, kick, kick_job, pause_tube, peek_buried, peek_job, peek_ready, put,
    quit, release, reserve, stats_job, stats_tube, touch, tubes, use_tube, using, watch, watching,
};
use beanstalkc::status::Status;

#[test]
fn test_put() {
    let cmd = put(b"Rust", 0, 10, 100);
    assert_eq!(cmd.build(), b"put 0 10 100 4\r\nRust\r\n".to_vec());
}

#[test]
fn test_reserve() {
    let cmd = reserve(None);
    assert_eq!(cmd.build(), b"reserve\r\n".to_vec());

    let cmd = reserve(Some(10));
    assert_eq!(cmd.build(), b"reserve-with-timeout 10\r\n".to_vec());
}

#[test]
fn test_kick() {
    let cmd = kick(100);
    assert_eq!(cmd.build(), b"kick 100\r\n".to_vec());
}

#[test]
fn test_kick_job() {
    let cmd = kick_job(1);
    assert_eq!(cmd.build(), b"kick-job 1\r\n".to_vec());
}

#[test]
fn test_peek_job() {
    let cmd = peek_job(1);
    assert_eq!(cmd.build(), b"peek 1\r\n".to_vec());
}

#[test]
fn test_peek_ready() {
    let cmd = peek_ready();
    assert_eq!(cmd.build(), b"peek-ready\r\n".to_vec());
}

#[test]
fn test_peek_buried() {
    let cmd = peek_buried();
    assert_eq!(cmd.build(), b"peek-buried\r\n".to_vec());
}

#[test]
fn test_list_tubes() {
    let cmd = tubes();
    assert_eq!(cmd.build(), b"list-tubes\r\n".to_vec());
}

#[test]
fn test_tube_used() {
    let cmd = using();
    assert_eq!(cmd.build(), b"list-tube-used\r\n".to_vec());
}

#[test]
fn test_use_tube() {
    let cmd = use_tube("jobs");
    assert_eq!(cmd.build(), b"use jobs\r\n".to_vec());
}

#[test]
fn test_tubes_watched() {
    let cmd = watching();
    assert_eq!(cmd.build(), b"list-tubes-watched\r\n".to_vec());
}

#[test]
fn test_watch() {
    let cmd = watch("jobs");
    assert_eq!(cmd.build(), b"watch jobs\r\n".to_vec());
}

#[test]
fn test_ignore() {
    let cmd = ignore("jobs");
    assert_eq!(cmd.build(), b"ignore jobs\r\n".to_vec());
}

#[test]
fn test_stats_tube() {
    let cmd = stats_tube("jobs");
    assert_eq!(cmd.build(), b"stats-tube jobs\r\n".to_vec());
}

#[test]
fn test_pause_tube() {
    let cmd = pause_tube("jobs", 1);
    assert_eq!(cmd.build(), b"pause-tube jobs 1\r\n".to_vec());
}

#[test]
fn test_delete() {
    let cmd = delete(1);
    assert_eq!(cmd.build(), b"delete 1\r\n".to_vec());
}

#[test]
fn test_release() {
    let cmd = release(100, 0, 100);
    assert_eq!(cmd.build(), b"release 100 0 100\r\n".to_vec());
}

#[test]
fn test_bury() {
    let cmd = bury(100, 0);
    assert_eq!(cmd.build(), b"bury 100 0\r\n".to_vec());
}

#[test]
fn test_touch() {
    let cmd = touch(100);
    assert_eq!(cmd.build(), b"touch 100\r\n".to_vec());
}

#[test]
fn test_stats_job() {
    let cmd = stats_job(100);
    assert_eq!(cmd.build(), b"stats-job 100\r\n".to_vec());
}

#[test]
fn test_quit() {
    let cmd = quit();
    assert_eq!(cmd.build(), b"quit\r\n".to_vec());
}

#[test]
fn put_with_empty_body_still_frames_it() {
    let cmd = put(b"", 5, 0, 60);
    assert_eq!(cmd.build(), b"put 5 0 60 0\r\n\r\n".to_vec());
}

#[test]
fn put_body_bytes_are_verbatim() {
    let cmd = put(&[0u8, 255, 13, 10], 1, 2, 3);
    let mut expected = b"put 1 2 3 4\r\n".to_vec();
    expected.extend_from_slice(&[0u8, 255, 13, 10]);
    expected.extend_from_slice(b"\r\n");
    assert_eq!(cmd.build(), expected);
}

#[test]
fn status_sets_are_exposed() {
    let cmd = release(1, 0, 0);
    assert_eq!(
        cmd.expected_ok_status().as_slice(),
        &[Status::Released, Status::Buried]
    );
    assert_eq!(cmd.expected_error_status().as_slice(), &[Status::NotFound]);
}
