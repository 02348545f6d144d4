//! Reply parameter accessors and the flat body formats.

use beanstalkc::error::BeanstalkcError;
use beanstalkc::response::Response;
use beanstalkc::status::Status;

#[test]
fn test_get_job_id() {
    let resp = Response { status: Status::Inserted, params: vec!["100".to_string()], body: None };
    let r = resp.job_id();
    assert!(r.is_ok());
    assert_eq!(100, r.unwrap());
}

#[test]
fn test_get_int_param() {
    let resp = Response {
        status: Status::Reserved,
        params: vec!["100".to_string(), "5".to_string()],
        body: Some(b"hello".to_vec()),
    };

    let r = resp.get_int_param(1);
    assert!(r.is_ok());
    assert_eq!(5, r.unwrap());
}

#[test]
fn test_get_body_as_vec() {
    let resp = Response {
        status: Status::Reserved,
        params: vec![],
        body: Some(b"- default\n- jobs\n".to_vec()),
    };

    let tubes = resp.body_as_vec().unwrap();
    assert_eq!(vec!["default".to_string(), "jobs".to_string()], tubes);
}

#[test]
fn test_get_body_as_map() {
    let resp = Response {
        status: Status::Okay,
        params: vec![],
        body: Some(b"name: default\nuptime: 12345".to_vec()),
    };

    let stats = resp.body_as_map().unwrap();
    assert_eq!(stats.get("name").unwrap(), "default".to_string());
    assert_eq!(stats.get("uptime").unwrap(), "12345".to_string());
}

#[test]
fn get_param_returns_original_text() {
    let resp = Response {
        status: Status::Using,
        params: vec!["jobs".to_string()],
        body: None,
    };
    assert_eq!(resp.get_param(0).unwrap(), "jobs".to_string());
    assert!(matches!(
        resp.get_param(1),
        Err(BeanstalkcError::UnexpectedResponse(_))
    ));
}

#[test]
fn get_int_param_rejects_text() {
    let resp = Response {
        status: Status::Reserved,
        params: vec!["100".to_string(), "hello".to_string()],
        body: None,
    };
    assert!(matches!(
        resp.get_int_param(1),
        Err(BeanstalkcError::UnexpectedResponse(_))
    ));
    assert!(matches!(
        resp.get_int_param(7),
        Err(BeanstalkcError::UnexpectedResponse(_))
    ));
}

#[test]
fn missing_body_parses_as_empty() {
    let resp = Response { status: Status::Okay, params: vec![], body: None };
    assert_eq!(resp.body_as_vec().unwrap().len(), 0);
    assert_eq!(resp.body_as_map().unwrap().len(), 0);
}

#[test]
fn malformed_list_body_is_rejected() {
    let resp = Response {
        status: Status::Okay,
        params: vec![],
        body: Some(b"- good\nbad\n".to_vec()),
    };
    assert!(matches!(
        resp.body_as_vec(),
        Err(BeanstalkcError::UnexpectedResponse(_))
    ));
}

#[test]
fn malformed_map_body_is_rejected() {
    let resp = Response {
        status: Status::Okay,
        params: vec![],
        body: Some(b"no separator here\n".to_vec()),
    };
    assert!(matches!(
        resp.body_as_map(),
        Err(BeanstalkcError::UnexpectedResponse(_))
    ));
}

#[test]
fn map_lookup_takes_last_duplicate() {
    let resp = Response {
        status: Status::Okay,
        params: vec![],
        body: Some(b"a: 1\nb: x\na: 2\n".to_vec()),
    };
    let stats = resp.body_as_map().unwrap();
    assert_eq!(stats.len(), 3);
    assert_eq!(stats.get("a").unwrap(), "2".to_string());
    assert_eq!(stats.get("b").unwrap(), "x".to_string());
    assert_eq!(stats.get("c"), None);
}

#[test]
fn map_value_may_hold_separator() {
    let resp = Response {
        status: Status::Okay,
        params: vec![],
        body: Some(b"version: 1.10: patched\n".to_vec()),
    };
    let stats = resp.body_as_map().unwrap();
    assert_eq!(stats.get("version").unwrap(), "1.10: patched".to_string());
}

#[test]
fn default_response_is_ok_and_empty() {
    let resp = Response::default();
    assert_eq!(resp.status, Status::Okay);
    assert!(resp.params.is_empty());
    assert!(resp.body.is_none());
}
