//! Dispatch and lifecycle behaviour.

use image_ingest::router::{HttpMethod, Route, route_of, unknown_request};
use image_ingest::lifecycle::{ServiceState, ServiceEvent, lifecycle_step, accepts_connections};
use image_ingest::request_timestamp;

#[test]
fn dispatch_table() {
    assert_eq!(route_of(HttpMethod::Post, "/base64"), Route::UploadBase64);
    assert_eq!(route_of(HttpMethod::Post, "/multipart"), Route::UploadMultipart);
    assert_eq!(route_of(HttpMethod::Post, "/from_uri"), Route::FetchFromUri);
}

#[test]
fn unknown_path_falls_back() {
    assert_eq!(route_of(HttpMethod::Post, "/"), Route::Unknown);
    assert_eq!(route_of(HttpMethod::Post, "/base64/x"), Route::Unknown);
    assert_eq!(route_of(HttpMethod::Post, ""), Route::Unknown);
}

#[test]
fn unsupported_method_falls_back() {
    assert_eq!(route_of(HttpMethod::Get, "/base64"), Route::Unknown);
    assert_eq!(route_of(HttpMethod::Put, "/multipart"), Route::Unknown);
    assert_eq!(route_of(HttpMethod::Delete, "/from_uri"), Route::Unknown);
}

#[test]
fn fallback_reply() {
    let out = unknown_request();
    assert_eq!(out.reply.status, 400);
    assert_eq!(out.reply.body, "error");
    assert_eq!(out.writes.len(), 0);
}

#[test]
fn lifecycle_happy_path() {
    let s0 = ServiceState::Starting;
    let s1 = lifecycle_step(s0, ServiceEvent::Bound);
    assert_eq!(s1, ServiceState::Serving);
    assert!(accepts_connections(s1));
    let s2 = lifecycle_step(s1, ServiceEvent::Interrupt);
    assert_eq!(s2, ServiceState::ShuttingDown);
    assert!(!accepts_connections(s2));
    let s3 = lifecycle_step(s2, ServiceEvent::Drained);
    assert_eq!(s3, ServiceState::Stopped);
}

#[test]
fn lifecycle_bind_failure() {
    let s = lifecycle_step(ServiceState::Starting, ServiceEvent::BindFailed);
    assert_eq!(s, ServiceState::Stopped);
    assert!(!accepts_connections(s));
}

#[test]
fn lifecycle_serving_ignores_other_events() {
    assert_eq!(lifecycle_step(ServiceState::Serving, ServiceEvent::Bound), ServiceState::Serving);
    assert_eq!(
        lifecycle_step(ServiceState::Serving, ServiceEvent::Drained),
        ServiceState::Serving
    );
    assert_eq!(
        lifecycle_step(ServiceState::Stopped, ServiceEvent::Interrupt),
        ServiceState::Stopped
    );
}

#[test]
fn timestamp_is_current_era() {
    // Seconds since the Unix epoch: positive on any running system.
    assert!(request_timestamp() > 0);
}
