use containerless::dispatcher::{invocation_error_body, readiness_body, route_request, Target};
use containerless::error::{storage_probe_result, ErrorKind};
use containerless::name_map::NameMap;
use containerless::shim::ContainerlessShim;
use containerless::storage_error::Error;
use containerless::upload::{upload_handler, upload_reply, Upload};

fn function(name: &str, path: &str) -> Target {
    Target::Function { name: name.to_string(), path: path.to_string() }
}

fn same(left: Target, right: Target) -> bool {
    match (left, right) {
        (Target::Readiness, Target::Readiness) => true,
        (Target::NotFound, Target::NotFound) => true,
        (Target::Function { name: n1, path: p1 }, Target::Function { name: n2, path: p2 }) => {
            n1 == n2 && p1 == p2
        }
        _ => false,
    }
}

#[test]
fn readiness_probe_is_a_get() {
    assert!(same(route_request(true, "/readinessProbe"), Target::Readiness));
    assert!(same(route_request(true, "/readinessProbe/"), Target::Readiness));
    assert!(same(route_request(false, "/readinessProbe"), Target::NotFound));
    assert!(same(route_request(false, "/readinessProbe/"), function("readinessProbe", "/")));
    assert_eq!(readiness_body(), "To invoke: http://HOSTNAME/dispatcher/FUNCTION-NAME\n");
}

#[test]
fn request_goes_to_the_function_named_first() {
    assert!(same(route_request(true, "/hello/x"), function("hello", "/x")));
    assert!(same(route_request(false, "/hello/x/y?z"), function("hello", "/x/y?z")));
    assert!(same(route_request(true, "/a-b_c9/"), function("a-b_c9", "/")));
}

#[test]
fn other_paths_lead_nowhere() {
    for path in ["", "/", "hello/x", "/hello", "//x", "/he llo/x", "/caf\u{e9}/x"] {
        assert!(same(route_request(true, path), Target::NotFound));
    }
}

#[test]
fn failed_invocation_is_reported() {
    assert_eq!(invocation_error_body("timed out"), "Error invoking function timed out");
}

#[test]
fn failures_have_their_status() {
    assert_eq!(ErrorKind::ClusterUnavailable.status_code(), Some(503));
    assert_eq!(ErrorKind::NotFound.status_code(), Some(404));
    assert_eq!(ErrorKind::Conflict.status_code(), Some(409));
    assert_eq!(ErrorKind::InvocationError.status_code(), Some(500));
    assert_eq!(ErrorKind::CompilationFailed.status_code(), Some(500));
    assert_eq!(ErrorKind::NativeTraceUnknown.status_code(), None);
}

#[test]
fn only_build_and_rollout_failures_are_fatal() {
    assert!(ErrorKind::CompilationFailed.moves_to_error_state());
    assert!(ErrorKind::DeploymentRolloutTimeout.moves_to_error_state());
    for kind in [
        ErrorKind::ClusterUnavailable,
        ErrorKind::NotFound,
        ErrorKind::Conflict,
        ErrorKind::TracingTimeout,
        ErrorKind::InvocationError,
        ErrorKind::NativeTraceUnknown,
        ErrorKind::Unknown,
    ] {
        assert!(!kind.moves_to_error_state());
    }
}

#[test]
fn storage_answers_are_sorted_by_status() {
    assert_eq!(storage_probe_result(200), Ok(()));
    assert_eq!(storage_probe_result(204), Ok(()));
    assert_eq!(storage_probe_result(404), Err(ErrorKind::NotFound));
    assert_eq!(storage_probe_result(409), Err(ErrorKind::Conflict));
    assert_eq!(storage_probe_result(500), Err(ErrorKind::ClusterUnavailable));
    assert_eq!(storage_probe_result(599), Err(ErrorKind::ClusterUnavailable));
    assert_eq!(storage_probe_result(600), Err(ErrorKind::Unknown));
    assert_eq!(storage_probe_result(199), Err(ErrorKind::Unknown));
}

#[test]
fn storage_failures_have_their_status() {
    let io = std::io::Error::new(std::io::ErrorKind::Other, "disk");
    assert_eq!(Error::from(io).status_code(), 500);
    assert_eq!(Error::FileNotFound("f".to_string()).status_code(), 404);
    assert_eq!(Error::FileConflict("f".to_string()).status_code(), 409);
    let io = std::io::Error::new(std::io::ErrorKind::NotFound, "gone");
    assert!(matches!(Error::from(io), Error::IO(_)));
}

#[test]
fn upload_stores_the_body_of_the_form() {
    let mut form: NameMap<String> = NameMap::new();
    form.insert("other".to_string(), "x".to_string());
    match upload_handler(&form) {
        Upload::Reject(reply) => {
            assert_eq!(reply, "{ \"error\": \"file not properly formatted\\n\" }")
        }
        Upload::Store(_) => panic!("a form without a body was accepted"),
    }
    form.insert("body".to_string(), "contents".to_string());
    match upload_handler(&form) {
        Upload::Store(text) => assert_eq!(text, "contents"),
        Upload::Reject(_) => panic!("a form with a body was turned down"),
    }
    assert_eq!(upload_reply(true), "{ \"body\": \"Done uploading!\\n\" }");
    assert_eq!(upload_reply(false), "{ \"error\": \"error uploading file\\n\" }");
}

#[test]
fn shim_knows_the_services() {
    let shim = ContainerlessShim::new();
    assert_eq!(shim.create_function_url("f"), "http://localhost/controller/create_function/f");
    assert_eq!(shim.delete_function_url("f"), "http://localhost/storage/delete-function/f");
    assert_eq!(shim.describe_function_url("f"), "http://localhost/storage/get_function/f");
    assert_eq!(shim.list_functions_url(), "http://localhost/storage/list_functions");
    assert_eq!(shim.invoke_url("f"), "http://localhost/dispatcher/f/foo");
    assert_eq!(shim.system_status_url(), "http://localhost/controller/system_status");
    assert_eq!(shim.reset_function_url("f"), "http://localhost/controller/reset_function/f");
    assert_eq!(shim.shutdown_function_url("f"), "http://localhost/controller/shutdown_function/f");
    assert_eq!(shim.get_function_url("f"), "http://localhost/controller/get_function/f");
    assert_eq!(shim.dispatcher_version_url(), "http://localhost/controller/dispatcher_version");
}

#[test]
fn name_map_binds_removes_and_walks() {
    let mut map: NameMap<u32> = NameMap::new();
    assert_eq!(map.size(), 0);
    map.insert("a".to_string(), 1);
    map.insert("b".to_string(), 2);
    map.insert("a".to_string(), 3);
    assert_eq!(map.size(), 2);
    assert_eq!(map.get("a"), Some(&3));
    assert_eq!(map.get("c"), None);
    assert!(map.contains("b"));
    assert_eq!(map.key_at(0), "a");
    assert_eq!(*map.value_at(1), 2);
    assert_eq!(map.remove("a"), Some(3));
    assert_eq!(map.remove("a"), None);
    assert_eq!(map.size(), 1);
    assert_eq!(map.key_at(0), "b");
    map.clear();
    assert_eq!(map.size(), 0);
    assert!(!map.contains("b"));
}
