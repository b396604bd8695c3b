use container_control::auth::{login, SigningSecret};
use container_control::catalog::{Label, RawContainer};
use container_control::endpoint::{resolve, ProtocolVersion, Transport};
use container_control::envelope::{
    containers_response, hello, host_info_response, lifecycle_response, plain, ApiEnvelope,
};
use container_control::error::{map_daemon_error, status_of, ApiError, ErrorClass};
use container_control::guard::{
    authorize, calls_daemon, daemon_call, requires_credential, Caller, Operation,
};
use container_control::lifecycle::{
    ack_message, lifecycle_call, lifecycle_outcome, listing_call, DaemonCall, LifecycleAction,
};
use container_control::text::{same_text, strip_prefix};

const NOW: u64 = 1_700_000_000;
const VERSION: ProtocolVersion = ProtocolVersion { major: 1, minor: 47 };

fn secret() -> SigningSecret {
    SigningSecret::from_config(Some("test-secret".to_string())).unwrap()
}

#[test]
fn same_text_compares_characters() {
    assert!(same_text("", ""));
    assert!(same_text("abc", "abc"));
    assert!(same_text("\u{e9}\u{1F600}", "\u{e9}\u{1F600}"));
    assert!(!same_text("abc", "abd"));
    assert!(!same_text("abc", "ab"));
    assert!(!same_text("ab", "abc"));
    assert!(!same_text("", "a"));
    assert!(!same_text("e", "\u{e9}"));
}

#[test]
fn strip_prefix_gives_what_follows() {
    assert_eq!(strip_prefix("unix:///run/d.sock", "unix://"), Some("/run/d.sock"));
    assert_eq!(strip_prefix("abc", ""), Some("abc"));
    assert_eq!(strip_prefix("abc", "abc"), Some(""));
    assert_eq!(strip_prefix("", ""), Some(""));
    assert_eq!(strip_prefix("ab", "abc"), None);
    assert_eq!(strip_prefix("xbc", "a"), None);
    assert_eq!(strip_prefix("\u{e9}t\u{e9}", "\u{e9}"), Some("t\u{e9}"));
    assert_eq!(strip_prefix("\u{e9}t\u{e9}", "e"), None);
}

#[test]
fn default_endpoint_is_the_local_socket() {
    let endpoint = resolve(None, VERSION);
    assert_eq!(endpoint.transport, Transport::Socket);
    assert_eq!(endpoint.address, "/var/run/docker.sock");
    assert_eq!(endpoint.timeout, 120);
    assert_eq!(endpoint.version, VERSION);
}

#[test]
fn socket_address_loses_its_scheme() {
    let endpoint = resolve(Some("unix:///tmp/podman.sock"), VERSION);
    assert_eq!(endpoint.transport, Transport::Socket);
    assert_eq!(endpoint.address, "/tmp/podman.sock");
    assert_eq!(endpoint.timeout, 120);
    let bare = resolve(Some("unix://"), VERSION);
    assert_eq!(bare.transport, Transport::Socket);
    assert_eq!(bare.address, "");
}

#[test]
fn any_other_address_is_a_remote_host() {
    for address in ["tcp://10.0.0.5:2375", "http://docker.local:2375", "https://h", "", "unix:/x", "UNIX:///x", "/var/run/docker.sock"] {
        let endpoint = resolve(Some(address), VERSION);
        assert_eq!(endpoint.transport, Transport::Http, "{}", address);
        assert_eq!(endpoint.address, address);
        assert_eq!(endpoint.timeout, 5);
        assert_eq!(endpoint.version, VERSION);
    }
}

#[test]
fn daemon_errors_become_internal_errors_verbatim() {
    let text = "Docker responded with status code 404: No such container: doesnotexist";
    let e = map_daemon_error(text.to_string());
    assert_eq!(e.status, 500);
    assert_eq!(e.class, ErrorClass::Daemon);
    assert_eq!(e.message, text);
    let empty = map_daemon_error(String::new());
    assert_eq!((empty.status, empty.message.as_str()), (500, ""));
}

#[test]
fn each_class_has_one_status() {
    assert_eq!(status_of(ErrorClass::Unauthorized), 401);
    assert_eq!(status_of(ErrorClass::Daemon), 500);
    let e = ApiError::unauthorized("Invalid token");
    assert_eq!((e.class, e.status, e.message.as_str()), (ErrorClass::Unauthorized, 401, "Invalid token"));
}

#[test]
fn acknowledgements_name_the_container() {
    assert_eq!(ack_message(LifecycleAction::Start, "abc123"), "Container abc123 started");
    assert_eq!(ack_message(LifecycleAction::Stop, "abc123"), "Container abc123 stopped");
    assert_eq!(ack_message(LifecycleAction::Restart, "abc123"), "Container abc123 restarted");
    assert_eq!(ack_message(LifecycleAction::Start, ""), "Container  started");
    let full = "0123456789abcdef0123456789abcdef0123456789abcdef0123456789abcdef";
    assert_eq!(ack_message(LifecycleAction::Stop, full), format!("Container {} stopped", full));
}

#[test]
fn lifecycle_calls_carry_the_full_identifier() {
    let full = "0123456789abcdef0123456789abcdef";
    for action in [LifecycleAction::Start, LifecycleAction::Stop, LifecycleAction::Restart] {
        match lifecycle_call(action, full) {
            DaemonCall::Lifecycle { action: a, id } => {
                assert_eq!(a, action);
                assert_eq!(id, full);
            }
            other => panic!("unexpected call {:?}", other),
        }
    }
}

#[test]
fn listing_always_asks_for_all_containers() {
    assert!(matches!(listing_call(), DaemonCall::ListContainers { all: true }));
}

#[test]
fn lifecycle_outcome_follows_the_daemon() {
    assert_eq!(lifecycle_outcome(LifecycleAction::Start, "web", Ok(())).unwrap(), "Container web started");
    let e = lifecycle_outcome(LifecycleAction::Start, "web", Err("container already started".to_string())).unwrap_err();
    assert_eq!((e.status, e.class, e.message.as_str()), (500, ErrorClass::Daemon, "container already started"));
}

#[test]
fn lifecycle_response_has_no_payload() {
    let envelope: ApiEnvelope<String> = lifecycle_response(LifecycleAction::Restart, "web", Ok(())).unwrap();
    assert_eq!(envelope.message, "Container web restarted");
    assert!(envelope.docker_info.is_none());
    assert!(envelope.containers.is_none());
    let refused = lifecycle_response::<String>(LifecycleAction::Stop, "web", Err("boom".to_string()));
    assert_eq!(refused.err().map(|e| (e.status, e.message)), Some((500, "boom".to_string())));
}

#[test]
fn greeting_has_no_payload() {
    let envelope: ApiEnvelope<u8> = hello();
    assert_eq!(envelope.message, "Hello from backend!");
    assert!(envelope.docker_info.is_none() && envelope.containers.is_none());
    let other: ApiEnvelope<u8> = plain("x".to_string());
    assert_eq!(other.message, "x");
    assert!(other.docker_info.is_none() && other.containers.is_none());
}

#[test]
fn host_info_is_the_only_payload() {
    let envelope = host_info_response(Ok::<u32, String>(42)).unwrap();
    assert_eq!(envelope.message, "Docker Info");
    assert_eq!(envelope.docker_info, Some(42));
    assert!(envelope.containers.is_none());
    let e = host_info_response(Err::<u32, String>("daemon unreachable".to_string())).err().unwrap();
    assert_eq!((e.status, e.message.as_str()), (500, "daemon unreachable"));
}

#[test]
fn container_list_is_the_only_payload() {
    let raws = vec![RawContainer {
        id: "abc".to_string(),
        names: vec!["/web".to_string()],
        image: "nginx".to_string(),
        status: "Up".to_string(),
        created: 7,
        labels: vec![Label { key: "com.docker.compose.project".to_string(), value: "shop".to_string() }],
    }];
    let envelope: ApiEnvelope<u8> = containers_response(Ok(raws)).unwrap();
    assert_eq!(envelope.message, "Containers List");
    assert!(envelope.docker_info.is_none());
    let records = envelope.containers.unwrap();
    assert_eq!(records.len(), 1);
    assert_eq!((records[0].id.as_str(), records[0].service.as_str(), records[0].created), ("abc", "shop", 7));
    let empty: ApiEnvelope<u8> = containers_response(Ok(vec![])).unwrap();
    assert_eq!(empty.containers.map(|c| c.len()), Some(0));
    let e = containers_response::<u8>(Err("socket closed".to_string())).err().unwrap();
    assert_eq!((e.status, e.message.as_str()), (500, "socket closed"));
}

#[test]
fn login_alone_is_open() {
    assert!(!requires_credential(Operation::Login));
    for operation in [
        Operation::Hello,
        Operation::HostInfo,
        Operation::ListContainers,
        Operation::Lifecycle(LifecycleAction::Start),
        Operation::Lifecycle(LifecycleAction::Stop),
        Operation::Lifecycle(LifecycleAction::Restart),
    ] {
        assert!(requires_credential(operation));
    }
    assert!(!calls_daemon(Operation::Login));
    assert!(!calls_daemon(Operation::Hello));
    assert!(calls_daemon(Operation::HostInfo));
    assert!(calls_daemon(Operation::ListContainers));
    assert!(calls_daemon(Operation::Lifecycle(LifecycleAction::Stop)));
}

#[test]
fn each_operation_makes_at_most_one_call() {
    assert!(daemon_call(Operation::Login, "x").is_none());
    assert!(daemon_call(Operation::Hello, "x").is_none());
    assert!(matches!(daemon_call(Operation::HostInfo, "x"), Some(DaemonCall::HostInfo)));
    assert!(matches!(
        daemon_call(Operation::ListContainers, "x"),
        Some(DaemonCall::ListContainers { all: true })
    ));
    for action in [LifecycleAction::Start, LifecycleAction::Stop, LifecycleAction::Restart] {
        match daemon_call(Operation::Lifecycle(action), "0123456789abcdef") {
            Some(DaemonCall::Lifecycle { action: a, id }) => {
                assert_eq!(a, action);
                assert_eq!(id, "0123456789abcdef");
            }
            other => panic!("unexpected call {:?}", other),
        }
    }
}

#[test]
fn login_is_admitted_whatever_the_header() {
    assert!(matches!(authorize(Operation::Login, None, &secret(), NOW), Ok(Caller::Unauthenticated)));
    assert!(matches!(authorize(Operation::Login, Some("garbage"), &secret(), NOW), Ok(Caller::Unauthenticated)));
}

#[test]
fn guarded_operations_need_a_valid_credential() {
    let key = secret();
    let token = login("admin", "password", &key, NOW).unwrap().token;
    let header = format!("Bearer {}", token);
    for operation in [Operation::Hello, Operation::HostInfo, Operation::ListContainers, Operation::Lifecycle(LifecycleAction::Start)] {
        match authorize(operation, Some(&header), &key, NOW + 10) {
            Ok(Caller::Authenticated(claims)) => assert_eq!((claims.sub.as_str(), claims.exp), ("admin", NOW + 86400)),
            other => panic!("expected admission, got {:?}", other),
        }
        let missing = authorize(operation, None, &key, NOW + 10).unwrap_err();
        assert_eq!((missing.status, missing.message.as_str()), (401, "No authorization header"));
        let expired = authorize(operation, Some(&header), &key, NOW + 86400).unwrap_err();
        assert_eq!((expired.status, expired.message.as_str()), (401, "Invalid token"));
    }
}

#[test]
fn login_then_list_then_start_a_missing_container() {
    let key = secret();
    let response = login("admin", "password", &key, NOW).unwrap();
    assert_eq!(response.message, "Login successful");
    let header = format!("Bearer {}", response.token);

    let caller = authorize(Operation::ListContainers, Some(&header), &key, NOW + 1);
    assert!(matches!(caller, Ok(Caller::Authenticated(_))));
    assert!(matches!(listing_call(), DaemonCall::ListContainers { all: true }));
    let listed: ApiEnvelope<u8> = containers_response(Ok(vec![])).unwrap();
    assert_eq!(listed.message, "Containers List");
    assert_eq!(listed.containers.map(|c| c.len()), Some(0));

    let refused = authorize(Operation::ListContainers, None, &key, NOW + 1).unwrap_err();
    assert_eq!(refused.status, 401);

    let start = Operation::Lifecycle(LifecycleAction::Start);
    assert!(authorize(start, Some(&header), &key, NOW + 2).is_ok());
    match lifecycle_call(LifecycleAction::Start, "doesnotexist") {
        DaemonCall::Lifecycle { id, .. } => assert_eq!(id, "doesnotexist"),
        other => panic!("unexpected call {:?}", other),
    }
    let daemon_says = "Docker responded with status code 404: No such container: doesnotexist";
    let failed = lifecycle_response::<u8>(LifecycleAction::Start, "doesnotexist", Err(daemon_says.to_string()));
    let e = failed.err().unwrap();
    assert_eq!(e.status, 500);
    assert_eq!(e.message, daemon_says);
}
