use root_ca::error::{CAError, IoFailure, IoKind};
use root_ca::store::{cert_path, key_path, PersistedCredential};

fn failure(kind: IoKind, message: &str) -> IoFailure {
    IoFailure { kind, os_code: None, message: String::from(message) }
}

#[test]
fn paths_name_the_two_files() {
    assert_eq!(cert_path("./ssl/"), "./ssl//ca.crt");
    assert_eq!(key_path("./ssl/"), "./ssl//ca.key");
    assert_eq!(cert_path("/var/lib/ca"), "/var/lib/ca/ca.crt");
    assert_eq!(key_path("/var/lib/ca"), "/var/lib/ca/ca.key");
    assert_eq!(cert_path(""), "/ca.crt");
    assert_ne!(cert_path("x"), key_path("x"));
}

#[test]
fn written_succeeds_when_both_do() {
    assert!(PersistedCredential::written(Ok(()), Ok(())).is_ok());
}

#[test]
fn written_reports_certificate_failure_first() {
    let r = PersistedCredential::written(
        Err(failure(IoKind::PermissionDenied, "cert")),
        Err(failure(IoKind::StorageFull, "key")),
    );
    match r {
        Err(CAError::IOError(f)) => {
            assert_eq!(f.kind, IoKind::PermissionDenied);
            assert_eq!(f.message, "cert");
        }
        _ => panic!("the certificate's write failure was not reported"),
    }
}

#[test]
fn written_reports_key_failure() {
    let r = PersistedCredential::written(Ok(()), Err(failure(IoKind::StorageFull, "key")));
    match r {
        Err(CAError::IOError(f)) => {
            assert_eq!(f.kind, IoKind::StorageFull);
            assert_eq!(f.os_code, None);
        }
        _ => panic!("the key's write failure was not reported"),
    }
}
