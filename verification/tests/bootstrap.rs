use root_ca::bootstrap::{
    after_directory, after_generate, after_load, after_write, generate, step, Action, Config,
    Event, Phase, CA_DAYS_VALID,
};
use root_ca::ca::CA;
use root_ca::error::{CAError, IoFailure, IoKind};
use std::collections::HashMap;

/// A directory held in memory, with a count of what was done to it.
struct Disk {
    files: HashMap<String, Vec<u8>>,
    directories: Vec<String>,
    writable: bool,
    creatable: Result<(), IoKind>,
    full_after: Option<usize>,
    reads: usize,
    writes: usize,
}

fn disk() -> Disk {
    Disk {
        files: HashMap::new(),
        directories: Vec::new(),
        writable: true,
        creatable: Ok(()),
        full_after: None,
        reads: 0,
        writes: 0,
    }
}

fn read(disk: &mut Disk, path: &str) -> Result<Vec<u8>, IoFailure> {
    disk.reads += 1;
    match disk.files.get(path) {
        Some(bytes) => Ok(bytes.clone()),
        None => Err(IoFailure {
            kind: IoKind::NotFound,
            os_code: Some(2),
            message: format!("{}: not found", path),
        }),
    }
}

fn write(disk: &mut Disk, path: &str, bytes: Vec<u8>) -> Result<(), IoFailure> {
    disk.writes += 1;
    if disk.full_after.is_some_and(|n| disk.files.len() >= n) {
        return Err(IoFailure {
            kind: IoKind::StorageFull,
            os_code: Some(28),
            message: format!("{}: no space left", path),
        });
    }
    if disk.writable {
        disk.files.insert(String::from(path), bytes);
        Ok(())
    } else {
        Err(IoFailure {
            kind: IoKind::PermissionDenied,
            os_code: Some(13),
            message: format!("{}: permission denied", path),
        })
    }
}

fn create(disk: &mut Disk, dir: String) -> Result<(), IoFailure> {
    match disk.creatable {
        Ok(()) => {
            disk.directories.push(dir);
            Ok(())
        }
        Err(kind) => Err(IoFailure {
            kind,
            os_code: None,
            message: format!("{}: cannot create", dir),
        }),
    }
}

fn config(dir: &str) -> Config {
    Config { dir: String::from(dir), days_valid: 7 }
}

fn run(config: &Config, disk: &mut Disk) -> Result<CA, CAError> {
    let (mut phase, mut action) = step(config, Phase::Start, Event::Begin);
    let mut steps = 1;
    loop {
        let event = match action {
            Action::ReadFiles { cert_path, key_path } => {
                let cert = read(disk, &cert_path);
                let key = read(disk, &key_path);
                Event::Read { cert, key }
            }
            Action::EnsureDirectory { dir } => Event::DirectoryEnsured(create(disk, dir)),
            Action::WriteFiles { cert_path, key_path, files } => {
                let cert = write(disk, &cert_path, files.cert);
                let key = write(disk, &key_path, files.key);
                Event::Written { cert, key }
            }
            Action::Finish => break,
            Action::Wait => panic!("an awaited event was not taken"),
        };
        let next = step(config, phase, event);
        phase = next.0;
        action = next.1;
        steps += 1;
        assert!(steps <= 4);
    }
    assert!(phase.finished());
    phase.into_outcome().unwrap()
}

#[test]
fn default_configuration() {
    let config = Config::default();
    assert_eq!(config.dir, "./ssl/");
    assert_eq!(config.days_valid, 3650);
    assert_eq!(CA_DAYS_VALID, 3650);
}

#[test]
fn begin_asks_for_both_files() {
    let (phase, action) = step(&config("/srv/ca"), Phase::Start, Event::Begin);
    assert!(matches!(phase, Phase::Loading));
    match action {
        Action::ReadFiles { cert_path, key_path } => {
            assert_eq!(cert_path, "/srv/ca/ca.crt");
            assert_eq!(key_path, "/srv/ca/ca.key");
        }
        _ => panic!("start-up did not begin by reading"),
    }
}

#[test]
fn first_start_generates_and_second_start_reloads() {
    let config = config("/srv/ca");
    let mut disk = disk();

    let first = run(&config, &mut disk).unwrap();
    assert_eq!(disk.directories, vec![String::from("/srv/ca")]);
    assert_eq!(disk.reads, 2);
    assert_eq!(disk.writes, 2);
    assert_eq!(disk.files.len(), 2);
    let cert_file = disk.files.get("/srv/ca/ca.crt").unwrap().clone();
    let key_file = disk.files.get("/srv/ca/ca.key").unwrap().clone();
    assert_eq!(first.cert().to_pem().unwrap(), cert_file);
    assert!(first.cert().verify(first.key()).unwrap());
    let window = first.cert().not_before().diff(first.cert().not_after()).unwrap();
    assert_eq!(window.days, 7);

    let second = run(&config, &mut disk).unwrap();
    assert_eq!(disk.directories.len(), 1);
    assert_eq!(disk.reads, 4);
    assert_eq!(disk.writes, 2);
    assert_eq!(disk.files.get("/srv/ca/ca.crt").unwrap(), &cert_file);
    assert_eq!(disk.files.get("/srv/ca/ca.key").unwrap(), &key_file);
    assert_eq!(second.cert(), first.cert());
    assert_eq!(second.cert().to_pem().unwrap(), cert_file);
    assert!(second.key().public_eq(first.key()));
}

#[test]
fn empty_certificate_file_is_fatal() {
    let config = config("/srv/ca");
    let mut disk = disk();
    let key = CA::new(1).unwrap().save().unwrap().key;
    disk.files.insert(String::from("/srv/ca/ca.crt"), Vec::new());
    disk.files.insert(String::from("/srv/ca/ca.key"), key.clone());

    match run(&config, &mut disk) {
        Err(CAError::OpenSslError(_)) => {}
        _ => panic!("a zero-byte certificate did not end start-up with a crypto failure"),
    }
    assert!(disk.directories.is_empty());
    assert_eq!(disk.writes, 0);
    assert_eq!(disk.files.get("/srv/ca/ca.crt").unwrap(), &Vec::<u8>::new());
    assert_eq!(disk.files.get("/srv/ca/ca.key").unwrap(), &key);
}

#[test]
fn corrupt_certificate_file_is_fatal() {
    let config = config("/srv/ca");
    let mut disk = disk();
    disk.files.insert(String::from("/srv/ca/ca.crt"), b"these are no certificate bytes".to_vec());

    match run(&config, &mut disk) {
        Err(CAError::OpenSslError(_)) => {}
        _ => panic!("a corrupt certificate did not end start-up with a crypto failure"),
    }
    assert!(disk.directories.is_empty());
    assert_eq!(disk.writes, 0);
    assert_eq!(disk.files.len(), 1);
}

#[test]
fn read_only_directory_is_fatal() {
    let config = config("/srv/ca");
    let mut disk = disk();
    disk.writable = false;

    match run(&config, &mut disk) {
        Err(CAError::IOError(f)) => {
            assert_eq!(f.kind, IoKind::PermissionDenied);
            assert_eq!(f.os_code, Some(13));
            assert_eq!(f.message, "/srv/ca/ca.crt: permission denied");
        }
        _ => panic!("a failed write did not end start-up with its failure"),
    }
    assert_eq!(disk.writes, 2);
    assert!(disk.files.is_empty());
}

#[test]
fn half_written_pair_is_fatal_and_stays() {
    let config = config("/srv/ca");
    let mut disk = disk();
    disk.full_after = Some(1);

    match run(&config, &mut disk) {
        Err(CAError::IOError(f)) => {
            assert_eq!(f.kind, IoKind::StorageFull);
            assert_eq!(f.message, "/srv/ca/ca.key: no space left");
        }
        _ => panic!("a failed key write did not end start-up with its failure"),
    }
    assert_eq!(disk.writes, 2);
    assert_eq!(disk.files.len(), 1);
    assert!(disk.files.get("/srv/ca/ca.crt").unwrap().starts_with(b"-----BEGIN CERTIFICATE-----"));
}

#[test]
fn missing_key_beside_a_certificate_starts_generation() {
    let config = config("/srv/ca");
    let mut disk = disk();
    let old = CA::new(1).unwrap().save().unwrap().cert;
    disk.files.insert(String::from("/srv/ca/ca.crt"), old.clone());

    let ca = run(&config, &mut disk).unwrap();
    assert_eq!(disk.directories.len(), 1);
    assert_eq!(disk.writes, 2);
    assert_eq!(disk.files.len(), 2);
    assert_ne!(disk.files.get("/srv/ca/ca.crt").unwrap(), &old);
    assert_eq!(disk.files.get("/srv/ca/ca.crt").unwrap(), &ca.cert().to_pem().unwrap());
}

#[test]
fn missing_key_beside_a_corrupt_certificate_is_fatal() {
    let config = config("/srv/ca");
    let mut disk = disk();
    disk.files.insert(String::from("/srv/ca/ca.crt"), b"-----BEGIN CERTIFICATE-----\n".to_vec());

    match run(&config, &mut disk) {
        Err(CAError::OpenSslError(_)) => {}
        _ => panic!("a corrupt certificate did not end start-up with a crypto failure"),
    }
    assert!(disk.directories.is_empty());
    assert_eq!(disk.writes, 0);
}

#[test]
fn directory_that_cannot_be_created_is_fatal() {
    let config = config("/srv/ca");
    let mut disk = disk();
    disk.creatable = Err(IoKind::PermissionDenied);

    match run(&config, &mut disk) {
        Err(CAError::IOError(f)) => {
            assert_eq!(f.kind, IoKind::PermissionDenied);
            assert_eq!(f.message, "/srv/ca: cannot create");
        }
        _ => panic!("a refused directory did not end start-up with its failure"),
    }
    assert_eq!(disk.reads, 2);
    assert_eq!(disk.writes, 0);
    assert!(disk.files.is_empty());
}

#[test]
fn directory_that_is_there_already_is_no_failure() {
    let config = config("/srv/ca");
    let mut disk = disk();
    disk.creatable = Err(IoKind::AlreadyExists);

    let ca = run(&config, &mut disk).unwrap();
    assert_eq!(disk.writes, 2);
    assert_eq!(disk.files.get("/srv/ca/ca.crt").unwrap(), &ca.cert().to_pem().unwrap());
    assert_eq!(
        disk.files.get("/srv/ca/ca.key").unwrap(),
        &ca.key().private_key_to_pem_pkcs8().unwrap()
    );
}

#[test]
fn decisions_after_creating_the_directory() {
    assert!(after_directory(Ok(())).is_none());
    let exists = IoFailure {
        kind: IoKind::AlreadyExists,
        os_code: Some(17),
        message: String::from("exists"),
    };
    assert!(after_directory(Err(exists)).is_none());
    let full = IoFailure {
        kind: IoKind::StorageFull,
        os_code: Some(28),
        message: String::from("full"),
    };
    match after_directory(Err(full)) {
        Some(f) => {
            assert_eq!(f.kind, IoKind::StorageFull);
            assert_eq!(f.os_code, Some(28));
            assert_eq!(f.message, "full");
        }
        None => panic!("a failed creation was passed over"),
    }
    let missing =
        IoFailure { kind: IoKind::NotFound, os_code: Some(2), message: String::from("missing") };
    assert!(after_directory(Err(missing)).is_some());
}

#[test]
fn unreadable_certificate_is_fatal() {
    let config = config("/srv/ca");
    let failure = IoFailure {
        kind: IoKind::PermissionDenied,
        os_code: Some(13),
        message: String::from("permission denied"),
    };
    let missing =
        IoFailure { kind: IoKind::NotFound, os_code: Some(2), message: String::from("not found") };
    let (phase, action) =
        step(&config, Phase::Loading, Event::Read { cert: Err(failure), key: Err(missing) });
    assert!(matches!(action, Action::Finish));
    match phase {
        Phase::Failed(CAError::IOError(f)) => assert_eq!(f.kind, IoKind::PermissionDenied),
        _ => panic!("an unreadable certificate did not end start-up"),
    }
}

#[test]
fn failed_key_write_is_fatal() {
    let config = config("/srv/ca");
    let ca = CA::new(1).unwrap();
    let full =
        IoFailure { kind: IoKind::StorageFull, os_code: Some(28), message: String::from("full") };
    let (phase, action) =
        step(&config, Phase::Saving(ca), Event::Written { cert: Ok(()), key: Err(full) });
    assert!(matches!(action, Action::Finish));
    match phase {
        Phase::Failed(CAError::IOError(f)) => assert_eq!(f.kind, IoKind::StorageFull),
        _ => panic!("a failed key write did not end start-up"),
    }
}

#[test]
fn decisions_after_loading() {
    let config = config("/srv/ca");
    let ca = CA::new(1).unwrap();
    let cert = ca.cert().to_pem().unwrap();
    match after_load(&config, Ok(ca)) {
        (Phase::Loaded(ca), Action::Finish) => assert_eq!(ca.cert().to_pem().unwrap(), cert),
        _ => panic!("a loaded certificate authority was not taken as it is"),
    }
    let missing =
        IoFailure { kind: IoKind::NotFound, os_code: Some(2), message: String::from("not found") };
    match after_load(&config, Err(CAError::IOError(missing))) {
        (Phase::Generating, Action::EnsureDirectory { dir }) => assert_eq!(dir, "/srv/ca"),
        _ => panic!("a missing file did not start generation"),
    }
    let exists = IoFailure {
        kind: IoKind::AlreadyExists,
        os_code: Some(17),
        message: String::from("exists"),
    };
    match after_load(&config, Err(CAError::IOError(exists))) {
        (Phase::Failed(CAError::IOError(f)), Action::Finish) => {
            assert_eq!(f.kind, IoKind::AlreadyExists)
        }
        _ => panic!("another I/O failure was not final"),
    }
    match after_load(&config, Err(CAError::OpenSslError(openssl::error::ErrorStack::get()))) {
        (Phase::Failed(CAError::OpenSslError(_)), Action::Finish) => {}
        _ => panic!("a crypto failure was not final"),
    }
}

#[test]
fn decisions_after_generating() {
    let config = config("/srv/ca");
    let outcome = generate(2);
    let cert = outcome.as_ref().unwrap().0.cert().to_pem().unwrap();
    match after_generate(&config, outcome) {
        (Phase::Saving(ca), Action::WriteFiles { cert_path, key_path, files }) => {
            assert_eq!(cert_path, "/srv/ca/ca.crt");
            assert_eq!(key_path, "/srv/ca/ca.key");
            assert_eq!(files.cert, cert);
            assert_eq!(ca.cert().to_pem().unwrap(), cert);
            assert_eq!(ca.key().private_key_to_pem_pkcs8().unwrap(), files.key);
            let window = ca.cert().not_before().diff(ca.cert().not_after()).unwrap();
            assert_eq!(window.days, 2);
        }
        _ => panic!("a new root was not handed on for writing"),
    }
    match after_generate(&config, Err(CAError::OpenSslError(openssl::error::ErrorStack::get()))) {
        (Phase::Failed(CAError::OpenSslError(_)), Action::Finish) => {}
        _ => panic!("a failed generation was not final"),
    }
}

#[test]
fn decisions_after_writing() {
    let ca = CA::new(1).unwrap();
    let cert = ca.cert().to_pem().unwrap();
    match after_write(ca, Ok(())) {
        (Phase::Loaded(ca), Action::Finish) => assert_eq!(ca.cert().to_pem().unwrap(), cert),
        _ => panic!("a written root was not the outcome"),
    }
    let ca = CA::new(1).unwrap();
    let denied = IoFailure {
        kind: IoKind::PermissionDenied,
        os_code: Some(13),
        message: String::from("denied"),
    };
    match after_write(ca, Err(CAError::IOError(denied))) {
        (Phase::Failed(CAError::IOError(f)), Action::Finish) => {
            assert_eq!(f.kind, IoKind::PermissionDenied)
        }
        _ => panic!("a failed write was not final"),
    }
}

#[test]
fn finished_start_up_takes_no_more_events() {
    let config = config("/srv/ca");
    let failure = IoFailure {
        kind: IoKind::Other,
        os_code: None,
        message: String::from("interrupted"),
    };
    let (phase, action) = step(&config, Phase::Failed(CAError::IOError(failure)), Event::Begin);
    assert!(matches!(action, Action::Finish));
    assert!(matches!(phase, Phase::Failed(CAError::IOError(_))));
    let (phase, action) = step(&config, phase, Event::DirectoryEnsured(Ok(())));
    assert!(matches!(action, Action::Finish));
    assert!(phase.finished());
    assert!(matches!(phase.into_outcome(), Some(Err(CAError::IOError(_)))));
}

#[test]
fn unawaited_events_change_nothing() {
    let config = config("/srv/ca");
    let (phase, action) = step(&config, Phase::Start, Event::DirectoryEnsured(Ok(())));
    assert!(matches!(phase, Phase::Start));
    assert!(matches!(action, Action::Wait));
    let (phase, action) = step(&config, Phase::Loading, Event::Begin);
    assert!(matches!(phase, Phase::Loading));
    assert!(matches!(action, Action::Wait));
    let (phase, action) =
        step(&config, Phase::Generating, Event::Written { cert: Ok(()), key: Ok(()) });
    assert!(matches!(phase, Phase::Generating));
    assert!(matches!(action, Action::Wait));
    assert!(!phase.finished());
    assert!(phase.into_outcome().is_none());
}
