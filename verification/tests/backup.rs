use wled_backup::backup::{Action, BackupError, BackupOutcome, BackupReport, DeviceSession, Event};
use wled_backup::backup::start_for_record;
use wled_backup::discovery::DeviceRecord;
use wled_backup::identity::IdentityPolicy;

// One mock endpoint: a URL and the body it serves with status 200.
struct Served {
    url: String,
    body: Vec<u8>,
}

fn serve(url: &str, body: &str) -> Served {
    Served { url: url.to_string(), body: body.as_bytes().to_vec() }
}

fn cfg_body(hostname: &str) -> String {
    format!("{{\"id\":{{\"name\":\"{}\"}}}}", hostname)
}

// Plays the transport and the filesystem: answers each fetch from
// `served` (connection refused for any other URL), appends each write to
// `files`, and returns the session's final result.
fn run_session(
    start: (DeviceSession, Action),
    served: &[Served],
    files: &mut Vec<(String, Vec<u8>)>,
) -> Result<(), BackupError> {
    let (mut session, mut action) = start;
    loop {
        match action {
            Action::Fetch { url } => {
                let event = match served.iter().find(|s| s.url == url) {
                    Some(s) => Event::Response { status: 200, body: s.body.clone() },
                    None => Event::TransportFailed { message: "connection refused".to_string() },
                };
                let (s2, a2) = session.step(event);
                session = s2;
                action = a2;
            }
            Action::Write { file_name, content } => {
                files.push((file_name, content));
                let (s2, a2) = session.step(Event::WriteDone);
                session = s2;
                action = a2;
            }
            Action::Done { result } => return result,
        }
    }
}

fn file_content<'a>(files: &'a [(String, Vec<u8>)], name: &str) -> &'a [u8] {
    match files.iter().find(|f| f.0 == name) {
        Some(f) => &f.1,
        None => panic!("missing file {}", name),
    }
}

fn validate_response_files(files: &[(String, Vec<u8>)], hostname: &str) {
    let cfg_name = format!("{}_cfg.json", hostname);
    let presets_name = format!("{}_presets.json", hostname);
    assert_eq!(file_content(files, &cfg_name), cfg_body(hostname).as_bytes());
    assert_eq!(file_content(files, &presets_name), "presets data".as_bytes());
}

#[test]
fn test_backup_wled_creates_file() {
    let served = vec![
        serve("http://127.0.0.1:88/cfg.json", &cfg_body("testwled")),
        serve("http://127.0.0.1:88/presets.json", "presets data"),
    ];

    let mut files: Vec<(String, Vec<u8>)> = Vec::new();
    let start = DeviceSession::start(IdentityPolicy::ConfigDerived, "mdns_name", "127.0.0.1", 88);
    let backup_wled = run_session(start, &served, &mut files);

    assert!(backup_wled.is_ok(), "Backup failed");
    validate_response_files(&files, "testwled");
}

#[test]
fn test_backup_wleds_creates_files() {
    let served = vec![
        serve("http://127.0.0.1:80/cfg.json", &cfg_body("testwled")),
        serve("http://127.0.0.1:80/presets.json", "presets data"),
        serve("http://127.0.0.1:8080/cfg.json", &cfg_body("testwled_port")),
        serve("http://127.0.0.1:8080/presets.json", "presets data"),
    ];

    let wleds = vec![
        DeviceRecord {
            hostname: "mdns_name".to_string(),
            addresses: vec!["127.0.0.1".to_string()],
            port: 80,
        },
        DeviceRecord {
            hostname: "mdns_name_port".to_string(),
            addresses: vec!["127.0.0.1".to_string()],
            port: 8080,
        },
    ];

    let mut files: Vec<(String, Vec<u8>)> = Vec::new();
    let mut report = BackupReport::new();
    for wled in wleds {
        if let Some(start) = start_for_record(&wled, IdentityPolicy::ConfigDerived) {
            let result = run_session(start, &served, &mut files);
            report.record(BackupOutcome { hostname: wled.hostname, result });
        }
    }

    assert!(report.success(), "Backup failed");
    validate_response_files(&files, "testwled");
    validate_response_files(&files, "testwled_port");
}

#[test]
fn test_backup_wled_invalid_cfg_json_no_files_written() {
    let served = vec![serve("http://127.0.0.1:89/cfg.json", "invalid json content")];

    let mut files: Vec<(String, Vec<u8>)> = Vec::new();
    let start = DeviceSession::start(IdentityPolicy::ConfigDerived, "mdns_name", "127.0.0.1", 89);
    let backup_result = run_session(start, &served, &mut files);

    assert!(backup_result.is_err(), "Backup should fail with invalid JSON");
    assert_eq!(
        files.len(),
        0,
        "No files should be written when cfg.json parsing fails"
    );
}

#[test]
fn test_backup_wleds_returns_error() {
    let served = vec![
        serve("http://127.0.0.1:81/cfg.json", &cfg_body("testwled")),
        serve("http://127.0.0.1:81/presets.json", "presets data"),
    ];

    let wleds = vec![
        // Not served, so will fail.
        DeviceRecord {
            hostname: "mdns_name_port".to_string(),
            addresses: vec!["127.0.0.1".to_string()],
            port: 8081,
        },
        DeviceRecord {
            hostname: "mdns_name".to_string(),
            addresses: vec!["127.0.0.1".to_string()],
            port: 81,
        },
    ];

    let mut files: Vec<(String, Vec<u8>)> = Vec::new();
    let mut report = BackupReport::new();
    for wled in wleds {
        if let Some(start) = start_for_record(&wled, IdentityPolicy::ConfigDerived) {
            let result = run_session(start, &served, &mut files);
            report.record(BackupOutcome { hostname: wled.hostname, result });
        }
    }

    assert!(!report.success(), "Backup failed, as it should have.");
    validate_response_files(&files, "testwled");
}
