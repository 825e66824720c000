use wled_backup::args::Args;
use wled_backup::backup::{Action, BackupError, BackupOutcome, BackupReport, DeviceSession, Event};
use wled_backup::backup::{build_url, start_for_record};
use wled_backup::discovery::{DeviceRecord, DiscoveryCollector};
use wled_backup::identity::{IdentityError, IdentityPolicy, hostname_stem};
use wled_backup::text::{parse_u64, u64_to_dec};

struct Served {
    url: String,
    body: Vec<u8>,
}

fn serve(url: &str, body: &str) -> Served {
    Served { url: url.to_string(), body: body.as_bytes().to_vec() }
}

fn run_session(
    start: (DeviceSession, Action),
    served: &[Served],
    files: &mut Vec<(String, Vec<u8>)>,
) -> Result<(), BackupError> {
    let (mut session, mut action) = start;
    loop {
        match action {
            Action::Fetch { url } => {
                let event = match served.iter().find(|s| s.url == url) {
                    Some(s) => Event::Response { status: 200, body: s.body.clone() },
                    None => Event::TransportFailed { message: "connection refused".to_string() },
                };
                let (s2, a2) = session.step(event);
                session = s2;
                action = a2;
            }
            Action::Write { file_name, content } => {
                files.push((file_name, content));
                let (s2, a2) = session.step(Event::WriteDone);
                session = s2;
                action = a2;
            }
            Action::Done { result } => return result,
        }
    }
}

fn record(hostname: &str, address: &str, port: u16) -> DeviceRecord {
    DeviceRecord {
        hostname: hostname.to_string(),
        addresses: vec![address.to_string()],
        port,
    }
}

#[test]
fn test_hostname_stem_cases() {
    assert_eq!(hostname_stem("foo.local."), "foo");
    assert_eq!(hostname_stem("foo"), "foo");
    assert_eq!(hostname_stem(""), "wled");
    assert_eq!(hostname_stem(".local."), "wled");
    assert_eq!(hostname_stem("a.b.c"), "a");
}

#[test]
fn test_dedup_last_event_wins() {
    let mut collector = DiscoveryCollector::new();
    let first = DeviceRecord {
        hostname: "wled-kitchen.local.".to_string(),
        addresses: vec!["192.168.1.10".to_string()],
        port: 80,
    };
    let second = DeviceRecord {
        hostname: "wled-kitchen.local.".to_string(),
        addresses: vec!["192.168.1.11".to_string(), "10.0.0.2".to_string()],
        port: 8080,
    };
    assert!(collector.on_resolved(first));
    assert!(!collector.on_resolved(second));
    let records = collector.into_records();
    assert_eq!(records.len(), 1);
    assert_eq!(records[0].hostname, "wled-kitchen.local.");
    assert_eq!(records[0].addresses, vec!["192.168.1.11".to_string(), "10.0.0.2".to_string()]);
    assert_eq!(records[0].port, 8080);
}

#[test]
fn test_dedup_distinct_hostnames_kept() {
    let mut collector = DiscoveryCollector::new();
    assert!(collector.on_resolved(record("a.local.", "10.0.0.1", 80)));
    assert!(collector.on_resolved(record("b.local.", "10.0.0.2", 80)));
    let records = collector.into_records();
    assert_eq!(records.len(), 2);
}

#[test]
fn test_build_url_exact() {
    assert_eq!(
        build_url("127.0.0.1", 8080, "/cfg.json"),
        "http://127.0.0.1:8080/cfg.json"
    );
    assert_eq!(build_url("10.0.0.7", 80, "/presets.json"), "http://10.0.0.7:80/presets.json");
}

#[test]
fn test_decimal_rendering_exact() {
    assert_eq!(u64_to_dec(0), "0");
    assert_eq!(u64_to_dec(7), "7");
    assert_eq!(u64_to_dec(65535), "65535");
    assert_eq!(u64_to_dec(u64::MAX), "18446744073709551615");
}

#[test]
fn test_parse_u64_edges() {
    assert_eq!(parse_u64("0"), Some(0));
    assert_eq!(parse_u64("00010"), Some(10));
    assert_eq!(parse_u64("18446744073709551615"), Some(u64::MAX));
    assert_eq!(parse_u64("18446744073709551616"), None);
    assert_eq!(parse_u64(""), None);
    assert_eq!(parse_u64("12a"), None);
    assert_eq!(parse_u64("-4"), None);
}

#[test]
fn test_round_trip_decimal() {
    for n in [0u64, 1, 9, 10, 4242, 65535, u64::MAX] {
        assert_eq!(parse_u64(&u64_to_dec(n)), Some(n));
    }
}

// The byte content handed to each write equals the byte content the
// endpoint served, bit for bit.
#[test]
fn test_saved_content_matches_served_bytes() {
    let presets: &str = "{\"0\":{\"n\":\"  odd \\u00e9 bytes \"}}";
    let served = vec![
        serve("http://10.0.0.5:80/cfg.json", "{\"id\":{\"name\":\"dev\"}}"),
        serve("http://10.0.0.5:80/presets.json", presets),
    ];
    let mut files: Vec<(String, Vec<u8>)> = Vec::new();
    let start = DeviceSession::start(IdentityPolicy::ConfigDerived, "dev.local.", "10.0.0.5", 80);
    assert!(run_session(start, &served, &mut files).is_ok());
    assert_eq!(files.len(), 2);
    assert_eq!(files[0].0, "dev_cfg.json");
    assert_eq!(files[0].1, "{\"id\":{\"name\":\"dev\"}}".as_bytes());
    assert_eq!(files[1].0, "dev_presets.json");
    assert_eq!(files[1].1, presets.as_bytes());
}

// Two devices served on the same address and different ports, backed up
// under the hostname-derived policy: one file per device, named by the
// hostname stem, holding the served presets body; overall success.
#[test]
fn test_hostname_derived_two_devices() {
    let served = vec![
        serve("http://127.0.0.1:80/presets.json", "presets data"),
        serve("http://127.0.0.1:8080/presets.json", "presets data"),
    ];
    let devices = vec![
        record("testwled", "127.0.0.1", 80),
        record("testwled_port", "127.0.0.1", 8080),
    ];

    let mut files: Vec<(String, Vec<u8>)> = Vec::new();
    let mut report = BackupReport::new();
    for dev in devices {
        if let Some(start) = start_for_record(&dev, IdentityPolicy::HostnameDerived) {
            let result = run_session(start, &served, &mut files);
            report.record(BackupOutcome { hostname: dev.hostname, result });
        }
    }

    assert!(report.success());
    assert_eq!(report.exit_code(), 0);
    assert_eq!(files.len(), 2);
    assert_eq!(files[0].0, "testwled.json");
    assert_eq!(files[0].1, "presets data".as_bytes());
    assert_eq!(files[1].0, "testwled_port.json");
    assert_eq!(files[1].1, "presets data".as_bytes());
}

// One served device and one with no listener: the served device's file is
// written with the right content, the unserved one writes nothing, and
// the batch reports failure.
#[test]
fn test_hostname_derived_partial_failure() {
    let served = vec![serve("http://127.0.0.1:80/presets.json", "presets data")];
    let devices = vec![
        record("testwled", "127.0.0.1", 80),
        record("gone", "127.0.0.1", 8081),
    ];

    let mut files: Vec<(String, Vec<u8>)> = Vec::new();
    let mut report = BackupReport::new();
    for dev in devices {
        if let Some(start) = start_for_record(&dev, IdentityPolicy::HostnameDerived) {
            let result = run_session(start, &served, &mut files);
            report.record(BackupOutcome { hostname: dev.hostname, result });
        }
    }

    assert!(!report.success());
    assert_eq!(report.exit_code(), 1);
    assert_eq!(files.len(), 1);
    assert_eq!(files[0].0, "testwled.json");
    assert_eq!(files[0].1, "presets data".as_bytes());
}

#[test]
fn test_record_without_address_is_skipped() {
    let dev = DeviceRecord {
        hostname: "lonely.local.".to_string(),
        addresses: Vec::new(),
        port: 80,
    };
    assert!(start_for_record(&dev, IdentityPolicy::ConfigDerived).is_none());
    assert!(start_for_record(&dev, IdentityPolicy::HostnameDerived).is_none());
}

#[test]
fn test_non_success_status_fails_device() {
    let start = DeviceSession::start(IdentityPolicy::ConfigDerived, "d", "127.0.0.1", 80);
    let (_s, action) = start.0.step(Event::Response { status: 404, body: b"not found".to_vec() });
    match action {
        Action::Done { result } => match result {
            Err(BackupError::HttpStatus(status)) => assert_eq!(status, 404),
            other => panic!("expected an HTTP status failure, got {:?}", other.is_ok()),
        },
        _ => panic!("expected the device to finish"),
    }
}

#[test]
fn test_write_failure_fails_device() {
    let served = vec![serve("http://127.0.0.1:80/cfg.json", "{\"id\":{\"name\":\"dev\"}}")];
    let start = DeviceSession::start(IdentityPolicy::ConfigDerived, "d", "127.0.0.1", 80);
    let (session, action) = start;
    // Answer the configuration fetch.
    let url = match action {
        Action::Fetch { url } => url,
        _ => panic!("expected a fetch first"),
    };
    assert_eq!(url, served[0].url);
    let (session, action) = session.step(Event::Response { status: 200, body: served[0].body.clone() });
    match &action {
        Action::Write { file_name, .. } => assert_eq!(file_name, "dev_cfg.json"),
        _ => panic!("expected a write"),
    }
    // Report the write failed: the device finishes with that failure.
    let (_s, action) = session.step(Event::WriteFailed { message: "disk full".to_string() });
    match action {
        Action::Done { result } => match result.unwrap_err() {
            BackupError::WriteFailed(m) => assert_eq!(m, "disk full"),
            _ => panic!("expected a write failure"),
        },
        _ => panic!("expected the device to finish"),
    }
}

#[test]
fn test_failure_messages() {
    assert_eq!(
        BackupError::Transport("connection refused".to_string()).message(),
        "fetch failed: connection refused"
    );
    assert_eq!(BackupError::HttpStatus(404).message(), "HTTP status 404");
    assert_eq!(
        BackupError::Identity(IdentityError::MissingId).message(),
        "Missing 'id' field in cfg.json"
    );
    assert_eq!(
        BackupError::WriteFailed("disk full".to_string()).message(),
        "write failed: disk full"
    );
}

#[test]
fn test_empty_batch_succeeds() {
    let report = BackupReport::new();
    assert!(report.success());
    assert_eq!(report.exit_code(), 0);
}

#[test]
fn test_args_last_flag_wins() {
    let argv = vec![
        "test".to_string(),
        "--out-dir".to_string(),
        "first".to_string(),
        "--out-dir".to_string(),
        "second".to_string(),
    ];
    let args = Args::parse_from(&argv).unwrap();
    assert_eq!(args.out_dir, "second");
}
