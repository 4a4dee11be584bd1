use boe::access::{authorize, Rejection};
use boe::clock::{Span, Timestamp};
use boe::config::{default_port, AuthConfig};
use boe::downloads::{handle_gcode_download, is_named, Download};
use boe::fetching::{Fetching, Happening};
use boe::json::{Double, Json, Number};
use boe::octoprint_server::{handler_impl, JobError, JobStatus, PrinterStatus};
use boe::printer_spy::{offline_event, FilePath, PrintStateCode, PrinterEvent, Thermistor};
use boe::slurper::{CurrentGcode, Gcode, GcodeMeta, GcodeMetaSource};
use serde_json::Value;
use std::sync::Arc;

fn value(doc: &Json) -> Value {
    match doc {
        Json::Null => Value::Null,
        Json::Bool(b) => Value::from(*b),
        Json::Number(Number::Unsigned(n)) => Value::from(*n),
        Json::Number(Number::Negative(n)) => Value::from(*n),
        Json::Number(Number::Float(d)) => Value::from(f64::from_bits(d.bits)),
        Json::String(s) => Value::from(s.as_str()),
        Json::Array(items) => Value::Array(items.iter().map(value).collect()),
        Json::Object(members) => {
            Value::Object(members.iter().map(|(k, v)| (k.clone(), value(v))).collect())
        }
    }
}

fn expected(text: &str) -> Value {
    serde_json::from_str(text).unwrap()
}

fn double(x: f64) -> Double {
    Double { bits: x.to_bits() }
}

fn span(secs: u64) -> Span {
    Span { secs, nanos: 0 }
}

fn state(raw: &'static str, code: PrintStateCode) -> PrinterEvent {
    PrinterEvent::PrintState { raw, code }
}

fn gcode(path: &str, content: &str) -> Arc<Gcode> {
    let meta = GcodeMeta {
        source: GcodeMetaSource::Resolved(FilePath::StrippedPath(path.to_string())),
        modified_time: Timestamp::AfterEpoch(Span { secs: 1700000000, nanos: 5 }),
        original_filesize: 99,
    };
    Arc::new(Gcode::new(meta, Arc::from(content.as_bytes())))
}

fn job(status: &JobStatus, now: Span) -> Value {
    value(&status.document(now).unwrap())
}

#[test]
fn printer_is_offline_at_first() {
    assert_eq!(
        value(&PrinterStatus::default().document()),
        expected(
            r#"{"state":{"text":"Offline","flags":{"operational":false,"paused":false,
            "printing":false,"pausing":false,"cancelling":false,"sdReady":false,"error":false,
            "ready":false,"closedOrError":true}}}"#
        )
    );
}

#[test]
fn printer_reports_state_and_temperature() {
    let mut status = PrinterStatus::default();
    status.on_event(&state("Preheating", PrintStateCode::Printing));
    status.on_event(&PrinterEvent::Temperature { which: Thermistor::Tool, value: double(20.5) });
    status.on_event(&PrinterEvent::TemperatureTarget {
        which: Thermistor::Bed,
        value: double(60.0),
    });
    status.on_event(&PrinterEvent::GcodeLine(4));
    assert_eq!(
        value(&status.document()),
        expected(
            r#"{"state":{"text":"Preheating","flags":{"operational":true,"paused":false,
            "printing":true,"pausing":false,"cancelling":false,"sdReady":false,"error":false,
            "ready":false,"closedOrError":false}},
            "temperature":{"tool0":{"actual":20.5,"target":0.0,"offset":0},
            "bed":{"actual":0.0,"target":60.0,"offset":0}}}"#
        )
    );
}

#[test]
fn flags_follow_the_state() {
    for (code, flag) in [
        (PrintStateCode::Paused, "paused"),
        (PrintStateCode::Printing, "printing"),
        (PrintStateCode::Idle, "ready"),
        (PrintStateCode::Offline, "closedOrError"),
        (PrintStateCode::Finished, ""),
        (PrintStateCode::Failed, ""),
        (PrintStateCode::Cancelled, ""),
    ] {
        let mut status = PrinterStatus::default();
        status.on_event(&state("x", code));
        let doc = value(&status.document());
        let flags = doc["state"]["flags"].as_object().unwrap();
        assert_eq!(flags["operational"], Value::from(code != PrintStateCode::Offline));
        assert_eq!(doc.get("temperature").is_some(), code != PrintStateCode::Offline);
        for name in ["paused", "printing", "ready", "closedOrError"] {
            assert_eq!(flags[name], Value::from(name == flag), "{code:?} {name}");
        }
    }
}

#[test]
fn repeated_events_change_nothing() {
    let event = PrinterEvent::Temperature { which: Thermistor::Bed, value: double(3.0) };
    let mut status = PrinterStatus::default();
    status.on_event(&state("Online", PrintStateCode::Idle));
    status.on_event(&event);
    let once = value(&status.document());
    status.on_event(&event);
    assert_eq!(value(&status.document()), once);
}

#[test]
fn job_is_empty_at_first() {
    assert_eq!(
        job(&JobStatus::default(), span(9)),
        expected(
            r#"{"state":"Offline","job":{"file":{"date":null,"display":null,"name":null,
            "origin":null,"path":null,"size":null}},
            "progress":{"completion":0.0,"filepos":null,"printTime":null,"printTimeLeft":null,
            "printTimeLeftOrigin":null}}"#
        )
    );
}

#[test]
fn job_reports_file_and_progress() {
    let mut status = JobStatus::default();
    status.on_gcode(CurrentGcode::Current(gcode("/model/a.gcode", "G0\nG1\nG2\n")));
    status.on_event(&state("Printing", PrintStateCode::Printing), span(100));
    status.on_event(&PrinterEvent::GcodeLine(3), span(101));
    status.on_event(&PrinterEvent::PrintPercentage(double(12.5)), span(102));
    status.on_event(
        &PrinterEvent::RemainingPrintTime(Span { secs: 60, nanos: 999 }),
        span(103),
    );
    assert_eq!(
        job(&status, Span { secs: 130, nanos: 7 }),
        expected(
            r#"{"state":"Printing","job":{"file":{"date":1700000000,"display":"a.gcode",
            "name":"a.gcode","origin":"local","path":"model/a.gcode","size":9}},
            "progress":{"completion":12.5,"filepos":6,"printTime":30,"printTimeLeft":60,
            "printTimeLeftOrigin":"analysis"}}"#
        )
    );
}

#[test]
fn line_outside_the_file_has_no_position() {
    let mut status = JobStatus::default();
    status.on_event(&PrinterEvent::GcodeLine(1), span(0));
    assert_eq!(job(&status, span(0))["progress"]["filepos"], Value::Null);
    status.on_gcode(CurrentGcode::Outdated(gcode("/a", "G0\nG1")));
    assert_eq!(job(&status, span(0))["progress"]["filepos"], Value::from(0));
    status.on_event(&PrinterEvent::GcodeLine(2), span(0));
    assert_eq!(job(&status, span(0))["progress"]["filepos"], Value::from(3));
    for line in [0, 3, u32::MAX] {
        status.on_event(&PrinterEvent::GcodeLine(line), span(0));
        assert_eq!(job(&status, span(0))["progress"]["filepos"], Value::Null);
    }
}

#[test]
fn file_without_a_name_is_reported_so() {
    let mut status = JobStatus::default();
    status.on_gcode(CurrentGcode::Current(gcode("//x/..", "")));
    let file = &job(&status, span(0))["job"]["file"];
    assert_eq!(file["name"], Value::Null);
    assert_eq!(file["path"], Value::from("x/.."));
    assert_eq!(file["size"], Value::from(0));
}

#[test]
fn job_without_gcode_has_no_progress_in_it() {
    let mut status = JobStatus::default();
    status.on_gcode(CurrentGcode::Current(gcode("/a", "G0")));
    status.on_event(&PrinterEvent::GcodeLine(1), span(0));
    status.on_event(&PrinterEvent::PrintPercentage(double(5.0)), span(0));
    status.on_gcode(CurrentGcode::Nothing);
    assert_eq!(job(&status, span(0)), job(&JobStatus::default(), span(0)));
    assert_eq!(status.gcode_line, 0);
}

#[test]
fn file_older_than_1970_is_an_error() {
    let mut old = Gcode::new(
        GcodeMeta {
            source: GcodeMetaSource::Resolved(FilePath::StrippedPath("/a".to_string())),
            modified_time: Timestamp::BeforeEpoch(span(1)),
            original_filesize: 0,
        },
        Arc::from(&b""[..]),
    );
    let mut status = JobStatus::default();
    old.meta.original_filesize = 1;
    status.on_gcode(CurrentGcode::Current(Arc::new(old)));
    assert_eq!(status.document(span(0)).unwrap_err(), JobError::ModifiedBeforeEpoch);
}

#[test]
fn pause_keeps_the_start() {
    let mut status = JobStatus::default();
    status.on_event(&state("Printing", PrintStateCode::Printing), span(10));
    status.on_event(&state("Paused", PrintStateCode::Paused), span(20));
    assert_eq!(job(&status, span(25))["progress"]["printTime"], Value::from(15));
    status.on_event(&state("Printing", PrintStateCode::Printing), span(30));
    status.on_event(&state("Printing", PrintStateCode::Printing), span(35));
    assert_eq!(job(&status, span(40))["progress"]["printTime"], Value::from(30));
    assert_eq!(job(&status, span(40))["progress"]["printTimeLeft"], Value::Null);
    assert_eq!(job(&status, span(40))["progress"]["printTimeLeftOrigin"], Value::Null);
}

#[test]
fn finished_job_keeps_its_time() {
    for code in [
        PrintStateCode::Finished,
        PrintStateCode::Failed,
        PrintStateCode::Idle,
        PrintStateCode::Cancelled,
    ] {
        let mut status = JobStatus::default();
        status.on_event(
            &state("Printing", PrintStateCode::Printing),
            Span { secs: 10, nanos: 900_000_000 },
        );
        status.on_event(&state("x", code), Span { secs: 20, nanos: 100_000_000 });
        let progress = job(&status, span(1000))["progress"].clone();
        assert_eq!(progress["printTime"], Value::from(9));
        assert_eq!(progress["printTimeLeft"], Value::from(0));
        assert_eq!(progress["printTimeLeftOrigin"], Value::from("analysis"));
        status.on_event(&state("x", PrintStateCode::Idle), span(30));
        assert_eq!(job(&status, span(1000))["progress"]["printTime"], Value::from(9));
        status.on_event(&state("Printing", PrintStateCode::Printing), span(40));
        assert_eq!(job(&status, span(43))["progress"]["printTime"], Value::from(3));
        status.on_event(&offline_event(), span(50));
        assert_eq!(job(&status, span(60))["progress"]["printTime"], Value::Null);
    }
}

#[test]
fn remaining_time_counts_only_while_printing() {
    let mut status = JobStatus::default();
    status.on_event(&PrinterEvent::RemainingPrintTime(span(5)), span(0));
    assert_eq!(job(&status, span(0))["progress"]["printTimeLeft"], Value::Null);
}

#[test]
fn time_does_not_run_backwards() {
    assert_eq!(span(5).elapsed(span(3)), span(0));
    assert_eq!(
        Span { secs: 1, nanos: 999_999_999 }.elapsed(Span { secs: 3, nanos: 0 }),
        Span { secs: 1, nanos: 1 }
    );
    assert!(Timestamp::BeforeEpoch(span(2)).is_before(&Timestamp::BeforeEpoch(span(1))));
    assert!(Timestamp::BeforeEpoch(span(2)).is_before(&Timestamp::AfterEpoch(span(0))));
    assert!(!Timestamp::AfterEpoch(span(1)).is_before(&Timestamp::AfterEpoch(span(1))));
}

#[test]
fn requests_need_no_key_where_none_is_set() {
    assert_eq!(authorize(None, None, None), Ok(()));
    assert_eq!(authorize(None, Some(&[0xff]), None), Ok(()));
}

#[test]
fn requests_need_a_key_where_some_are_set() {
    let cfg = AuthConfig { api_keys: vec!["one".to_string(), "two\tx".to_string()] };
    let ask = |key: Option<&[u8]>, auth: Option<&[u8]>| authorize(Some(&cfg), key, auth);
    assert_eq!(ask(Some(b"one"), None), Ok(()));
    assert_eq!(ask(Some(b"two\tx"), None), Ok(()));
    assert_eq!(ask(None, Some(b"Bearer one")), Ok(()));
    assert_eq!(ask(Some(b"one"), Some(b"nonsense")), Ok(()));
    assert_eq!(ask(Some(b"three"), Some(b"Bearer one")), Err(Rejection::InvalidKey));
    assert_eq!(ask(None, Some(b"Bearer ")), Err(Rejection::InvalidKey));
    assert_eq!(ask(None, Some(b"bearer one")), Err(Rejection::MalformedAuthorization));
    assert_eq!(ask(None, Some(b"Bearer on\xe9")), Err(Rejection::MalformedAuthorization));
    assert_eq!(ask(Some(b"on\xe9"), None), Err(Rejection::MalformedKey));
    assert_eq!(ask(Some(b"one\n"), None), Err(Rejection::MalformedKey));
    assert_eq!(ask(Some(b"one\x7f"), None), Err(Rejection::MalformedKey));
    assert_eq!(ask(None, None), Err(Rejection::MissingKey));
    let none = AuthConfig { api_keys: vec![] };
    assert_eq!(authorize(Some(&none), Some(b"one"), None), Err(Rejection::InvalidKey));
}

#[test]
fn refusals_are_explained() {
    for (rejection, status, message) in [
        (Rejection::MalformedKey, 400, "Malformed API key"),
        (Rejection::MalformedAuthorization, 400, "Malformed Authorization header"),
        (Rejection::MissingKey, 401, "Missing API key"),
        (Rejection::InvalidKey, 401, "Invalid API key"),
    ] {
        assert_eq!((rejection.status(), rejection.message()), (status, message));
    }
}

#[test]
fn downloads_are_named_by_path() {
    assert!(is_named("model/a.gcode", "/model/a.gcode"));
    assert!(is_named("model//x/../a.gcode", "/model/a.gcode"));
    assert!(is_named("./model/a.gcode", "model/a.gcode"));
    assert!(is_named("../model/a.gcode", "/model/a.gcode"));
    assert!(!is_named("/model/a.gcode", "/model/a.gcode"));
    assert!(is_named("a.gcode", "/model/a.gcode"));
    assert!(is_named("x/../a.gcode", "/model/a.gcode"));
    assert!(!is_named("b.gcode", "/model/a.gcode"));
    assert!(!is_named("other/a.gcode", "/model/a.gcode"));
    assert!(!is_named("/a.gcode", "/model/a.gcode"));
    assert!(!is_named("model/a.gcode/b", "/model/a.gcode"));
    assert!(!is_named("model", "/model/a.gcode"));
    assert!(is_named("a.gcode", "/x/../a.gcode"));
    assert!(!is_named("x/y/../a.gcode", "/x/y/../a.gcode"));
    assert!(!is_named("..", "/x/.."));
    assert!(is_named("", "/"));
}

#[test]
fn reported_path_is_a_download() {
    for path in ["/a.gcode", "/model/a.gcode", "//model/./a b.gcode", "a.gcode"] {
        let mut status = JobStatus::default();
        let served = CurrentGcode::Current(gcode(path, "G0"));
        status.on_gcode(served.clone());
        let doc = job(&status, span(0));
        let reported = doc["job"]["file"]["path"].as_str().unwrap();
        match handle_gcode_download(&served, reported) {
            Download::Content(found) => assert_eq!(&found.content[..], b"G0"),
            other => panic!("{path}: {other:?}"),
        }
    }
}

#[test]
fn fetched_gcode_is_downloaded() {
    let meta = GcodeMeta {
        source: GcodeMetaSource::Resolved(FilePath::StrippedPath("/model/a.gcode".to_string())),
        modified_time: Timestamp::AfterEpoch(span(1)),
        original_filesize: 3,
    };
    let mut fetching = Fetching::Retrieving { meta };
    let mut served = CurrentGcode::Nothing;
    let (_, told) = fetching.step(Happening::Content(Arc::from(&b"G28"[..])), &Vec::new(), &mut served);
    assert!(told);
    match handle_gcode_download(&served, "model/a.gcode") {
        Download::Content(found) => assert_eq!(&found.content[..], b"G28"),
        other => panic!("{other:?}"),
    }
}

#[test]
fn reported_name_is_a_download() {
    for path in ["/a.gcode", "/model/a.gcode", "/x/y/../a.gcode", "a.gcode"] {
        let mut status = JobStatus::default();
        let served = CurrentGcode::Current(gcode(path, "G28\n"));
        status.on_gcode(served.clone());
        let doc = job(&status, span(0));
        let name = doc["job"]["file"]["name"].as_str().unwrap();
        assert_eq!(name, "a.gcode");
        let answer = handle_gcode_download(&served, name);
        assert_eq!(answer.status(), 200);
        match answer {
            Download::Content(found) => assert_eq!(&found.content[..], b"G28\n"),
            other => panic!("{path}: {other:?}"),
        }
        let outdated = CurrentGcode::Outdated(gcode(path, "G28\n"));
        assert_eq!(handle_gcode_download(&outdated, name).status(), 409);
    }
}

#[test]
fn downloads_depend_on_what_is_served() {
    let outdated = CurrentGcode::Outdated(gcode("/a", "G0"));
    let conflict = handle_gcode_download(&outdated, "a");
    assert_eq!((conflict.status(), conflict.message()), (409, "Still fetching new gcode"));
    assert_eq!(handle_gcode_download(&outdated, "b").status(), 404);
    let nothing = handle_gcode_download(&CurrentGcode::Nothing, "a");
    assert_eq!((nothing.status(), nothing.message()), (404, ""));
    let current = CurrentGcode::Current(gcode("/a", "G0"));
    assert_eq!(handle_gcode_download(&current, "a").status(), 200);
}

#[test]
fn missing_documents_have_a_status() {
    assert_eq!(handler_impl(Some(5)), Ok(5));
    assert_eq!(handler_impl::<u8>(None), Err(204));
}

#[test]
fn port_is_80_where_none_is_set() {
    assert_eq!(default_port(), 80);
}
