use boe::clock::Span;
use boe::json::{parse, Double, Json};
use boe::printer_spy::{
    after_link_error, after_ping, offline_event, parse_print_url, parse_printer_state_info,
    parse_report, parse_thermistors_from_push, pushall_request, read_message, report_topic,
    request_topic, FilePath, Incoming, LinkAction, LinkError, Listener, PingAction, PingOutcome,
    PrintStateCode, PrinterEvent, PrinterStateInfo, RawReportKind, SessionError, Thermistor,
};
use boe::spying::{Spy, SpyHappening, SpyTask};

fn doc(text: &str) -> Json {
    parse(text.as_bytes()).unwrap()
}

fn print_part(fields: &str) -> Json {
    doc(&format!("{{{fields}}}"))
}

fn status(fields: &str) -> Json {
    doc(&format!("{{\"print\":{{\"command\":\"push_status\",{fields}}}}}"))
}

fn shown<T: std::fmt::Debug>(value: &T) -> String {
    format!("{value:?}")
}

fn double(x: f64) -> Double {
    Double { bits: x.to_bits() }
}

fn state(raw: &'static str, code: PrintStateCode) -> String {
    shown(&PrinterEvent::PrintState { raw, code })
}

#[test]
fn json_is_read_as_plain_values() {
    let json = doc(r#"{"a":[null,true,-3,18446744073709551615,1.5],"b":{"c":"d"}}"#);
    assert_eq!(json.get("b").unwrap().str_at("c"), Some("d"));
    let items = match json.get("a") {
        Some(Json::Array(items)) => items,
        _ => panic!("no array"),
    };
    assert!(matches!(items[0], Json::Null));
    assert!(matches!(items[1], Json::Bool(true)));
    assert_eq!(items[2].as_i64(), Some(-3));
    assert_eq!(items[2].as_u64(), None);
    assert_eq!(items[3].as_u64(), Some(u64::MAX));
    assert_eq!(items[3].as_i64(), None);
    assert_eq!(items[4].as_double(), Some(double(1.5)));
    assert_eq!(items[2].as_double(), Some(double(-3.0)));
    assert_eq!(items[3].as_double(), Some(double(18446744073709551616.0)));
    assert_eq!(items[4].as_i64(), None);
    assert_eq!(items[1].as_str(), None);
    assert!(json.get("missing").is_none());
    assert!(items[0].get("a").is_none());
    assert_eq!(json.i64_at("b"), None);
}

#[test]
fn bytes_that_are_no_json_are_refused() {
    assert!(parse(b"{\"a\":").is_none());
    assert!(parse(b"").is_none());
    assert!(parse(&[0xff, 0xfe]).is_none());
    assert!(parse(b"1 2").is_none());
    assert!(parse(b" 1 ").is_some());
}

#[test]
fn reports_are_told_apart_by_command() {
    let pushed = doc(r#"{"print":{"command":"push_status","x":1}}"#);
    let (kind, print) = parse_report(&pushed).unwrap();
    assert_eq!(kind, RawReportKind::PushStatus);
    assert_eq!(print.i64_at("x"), Some(1));
    let project = doc(r#"{"print":{"command":"project_file"}}"#);
    assert_eq!(parse_report(&project).unwrap().0, RawReportKind::ProjectFile);
}

#[test]
fn other_reports_are_passed_over() {
    for text in [
        r#"{"info":{"command":"push_status"}}"#,
        r#"{"print":{}}"#,
        r#"{"print":{"command":5}}"#,
        r#"{"print":{"command":"pause"}}"#,
        r#"[1]"#,
    ] {
        assert!(parse_report(&doc(text)).is_none(), "{text}");
    }
}

#[test]
fn temperatures_come_tool_first() {
    let print = print_part(
        r#""bed_temper":60,"nozzle_target_temper":220.5,"nozzle_temper":219.25,"bed_target_temper":65"#,
    );
    let events = parse_thermistors_from_push(&print);
    let expected = vec![
        PrinterEvent::Temperature { which: Thermistor::Tool, value: double(219.25) },
        PrinterEvent::TemperatureTarget { which: Thermistor::Tool, value: double(220.5) },
        PrinterEvent::Temperature { which: Thermistor::Bed, value: double(60.0) },
        PrinterEvent::TemperatureTarget { which: Thermistor::Bed, value: double(65.0) },
    ];
    assert_eq!(shown(&events), shown(&expected));
}

#[test]
fn missing_temperatures_are_left_out() {
    let events = parse_thermistors_from_push(&print_part(r#""bed_temper":"hot","nozzle_temper":1"#));
    assert_eq!(
        shown(&events),
        shown(&vec![PrinterEvent::Temperature { which: Thermistor::Tool, value: double(1.0) }])
    );
    assert!(parse_thermistors_from_push(&print_part("")).is_empty());
}

#[test]
fn state_fields_are_read() {
    let info = parse_printer_state_info(&print_part(
        r#""stg_cur":-1,"gcode_state":"RUNNING","print_error":7"#,
    ));
    assert_eq!(
        info,
        PrinterStateInfo {
            stg_cur: Some(-1),
            gcode_state: Some(PrintStateCode::Printing),
            print_error: Some(7)
        }
    );
    assert!(info.is_full() && !info.is_empty());
    let none = parse_printer_state_info(&print_part(r#""stg_cur":"1","print_error":-1"#));
    assert!(none.is_empty() && !none.is_full());
    assert_eq!(none, PrinterStateInfo::default());
}

#[test]
fn state_names_are_known() {
    for (name, code) in [
        ("RUNNING", PrintStateCode::Printing),
        ("PREPARE", PrintStateCode::Printing),
        ("FINISH", PrintStateCode::Finished),
        ("FAILED", PrintStateCode::Failed),
        ("PAUSE", PrintStateCode::Paused),
        ("IDLE", PrintStateCode::Idle),
        ("running", PrintStateCode::Idle),
    ] {
        let info = parse_printer_state_info(&print_part(&format!("\"gcode_state\":\"{name}\"")));
        assert_eq!(info.gcode_state, Some(code), "{name}");
    }
}

#[test]
fn states_are_described() {
    let update = |stg_cur: i64, code: PrintStateCode, print_error: u64| {
        shown(
            &PrinterStateInfo {
                stg_cur: Some(stg_cur),
                gcode_state: Some(code),
                print_error: Some(print_error),
            }
            .as_state_update(),
        )
    };
    for stage in [2, 7] {
        assert_eq!(
            update(stage, PrintStateCode::Printing, 0),
            state("Preheating", PrintStateCode::Printing)
        );
    }
    for stage in [4, 22, 24] {
        assert_eq!(
            update(stage, PrintStateCode::Printing, 0),
            state("Changing filament", PrintStateCode::Printing)
        );
    }
    assert_eq!(
        update(0, PrintStateCode::Printing, 0),
        state("Printing", PrintStateCode::Printing)
    );
    assert_eq!(update(2, PrintStateCode::Paused, 0), state("Paused", PrintStateCode::Paused));
    assert_eq!(update(2, PrintStateCode::Idle, 0), state("Online", PrintStateCode::Idle));
    assert_eq!(update(2, PrintStateCode::Finished, 0), state("Finished", PrintStateCode::Finished));
    assert_eq!(update(2, PrintStateCode::Failed, 1), state("Failed", PrintStateCode::Failed));
    for stopped in [0x0500400E, 0x0300400C] {
        assert_eq!(
            update(2, PrintStateCode::Failed, stopped),
            state("Cancelled", PrintStateCode::Cancelled)
        );
    }
    assert_eq!(
        update(2, PrintStateCode::Cancelled, 0),
        state("Cancelled", PrintStateCode::Cancelled)
    );
}

#[test]
fn report_goes_over_what_was_known() {
    let mut info = PrinterStateInfo::default();
    info.merge(PrinterStateInfo { stg_cur: Some(1), gcode_state: None, print_error: None });
    info.merge(PrinterStateInfo {
        stg_cur: Some(2),
        gcode_state: Some(PrintStateCode::Paused),
        print_error: None,
    });
    info.merge(PrinterStateInfo { stg_cur: None, gcode_state: None, print_error: Some(3) });
    assert_eq!(
        info,
        PrinterStateInfo {
            stg_cur: Some(2),
            gcode_state: Some(PrintStateCode::Paused),
            print_error: Some(3)
        }
    );
    let before = info;
    info.merge(before);
    assert_eq!(info, before);
}

#[test]
fn merging_goes_in_any_grouping() {
    let a = PrinterStateInfo { stg_cur: None, gcode_state: None, print_error: Some(1) };
    let b = PrinterStateInfo { stg_cur: Some(2), gcode_state: None, print_error: Some(3) };
    let c = PrinterStateInfo {
        stg_cur: Some(4),
        gcode_state: Some(PrintStateCode::Idle),
        print_error: None,
    };
    let merged = |mut x: PrinterStateInfo, y: PrinterStateInfo| {
        x.merge(y);
        x
    };
    assert_eq!(merged(merged(a, b), c), merged(a, merged(b, c)));
    assert_eq!(
        merged(merged(a, b), c),
        PrinterStateInfo {
            stg_cur: Some(4),
            gcode_state: Some(PrintStateCode::Idle),
            print_error: Some(3)
        }
    );
}

#[test]
fn urls_lose_the_prefix_of_the_sdcard() {
    assert_eq!(parse_print_url("ftp:///cube.3mf"), "cube.3mf");
    assert_eq!(parse_print_url("file:///mnt/sdcard/a/cube.3mf"), "a/cube.3mf");
    assert_eq!(parse_print_url("file:///sdcard/cube.3mf"), "cube.3mf");
    assert_eq!(parse_print_url("http://host/cube.3mf"), "http://host/cube.3mf");
    assert_eq!(parse_print_url("ftp:///ftp:///x"), "ftp:///x");
    assert_eq!(parse_print_url(""), "");
}

#[test]
fn partial_reports_make_up_a_state() {
    let mut listener = Listener::new();
    let mut file = FilePath::default();
    let first = listener.handle_report(&status(r#""stg_cur":0,"print_error":0"#), &mut file);
    assert!(first.events.is_empty() && !first.file_changed);
    let second =
        listener.handle_report(&status(r#""gcode_state":"RUNNING","bed_temper":1"#), &mut file);
    assert_eq!(second.events.len(), 2);
    assert_eq!(shown(&second.events[1]), state("Printing", PrintStateCode::Printing));
    assert!(!listener.gcode_file_armed);
    let third = listener.handle_report(&status(r#""bed_temper":1"#), &mut file);
    assert_eq!(third.events.len(), 1);
    let fourth = listener.handle_report(&status(r#""gcode_state":"PAUSE""#), &mut file);
    assert_eq!(fourth.events.len(), 1);
    assert_eq!(shown(&fourth.events[0]), state("Paused", PrintStateCode::Paused));
}

#[test]
fn gcode_file_tells_of_the_job() {
    let mut listener = Listener::new();
    let mut file = FilePath::default();
    let named = status(r#""gcode_file":"a/b.gcode""#);
    assert!(listener.handle_report(&named, &mut file).file_changed);
    assert_eq!(shown(&file), shown(&FilePath::StrippedPath("a/b.gcode".to_string())));
    assert!(!listener.handle_report(&named, &mut file).file_changed);
    let same = status(r#""gcode_file":"a//b.gcode/""#);
    assert!(!listener.handle_report(&same, &mut file).file_changed);
    assert_eq!(shown(&file), shown(&FilePath::StrippedPath("a/b.gcode".to_string())));
    let other = status(r#""gcode_file":"a/c.gcode""#);
    assert!(listener.handle_report(&other, &mut file).file_changed);
    let empty = status(r#""gcode_file":"""#);
    assert!(listener.handle_report(&empty, &mut file).file_changed);
    assert_eq!(shown(&file), "NoJob");
    assert!(!listener.handle_report(&empty, &mut file).file_changed);
    assert!(!listener.handle_report(&status(r#""gcode_file":5"#), &mut file).file_changed);
}

#[test]
fn project_file_announces_a_file() {
    let mut listener = Listener::new();
    let mut file = FilePath::default();
    let report = doc(
        r#"{"print":{"command":"project_file","result":"SUCCESS","url":"ftp:///cube.3mf","param":"Metadata/plate_2.gcode"}}"#,
    );
    let outcome = listener.handle_report(&report, &mut file);
    assert!(outcome.events.is_empty() && outcome.file_changed);
    assert_eq!(
        shown(&file),
        shown(&FilePath::Inside3MF {
            sdcard: "cube.3mf".to_string(),
            subpath: "Metadata/plate_2.gcode".to_string()
        })
    );
    assert_eq!(file.targeted_filename().map(String::as_str), Some("cube.3mf"));
}

#[test]
fn failed_or_malformed_project_files_are_passed_over() {
    for text in [
        r#"{"print":{"command":"project_file","result":"fail","url":"u","param":"p"}}"#,
        r#"{"print":{"command":"project_file","url":"u","param":"p"}}"#,
        r#"{"print":{"command":"project_file","result":"success","param":"p"}}"#,
        r#"{"print":{"command":"project_file","result":"success","url":"u"}}"#,
    ] {
        let mut listener = Listener { gcode_file_armed: true, ..Listener::new() };
        let mut file = FilePath::default();
        assert!(!listener.handle_report(&doc(text), &mut file).file_changed, "{text}");
        assert!(listener.gcode_file_armed);
        assert_eq!(shown(&file), "NoJob");
    }
}

#[test]
fn announced_file_stays_until_the_printer_rested() {
    let mut listener = Listener::new();
    let mut file =
        FilePath::Inside3MF { sdcard: "dir/cube.3mf".to_string(), subpath: "p".to_string() };
    let other = status(r#""gcode_file":"ball.3mf""#);
    assert!(!listener.handle_report(&other, &mut file).file_changed);
    assert!(!listener.handle_report(&status(r#""gcode_state":"IDLE""#), &mut file).file_changed);
    assert!(listener.gcode_file_armed);
    let same_name = status(r#""gcode_file":"/cache/cube.3mf""#);
    assert!(!listener.handle_report(&same_name, &mut file).file_changed);
    assert!(listener.gcode_file_armed);
    assert!(listener.handle_report(&other, &mut file).file_changed);
    assert!(!listener.gcode_file_armed);
    assert_eq!(shown(&file), shown(&FilePath::StrippedPath("ball.3mf".to_string())));
}

#[test]
fn announced_file_ends_with_the_job() {
    let mut listener = Listener::new();
    let mut file = FilePath::Inside3MF { sdcard: "c.3mf".to_string(), subpath: "p".to_string() };
    assert!(listener.handle_report(&status(r#""gcode_file":"""#), &mut file).file_changed);
    assert_eq!(shown(&file), "NoJob");
}

#[test]
fn topics_are_made_of_the_serial_number() {
    assert_eq!(report_topic("01S00"), "device/01S00/report");
    assert_eq!(request_topic("01S00"), "device/01S00/request");
    let request = doc(pushall_request());
    let pushing = request.get("pushing").unwrap();
    assert_eq!(pushing.str_at("command"), Some("pushall"));
    assert_eq!(pushing.i64_at("push_target"), Some(1));
    assert_eq!(pushing.str_at("sequence_id"), Some("20001"));
    assert_eq!(pushing.i64_at("version"), Some(1));
}

#[test]
fn messages_are_read_by_topic() {
    assert!(matches!(read_message("device/x/request", b"{}"), Incoming::Unrelated));
    assert!(matches!(read_message("report", b"{}"), Incoming::Unrelated));
    assert!(matches!(read_message(&report_topic("x"), b"{"), Incoming::Malformed));
    match read_message(&report_topic("x"), b"{\"a\":1}") {
        Incoming::Report(doc) => assert_eq!(doc.i64_at("a"), Some(1)),
        other => panic!("{other:?}"),
    }
}

#[test]
fn pings_are_repeated() {
    assert_eq!(after_ping(3, PingOutcome::Replied), PingAction::Connect);
    let retry = |sequence: u16| PingAction::Retry { sequence, after: Span { secs: 5, nanos: 0 } };
    assert_eq!(after_ping(3, PingOutcome::Timeout), retry(4));
    assert_eq!(after_ping(0, PingOutcome::NetworkError), retry(1));
    assert_eq!(after_ping(u16::MAX, PingOutcome::IoError), retry(0));
    assert_eq!(after_ping(3, PingOutcome::Other), PingAction::Fail);
}

fn next(spy: &mut Spy, happening: SpyHappening, file: &mut FilePath) -> SpyTask {
    let (task, outcome) = spy.step(happening, file);
    assert!(outcome.events.is_empty() && !outcome.file_changed);
    task
}

fn connect(spy: &mut Spy, file: &mut FilePath) {
    assert_eq!(next(spy, SpyHappening::Done, file), SpyTask::SendOffline);
    assert_eq!(next(spy, SpyHappening::Done, file), SpyTask::Ping(0));
    let up = SpyHappening::Pinged(PingOutcome::Replied);
    assert_eq!(next(spy, up, file), SpyTask::Connect);
    assert_eq!(next(spy, SpyHappening::Done, file), SpyTask::Poll);
}

#[test]
fn lost_connection_starts_over() {
    let mut file = FilePath::default();
    let (mut spy, task) = Spy::start();
    assert_eq!(task, SpyTask::ResetFile);
    connect(&mut spy, &mut file);
    let report = status(r#""gcode_state":"IDLE","stg_cur":0,"print_error":0,"gcode_file":"a""#);
    let (task, outcome) = spy.step(SpyHappening::Message(Incoming::Report(report)), &mut file);
    assert_eq!(task, SpyTask::Poll);
    assert_eq!(shown(&outcome.events), format!("[{}]", state("Online", PrintStateCode::Idle)));
    assert!(outcome.file_changed);
    assert!(matches!(spy, Spy::Listening { listener } if listener.gcode_file_armed));
    let ignored = SpyHappening::LinkError(LinkError::Other);
    assert_eq!(next(&mut spy, ignored, &mut file), SpyTask::Poll);
    for message in [Incoming::Unrelated, Incoming::Malformed] {
        let message = SpyHappening::Message(message);
        assert_eq!(next(&mut spy, message, &mut file), SpyTask::Poll);
    }
    let lost = SpyHappening::LinkError(LinkError::Io);
    assert_eq!(next(&mut spy, lost, &mut file), SpyTask::ResetFile);
    connect(&mut spy, &mut file);
    assert_eq!(spy, Spy::Listening { listener: Listener::new() });
}

#[test]
fn silent_printer_is_waited_for() {
    let mut file = FilePath::default();
    let mut spy = Spy::Pinging { sequence: u16::MAX };
    let wait = SpyTask::Wait(Span { secs: 5, nanos: 0 });
    for sequence in [0, 1] {
        let silent = SpyHappening::Pinged(PingOutcome::Timeout);
        assert_eq!(next(&mut spy, silent, &mut file), wait);
        assert_eq!(next(&mut spy, SpyHappening::Done, &mut file), SpyTask::Ping(sequence));
    }
}

#[test]
fn printer_is_given_up() {
    let mut file = FilePath::default();
    for (mut spy, happening) in [
        (Spy::Pinging { sequence: 0 }, SpyHappening::Pinged(PingOutcome::Other)),
        (Spy::Announcing, SpyHappening::Unheard),
        (Spy::Connecting, SpyHappening::Refused),
        (
            Spy::Listening { listener: Listener::new() },
            SpyHappening::LinkError(LinkError::ConnectionRefused),
        ),
    ] {
        assert_eq!(next(&mut spy, happening, &mut file), SpyTask::Stop);
        assert_eq!(spy, Spy::Stopped);
    }
}

#[test]
fn lost_links_are_made_anew() {
    for error in [
        LinkError::Io,
        LinkError::MqttState(SessionError::Io),
        LinkError::MqttState(SessionError::ConnectionAborted),
        LinkError::MqttState(SessionError::AwaitPingResp),
        LinkError::MqttState(SessionError::Other),
        LinkError::NetworkTimeout,
        LinkError::FlushTimeout,
        LinkError::NotConnAck,
    ] {
        assert_eq!(after_link_error(error), LinkAction::Reconnect, "{error:?}");
    }
    assert_eq!(after_link_error(LinkError::Tls), LinkAction::Abort);
    assert_eq!(after_link_error(LinkError::ConnectionRefused), LinkAction::Abort);
    assert_eq!(after_link_error(LinkError::Other), LinkAction::Ignore);
}

#[test]
fn events_are_cloned_whole() {
    assert_eq!(shown(&offline_event()), state("Offline", PrintStateCode::Offline));
    for event in [
        offline_event(),
        PrinterEvent::GcodeLine(3),
        PrinterEvent::PrintPercentage(double(4.5)),
        PrinterEvent::RemainingPrintTime(Span { secs: 5, nanos: 6 }),
        PrinterEvent::Temperature { which: Thermistor::Bed, value: double(1.0) },
        PrinterEvent::TemperatureTarget { which: Thermistor::Bed, value: double(2.0) },
    ] {
        assert_eq!(shown(&event.clone()), shown(&event));
    }
    let file = FilePath::Inside3MF { sdcard: "a".to_string(), subpath: "b".to_string() };
    assert_eq!(shown(&file.clone()), shown(&file));
    assert_eq!(shown(&FilePath::NoJob.clone()), "NoJob");
    assert!(FilePath::NoJob.targeted_filename().is_none());
}
