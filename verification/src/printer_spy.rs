//! What the printer's reports say about its state and about the file it prints.

use crate::clock::Span;
use crate::json::{parse, parsed, Double, Json, JsonView};
use crate::paths::{components_of, file_name_of, reported_file_name, same_reported_path};
use crate::text::{ends_with, eq_ignore_ascii_case, same_but_for_case, same_text, strip_prefix};
use vstd::prelude::*;
use vstd::string::StringExecFns;

verus! {

/// The file that the printer works on, as far as its reports tell.
#[derive(Debug)]
pub enum FilePath {
    /// We heard a project_file command response which pointed at this path on the sdcard
    /// and with this specific subpath.
    Inside3MF { sdcard: String, subpath: String },
    /// We've only seen a print status report which reported this as the active gcode_file.
    /// The actual path on the sdcard might be in a subfolder (the settings list which folders
    /// are searched), and it might be a 3MF where we don't know which plate is being printed.
    StrippedPath(String),
    /// We don't have an active job.
    NoJob,
}

/// What a [`FilePath`] says.
pub enum FilePathView {
    Inside3MF { sdcard: Seq<char>, subpath: Seq<char> },
    StrippedPath(Seq<char>),
    NoJob,
}

impl View for FilePath {
    type V = FilePathView;

    open spec fn view(&self) -> FilePathView {
        match self {
            FilePath::Inside3MF { sdcard, subpath } => FilePathView::Inside3MF {
                sdcard: sdcard@,
                subpath: subpath@,
            },
            FilePath::StrippedPath(path) => FilePathView::StrippedPath(path@),
            FilePath::NoJob => FilePathView::NoJob,
        }
    }
}

impl FilePathView {
    /// The path on the sdcard of the file to fetch.
    pub open spec fn targeted_filename(self) -> Option<Seq<char>> {
        match self {
            FilePathView::Inside3MF { sdcard, .. } => Some(sdcard),
            FilePathView::StrippedPath(path) => Some(path),
            FilePathView::NoJob => None,
        }
    }
}

impl Default for FilePath {
    fn default() -> (r: FilePath)
        ensures
            r@ == FilePathView::NoJob,
    {
        FilePath::NoJob
    }
}

impl Clone for FilePath {
    fn clone(&self) -> (r: FilePath)
        ensures
            r@ == self@,
    {
        match self {
            FilePath::Inside3MF { sdcard, subpath } => FilePath::Inside3MF {
                sdcard: sdcard.clone(),
                subpath: subpath.clone(),
            },
            FilePath::StrippedPath(path) => FilePath::StrippedPath(path.clone()),
            FilePath::NoJob => FilePath::NoJob,
        }
    }
}

impl FilePath {
    /// The path on the sdcard of the file to fetch.
    pub fn targeted_filename(&self) -> (r: Option<&String>)
        ensures
            match r {
                Some(path) => self@.targeted_filename() == Some(path@),
                None => self@.targeted_filename() is None,
            },
    {
        match self {
            FilePath::Inside3MF { sdcard, .. } => Some(sdcard),
            FilePath::StrippedPath(path) => Some(path),
            FilePath::NoJob => None,
        }
    }
}

/// A place that the printer measures the temperature of.
#[derive(Debug, Clone, Copy, PartialEq, Eq, Structural)]
pub enum Thermistor {
    Bed,
    Tool,
}

/// What the printer does.
#[derive(Debug, Clone, Copy, PartialEq, Eq, Structural)]
pub enum PrintStateCode {
    Printing,
    Paused,
    Idle,
    Finished,
    Failed,
    Cancelled,
    Offline,
}

/// A change that the printer reported.
#[derive(Debug)]
pub enum PrinterEvent {
    /// What a thermistor measures.
    Temperature { which: Thermistor, value: Double },
    /// What a thermistor is to be brought to.
    TemperatureTarget { which: Thermistor, value: Double },
    /// What the printer does, and how to call it.
    PrintState { raw: &'static str, code: PrintStateCode },
    /// The line of gcode that is printed, counted from 1; 0 before the first.
    GcodeLine(u32),
    /// How much of the job is done, in percent.
    PrintPercentage(Double),
    /// How long the job will still take.
    RemainingPrintTime(Span),
}

/// What a [`PrinterEvent`] says.
pub enum EventView {
    Temperature { which: Thermistor, value: Double },
    TemperatureTarget { which: Thermistor, value: Double },
    PrintState { raw: Seq<char>, code: PrintStateCode },
    GcodeLine(u32),
    PrintPercentage(Double),
    RemainingPrintTime(Span),
}

impl View for PrinterEvent {
    type V = EventView;

    open spec fn view(&self) -> EventView {
        match self {
            PrinterEvent::Temperature { which, value } => EventView::Temperature {
                which: *which,
                value: *value,
            },
            PrinterEvent::TemperatureTarget { which, value } => EventView::TemperatureTarget {
                which: *which,
                value: *value,
            },
            PrinterEvent::PrintState { raw, code } => EventView::PrintState {
                raw: raw@,
                code: *code,
            },
            PrinterEvent::GcodeLine(line) => EventView::GcodeLine(*line),
            PrinterEvent::PrintPercentage(pct) => EventView::PrintPercentage(*pct),
            PrinterEvent::RemainingPrintTime(span) => EventView::RemainingPrintTime(*span),
        }
    }
}

impl Clone for PrinterEvent {
    fn clone(&self) -> (r: PrinterEvent)
        ensures
            r@ == self@,
    {
        match self {
            PrinterEvent::Temperature { which, value } => PrinterEvent::Temperature {
                which: *which,
                value: *value,
            },
            PrinterEvent::TemperatureTarget { which, value } => PrinterEvent::TemperatureTarget {
                which: *which,
                value: *value,
            },
            PrinterEvent::PrintState { raw, code } => PrinterEvent::PrintState {
                raw: *raw,
                code: *code,
            },
            PrinterEvent::GcodeLine(line) => PrinterEvent::GcodeLine(*line),
            PrinterEvent::PrintPercentage(pct) => PrinterEvent::PrintPercentage(*pct),
            PrinterEvent::RemainingPrintTime(span) => PrinterEvent::RemainingPrintTime(*span),
        }
    }
}

/// What the events say, in order.
pub open spec fn event_views(events: Seq<PrinterEvent>) -> Seq<EventView> {
    events.map_values(|e: PrinterEvent| e@)
}

/// What a report is about.
#[derive(Debug, Clone, Copy, PartialEq, Eq, Structural)]
pub enum RawReportKind {
    PushStatus,
    ProjectFile,
}

/// The kind of a report, by the command it names.
pub open spec fn kind_of_command(command: Seq<char>) -> Option<RawReportKind> {
    if command == "push_status"@ {
        Some(RawReportKind::PushStatus)
    } else if command == "project_file"@ {
        Some(RawReportKind::ProjectFile)
    } else {
        None
    }
}

/// The kind of a report, and the part of it that says more.
pub open spec fn report_parts(report: JsonView) -> Option<(RawReportKind, JsonView)> {
    match report.get("print"@) {
        Some(print) => match print.text_at("command"@) {
            Some(command) => match kind_of_command(command) {
                Some(kind) => Some((kind, print)),
                None => None,
            },
            None => None,
        },
        None => None,
    }
}

/// Tells what a report is about. A report without a `print` part, or whose
/// command is missing, not text or not known, is passed over.
pub fn parse_report(report: &Json) -> (r: Option<(RawReportKind, &Json)>)
    ensures
        match r {
            Some((kind, print)) => report_parts(report@) == Some((kind, print@)),
            None => report_parts(report@) is None,
        },
{
    let print = match report.get("print") {
        Some(print) => print,
        None => return None,
    };
    match print.str_at("command") {
        Some(command) => if same_text(command, "push_status") {
            Some((RawReportKind::PushStatus, print))
        } else if same_text(command, "project_file") {
            Some((RawReportKind::ProjectFile, print))
        } else {
            None
        },
        None => None,
    }
}

/// The event that a thermistor measured `value`, if it did.
pub open spec fn measured(which: Thermistor, value: Option<Double>) -> Seq<EventView> {
    match value {
        Some(value) => seq![EventView::Temperature { which, value }],
        None => Seq::empty(),
    }
}

/// The event that a thermistor was set to `value`, if it was.
pub open spec fn targeted(which: Thermistor, value: Option<Double>) -> Seq<EventView> {
    match value {
        Some(value) => seq![EventView::TemperatureTarget { which, value }],
        None => Seq::empty(),
    }
}

/// The temperatures that a status report holds.
pub open spec fn thermistor_events(print: JsonView) -> Seq<EventView> {
    measured(Thermistor::Tool, print.double_at("nozzle_temper"@))
        + targeted(Thermistor::Tool, print.double_at("nozzle_target_temper"@))
        + measured(Thermistor::Bed, print.double_at("bed_temper"@))
        + targeted(Thermistor::Bed, print.double_at("bed_target_temper"@))
}

/// Reads the temperatures of a status report: of the tool, then of the bed, and
/// of each what is measured before what is aimed at.
pub fn parse_thermistors_from_push(print: &Json) -> (events: Vec<PrinterEvent>)
    ensures
        event_views(events@) == thermistor_events(print@),
{
    let mut events: Vec<PrinterEvent> = Vec::new();
    if let Some(value) = print.double_at("nozzle_temper") {
        events.push(PrinterEvent::Temperature { which: Thermistor::Tool, value });
    }
    assert(event_views(events@) == measured(
        Thermistor::Tool,
        print@.double_at("nozzle_temper"@),
    ));
    let ghost first = event_views(events@);
    if let Some(value) = print.double_at("nozzle_target_temper") {
        events.push(PrinterEvent::TemperatureTarget { which: Thermistor::Tool, value });
    }
    assert(event_views(events@) == first + targeted(
        Thermistor::Tool,
        print@.double_at("nozzle_target_temper"@),
    ));
    let ghost second = event_views(events@);
    if let Some(value) = print.double_at("bed_temper") {
        events.push(PrinterEvent::Temperature { which: Thermistor::Bed, value });
    }
    assert(event_views(events@) == second + measured(
        Thermistor::Bed,
        print@.double_at("bed_temper"@),
    ));
    let ghost third = event_views(events@);
    if let Some(value) = print.double_at("bed_target_temper") {
        events.push(PrinterEvent::TemperatureTarget { which: Thermistor::Bed, value });
    }
    assert(event_views(events@) == third + targeted(
        Thermistor::Bed,
        print@.double_at("bed_target_temper"@),
    ));
    events
}

/// What is known of the printer's state. Reports are partial, so any of it may
/// be missing.
#[derive(Debug, Clone, Copy, PartialEq, Eq, Structural)]
pub struct PrinterStateInfo {
    pub stg_cur: Option<i64>,
    pub gcode_state: Option<PrintStateCode>,
    pub print_error: Option<u64>,
}

/// The first of two values that there is.
pub open spec fn or_else<T>(first: Option<T>, second: Option<T>) -> Option<T> {
    match first {
        Some(_) => first,
        None => second,
    }
}

/// Merges a field, through `merge::Merge::merge` for `Option`.
///
/// Trusted: a value that is there stays, one that is not is taken over.
#[verifier::external_body]
fn merge_field<T>(field: &mut Option<T>, other: Option<T>)
    ensures
        *final(field) == or_else(*old(field), other),
{
    merge::Merge::merge(field, other)
}

impl PrinterStateInfo {
    /// No report calls the printer offline.
    pub open spec fn wf(self) -> bool {
        self.gcode_state != Some(PrintStateCode::Offline)
    }

    /// Nothing is known.
    pub open spec fn empty(self) -> bool {
        self.stg_cur is None && self.gcode_state is None && self.print_error is None
    }

    /// Everything is known.
    pub open spec fn full(self) -> bool {
        self.stg_cur is Some && self.gcode_state is Some && self.print_error is Some
    }

    /// What is known after a report that says `next`: what it says, and what was
    /// known of the rest.
    pub open spec fn merged(self, next: PrinterStateInfo) -> PrinterStateInfo {
        PrinterStateInfo {
            stg_cur: or_else(next.stg_cur, self.stg_cur),
            gcode_state: or_else(next.gcode_state, self.gcode_state),
            print_error: or_else(next.print_error, self.print_error),
        }
    }

    /// What the printer does. A job that failed with one of the errors that a
    /// user's stop causes was cancelled.
    pub open spec fn code(self) -> PrintStateCode {
        match self.gcode_state {
            Some(PrintStateCode::Failed) => if self.print_error == Some(0x0500400Eu64)
                || self.print_error == Some(0x0300400Cu64) {
                PrintStateCode::Cancelled
            } else {
                PrintStateCode::Failed
            },
            Some(code) => code,
            None => PrintStateCode::Offline,
        }
    }

    /// How to call what the printer does.
    pub open spec fn description(self) -> Seq<char> {
        match self.code() {
            PrintStateCode::Printing => match self.stg_cur {
                Some(2) | Some(7) => "Preheating"@,
                Some(4) | Some(22) | Some(24) => "Changing filament"@,
                _ => "Printing"@,
            },
            PrintStateCode::Cancelled => "Cancelled"@,
            PrintStateCode::Paused => "Paused"@,
            PrintStateCode::Idle => "Online"@,
            PrintStateCode::Failed => "Failed"@,
            PrintStateCode::Finished => "Finished"@,
            PrintStateCode::Offline => "Offline"@,
        }
    }

    /// The event that tells what is known.
    pub open spec fn state_update(self) -> EventView {
        EventView::PrintState { raw: self.description(), code: self.code() }
    }

    /// Whether nothing is known.
    pub fn is_empty(&self) -> (r: bool)
        ensures
            r == self.empty(),
    {
        self.stg_cur.is_none() && self.gcode_state.is_none() && self.print_error.is_none()
    }

    /// Whether everything is known.
    pub fn is_full(&self) -> (r: bool)
        ensures
            r == self.full(),
    {
        self.stg_cur.is_some() && self.gcode_state.is_some() && self.print_error.is_some()
    }

    /// Takes over what a report says; what it does not speak of stays.
    pub fn merge(&mut self, next: PrinterStateInfo)
        ensures
            *final(self) == old(self).merged(next),
    {
        let mut info = next;
        merge_field(&mut info.stg_cur, self.stg_cur);
        merge_field(&mut info.gcode_state, self.gcode_state);
        merge_field(&mut info.print_error, self.print_error);
        *self = info;
    }

    /// Tells what is known.
    pub fn as_state_update(&self) -> (event: PrinterEvent)
        requires
            self.full(),
            self.wf(),
        ensures
            event@ == self.state_update(),
    {
        let next_psc = match self.gcode_state.unwrap() {
            PrintStateCode::Failed => match self.print_error.unwrap() {
                0x0500400E | 0x0300400C => PrintStateCode::Cancelled,
                _ => PrintStateCode::Failed,
            },
            pass => pass,
        };
        let next_desc = match next_psc {
            PrintStateCode::Printing => match self.stg_cur.unwrap() {
                2 | 7 => "Preheating",
                4 | 22 | 24 => "Changing filament",
                _ => "Printing",
            },
            PrintStateCode::Cancelled => "Cancelled",
            PrintStateCode::Paused => "Paused",
            PrintStateCode::Idle => "Online",
            PrintStateCode::Failed => "Failed",
            PrintStateCode::Finished => "Finished",
            PrintStateCode::Offline => "Offline",
        };
        PrinterEvent::PrintState { raw: next_desc, code: next_psc }
    }
}

impl Default for PrinterStateInfo {
    fn default() -> (r: PrinterStateInfo)
        ensures
            r.empty(),
            r.wf(),
    {
        PrinterStateInfo { stg_cur: None, gcode_state: None, print_error: None }
    }
}

/// What the printer does, by the name it gives it.
pub open spec fn code_of_state(state: Seq<char>) -> PrintStateCode {
    if state == "RUNNING"@ || state == "PREPARE"@ {
        PrintStateCode::Printing
    } else if state == "FINISH"@ {
        PrintStateCode::Finished
    } else if state == "FAILED"@ {
        PrintStateCode::Failed
    } else if state == "PAUSE"@ {
        PrintStateCode::Paused
    } else {
        PrintStateCode::Idle
    }
}

/// What a status report says of the printer's state.
pub open spec fn state_info_of(print: JsonView) -> PrinterStateInfo {
    PrinterStateInfo {
        stg_cur: print.signed_at("stg_cur"@),
        gcode_state: match print.text_at("gcode_state"@) {
            Some(state) => Some(code_of_state(state)),
            None => None,
        },
        print_error: print.unsigned_at("print_error"@),
    }
}

/// Reads what a status report says of the printer's state.
pub fn parse_printer_state_info(print: &Json) -> (r: PrinterStateInfo)
    ensures
        r == state_info_of(print@),
        r.wf(),
{
    PrinterStateInfo {
        stg_cur: print.i64_at("stg_cur"),
        gcode_state: match print.str_at("gcode_state") {
            Some(state) => Some(
                if same_text(state, "RUNNING") || same_text(state, "PREPARE") {
                    PrintStateCode::Printing
                } else if same_text(state, "FINISH") {
                    PrintStateCode::Finished
                } else if same_text(state, "FAILED") {
                    PrintStateCode::Failed
                } else if same_text(state, "PAUSE") {
                    PrintStateCode::Paused
                } else {
                    PrintStateCode::Idle
                },
            ),
            None => None,
        },
        print_error: print.u64_at("print_error"),
    }
}

/// The path on the sdcard that a url points at: what follows the prefix that
/// stands for the sdcard, or all of the url when it has none.
pub open spec fn sdcard_path(url: Seq<char>) -> Seq<char> {
    if "ftp:///"@.is_prefix_of(url) {
        url.skip("ftp:///"@.len() as int)
    } else if "file:///mnt/sdcard/"@.is_prefix_of(url) {
        url.skip("file:///mnt/sdcard/"@.len() as int)
    } else if "file:///sdcard/"@.is_prefix_of(url) {
        url.skip("file:///sdcard/"@.len() as int)
    } else {
        url
    }
}

/// Reads the path on the sdcard that a url points at.
pub fn parse_print_url(url: &str) -> (path: String)
    ensures
        path@ == sdcard_path(url@),
{
    if let Some(path) = strip_prefix(url, "ftp:///") {
        assert(url@.skip("ftp:///"@.len() as int) == path@);
        return path.to_owned();
    }
    if let Some(path) = strip_prefix(url, "file:///mnt/sdcard/") {
        assert(url@.skip("file:///mnt/sdcard/"@.len() as int) == path@);
        return path.to_owned();
    }
    if let Some(path) = strip_prefix(url, "file:///sdcard/") {
        assert(url@.skip("file:///sdcard/"@.len() as int) == path@);
        return path.to_owned();
    }
    url.to_owned()
}

/// What is kept from one report to the next.
#[derive(Debug, Clone, Copy, PartialEq, Eq, Structural)]
pub struct Listener {
    /// What is known of the printer's state, merged as partial reports come in.
    pub state_info: PrinterStateInfo,
    /// Whether the printer was at rest since the last project_file command, so
    /// that a change of the gcode_file tells of a new job.
    pub gcode_file_armed: bool,
}

/// What a report leads to.
#[derive(Debug)]
pub struct ReportOutcome {
    /// The events to pass on, in order.
    pub events: Vec<PrinterEvent>,
    /// Whether those who wait for the file are to be told.
    pub file_changed: bool,
}

/// What a report leads to.
pub struct OutcomeView {
    /// What is kept for the next report.
    pub listener: Listener,
    /// The events to pass on, in order.
    pub events: Seq<EventView>,
    /// The file that the printer works on.
    pub file: FilePathView,
    /// Whether those who wait for the file are to be told.
    pub file_changed: bool,
}

/// Whether the printer is at rest.
pub open spec fn at_rest(state: Option<PrintStateCode>) -> bool {
    state == Some(PrintStateCode::Finished) || state == Some(PrintStateCode::Cancelled) || state
        == Some(PrintStateCode::Idle) || state == Some(PrintStateCode::Failed)
}

/// What is kept after a status report has told of the state.
pub open spec fn heard_state(listener: Listener, next: PrinterStateInfo) -> Listener {
    if next.empty() {
        listener
    } else {
        Listener {
            state_info: listener.state_info.merged(next),
            gcode_file_armed: listener.gcode_file_armed || at_rest(next.gcode_state),
        }
    }
}

/// The event that a status report which says `next` of the state leads to.
pub open spec fn state_events(listener: Listener, next: PrinterStateInfo) -> Seq<EventView> {
    let info = heard_state(listener, next).state_info;
    if !next.empty() && info.full() {
        seq![info.state_update()]
    } else {
        Seq::empty()
    }
}

/// Whether a gcode_file tells of another file than the one worked on. An empty
/// one tells that there is no job. A file that a project_file command announced
/// stays until the printer was at rest and a file of another name comes up.
pub open spec fn file_differs(armed: bool, current: FilePathView, gcode_file: Seq<char>) -> bool {
    match current {
        FilePathView::NoJob => gcode_file.len() > 0,
        FilePathView::StrippedPath(path) => gcode_file.len() == 0 || components_of(path)
            != components_of(gcode_file),
        FilePathView::Inside3MF { sdcard, .. } => gcode_file.len() == 0 || (armed && file_name_of(
            sdcard,
        ) != file_name_of(gcode_file)),
    }
}

/// The file that a gcode_file names.
pub open spec fn file_named(gcode_file: Seq<char>) -> FilePathView {
    if gcode_file.len() == 0 {
        FilePathView::NoJob
    } else {
        FilePathView::StrippedPath(gcode_file)
    }
}

/// What a status report leads to.
pub open spec fn push_status(
    listener: Listener,
    print: JsonView,
    file: FilePathView,
) -> OutcomeView {
    let next = state_info_of(print);
    let heard = heard_state(listener, next);
    let events = thermistor_events(print) + state_events(listener, next);
    match print.text_at("gcode_file"@) {
        Some(gcode_file) if file_differs(heard.gcode_file_armed, file, gcode_file) => OutcomeView {
            listener: Listener {
                gcode_file_armed: heard.gcode_file_armed && !(file is Inside3MF
                    && gcode_file.len() > 0),
                ..heard
            },
            events,
            file: file_named(gcode_file),
            file_changed: true,
        },
        _ => OutcomeView { listener: heard, events, file, file_changed: false },
    }
}

/// What the answer to a project_file command leads to. Only a command that
/// succeeded, and that names a url and a file inside it, announces a file.
pub open spec fn project_file(
    listener: Listener,
    print: JsonView,
    file: FilePathView,
) -> OutcomeView {
    match (print.text_at("result"@), print.text_at("url"@), print.text_at("param"@)) {
        (Some(result), Some(url), Some(param)) if same_but_for_case(result, "success"@) =>
        OutcomeView {
            listener: Listener { gcode_file_armed: false, ..listener },
            events: Seq::empty(),
            file: FilePathView::Inside3MF { sdcard: sdcard_path(url), subpath: param },
            file_changed: true,
        },
        _ => OutcomeView { listener, events: Seq::empty(), file, file_changed: false },
    }
}

/// What a report leads to.
pub open spec fn report_outcome(
    listener: Listener,
    report: JsonView,
    file: FilePathView,
) -> OutcomeView {
    match report_parts(report) {
        Some((RawReportKind::PushStatus, print)) => push_status(listener, print, file),
        Some((RawReportKind::ProjectFile, print)) => project_file(listener, print, file),
        None => OutcomeView { listener, events: Seq::empty(), file, file_changed: false },
    }
}

impl Listener {
    /// No report calls the printer offline.
    pub open spec fn wf(self) -> bool {
        self.state_info.wf()
    }

    /// Nothing was heard.
    pub open spec fn fresh() -> Listener {
        Listener {
            state_info: PrinterStateInfo { stg_cur: None, gcode_state: None, print_error: None },
            gcode_file_armed: false,
        }
    }

    /// Nothing was heard.
    pub fn new() -> (r: Listener)
        ensures
            r == Listener::fresh(),
            r.wf(),
    {
        Listener { state_info: Default::default(), gcode_file_armed: false }
    }

    /// Takes in what a status report says of the state.
    fn hear_state(&mut self, next: PrinterStateInfo) -> (event: Option<PrinterEvent>)
        requires
            old(self).wf(),
            next.wf(),
        ensures
            *final(self) == heard_state(*old(self), next),
            final(self).wf(),
            match event {
                Some(event) => state_events(*old(self), next) == seq![event@],
                None => state_events(*old(self), next).len() == 0,
            },
    {
        if next.is_empty() {
            return None;
        }
        match next.gcode_state {
            Some(
                PrintStateCode::Finished
                | PrintStateCode::Cancelled
                | PrintStateCode::Idle
                | PrintStateCode::Failed,
            ) => self.gcode_file_armed = true,
            _ => {},
        }
        self.state_info.merge(next);
        if self.state_info.is_full() {
            Some(self.state_info.as_state_update())
        } else {
            None
        }
    }

    /// Takes in the gcode_file of a status report.
    fn hear_gcode_file(&mut self, gcode_file: &str, file: &mut FilePath) -> (changed: bool)
        ensures
            changed == file_differs(old(self).gcode_file_armed, old(file)@, gcode_file@),
            changed ==> final(file)@ == file_named(gcode_file@),
            !changed ==> final(file)@ == old(file)@,
            final(self).state_info == old(self).state_info,
            final(self).gcode_file_armed == (old(self).gcode_file_armed && !(changed && old(
                file,
            )@ is Inside3MF && gcode_file@.len() > 0)),
    {
        let none = gcode_file.is_empty();
        let changed = match &*file {
            FilePath::NoJob => !none,
            FilePath::StrippedPath(path) => none || !same_reported_path(path.as_str(), gcode_file),
            FilePath::Inside3MF { sdcard, .. } => if none {
                true
            } else if self.gcode_file_armed {
                let differs = match (
                    reported_file_name(sdcard.as_str()),
                    reported_file_name(gcode_file),
                ) {
                    (Some(a), Some(b)) => !same_text(a.as_str(), b.as_str()),
                    (None, None) => false,
                    _ => true,
                };
                if differs {
                    self.gcode_file_armed = false;
                }
                differs
            } else {
                false
            },
        };
        if changed {
            *file = if none {
                FilePath::NoJob
            } else {
                FilePath::StrippedPath(gcode_file.to_owned())
            };
        }
        changed
    }

    /// Takes in a report: tells what to pass on, and brings the file that the
    /// printer works on up to date.
    pub fn handle_report(&mut self, report: &Json, file: &mut FilePath) -> (r: ReportOutcome)
        requires
            old(self).wf(),
        ensures
            final(self).wf(),
            ({
                let outcome = report_outcome(*old(self), report@, old(file)@);
                &&& *final(self) == outcome.listener
                &&& event_views(r.events@) == outcome.events
                &&& final(file)@ == outcome.file
                &&& r.file_changed == outcome.file_changed
            }),
    {
        match parse_report(report) {
            None => ReportOutcome { events: Vec::new(), file_changed: false },
            Some((RawReportKind::PushStatus, print)) => {
                let mut events = parse_thermistors_from_push(print);
                let ghost temperatures = event_views(events@);
                let next = parse_printer_state_info(print);
                if let Some(event) = self.hear_state(next) {
                    events.push(event);
                }
                assert(event_views(events@) == temperatures + state_events(*old(self), next));
                let file_changed = match print.str_at("gcode_file") {
                    Some(gcode_file) => self.hear_gcode_file(gcode_file, file),
                    None => false,
                };
                ReportOutcome { events, file_changed }
            },
            Some((RawReportKind::ProjectFile, print)) => {
                let file_changed = match (
                    print.str_at("result"),
                    print.str_at("url"),
                    print.str_at("param"),
                ) {
                    (Some(result), Some(url), Some(param)) => if eq_ignore_ascii_case(
                        result,
                        "success",
                    ) {
                        *file = FilePath::Inside3MF {
                            sdcard: parse_print_url(url),
                            subpath: param.to_owned(),
                        };
                        self.gcode_file_armed = false;
                        true
                    } else {
                        false
                    },
                    _ => false,
                };
                ReportOutcome { events: Vec::new(), file_changed }
            },
        }
    }
}

/// The topic that the printer reports on.
pub open spec fn report_topic_of(serial: Seq<char>) -> Seq<char> {
    "device/"@ + serial + "/report"@
}

/// The topic that the printer takes requests on.
pub open spec fn request_topic_of(serial: Seq<char>) -> Seq<char> {
    "device/"@ + serial + "/request"@
}

/// The topic that the printer with this serial number reports on.
pub fn report_topic(serial: &str) -> (topic: String)
    ensures
        topic@ == report_topic_of(serial@),
{
    "device/".to_owned().concat(serial).concat("/report")
}

/// The topic that the printer with this serial number takes requests on.
pub fn request_topic(serial: &str) -> (topic: String)
    ensures
        topic@ == request_topic_of(serial@),
{
    "device/".to_owned().concat(serial).concat("/request")
}

/// The request for a report of everything.
pub fn pushall_request() -> (message: &'static str)
    ensures
        message@
            == "{\"pushing\":{\"command\":\"pushall\",\"push_target\":1,\"sequence_id\":\"20001\",\"version\":1}}"@,
{
    "{\"pushing\":{\"command\":\"pushall\",\"push_target\":1,\"sequence_id\":\"20001\",\"version\":1}}"
}

/// The event that tells that the printer cannot be reached.
pub fn offline_event() -> (event: PrinterEvent)
    ensures
        event@ == (EventView::PrintState { raw: "Offline"@, code: PrintStateCode::Offline }),
{
    PrinterEvent::PrintState { raw: "Offline", code: PrintStateCode::Offline }
}

/// What became of a ping.
#[derive(Debug, Clone, Copy, PartialEq, Eq, Structural)]
pub enum PingOutcome {
    Replied,
    NetworkError,
    Timeout,
    IoError,
    Other,
}

/// What to do after a ping.
#[derive(Debug, Clone, Copy, PartialEq, Eq, Structural)]
pub enum PingAction {
    /// The printer is up.
    Connect,
    /// Wait for this long, then ping with this sequence number.
    Retry { sequence: u16, after: Span },
    /// Give up.
    Fail,
}

/// How long to wait from one ping to the next: five seconds.
pub open spec fn ping_interval() -> Span {
    Span { secs: 5, nanos: 0 }
}

/// What to do after the ping with this sequence number. A printer that does not
/// answer is waited for; the sequence numbers start over after the last.
pub open spec fn ping_action(sequence: u16, outcome: PingOutcome) -> PingAction {
    match outcome {
        PingOutcome::Replied => PingAction::Connect,
        PingOutcome::NetworkError | PingOutcome::Timeout | PingOutcome::IoError =>
        PingAction::Retry {
            sequence: ((sequence + 1) % 0x10000) as u16,
            after: ping_interval(),
        },
        PingOutcome::Other => PingAction::Fail,
    }
}

/// Decides what to do after the ping with this sequence number.
pub fn after_ping(sequence: u16, outcome: PingOutcome) -> (action: PingAction)
    ensures
        action == ping_action(sequence, outcome),
{
    match outcome {
        PingOutcome::Replied => PingAction::Connect,
        PingOutcome::NetworkError | PingOutcome::Timeout | PingOutcome::IoError =>
        PingAction::Retry {
            sequence: sequence.wrapping_add(1),
            after: Span { secs: 5, nanos: 0 },
        },
        PingOutcome::Other => PingAction::Fail,
    }
}

/// Why the MQTT session is in a bad state.
#[derive(Debug, Clone, Copy, PartialEq, Eq, Structural)]
pub enum SessionError {
    Io,
    ConnectionAborted,
    AwaitPingResp,
    Other,
}

/// Why polling the MQTT connection failed.
#[derive(Debug, Clone, Copy, PartialEq, Eq, Structural)]
pub enum LinkError {
    Io,
    MqttState(SessionError),
    Tls,
    ConnectionRefused,
    NetworkTimeout,
    FlushTimeout,
    NotConnAck,
    Other,
}

/// What to do after polling the MQTT connection failed.
#[derive(Debug, Clone, Copy, PartialEq, Eq, Structural)]
pub enum LinkAction {
    /// Poll again.
    Ignore,
    /// Connect anew.
    Reconnect,
    /// Give up.
    Abort,
}

/// What to do after polling the MQTT connection failed: a connection that was
/// lost, or on which the printer talks nonsense, is made anew; one that was
/// refused, or cannot be made safe, is given up.
pub open spec fn link_action(error: LinkError) -> LinkAction {
    match error {
        LinkError::Tls | LinkError::ConnectionRefused => LinkAction::Abort,
        LinkError::Other => LinkAction::Ignore,
        _ => LinkAction::Reconnect,
    }
}

/// Decides what to do after polling the MQTT connection failed.
pub fn after_link_error(error: LinkError) -> (action: LinkAction)
    ensures
        action == link_action(error),
{
    match error {
        LinkError::Io | LinkError::MqttState(SessionError::Io) => LinkAction::Reconnect,
        LinkError::MqttState(SessionError::ConnectionAborted) => LinkAction::Reconnect,
        LinkError::Tls => LinkAction::Abort,
        LinkError::ConnectionRefused => LinkAction::Abort,
        LinkError::NetworkTimeout
        | LinkError::FlushTimeout
        | LinkError::MqttState(SessionError::AwaitPingResp) => LinkAction::Reconnect,
        LinkError::NotConnAck | LinkError::MqttState(_) => LinkAction::Reconnect,
        LinkError::Other => LinkAction::Ignore,
    }
}

/// What a message on a topic is.
#[derive(Debug)]
pub enum Incoming {
    /// Not a report.
    Unrelated,
    /// A report that is not JSON.
    Malformed,
    /// A report.
    Report(Json),
}

/// What an [`Incoming`] says.
pub enum IncomingView {
    Unrelated,
    Malformed,
    Report(JsonView),
}

impl View for Incoming {
    type V = IncomingView;

    open spec fn view(&self) -> IncomingView {
        match self {
            Incoming::Unrelated => IncomingView::Unrelated,
            Incoming::Malformed => IncomingView::Malformed,
            Incoming::Report(doc) => IncomingView::Report(doc@),
        }
    }
}

/// What a message on a topic is, by what `document` there is in it.
pub open spec fn message(topic: Seq<char>, document: Option<JsonView>) -> IncomingView {
    if !"/report"@.is_suffix_of(topic) {
        IncomingView::Unrelated
    } else {
        match document {
            Some(doc) => IncomingView::Report(doc),
            None => IncomingView::Malformed,
        }
    }
}

/// Reads a message: what comes on a topic of reports is one, if it is JSON.
pub fn read_message(topic: &str, payload: &[u8]) -> (r: Incoming)
    ensures
        r@ == message(topic@, parsed(payload@)),
{
    if !ends_with(topic, "/report") {
        return Incoming::Unrelated;
    }
    match parse(payload) {
        Some(doc) => Incoming::Report(doc),
        None => Incoming::Malformed,
    }
}

/// What the printer publishes on the topic that is subscribed to counts as a
/// report, whatever its serial number.
pub proof fn law_subscribed_topic_is_of_reports(serial: Seq<char>)
    ensures
        "/report"@.is_suffix_of(report_topic_of(serial)),
{
    let topic = report_topic_of(serial);
    assert(topic.skip(topic.len() - "/report"@.len()) == "/report"@);
}

/// What a report names is what is known after it; what it does not name stays.
/// So once everything is known, it stays so, and every later report that speaks
/// of the state is announced.
pub proof fn law_report_goes_over_what_was_known(info: PrinterStateInfo, next: PrinterStateInfo)
    ensures
        info.merged(next).stg_cur == (if next.stg_cur is Some {
            next.stg_cur
        } else {
            info.stg_cur
        }),
        info.merged(next).gcode_state == (if next.gcode_state is Some {
            next.gcode_state
        } else {
            info.gcode_state
        }),
        info.merged(next).print_error == (if next.print_error is Some {
            next.print_error
        } else {
            info.print_error
        }),
        info.full() || next.full() ==> info.merged(next).full(),
        forall|listener: Listener|
            listener.state_info == info && info.full() && !next.empty()
                ==> #[trigger] state_events(listener, next) == seq![
                info.merged(next).state_update(),
            ],
{
}

/// Merging takes nothing from a report that is repeated, and the order in which
/// three reports are brought together does not matter.
pub proof fn law_merge_is_idempotent_and_associative(
    a: PrinterStateInfo,
    b: PrinterStateInfo,
    c: PrinterStateInfo,
)
    ensures
        a.merged(a) == a,
        a.merged(b).merged(b) == a.merged(b),
        a.merged(b).merged(c) == a.merged(b.merged(c)),
{
}

/// A report never makes the printer offline, and what it does not speak of
/// stays: a report that is not about a print changes nothing at all, and no
/// report but a successful project_file answer or a status report with a
/// gcode_file touches the file.
pub proof fn law_unrelated_reports_change_nothing(
    listener: Listener,
    report: JsonView,
    file: FilePathView,
)
    requires
        listener.wf(),
    ensures
        report_outcome(listener, report, file).listener.wf(),
        report_parts(report) is None ==> {
            let outcome = report_outcome(listener, report, file);
            outcome.listener == listener && outcome.events.len() == 0 && outcome.file == file
                && !outcome.file_changed
        },
        !report_outcome(listener, report, file).file_changed ==> report_outcome(
            listener,
            report,
            file,
        ).file == file,
        (report_parts(report) matches Some((RawReportKind::PushStatus, print))
            && print.text_at("gcode_file"@) is None) ==> !report_outcome(
            listener,
            report,
            file,
        ).file_changed,
{
}

/// While the printer was not at rest since a project_file command announced a
/// file, no status report that names a file replaces it.
pub proof fn law_announced_file_stays_until_rest(
    listener: Listener,
    print: JsonView,
    file: FilePathView,
)
    requires
        file is Inside3MF,
        !listener.gcode_file_armed,
        !at_rest(state_info_of(print).gcode_state),
        print.text_at("gcode_file"@) matches Some(gcode_file) ==> gcode_file.len() > 0,
    ensures
        push_status(listener, print, file).file == file,
        !push_status(listener, print, file).file_changed,
        !push_status(listener, print, file).listener.gcode_file_armed,
{
}

/// Once the printer was at rest, a status report that names a file of another
/// name tells of a new job, and the printer has to rest again before the next.
pub proof fn law_new_file_after_rest(listener: Listener, print: JsonView, file: FilePathView)
    requires
        file is Inside3MF,
        listener.gcode_file_armed || at_rest(state_info_of(print).gcode_state),
        print.text_at("gcode_file"@) matches Some(gcode_file) && gcode_file.len() > 0
            && file_name_of(gcode_file) != file_name_of(file->sdcard),
    ensures
        push_status(listener, print, file).file == FilePathView::StrippedPath(
            print.text_at("gcode_file"@)->0,
        ),
        push_status(listener, print, file).file_changed,
        !push_status(listener, print, file).listener.gcode_file_armed,
{
}

/// Repeating a status report tells of no change of the file.
pub proof fn law_repeated_report_changes_no_file(
    listener: Listener,
    print: JsonView,
    file: FilePathView,
)
    ensures
        ({
            let once = push_status(listener, print, file);
            let twice = push_status(once.listener, print, once.file);
            !twice.file_changed && twice.file == once.file
        }),
{
}

/// A url below a prefix that stands for the sdcard is read as what follows it.
pub proof fn law_sdcard_prefixes_are_stripped(path: Seq<char>)
    ensures
        sdcard_path("ftp:///"@ + path) == path,
        sdcard_path("file:///mnt/sdcard/"@ + path) == path,
        sdcard_path("file:///sdcard/"@ + path) == path,
{
    reveal_strlit("ftp:///");
    reveal_strlit("file:///mnt/sdcard/");
    reveal_strlit("file:///sdcard/");
    let ftp = "ftp:///"@;
    let mnt = "file:///mnt/sdcard/"@;
    let card = "file:///sdcard/"@;
    assert((ftp + path).take(ftp.len() as int) == ftp);
    assert((mnt + path).take(mnt.len() as int) == mnt);
    assert((card + path).take(card.len() as int) == card);
    assert((ftp + path).skip(ftp.len() as int) == path);
    assert((mnt + path).skip(mnt.len() as int) == path);
    assert((card + path).skip(card.len() as int) == path);
    assert((mnt + path)[0] == 'f' && ftp[1] == 't' && (mnt + path)[1] == 'i');
    assert((card + path)[1] == 'i' && mnt[8] == 'm' && (card + path)[8] == 's');
    if ftp.is_prefix_of(mnt + path) {
        assert((mnt + path).take(ftp.len() as int)[1] == ftp[1]);
    }
    if ftp.is_prefix_of(card + path) {
        assert((card + path).take(ftp.len() as int)[1] == ftp[1]);
    }
    if mnt.is_prefix_of(card + path) {
        assert((card + path).take(mnt.len() as int)[8] == mnt[8]);
    }
}

/// A report is about what the command in its `print` part says, and only the two
/// known commands are taken up.
pub proof fn law_command_tells_what_a_report_is_about(report: JsonView)
    ensures
        match report.get("print"@) {
            Some(print) => {
                let command = print.text_at("command"@);
                &&& command == Some("push_status"@) ==> report_parts(report) == Some(
                    (RawReportKind::PushStatus, print),
                )
                &&& command == Some("project_file"@) ==> report_parts(report) == Some(
                    (RawReportKind::ProjectFile, print),
                )
                &&& command != Some("push_status"@) && command != Some("project_file"@)
                    ==> report_parts(report) is None
            },
            None => report_parts(report) is None,
        },
{
    reveal_strlit("push_status");
    reveal_strlit("project_file");
    assert("push_status"@.len() == 11 && "project_file"@.len() == 12);
}

/// The place of an event among those that a status report tells of temperatures.
pub open spec fn thermistor_rank(event: EventView) -> int {
    match event {
        EventView::Temperature { which, .. } => if which == Thermistor::Tool {
            0
        } else {
            2
        },
        EventView::TemperatureTarget { which, .. } => if which == Thermistor::Tool {
            1
        } else {
            3
        },
        _ => 4,
    }
}

/// Each temperature that a status report holds is told as that of its thermistor,
/// as measured or as aimed at, once, and nothing else is. The tool comes before
/// the bed, and what is measured before what is aimed at.
pub proof fn law_temperatures_are_told_as_reported(print: JsonView, value: Double)
    ensures
        ({
            let events = thermistor_events(print);
            let tool = Thermistor::Tool;
            let bed = Thermistor::Bed;
            &&& events.contains(EventView::Temperature { which: tool, value })
                <==> print.double_at("nozzle_temper"@) == Some(value)
            &&& events.contains(EventView::TemperatureTarget { which: tool, value })
                <==> print.double_at("nozzle_target_temper"@) == Some(value)
            &&& events.contains(EventView::Temperature { which: bed, value }) <==> print.double_at(
                "bed_temper"@,
            ) == Some(value)
            &&& events.contains(EventView::TemperatureTarget { which: bed, value })
                <==> print.double_at("bed_target_temper"@) == Some(value)
            &&& forall|i: int|
                0 <= i < events.len() ==> thermistor_rank(#[trigger] events[i]) < 4
            &&& forall|i: int, j: int|
                0 <= i < j < events.len() ==> thermistor_rank(#[trigger] events[i])
                    < thermistor_rank(#[trigger] events[j])
        }),
{
    let events = thermistor_events(print);
    let a = measured(Thermistor::Tool, print.double_at("nozzle_temper"@));
    let b = targeted(Thermistor::Tool, print.double_at("nozzle_target_temper"@));
    let c = measured(Thermistor::Bed, print.double_at("bed_temper"@));
    let d = targeted(Thermistor::Bed, print.double_at("bed_target_temper"@));
    assert(events == a + b + c + d);
    let n = a.len() as int;
    let m = n + b.len();
    let k = m + c.len();
    if a.len() > 0 {
        assert(events[0] == a[0]);
    }
    if b.len() > 0 {
        assert(events[n] == b[0]);
    }
    if c.len() > 0 {
        assert(events[m] == c[0]);
    }
    if d.len() > 0 {
        assert(events[k] == d[0]);
    }
    assert forall|i: int| 0 <= i < events.len() implies ({
        ||| i == 0 && a.len() > 0 && #[trigger] events[i] == a[0]
        ||| i == n && b.len() > 0 && events[i] == b[0]
        ||| i == m && c.len() > 0 && events[i] == c[0]
        ||| i == k && d.len() > 0 && events[i] == d[0]
    }) by {}
}

/// What a status report says of the state is what stands in its fields: the name
/// of the state tells what the printer does, and a name that is not known tells
/// that it is idle.
pub proof fn law_state_is_read_from_its_fields(print: JsonView)
    ensures
        ({
            let info = state_info_of(print);
            &&& info.stg_cur == print.signed_at("stg_cur"@)
            &&& info.print_error == print.unsigned_at("print_error"@)
            &&& match print.text_at("gcode_state"@) {
                Some(state) => {
                    &&& state == "RUNNING"@ ==> info.gcode_state == Some(PrintStateCode::Printing)
                    &&& state == "PREPARE"@ ==> info.gcode_state == Some(PrintStateCode::Printing)
                    &&& state == "FINISH"@ ==> info.gcode_state == Some(PrintStateCode::Finished)
                    &&& state == "FAILED"@ ==> info.gcode_state == Some(PrintStateCode::Failed)
                    &&& state == "PAUSE"@ ==> info.gcode_state == Some(PrintStateCode::Paused)
                    &&& state != "RUNNING"@ && state != "PREPARE"@ && state != "FINISH"@ && state
                        != "FAILED"@ && state != "PAUSE"@ ==> info.gcode_state == Some(
                        PrintStateCode::Idle,
                    )
                },
                None => info.gcode_state is None,
            }
        }),
{
    lemma_state_names_differ();
}

/// The names of the states differ.
proof fn lemma_state_names_differ()
    ensures
        "RUNNING"@ != "PREPARE"@,
        "RUNNING"@ != "FINISH"@,
        "RUNNING"@ != "FAILED"@,
        "RUNNING"@ != "PAUSE"@,
        "PREPARE"@ != "FINISH"@,
        "PREPARE"@ != "FAILED"@,
        "PREPARE"@ != "PAUSE"@,
        "FINISH"@ != "FAILED"@,
        "FINISH"@ != "PAUSE"@,
        "FAILED"@ != "PAUSE"@,
        "IDLE"@ != "RUNNING"@,
        "IDLE"@ != "PREPARE"@,
        "IDLE"@ != "PAUSE"@,
{
    reveal_strlit("RUNNING");
    reveal_strlit("PREPARE");
    reveal_strlit("FINISH");
    reveal_strlit("FAILED");
    reveal_strlit("PAUSE");
    reveal_strlit("IDLE");
    assert("RUNNING"@.len() == 7 && "PREPARE"@.len() == 7 && "FINISH"@.len() == 6);
    assert("FAILED"@.len() == 6 && "PAUSE"@.len() == 5 && "IDLE"@.len() == 4);
    assert("RUNNING"@[0] == 'R' && "PREPARE"@[0] == 'P');
    assert("FINISH"@[1] == 'I' && "FAILED"@[1] == 'A');
}

/// A status report that names a state in which the printer neither prints, nor
/// prepares to, nor pauses arms the listener, as long as it changes no file: the
/// next report of a file of another name tells of a new job. Other reports never
/// arm it.
pub proof fn law_rest_arms_the_listener(listener: Listener, print: JsonView, file: FilePathView)
    ensures
        ({
            let state = print.text_at("gcode_state"@);
            let after = push_status(listener, print, file);
            let still = print.text_at("gcode_file"@) is None;
            &&& state == Some("FINISH"@) && still ==> after.listener.gcode_file_armed
            &&& state == Some("FAILED"@) && still ==> after.listener.gcode_file_armed
            &&& state == Some("IDLE"@) && still ==> after.listener.gcode_file_armed
            &&& state is Some && state != Some("RUNNING"@) && state != Some("PREPARE"@) && state
                != Some("PAUSE"@) && !after.file_changed ==> after.listener.gcode_file_armed
            &&& (state is None || state == Some("RUNNING"@) || state == Some("PREPARE"@) || state
                == Some("PAUSE"@)) ==> (after.listener.gcode_file_armed
                ==> listener.gcode_file_armed)
            &&& listener.gcode_file_armed && !after.file_changed ==> after.listener.gcode_file_armed
        }),
{
    lemma_state_names_differ();
}

/// A print that ended is followed by the next: after a report of a rest, one that
/// names a file of another name than the announced one, and says that it is
/// printed, changes the file to it.
pub proof fn law_next_print_is_followed(
    listener: Listener,
    rest: JsonView,
    next: JsonView,
    file: FilePathView,
    gcode_file: Seq<char>,
)
    requires
        rest.text_at("gcode_state"@) == Some("FINISH"@) || rest.text_at("gcode_state"@) == Some(
            "FAILED"@,
        ) || rest.text_at("gcode_state"@) == Some("IDLE"@),
        rest.text_at("gcode_file"@) is None,
        file matches FilePathView::Inside3MF { sdcard, .. } && file_name_of(sdcard) != file_name_of(
            gcode_file,
        ),
        next.text_at("gcode_file"@) == Some(gcode_file),
        gcode_file.len() > 0,
    ensures
        ({
            let rested = push_status(listener, rest, file);
            let after = push_status(rested.listener, next, rested.file);
            &&& rested.file == file && !rested.file_changed
            &&& after.file == FilePathView::StrippedPath(gcode_file) && after.file_changed
        }),
{
    lemma_state_names_differ();
}

/// What the printer does is told as it is, but for a failure with one of the two
/// errors of a user's stop, and of no other, which is told as a cancellation.
pub proof fn law_only_a_stop_is_a_cancellation(info: PrinterStateInfo)
    requires
        info.full(),
        info.wf(),
    ensures
        ({
            let stopped = info.print_error == Some(0x0500400Eu64) || info.print_error == Some(
                0x0300400Cu64,
            );
            match info.gcode_state->0 {
                PrintStateCode::Failed => {
                    &&& stopped <==> info.state_update() == (EventView::PrintState {
                        raw: "Cancelled"@,
                        code: PrintStateCode::Cancelled,
                    })
                    &&& !stopped <==> info.state_update() == (EventView::PrintState {
                        raw: "Failed"@,
                        code: PrintStateCode::Failed,
                    })
                },
                code => info.state_update() matches EventView::PrintState { code: told, .. } && told
                    == code,
            }
        }),
{
}

/// Each thing that the printer does has a name of its own; while it prints, the
/// stage tells which, and only then.
pub proof fn law_states_are_called_by_name(info: PrinterStateInfo)
    requires
        info.full(),
        info.wf(),
    ensures
        ({
            let raw = info.state_update()->PrintState_raw;
            let stage = info.stg_cur->0;
            match info.gcode_state->0 {
                PrintStateCode::Printing => {
                    &&& stage == 2 || stage == 7 ==> raw == "Preheating"@
                    &&& stage == 4 || stage == 22 || stage == 24 ==> raw == "Changing filament"@
                    &&& stage != 2 && stage != 7 && stage != 4 && stage != 22 && stage != 24 ==> raw
                        == "Printing"@
                },
                PrintStateCode::Paused => raw == "Paused"@,
                PrintStateCode::Idle => raw == "Online"@,
                PrintStateCode::Finished => raw == "Finished"@,
                PrintStateCode::Cancelled => raw == "Cancelled"@,
                PrintStateCode::Failed => raw == "Failed"@ || raw == "Cancelled"@,
                PrintStateCode::Offline => false,
            }
        }),
{
}

/// A status report tells the temperatures, then, if it speaks of the state and
/// with it everything is known, the state; and it does so whatever the file is.
pub proof fn law_status_report_tells_temperatures_then_state(
    listener: Listener,
    print: JsonView,
    file: FilePathView,
    other: FilePathView,
)
    ensures
        ({
            let events = push_status(listener, print, file).events;
            let temperatures = thermistor_events(print);
            let spoken = print.signed_at("stg_cur"@) is Some || print.text_at("gcode_state"@) is Some
                || print.unsigned_at("print_error"@) is Some;
            let known = listener.state_info.merged(state_info_of(print));
            let complete = known.stg_cur is Some && known.gcode_state is Some && known.print_error is
                Some;
            &&& events == push_status(listener, print, other).events
            &&& events.len() >= temperatures.len()
            &&& events.take(temperatures.len() as int) == temperatures
            &&& spoken && complete ==> events == temperatures.push(known.state_update())
            &&& !(spoken && complete) ==> events == temperatures
            &&& push_status(listener, print, file).listener.state_info == known
        }),
{
    let temperatures = thermistor_events(print);
    let events = push_status(listener, print, file).events;
    assert(temperatures + Seq::<EventView>::empty() == temperatures);
    assert(events.take(temperatures.len() as int) == temperatures);
    assert(temperatures + seq![
        listener.state_info.merged(state_info_of(print)).state_update(),
    ] == temperatures.push(listener.state_info.merged(state_info_of(print)).state_update()));
}

/// A status report that names a file changes the file where there was no job, and
/// where another file was reported before; one that names none ends the job; and a
/// report that changes the file tells so.
pub proof fn law_gcode_file_tells_of_the_job(
    listener: Listener,
    print: JsonView,
    file: FilePathView,
    gcode_file: Seq<char>,
)
    requires
        print.text_at("gcode_file"@) == Some(gcode_file),
    ensures
        ({
            let after = push_status(listener, print, file);
            &&& gcode_file.len() == 0 ==> after.file is NoJob && (after.file_changed <==> file
                !is NoJob)
            &&& gcode_file.len() > 0 ==> match file {
                FilePathView::NoJob => after.file_changed && after.file
                    == FilePathView::StrippedPath(gcode_file),
                FilePathView::StrippedPath(path) => if components_of(path) == components_of(
                    gcode_file,
                ) {
                    !after.file_changed && after.file == file
                } else {
                    after.file_changed && after.file == FilePathView::StrippedPath(gcode_file)
                },
                FilePathView::Inside3MF { sdcard, .. } => if file_name_of(sdcard) == file_name_of(
                    gcode_file,
                ) {
                    !after.file_changed && after.file == file
                } else {
                    ||| !after.file_changed && after.file == file
                    ||| after.file_changed && after.file == FilePathView::StrippedPath(gcode_file)
                },
            }
        }),
{
}

/// The answer to a project_file command announces the file inside the 3MF that it
/// names exactly when it says that it succeeded, in whatever case, and names both;
/// otherwise nothing changes. It tells of no events.
pub proof fn law_project_file_announces_what_it_names(
    listener: Listener,
    print: JsonView,
    file: FilePathView,
)
    ensures
        ({
            let after = project_file(listener, print, file);
            let succeeded = print.text_at("result"@) matches Some(result) && same_but_for_case(
                result,
                "success"@,
            );
            &&& after.events.len() == 0
            &&& after.listener.state_info == listener.state_info
            &&& if succeeded && print.text_at("url"@) is Some && print.text_at("param"@) is Some {
                &&& after.file_changed
                &&& !after.listener.gcode_file_armed
                &&& after.file matches FilePathView::Inside3MF { sdcard, subpath }
                &&& subpath == print.text_at("param"@)->0
                &&& sdcard == sdcard_path(print.text_at("url"@)->0)
            } else {
                !after.file_changed && after.file == file && after.listener == listener
            }
        }),
{
}

/// A report leads to what its kind leads to: what a status report and the answer
/// to a project_file command say is taken up, and nothing of any other.
pub proof fn law_reports_are_taken_up_by_kind(
    listener: Listener,
    report: JsonView,
    print: JsonView,
    file: FilePathView,
)
    requires
        report.get("print"@) == Some(print),
    ensures
        print.text_at("command"@) == Some("push_status"@) ==> report_outcome(listener, report, file)
            == push_status(listener, print, file),
        print.text_at("command"@) == Some("project_file"@) ==> report_outcome(
            listener,
            report,
            file,
        ) == project_file(listener, print, file),
{
    law_command_tells_what_a_report_is_about(report);
}

/// A url that is below none of the prefixes that stand for the sdcard is taken as
/// it is.
pub proof fn law_other_urls_are_taken_as_they_are(url: Seq<char>)
    requires
        !"ftp:///"@.is_prefix_of(url),
        !"file:///mnt/sdcard/"@.is_prefix_of(url),
        !"file:///sdcard/"@.is_prefix_of(url),
    ensures
        sdcard_path(url) == url,
{
}

/// The topics of a printer are made of its serial number, and differ.
pub proof fn law_topics_are_of_the_printer(serial: Seq<char>, other: Seq<char>)
    ensures
        report_topic_of(serial) == "device/"@ + serial + "/report"@,
        request_topic_of(serial) == "device/"@ + serial + "/request"@,
        report_topic_of(serial) == report_topic_of(other) ==> serial == other,
        request_topic_of(serial) == request_topic_of(other) ==> serial == other,
{
    let n = "device/"@.len() as int;
    if report_topic_of(serial) == report_topic_of(other) {
        assert(report_topic_of(serial).subrange(n, n + serial.len()) == serial);
        assert(report_topic_of(other).subrange(n, n + other.len()) == other);
        assert(report_topic_of(serial).len() == n + serial.len() + "/report"@.len());
        assert(report_topic_of(other).len() == n + other.len() + "/report"@.len());
    }
    if request_topic_of(serial) == request_topic_of(other) {
        assert(request_topic_of(serial).subrange(n, n + serial.len()) == serial);
        assert(request_topic_of(other).subrange(n, n + other.len()) == other);
        assert(request_topic_of(serial).len() == n + serial.len() + "/request"@.len());
        assert(request_topic_of(other).len() == n + other.len() + "/request"@.len());
    }
}

/// A message is a report when it comes on a topic that ends in `/report` and is
/// JSON.
pub proof fn law_reports_come_on_their_topic(topic: Seq<char>, document: Option<JsonView>)
    ensures
        message(topic, document) is Unrelated <==> !"/report"@.is_suffix_of(topic),
        message(topic, document) is Malformed <==> "/report"@.is_suffix_of(topic)
            && document is None,
        message(topic, document) matches IncomingView::Report(report) ==> document == Some(report),
{
}

/// A printer that answers is connected to, one that is silent is pinged again
/// after five seconds with the next sequence number, and any other failure ends
/// the attempt.
pub proof fn law_pings_are_repeated_every_five_seconds(sequence: u16)
    ensures
        ping_action(sequence, PingOutcome::Replied) is Connect,
        ping_action(sequence, PingOutcome::Other) is Fail,
        forall|outcome: PingOutcome|
            outcome == PingOutcome::NetworkError || outcome == PingOutcome::Timeout || outcome
                == PingOutcome::IoError ==> (#[trigger] ping_action(sequence, outcome) matches
                PingAction::Retry { sequence: next, after } && after.secs == 5 && after.nanos == 0
                && (sequence < 65535 ==> next == sequence + 1) && (sequence == 65535 ==> next
                == 0)),
{
}

/// A connection that was lost or is misused is made anew, one that was refused or
/// is not safe is given up, and an unknown error is passed over.
pub proof fn law_lost_connections_are_made_anew(state: SessionError)
    ensures
        link_action(LinkError::Io) is Reconnect,
        link_action(LinkError::MqttState(state)) is Reconnect,
        link_action(LinkError::NetworkTimeout) is Reconnect,
        link_action(LinkError::FlushTimeout) is Reconnect,
        link_action(LinkError::NotConnAck) is Reconnect,
        link_action(LinkError::Tls) is Abort,
        link_action(LinkError::ConnectionRefused) is Abort,
        link_action(LinkError::Other) is Ignore,
{
}

/// After a status report the listener is armed if it was, or if the report names a
/// state of rest, unless a named file has just taken the place of an announced one.
pub proof fn law_listener_is_disarmed_by_the_next_file(
    listener: Listener,
    print: JsonView,
    file: FilePathView,
)
    ensures
        ({
            let after = push_status(listener, print, file);
            let rested = print.text_at("gcode_state"@) matches Some(state) && state != "RUNNING"@
                && state != "PREPARE"@ && state != "PAUSE"@;
            let replaced = file is Inside3MF && after.file is StrippedPath;
            after.listener.gcode_file_armed <==> (listener.gcode_file_armed || rested)
                && !replaced
        }),
{
    if let Some(state) = print.text_at("gcode_state"@) {
        lemma_rest_by_name(state);
    }
}

/// The states of rest are those that are neither printing nor pausing.
proof fn lemma_rest_by_name(state: Seq<char>)
    ensures
        at_rest(Some(code_of_state(state))) <==> state != "RUNNING"@ && state != "PREPARE"@ && state
            != "PAUSE"@,
{
    reveal_strlit("RUNNING");
    reveal_strlit("PREPARE");
    reveal_strlit("FINISH");
    reveal_strlit("FAILED");
    reveal_strlit("PAUSE");
    assert("RUNNING"@.len() == 7 && "PREPARE"@.len() == 7);
    assert("FINISH"@.len() == 6 && "FAILED"@.len() == 6 && "PAUSE"@.len() == 5);
}

} // verus!
