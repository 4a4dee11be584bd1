//! The documents of the subset of the OctoPrint API.

use crate::clock::{law_elapsed_is_the_time_between, Span, Timestamp};
use crate::downloads::{
    download, is_plain, law_reported_name_is_a_download, law_reported_path_is_a_download,
    reported_path, Download,
};
use crate::json::{lemma_find_member, with_member, zero, Double, Json, JsonView, Number};
use crate::paths::{components_of, file_name, file_name_of};
use crate::printer_spy::{EventView, FilePathView, PrintStateCode, PrinterEvent, Thermistor};
use crate::slurper::{
    law_line_table, line_starts, positions, starts_line, CurrentGcode, Gcode, SourceView,
};
use crate::text::{trim_start, trimmed_start};
use std::sync::Arc;
use vstd::prelude::*;

verus! {

/// The temperature of a thermistor.
#[derive(Debug, Clone, Copy, PartialEq, Eq, Structural)]
pub struct Reading {
    /// What is measured.
    pub actual: Double,
    /// What is aimed at.
    pub target: Double,
}

/// What is known of the printer.
#[derive(Debug)]
pub struct PrinterStatus {
    pub text: &'static str,
    pub code: PrintStateCode,
    pub tool: Reading,
    pub bed: Reading,
}

/// What a [`PrinterStatus`] says.
pub struct PrinterView {
    pub text: Seq<char>,
    pub code: PrintStateCode,
    pub tool: Reading,
    pub bed: Reading,
}

impl View for PrinterStatus {
    type V = PrinterView;

    open spec fn view(&self) -> PrinterView {
        PrinterView { text: self.text@, code: self.code, tool: self.tool, bed: self.bed }
    }
}

/// The document that is an integer.
pub open spec fn integer(n: u64) -> JsonView {
    JsonView::Number(Number::Unsigned(n))
}

/// The document that is a double.
pub open spec fn float(d: Double) -> JsonView {
    JsonView::Number(Number::Float(d))
}

/// The flags that go with what the printer does.
pub open spec fn flags_document(code: PrintStateCode) -> JsonView {
    JsonView::Object(
        seq![
            ("operational"@, JsonView::Bool(code != PrintStateCode::Offline)),
            ("paused"@, JsonView::Bool(code == PrintStateCode::Paused)),
            ("printing"@, JsonView::Bool(code == PrintStateCode::Printing)),
            ("pausing"@, JsonView::Bool(false)),
            ("cancelling"@, JsonView::Bool(false)),
            ("sdReady"@, JsonView::Bool(false)),
            ("error"@, JsonView::Bool(false)),
            ("ready"@, JsonView::Bool(code == PrintStateCode::Idle)),
            ("closedOrError"@, JsonView::Bool(code == PrintStateCode::Offline)),
        ],
    )
}

/// What the printer does, and the flags that go with it.
pub open spec fn state_document(text: Seq<char>, code: PrintStateCode) -> JsonView {
    JsonView::Object(
        seq![("text"@, JsonView::String(text)), ("flags"@, flags_document(code))],
    )
}

impl Reading {
    /// The document about a thermistor.
    pub open spec fn document_view(self) -> JsonView {
        JsonView::Object(
            seq![
                ("actual"@, float(self.actual)),
                ("target"@, float(self.target)),
                ("offset"@, integer(0)),
            ],
        )
    }

    /// The document about a thermistor.
    fn document(&self) -> (doc: Json)
        ensures
            doc@ == self.document_view(),
    {
        let members = with_member(Vec::new(), "actual", Json::Number(Number::Float(self.actual)));
        let members = with_member(members, "target", Json::Number(Number::Float(self.target)));
        let members = with_member(members, "offset", Json::Number(Number::Unsigned(0)));
        assert(Json::member_models(members@) =~= self.document_view()->Object_0);
        Json::Object(members)
    }
}

impl PrinterView {
    /// Before the printer was heard of.
    pub open spec fn initial() -> PrinterView {
        let cold = Reading { actual: zero(), target: zero() };
        PrinterView { text: "Offline"@, code: PrintStateCode::Offline, tool: cold, bed: cold }
    }

    /// What is known of a thermistor.
    pub open spec fn reading(self, which: Thermistor) -> Reading {
        match which {
            Thermistor::Tool => self.tool,
            Thermistor::Bed => self.bed,
        }
    }

    /// With this known of a thermistor.
    pub open spec fn with_reading(self, which: Thermistor, reading: Reading) -> PrinterView {
        match which {
            Thermistor::Tool => PrinterView { tool: reading, ..self },
            Thermistor::Bed => PrinterView { bed: reading, ..self },
        }
    }

    /// What is known after an event.
    pub open spec fn after(self, event: EventView) -> PrinterView {
        match event {
            EventView::PrintState { raw, code } => PrinterView { text: raw, code, ..self },
            EventView::Temperature { which, value } => self.with_reading(
                which,
                Reading { actual: value, ..self.reading(which) },
            ),
            EventView::TemperatureTarget { which, value } => self.with_reading(
                which,
                Reading { target: value, ..self.reading(which) },
            ),
            _ => self,
        }
    }

    /// The temperatures.
    pub open spec fn temperature_document(self) -> JsonView {
        JsonView::Object(
            seq![("tool0"@, self.tool.document_view()), ("bed"@, self.bed.document_view())],
        )
    }

    /// The answer to `/api/printer`: what the printer does, and, unless it is
    /// offline, the temperatures.
    pub open spec fn document(self) -> JsonView {
        let state = seq![("state"@, state_document(self.text, self.code))];
        JsonView::Object(
            if self.code == PrintStateCode::Offline {
                state
            } else {
                state.push(("temperature"@, self.temperature_document()))
            },
        )
    }
}

/// The flags that go with what the printer does.
fn flags(code: PrintStateCode) -> (doc: Json)
    ensures
        doc@ == flags_document(code),
{
    let offline = code == PrintStateCode::Offline;
    let members = with_member(Vec::new(), "operational", Json::Bool(!offline));
    let members = with_member(members, "paused", Json::Bool(code == PrintStateCode::Paused));
    let members = with_member(members, "printing", Json::Bool(code == PrintStateCode::Printing));
    let members = with_member(members, "pausing", Json::Bool(false));
    let members = with_member(members, "cancelling", Json::Bool(false));
    let members = with_member(members, "sdReady", Json::Bool(false));
    let members = with_member(members, "error", Json::Bool(false));
    let members = with_member(members, "ready", Json::Bool(code == PrintStateCode::Idle));
    let members = with_member(members, "closedOrError", Json::Bool(offline));
    assert(Json::member_models(members@) =~= flags_document(code)->Object_0);
    Json::Object(members)
}

impl Default for PrinterStatus {
    fn default() -> (r: PrinterStatus)
        ensures
            r@ == PrinterView::initial(),
    {
        let cold = Reading { actual: Double { bits: 0 }, target: Double { bits: 0 } };
        PrinterStatus { text: "Offline", code: PrintStateCode::Offline, tool: cold, bed: cold }
    }
}

impl PrinterStatus {
    /// Takes in an event.
    pub fn on_event(&mut self, event: &PrinterEvent)
        ensures
            final(self)@ == old(self)@.after(event@),
    {
        match event {
            PrinterEvent::PrintState { raw, code } => {
                self.text = *raw;
                self.code = *code;
            },
            PrinterEvent::Temperature { which, value } => match which {
                Thermistor::Tool => self.tool.actual = *value,
                Thermistor::Bed => self.bed.actual = *value,
            },
            PrinterEvent::TemperatureTarget { which, value } => match which {
                Thermistor::Tool => self.tool.target = *value,
                Thermistor::Bed => self.bed.target = *value,
            },
            _ => {},
        }
    }

    /// The answer to `/api/printer`.
    pub fn document(&self) -> (doc: Json)
        ensures
            doc@ == self@.document(),
    {
        let members = with_member(Vec::new(), "text", Json::String(self.text.to_owned()));
        let members = with_member(members, "flags", flags(self.code));
        assert(Json::member_models(members@) =~= state_document(self.text@, self.code)->Object_0);
        let state = Json::Object(members);
        let mut members = with_member(Vec::new(), "state", state);
        if self.code != PrintStateCode::Offline {
            let temps = with_member(Vec::new(), "tool0", self.tool.document());
            let temps = with_member(temps, "bed", self.bed.document());
            assert(Json::member_models(temps@) =~= self@.temperature_document()->Object_0);
            members = with_member(members, "temperature", Json::Object(temps));
        }
        Json::Object(members)
    }
}

/// How long a job has taken, and will take.
#[derive(Debug, Clone, Copy, PartialEq, Eq, Structural)]
pub enum PrintTime {
    /// It runs since a moment, and will for a while.
    Printing { started: Span, remaining: Option<Span> },
    /// It is over.
    Done { took: Span },
}

/// What is known of the job.
#[derive(Debug)]
pub struct JobStatus {
    pub text: &'static str,
    pub code: PrintStateCode,
    /// The line that is printed, counted from 1.
    pub gcode_line: u32,
    /// How much is done, in percent.
    pub gcode_pct: Double,
    pub time_stats: Option<PrintTime>,
    pub active_gcode: Option<Arc<Gcode>>,
}

/// What a [`JobStatus`] says.
pub struct JobView {
    pub text: Seq<char>,
    pub code: PrintStateCode,
    pub gcode_line: u32,
    pub gcode_pct: Double,
    pub time_stats: Option<PrintTime>,
    pub active_gcode: Option<Arc<Gcode>>,
}

impl View for JobStatus {
    type V = JobView;

    open spec fn view(&self) -> JobView {
        JobView {
            text: self.text@,
            code: self.code,
            gcode_line: self.gcode_line,
            gcode_pct: self.gcode_pct,
            time_stats: self.time_stats,
            active_gcode: self.active_gcode,
        }
    }
}

/// The times after the printer went from doing one thing to doing another. A job
/// that goes on, or goes on after a pause, keeps its start; a printer that is
/// offline has no job.
pub open spec fn time_after(
    time_stats: Option<PrintTime>,
    before: PrintStateCode,
    code: PrintStateCode,
    now: Span,
) -> Option<PrintTime> {
    match code {
        PrintStateCode::Printing => if before == PrintStateCode::Paused || before
            == PrintStateCode::Printing {
            time_stats
        } else {
            match time_stats {
                Some(PrintTime::Printing { remaining, .. }) => Some(
                    PrintTime::Printing { started: now, remaining },
                ),
                _ => Some(PrintTime::Printing { started: now, remaining: None }),
            }
        },
        PrintStateCode::Offline => None,
        PrintStateCode::Paused => time_stats,
        _ => match time_stats {
            Some(PrintTime::Printing { started, .. }) => Some(
                PrintTime::Done { took: started.spec_elapsed(now) },
            ),
            _ => time_stats,
        },
    }
}

/// The document that is an integer, or nothing.
pub open spec fn integer_or_null(n: Option<u64>) -> JsonView {
    match n {
        Some(n) => integer(n),
        None => JsonView::Null,
    }
}

/// The document that is text, or nothing.
pub open spec fn text_or_null(s: Option<Seq<char>>) -> JsonView {
    match s {
        Some(s) => JsonView::String(s),
        None => JsonView::Null,
    }
}

/// The document about a file.
pub open spec fn file_document(
    date: Option<u64>,
    name: Option<Seq<char>>,
    origin: Option<Seq<char>>,
    path: Option<Seq<char>>,
    size: Option<u64>,
) -> JsonView {
    JsonView::Object(
        seq![
            ("date"@, integer_or_null(date)),
            ("display"@, text_or_null(name)),
            ("name"@, text_or_null(name)),
            ("origin"@, text_or_null(origin)),
            ("path"@, text_or_null(path)),
            ("size"@, integer_or_null(size)),
        ],
    )
}

/// The seconds from the start of 1970, if a point in time is not before it.
pub open spec fn seconds_since_epoch(time: Timestamp) -> Option<u64> {
    match time {
        Timestamp::AfterEpoch(span) => Some(span.secs),
        Timestamp::BeforeEpoch(_) => None,
    }
}

impl JobView {
    /// Before the printer was heard of.
    pub open spec fn initial() -> JobView {
        JobView {
            text: "Offline"@,
            code: PrintStateCode::Offline,
            gcode_line: 0,
            gcode_pct: zero(),
            time_stats: None,
            active_gcode: None,
        }
    }

    /// The job began at a point in time, and its gcode is from a file.
    pub open spec fn wf(self) -> bool {
        &&& self.time_stats matches Some(PrintTime::Printing { started, .. }) ==> started.wf()
        &&& self.active_gcode matches Some(gcode) ==> gcode.meta@.wf()
    }

    /// What is known after an event.
    pub open spec fn after(self, event: EventView, now: Span) -> JobView {
        match event {
            EventView::PrintState { raw, code } => JobView {
                text: raw,
                code,
                time_stats: time_after(self.time_stats, self.code, code, now),
                ..self
            },
            EventView::GcodeLine(line) => JobView { gcode_line: line, ..self },
            EventView::PrintPercentage(pct) => JobView { gcode_pct: pct, ..self },
            EventView::RemainingPrintTime(span) => match self.time_stats {
                Some(PrintTime::Printing { started, .. }) => JobView {
                    time_stats: Some(PrintTime::Printing { started, remaining: Some(span) }),
                    ..self
                },
                _ => self,
            },
            _ => self,
        }
    }

    /// What is known once other gcode is served.
    pub open spec fn with_gcode(self, served: CurrentGcode) -> JobView {
        match served {
            CurrentGcode::Outdated(gcode) | CurrentGcode::Current(gcode) => JobView {
                active_gcode: Some(gcode),
                ..self
            },
            CurrentGcode::Nothing => JobView {
                active_gcode: None,
                gcode_pct: zero(),
                gcode_line: 0,
                ..self
            },
        }
    }

    /// Where in the file the line begins that is printed.
    pub open spec fn filepos(self) -> Option<u64> {
        match self.active_gcode {
            Some(gcode) => if 0 < self.gcode_line && self.gcode_line <= gcode.line_table@.len() {
                Some(gcode.line_table@[self.gcode_line - 1] as u64)
            } else {
                None
            },
            None => None,
        }
    }

    /// The seconds that the job has taken.
    pub open spec fn print_time(self, now: Span) -> Option<u64> {
        match self.time_stats {
            Some(PrintTime::Printing { started, .. }) => Some(started.spec_elapsed(now).secs),
            Some(PrintTime::Done { took }) => Some(took.secs),
            None => None,
        }
    }

    /// The seconds that the job will take.
    pub open spec fn print_time_left(self) -> Option<u64> {
        match self.time_stats {
            Some(PrintTime::Printing { remaining: Some(span), .. }) => Some(span.secs),
            Some(PrintTime::Done { .. }) => Some(0),
            _ => None,
        }
    }

    /// The progress of the job.
    pub open spec fn progress_document(self, now: Span) -> JsonView {
        JsonView::Object(
            seq![
                ("completion"@, float(self.gcode_pct)),
                ("filepos"@, integer_or_null(self.filepos())),
                ("printTime"@, integer_or_null(self.print_time(now))),
                ("printTimeLeft"@, integer_or_null(self.print_time_left())),
                (
                    "printTimeLeftOrigin"@,
                    text_or_null(
                        match self.print_time_left() {
                            Some(_) => Some("analysis"@),
                            None => None,
                        },
                    ),
                ),
            ],
        )
    }

    /// The file of the job, unless it is older than 1970.
    pub open spec fn file(self) -> Option<JsonView> {
        match self.active_gcode {
            Some(gcode) => match seconds_since_epoch(gcode.meta@.modified_time) {
                Some(date) => {
                    let target = gcode.meta@.source.targeted_filename();
                    Some(
                        file_document(
                            Some(date),
                            file_name_of(target),
                            Some("local"@),
                            Some(reported_path(target)),
                            Some(gcode.content@.len() as u64),
                        ),
                    )
                },
                None => None,
            },
            None => Some(file_document(None, None, None, None, None)),
        }
    }

    /// The answer to `/api/job`, unless the file is older than 1970.
    pub open spec fn document(self, now: Span) -> Option<JsonView> {
        match self.file() {
            Some(file) => Some(
                JsonView::Object(
                    seq![
                        ("state"@, JsonView::String(self.text)),
                        ("job"@, JsonView::Object(seq![("file"@, file)])),
                        ("progress"@, self.progress_document(now)),
                    ],
                ),
            ),
            None => None,
        }
    }
}

/// The document that is an integer, or nothing.
fn optional_integer(n: Option<u64>) -> (doc: Json)
    ensures
        doc@ == integer_or_null(n),
{
    match n {
        Some(n) => Json::Number(Number::Unsigned(n)),
        None => Json::Null,
    }
}

/// The text, if there is some.
pub open spec fn view_of(s: Option<&str>) -> Option<Seq<char>> {
    match s {
        Some(s) => Some(s@),
        None => None,
    }
}

/// The document that is text, or nothing.
fn optional_text(s: Option<&str>) -> (doc: Json)
    ensures
        doc@ == text_or_null(view_of(s)),
{
    match s {
        Some(s) => Json::String(s.to_owned()),
        None => Json::Null,
    }
}

/// Why there is no document about a job.
#[derive(Debug, Clone, Copy, PartialEq, Eq, Structural)]
pub enum JobError {
    /// The file was modified before 1970.
    ModifiedBeforeEpoch,
}

impl Default for JobStatus {
    fn default() -> (r: JobStatus)
        ensures
            r@ == JobView::initial(),
            r@.wf(),
    {
        JobStatus {
            text: "Offline",
            code: PrintStateCode::Offline,
            gcode_line: 0,
            gcode_pct: Double { bits: 0 },
            time_stats: None,
            active_gcode: None,
        }
    }
}

impl JobStatus {
    /// Takes in an event, and the moment of it.
    pub fn on_event(&mut self, event: &PrinterEvent, now: Span)
        requires
            old(self)@.wf(),
            now.wf(),
        ensures
            final(self)@ == old(self)@.after(event@, now),
            final(self)@.wf(),
    {
        match event {
            PrinterEvent::PrintState { raw, code } => {
                self.text = *raw;
                self.time_stats = next_time(self.time_stats, self.code, *code, now);
                self.code = *code;
            },
            PrinterEvent::GcodeLine(line) => self.gcode_line = *line,
            PrinterEvent::PrintPercentage(pct) => self.gcode_pct = *pct,
            PrinterEvent::RemainingPrintTime(span) => {
                if let Some(PrintTime::Printing { started, .. }) = self.time_stats {
                    self.time_stats = Some(
                        PrintTime::Printing { started, remaining: Some(*span) },
                    );
                }
            },
            _ => {},
        }
    }

    /// Takes in that other gcode is served.
    pub fn on_gcode(&mut self, served: CurrentGcode)
        requires
            old(self)@.wf(),
            served.wf(),
        ensures
            final(self)@ == old(self)@.with_gcode(served),
            final(self)@.wf(),
    {
        match served {
            CurrentGcode::Outdated(gcode) | CurrentGcode::Current(gcode) => {
                self.active_gcode = Some(gcode);
            },
            CurrentGcode::Nothing => {
                self.active_gcode = None;
                self.gcode_pct = Double { bits: 0 };
                self.gcode_line = 0;
            },
        }
    }

    /// Where in the file the line begins that is printed.
    fn filepos(&self) -> (r: Option<u64>)
        ensures
            r == self@.filepos(),
    {
        match &self.active_gcode {
            Some(gcode) => {
                let line: usize = self.gcode_line as usize;
                if line > 0 && line <= gcode.line_table.len() {
                    Some(gcode.line_table[line - 1] as u64)
                } else {
                    None
                }
            },
            None => None,
        }
    }

    /// The progress of the job.
    fn progress(&self, now: Span) -> (doc: Json)
        requires
            self@.wf(),
            now.wf(),
        ensures
            doc@ == self@.progress_document(now),
    {
        let time = match self.time_stats {
            Some(PrintTime::Printing { started, .. }) => Some(started.elapsed(now).secs),
            Some(PrintTime::Done { took }) => Some(took.secs),
            None => None,
        };
        let (left, origin) = match self.time_stats {
            Some(PrintTime::Printing { remaining: Some(span), .. }) => (
                Some(span.secs),
                Some("analysis"),
            ),
            Some(PrintTime::Done { .. }) => (Some(0u64), Some("analysis")),
            _ => (None, None),
        };
        let members = with_member(
            Vec::new(),
            "completion",
            Json::Number(Number::Float(self.gcode_pct)),
        );
        let members = with_member(members, "filepos", optional_integer(self.filepos()));
        let members = with_member(members, "printTime", optional_integer(time));
        let members = with_member(members, "printTimeLeft", optional_integer(left));
        let members = with_member(members, "printTimeLeftOrigin", optional_text(origin));
        assert(Json::member_models(members@) =~= self@.progress_document(now)->Object_0);
        Json::Object(members)
    }

    /// The file of the job.
    fn file(&self) -> (r: Result<Json, JobError>)
        requires
            self@.wf(),
        ensures
            match r {
                Ok(doc) => self@.file() == Some(doc@),
                Err(_) => self@.file() is None,
            },
    {
        match &self.active_gcode {
            Some(gcode) => {
                let date = match gcode.meta.modified_time {
                    Timestamp::AfterEpoch(span) => span.secs,
                    Timestamp::BeforeEpoch(_) => return Err(JobError::ModifiedBeforeEpoch),
                };
                let target = gcode.meta.source.targeted_filename();
                let name = file_name(target);
                let name = match &name {
                    Some(name) => Some(name.as_str()),
                    None => None,
                };
                Ok(
                    describe_file(
                        Some(date),
                        name,
                        Some("local"),
                        Some(trim_start(target, '/')),
                        Some(gcode.content.len() as u64),
                    ),
                )
            },
            None => Ok(describe_file(None, None, None, None, None)),
        }
    }

    /// The answer to `/api/job`, at a moment.
    pub fn document(&self, now: Span) -> (r: Result<Json, JobError>)
        requires
            self@.wf(),
            now.wf(),
        ensures
            match r {
                Ok(doc) => self@.document(now) == Some(doc@),
                Err(_) => self@.document(now) is None,
            },
    {
        let file = match self.file() {
            Ok(file) => file,
            Err(err) => return Err(err),
        };
        let job = with_member(Vec::new(), "file", file);
        let members = with_member(Vec::new(), "state", Json::String(self.text.to_owned()));
        let members = with_member(members, "job", Json::Object(job));
        let members = with_member(members, "progress", self.progress(now));
        assert(Json::member_models(members@) =~= self@.document(now)->0->Object_0);
        Ok(Json::Object(members))
    }
}

/// The document about a file.
fn describe_file(
    date: Option<u64>,
    name: Option<&str>,
    origin: Option<&str>,
    path: Option<&str>,
    size: Option<u64>,
) -> (doc: Json)
    ensures
        doc@ == file_document(date, view_of(name), view_of(origin), view_of(path), size),
{
    let members = with_member(Vec::new(), "date", optional_integer(date));
    let members = with_member(members, "display", optional_text(name));
    let members = with_member(members, "name", optional_text(name));
    let members = with_member(members, "origin", optional_text(origin));
    let members = with_member(members, "path", optional_text(path));
    let members = with_member(members, "size", optional_integer(size));
    assert(Json::member_models(members@) =~= file_document(
        date,
        view_of(name),
        view_of(origin),
        view_of(path),
        size,
    )->Object_0);
    Json::Object(members)
}

/// The times after the printer went from doing one thing to doing another.
fn next_time(
    time_stats: Option<PrintTime>,
    before: PrintStateCode,
    code: PrintStateCode,
    now: Span,
) -> (r: Option<PrintTime>)
    requires
        time_stats matches Some(PrintTime::Printing { started, .. }) ==> started.wf(),
        now.wf(),
    ensures
        r == time_after(time_stats, before, code, now),
{
    match (before, code) {
        (PrintStateCode::Paused, PrintStateCode::Printing) => time_stats,
        (PrintStateCode::Printing, PrintStateCode::Printing) => time_stats,
        (_, PrintStateCode::Printing) => match time_stats {
            Some(PrintTime::Printing { remaining, .. }) => Some(
                PrintTime::Printing { started: now, remaining },
            ),
            _ => Some(PrintTime::Printing { started: now, remaining: None }),
        },
        (_, PrintStateCode::Offline) => None,
        (_, PrintStateCode::Paused) => time_stats,
        _ => match time_stats {
            Some(PrintTime::Printing { started, .. }) => Some(
                PrintTime::Done { took: started.elapsed(now) },
            ),
            _ => time_stats,
        },
    }
}

/// Answers with a document, or with the HTTP status that there is none.
pub fn handler_impl<T>(content: Option<T>) -> (r: Result<T, u16>)
    ensures
        r == match content {
            Some(document) => Ok::<T, u16>(document),
            None => Err(204),
        },
{
    match content {
        Some(document) => Ok(document),
        None => Err(204),
    }
}

/// What is printed lies inside the file: it is where a line of it begins.
pub proof fn law_filepos_is_a_line_of_the_file(job: JobView, gcode: Arc<Gcode>)
    requires
        job.active_gcode == Some(gcode),
        positions(gcode.line_table@) == line_starts(gcode.content@),
    ensures
        job.filepos() matches Some(at) ==> at < gcode.content@.len() && starts_line(
            gcode.content@,
            at as int,
        ),
        job.filepos() is Some <==> 0 < job.gcode_line <= line_starts(gcode.content@).len(),
{
    law_line_table(gcode.content@);
    let table = line_starts(gcode.content@);
    if 0 < job.gcode_line <= gcode.line_table@.len() {
        let i = job.gcode_line - 1;
        assert(positions(gcode.line_table@)[i] == gcode.line_table@[i]);
        assert(table.contains(table[i]));
    }
}

/// The progress is what was reported last: how much is done, which line is
/// printed, and, of a job that runs, how long it will still take.
pub proof fn law_progress_is_as_reported(
    job: JobView,
    line: u32,
    pct: Double,
    span: Span,
    now: Span,
)
    ensures
        job.after(EventView::PrintPercentage(pct), now).gcode_pct == pct,
        job.after(EventView::GcodeLine(line), now).gcode_line == line,
        ({
            let told = job.after(EventView::RemainingPrintTime(span), now);
            match job.time_stats {
                Some(PrintTime::Printing { .. }) => told.print_time_left() == Some(span.secs)
                    && told.print_time(now) == job.print_time(now),
                _ => told == job,
            }
        }),
{
}

/// An event about one thermistor leaves the other, and what the printer does, as
/// they were.
pub proof fn law_thermistors_are_apart(printer: PrinterView, which: Thermistor, value: Double)
    ensures
        ({
            let other = match which {
                Thermistor::Tool => Thermistor::Bed,
                Thermistor::Bed => Thermistor::Tool,
            };
            let measured = printer.after(EventView::Temperature { which, value });
            let aimed = printer.after(EventView::TemperatureTarget { which, value });
            &&& measured.reading(other) == printer.reading(other)
            &&& aimed.reading(other) == printer.reading(other)
            &&& measured.reading(which) == (Reading { actual: value, ..printer.reading(which) })
            &&& aimed.reading(which) == (Reading { target: value, ..printer.reading(which) })
            &&& measured.text == printer.text && measured.code == printer.code
            &&& aimed.text == printer.text && aimed.code == printer.code
        }),
{
}

/// An event that comes twice changes nothing the second time, however late.
pub proof fn law_repeated_event_changes_nothing(
    printer: PrinterView,
    job: JobView,
    event: EventView,
    now: Span,
    later: Span,
)
    ensures
        printer.after(event).after(event) == printer.after(event),
        job.after(event, now).after(event, later) == job.after(event, now),
{
}

/// The printer is closed exactly when it is not operational, and exactly then
/// its temperatures are left out.
pub proof fn law_offline_printer_has_no_temperature(printer: PrinterView)
    ensures
        ({
            let doc = printer.document();
            let state = doc.get("state"@)->0;
            let flags = state.get("flags"@)->0;
            let offline = printer.code == PrintStateCode::Offline;
            &&& doc.get("state"@) is Some
            &&& state.text_at("text"@) == Some(printer.text)
            &&& flags.get("operational"@) == Some(JsonView::Bool(!offline))
            &&& flags.get("closedOrError"@) == Some(JsonView::Bool(offline))
            &&& doc.get("temperature"@) is None <==> offline
        }),
{
    reveal_strlit("state");
    reveal_strlit("flags");
    reveal_strlit("text");
    reveal_strlit("temperature");
    reveal_strlit("operational");
    reveal_strlit("paused");
    reveal_strlit("printing");
    reveal_strlit("pausing");
    reveal_strlit("cancelling");
    reveal_strlit("sdReady");
    reveal_strlit("error");
    reveal_strlit("ready");
    reveal_strlit("closedOrError");
    let flags = flags_document(printer.code)->Object_0;
    let state = state_document(printer.text, printer.code)->Object_0;
    let all = printer.document()->Object_0;
    assert(flags[0].0.len() == 11 && flags[1].0.len() == 6 && flags[2].0.len() == 8);
    assert(flags[3].0.len() == 7 && flags[4].0.len() == 10 && flags[5].0.len() == 7);
    assert(flags[6].0.len() == 5 && flags[7].0.len() == 5 && "closedOrError"@.len() == 13);
    lemma_find_member(flags, "operational"@, 0);
    lemma_find_member(flags, "closedOrError"@, 8);
    assert(state[0].0.len() == 4 && "flags"@.len() == 5);
    lemma_find_member(state, "text"@, 0);
    lemma_find_member(state, "flags"@, 1);
    assert(all[0].0.len() == 5 && "temperature"@.len() == 11);
    lemma_find_member(all, "state"@, 0);
    lemma_find_member(all, "temperature"@, 1);
}

/// A job that is paused and goes on keeps its start; one that is over keeps how
/// long it took, until the next one starts or the printer is gone.
pub proof fn law_pause_keeps_the_start(
    time_stats: Option<PrintTime>,
    before: PrintStateCode,
    now: Span,
    later: Span,
)
    ensures
        time_after(
            time_after(time_stats, before, PrintStateCode::Paused, now),
            PrintStateCode::Paused,
            PrintStateCode::Printing,
            later,
        ) == time_stats,
        time_after(time_stats, before, PrintStateCode::Offline, now) is None,
        forall|code: PrintStateCode|
            time_stats matches Some(PrintTime::Done { .. }) && code != PrintStateCode::Printing
                && code != PrintStateCode::Offline ==> #[trigger] time_after(
                time_stats,
                before,
                code,
                now,
            ) == time_stats,
{
}

/// A job that ends took the time from its start to its end.
pub proof fn law_job_takes_from_start_to_end(
    started: Span,
    remaining: Option<Span>,
    before: PrintStateCode,
    code: PrintStateCode,
    now: Span,
)
    requires
        started.wf(),
        now.wf(),
        started.total() <= now.total(),
        code == PrintStateCode::Failed || code == PrintStateCode::Idle || code
            == PrintStateCode::Finished || code == PrintStateCode::Cancelled,
    ensures
        ({
            let time_stats = Some(PrintTime::Printing { started, remaining });
            time_after(time_stats, before, code, now) matches Some(PrintTime::Done { took })
                && took.total() == now.total() - started.total()
        }),
{
}

/// Events leave the file of the job as it was; that other gcode is served leaves
/// the times as they were. Without gcode there is no file and no progress in it.
pub proof fn law_file_and_times_are_apart(
    job: JobView,
    event: EventView,
    served: CurrentGcode,
    now: Span,
)
    ensures
        job.after(event, now).active_gcode == job.active_gcode,
        job.with_gcode(served).time_stats == job.time_stats,
        job.with_gcode(served).text == job.text,
        job.with_gcode(CurrentGcode::Nothing).file() == Some(
            file_document(None, None, None, None, None),
        ),
        job.with_gcode(CurrentGcode::Nothing).filepos() is None,
        job.with_gcode(CurrentGcode::Nothing).gcode_pct == zero(),
{
}

/// What stands in the document about a thermistor.
proof fn lemma_reading_document(reading: Reading)
    ensures
        reading.document_view().get("actual"@) == Some(float(reading.actual)),
        reading.document_view().get("target"@) == Some(float(reading.target)),
        reading.document_view().get("offset"@) == Some(integer(0)),
{
    reveal_strlit("actual");
    reveal_strlit("target");
    reveal_strlit("offset");
    let members = reading.document_view()->Object_0;
    assert(members[0].0 == "actual"@ && members[1].0 == "target"@ && members[2].0 == "offset"@);
    assert("actual"@[0] == 'a' && "target"@[0] == 't' && "offset"@[0] == 'o');
    lemma_find_member(members, "actual"@, 0);
    lemma_find_member(members, "target"@, 1);
    lemma_find_member(members, "offset"@, 2);
}

/// In the document of a printer that is not offline, what stands for the tool and
/// for the bed is what was last measured there, and last aimed at there, with no
/// offset.
pub proof fn law_temperatures_stand_where_they_belong(printer: PrinterView)
    requires
        printer.code != PrintStateCode::Offline,
    ensures
        ({
            let temperature = printer.document().get("temperature"@)->0;
            let tool = temperature.get("tool0"@)->0;
            let bed = temperature.get("bed"@)->0;
            &&& tool.double_at("actual"@) == Some(printer.reading(Thermistor::Tool).actual)
            &&& tool.double_at("target"@) == Some(printer.reading(Thermistor::Tool).target)
            &&& tool.unsigned_at("offset"@) == Some(0u64)
            &&& bed.double_at("actual"@) == Some(printer.reading(Thermistor::Bed).actual)
            &&& bed.double_at("target"@) == Some(printer.reading(Thermistor::Bed).target)
            &&& bed.unsigned_at("offset"@) == Some(0u64)
        }),
{
    reveal_strlit("state");
    reveal_strlit("temperature");
    reveal_strlit("tool0");
    reveal_strlit("bed");
    let all = printer.document()->Object_0;
    assert(all[0].0.len() == 5 && "temperature"@.len() == 11);
    lemma_find_member(all, "temperature"@, 1);
    let temps = printer.temperature_document()->Object_0;
    assert(temps[0].0 == "tool0"@ && "tool0"@.len() == 5 && "bed"@.len() == 3);
    lemma_find_member(temps, "tool0"@, 0);
    lemma_find_member(temps, "bed"@, 1);
    lemma_reading_document(printer.tool);
    lemma_reading_document(printer.bed);
}

/// What was told of a thermistor last is what the document gives of it, whatever
/// is told of the other one or of the state in between.
pub proof fn law_last_temperature_is_given(
    printer: PrinterView,
    which: Thermistor,
    value: Double,
    other: Thermistor,
    aside: Double,
    raw: Seq<char>,
    code: PrintStateCode,
)
    requires
        other != which,
        code != PrintStateCode::Offline,
    ensures
        ({
            let name = match which {
                Thermistor::Tool => "tool0"@,
                Thermistor::Bed => "bed"@,
            };
            let state = EventView::PrintState { raw, code };
            let measured = printer.after(EventView::Temperature { which, value }).after(
                EventView::Temperature { which: other, value: aside },
            ).after(EventView::TemperatureTarget { which: other, value: aside }).after(
                EventView::TemperatureTarget { which, value: aside },
            ).after(state);
            let aimed = printer.after(EventView::TemperatureTarget { which, value }).after(
                EventView::Temperature { which: other, value: aside },
            ).after(EventView::TemperatureTarget { which: other, value: aside }).after(
                EventView::Temperature { which, value: aside },
            ).after(state);
            &&& measured.document().get("temperature"@)->0.get(name)->0.double_at("actual"@)
                == Some(value)
            &&& aimed.document().get("temperature"@)->0.get(name)->0.double_at("target"@) == Some(
                value,
            )
        }),
{
    let state = EventView::PrintState { raw, code };
    let measured = printer.after(EventView::Temperature { which, value }).after(
        EventView::Temperature { which: other, value: aside },
    ).after(EventView::TemperatureTarget { which: other, value: aside }).after(
        EventView::TemperatureTarget { which, value: aside },
    ).after(state);
    let aimed = printer.after(EventView::TemperatureTarget { which, value }).after(
        EventView::Temperature { which: other, value: aside },
    ).after(EventView::TemperatureTarget { which: other, value: aside }).after(
        EventView::Temperature { which, value: aside },
    ).after(state);
    law_temperatures_stand_where_they_belong(measured);
    law_temperatures_stand_where_they_belong(aimed);
}

/// The flags tell what the printer does: each of the four that can be set is set
/// by one thing that it does, the others never, and it is operational unless it is
/// offline.
pub proof fn law_flags_tell_what_the_printer_does(printer: PrinterView)
    ensures
        ({
            let state = printer.document().get("state"@)->0;
            let flags = state.get("flags"@)->0;
            let code = printer.code;
            &&& state.text_at("text"@) == Some(printer.text)
            &&& flags.get("operational"@) == Some(JsonView::Bool(code != PrintStateCode::Offline))
            &&& flags.get("paused"@) == Some(JsonView::Bool(code == PrintStateCode::Paused))
            &&& flags.get("printing"@) == Some(JsonView::Bool(code == PrintStateCode::Printing))
            &&& flags.get("pausing"@) == Some(JsonView::Bool(false))
            &&& flags.get("cancelling"@) == Some(JsonView::Bool(false))
            &&& flags.get("sdReady"@) == Some(JsonView::Bool(false))
            &&& flags.get("error"@) == Some(JsonView::Bool(false))
            &&& flags.get("ready"@) == Some(JsonView::Bool(code == PrintStateCode::Idle))
            &&& flags.get("closedOrError"@) == Some(
                JsonView::Bool(code == PrintStateCode::Offline),
            )
        }),
{
    law_offline_printer_has_no_temperature(printer);
    reveal_strlit("state");
    reveal_strlit("text");
    reveal_strlit("flags");
    reveal_strlit("operational");
    reveal_strlit("paused");
    reveal_strlit("printing");
    reveal_strlit("pausing");
    reveal_strlit("cancelling");
    reveal_strlit("sdReady");
    reveal_strlit("error");
    reveal_strlit("ready");
    reveal_strlit("closedOrError");
    let flags = flags_document(printer.code)->Object_0;
    let state = state_document(printer.text, printer.code)->Object_0;
    assert(flags[0].0.len() == 11 && flags[1].0.len() == 6 && flags[2].0.len() == 8);
    assert(flags[3].0.len() == 7 && flags[4].0.len() == 10 && flags[5].0.len() == 7);
    assert(flags[6].0.len() == 5 && flags[7].0.len() == 5 && flags[8].0.len() == 13);
    assert(flags[3].0[0] == 'p' && flags[5].0[0] == 's');
    assert(flags[6].0[0] == 'e' && flags[7].0[0] == 'r');
    lemma_find_member(flags, "operational"@, 0);
    lemma_find_member(flags, "paused"@, 1);
    lemma_find_member(flags, "printing"@, 2);
    lemma_find_member(flags, "pausing"@, 3);
    lemma_find_member(flags, "cancelling"@, 4);
    lemma_find_member(flags, "sdReady"@, 5);
    lemma_find_member(flags, "error"@, 6);
    lemma_find_member(flags, "ready"@, 7);
    lemma_find_member(flags, "closedOrError"@, 8);
    assert(state[0].0.len() == 4 && "flags"@.len() == 5);
    lemma_find_member(state, "flags"@, 1);
    lemma_find_member(printer.document()->Object_0, "state"@, 0);
}

/// An event about the state sets what the printer does and how to call it, and
/// leaves the temperatures; events about the job change nothing here. Before any
/// event the printer is offline, and everything is cold.
pub proof fn law_state_is_as_last_told(
    printer: PrinterView,
    raw: Seq<char>,
    code: PrintStateCode,
    line: u32,
    pct: Double,
    span: Span,
)
    ensures
        ({
            let told = printer.after(EventView::PrintState { raw, code });
            &&& told.text == raw && told.code == code
            &&& told.tool == printer.tool && told.bed == printer.bed
        }),
        printer.after(EventView::GcodeLine(line)) == printer,
        printer.after(EventView::PrintPercentage(pct)) == printer,
        printer.after(EventView::RemainingPrintTime(span)) == printer,
        PrinterView::initial().code == PrintStateCode::Offline,
        PrinterView::initial().text == "Offline"@,
        forall|which: Thermistor|
            (#[trigger] PrinterView::initial().reading(which)).actual.bits == 0
                && PrinterView::initial().reading(which).target.bits == 0,
{
}

/// What stands in the document about a file.
proof fn lemma_file_document(
    date: Option<u64>,
    name: Option<Seq<char>>,
    origin: Option<Seq<char>>,
    path: Option<Seq<char>>,
    size: Option<u64>,
)
    ensures
        ({
            let doc = file_document(date, name, origin, path, size);
            &&& doc.get("date"@) == Some(integer_or_null(date))
            &&& doc.get("display"@) == Some(text_or_null(name))
            &&& doc.get("name"@) == Some(text_or_null(name))
            &&& doc.get("origin"@) == Some(text_or_null(origin))
            &&& doc.get("path"@) == Some(text_or_null(path))
            &&& doc.get("size"@) == Some(integer_or_null(size))
        }),
{
    reveal_strlit("date");
    reveal_strlit("display");
    reveal_strlit("name");
    reveal_strlit("origin");
    reveal_strlit("path");
    reveal_strlit("size");
    let members = file_document(date, name, origin, path, size)->Object_0;
    assert(members[0].0.len() == 4 && members[1].0.len() == 7 && members[2].0.len() == 4);
    assert(members[3].0.len() == 6 && members[4].0.len() == 4 && members[5].0.len() == 4);
    assert(members[0].0[0] == 'd' && members[2].0[0] == 'n');
    assert(members[4].0[0] == 'p' && members[5].0[0] == 's');
    lemma_find_member(members, "date"@, 0);
    lemma_find_member(members, "display"@, 1);
    lemma_find_member(members, "name"@, 2);
    lemma_find_member(members, "origin"@, 3);
    lemma_find_member(members, "path"@, 4);
    lemma_find_member(members, "size"@, 5);
}

/// The file of the job is the one on the sdcard that its gcode was taken from,
/// whether out of a 3MF or not: its name, its path without leading separators and
/// its date; the size is that of the gcode. There is nothing to say of it where
/// there is no gcode, and no document where it is older than 1970.
pub proof fn law_file_of_the_job_is_the_one_on_the_sdcard(
    job: JobView,
    gcode: Arc<Gcode>,
    target: Seq<char>,
)
    requires
        job.active_gcode == Some(gcode),
        match gcode.meta@.source {
            SourceView::Resolved(FilePathView::Inside3MF { sdcard, .. }) => sdcard == target,
            SourceView::Resolved(FilePathView::StrippedPath(path)) => path == target,
            SourceView::Resolved(FilePathView::NoJob) => false,
            SourceView::Pending3MF { known, .. } => known == target,
        },
    ensures
        match gcode.meta@.modified_time {
            Timestamp::AfterEpoch(span) => {
                &&& job.file() is Some
                &&& job.file()->0.unsigned_at("date"@) == Some(span.secs)
                &&& job.file()->0.text_at("name"@) == file_name_of(target)
                &&& job.file()->0.text_at("display"@) == file_name_of(target)
                &&& job.file()->0.text_at("origin"@) == Some("local"@)
                &&& job.file()->0.text_at("path"@) == Some(trimmed_start(target, '/'))
                &&& job.file()->0.unsigned_at("size"@) == Some(gcode.content@.len() as u64)
            },
            Timestamp::BeforeEpoch(_) => job.file() is None,
        },
{
    if let Timestamp::AfterEpoch(span) = gcode.meta@.modified_time {
        lemma_file_document(
            Some(span.secs),
            file_name_of(target),
            Some("local"@),
            Some(reported_path(target)),
            Some(gcode.content@.len() as u64),
        );
    }
}

/// The name and the path that the document of the job gives are those of a
/// download of the gcode it is about, whatever its source; for the path this holds
/// where it is plain.
pub proof fn law_document_names_a_download(job: JobView, gcode: Arc<Gcode>, text: Seq<char>)
    requires
        job.active_gcode == Some(gcode),
        gcode.meta@.wf(),
        job.file() is Some,
    ensures
        job.file()->0.text_at("name"@) == Some(text) ==> {
            &&& download(CurrentGcode::Current(gcode), text) == Download::Content(gcode)
            &&& download(CurrentGcode::Outdated(gcode), text) == Download::Conflict
        },
        job.file()->0.text_at("display"@) == job.file()->0.text_at("name"@),
        job.file()->0.text_at("path"@) == Some(text) && is_plain(
            components_of(gcode.meta@.source.targeted_filename()),
        ) ==> {
            &&& download(CurrentGcode::Current(gcode), text) == Download::Content(gcode)
            &&& download(CurrentGcode::Outdated(gcode), text) == Download::Conflict
        },
        job.file()->0.text_at("path"@) is Some,
{
    let target = gcode.meta@.source.targeted_filename();
    law_file_of_the_job_is_the_one_on_the_sdcard(job, gcode, target);
    if file_name_of(target) == Some(text) {
        law_reported_name_is_a_download(gcode, text);
    }
    law_reported_path_is_a_download(gcode);
}

/// Without gcode there is nothing to say of the file.
pub proof fn law_no_file_without_gcode(job: JobView)
    requires
        job.active_gcode is None,
    ensures
        job.file() is Some,
        job.file()->0.get("date"@) == Some(JsonView::Null),
        job.file()->0.get("display"@) == Some(JsonView::Null),
        job.file()->0.get("name"@) == Some(JsonView::Null),
        job.file()->0.get("origin"@) == Some(JsonView::Null),
        job.file()->0.get("path"@) == Some(JsonView::Null),
        job.file()->0.get("size"@) == Some(JsonView::Null),
        job.filepos() is None,
{
    lemma_file_document(None, None, None, None, None);
}

/// The document of the job gives the state, the file, and the progress: how much
/// is done, where the line begins that is printed, and the times.
pub proof fn law_document_of_the_job(job: JobView, now: Span)
    ensures
        job.document(now) is Some <==> job.file() is Some,
        job.document(now) matches Some(doc) ==> {
            let progress = doc.get("progress"@)->0;
            &&& doc.text_at("state"@) == Some(job.text)
            &&& doc.get("job"@)->0.get("file"@) == job.file()
            &&& progress.double_at("completion"@) == Some(job.gcode_pct)
            &&& progress.get("filepos"@) == Some(integer_or_null(job.filepos()))
            &&& progress.get("printTime"@) == Some(integer_or_null(job.print_time(now)))
            &&& progress.get("printTimeLeft"@) == Some(integer_or_null(job.print_time_left()))
            &&& progress.get("printTimeLeftOrigin"@) == Some(
                if job.print_time_left() is Some {
                    JsonView::String("analysis"@)
                } else {
                    JsonView::Null
                },
            )
        },
{
    if job.document(now) is Some {
        reveal_strlit("state");
        reveal_strlit("job");
        reveal_strlit("progress");
        reveal_strlit("file");
        reveal_strlit("completion");
        reveal_strlit("filepos");
        reveal_strlit("printTime");
        reveal_strlit("printTimeLeft");
        reveal_strlit("printTimeLeftOrigin");
        let all = job.document(now)->0->Object_0;
        assert(all[0].0.len() == 5 && all[1].0.len() == 3 && all[2].0.len() == 8);
        lemma_find_member(all, "state"@, 0);
        lemma_find_member(all, "job"@, 1);
        lemma_find_member(all, "progress"@, 2);
        let inner = all[1].1->Object_0;
        assert(inner[0].0 == "file"@);
        lemma_find_member(inner, "file"@, 0);
        let progress = job.progress_document(now)->Object_0;
        assert(progress[0].0.len() == 10 && progress[1].0.len() == 7 && progress[2].0.len() == 9);
        assert(progress[3].0.len() == 13 && progress[4].0.len() == 19);
        lemma_find_member(progress, "completion"@, 0);
        lemma_find_member(progress, "filepos"@, 1);
        lemma_find_member(progress, "printTime"@, 2);
        lemma_find_member(progress, "printTimeLeft"@, 3);
        lemma_find_member(progress, "printTimeLeftOrigin"@, 4);
    }
}

/// An integer that there is stands as itself in a document, and one that there is
/// not as nothing; and so does text.
pub proof fn law_what_is_missing_is_null(n: u64, s: Seq<char>)
    ensures
        integer_or_null(Some(n)).unsigned() == Some(n),
        integer_or_null(None) == JsonView::Null,
        text_or_null(Some(s)).text() == Some(s),
        text_or_null(None) == JsonView::Null,
{
}

/// The position in the file is where the line begins that is printed, lines being
/// counted from 1; there is none where there is no such line.
pub proof fn law_filepos_is_of_the_line_printed(job: JobView, gcode: Arc<Gcode>)
    requires
        job.active_gcode == Some(gcode),
        positions(gcode.line_table@) == line_starts(gcode.content@),
    ensures
        ({
            let starts = line_starts(gcode.content@);
            if 0 < job.gcode_line <= starts.len() {
                job.filepos() matches Some(at) && at == starts[job.gcode_line - 1]
            } else {
                job.filepos() is None
            }
        }),
{
    if 0 < job.gcode_line <= gcode.line_table@.len() {
        let i = job.gcode_line - 1;
        law_line_table(gcode.content@);
        assert(positions(gcode.line_table@)[i] == gcode.line_table@[i]);
    }
}

/// A job starts when the printer begins to print without having printed or paused
/// just before; the time that it was said to take stays with one that had not
/// ended.
pub proof fn law_job_starts_when_printing_begins(
    job: JobView,
    raw: Seq<char>,
    now: Span,
)
    requires
        job.code != PrintStateCode::Printing,
        job.code != PrintStateCode::Paused,
    ensures
        ({
            let told = job.after(
                EventView::PrintState { raw, code: PrintStateCode::Printing },
                now,
            );
            &&& told.time_stats matches Some(PrintTime::Printing { started, remaining })
            &&& started == now
            &&& remaining == match job.time_stats {
                Some(PrintTime::Printing { remaining, .. }) => remaining,
                _ => None,
            }
        }),
{
}

/// The time of a job that runs is the whole seconds from its start; that of one
/// that is over is what it took, whatever the time is; and there is none without a
/// job.
pub proof fn law_print_time_is_counted_in_seconds(job: JobView, now: Span)
    requires
        job.wf(),
        now.wf(),
    ensures
        match job.time_stats {
            Some(PrintTime::Printing { started, .. }) => {
                let from = started.secs * 1_000_000_000 + started.nanos;
                let to = now.secs * 1_000_000_000 + now.nanos;
                &&& job.print_time(now) matches Some(secs)
                &&& to >= from ==> secs * 1_000_000_000 <= to - from < (secs + 1) * 1_000_000_000
                &&& to < from ==> secs == 0
            },
            Some(PrintTime::Done { took }) => job.print_time(now) == Some(took.secs),
            None => job.print_time(now) is None,
        },
{
    if let Some(PrintTime::Printing { started, .. }) = job.time_stats {
        law_elapsed_is_the_time_between(started, now);
    }
}

/// The time left of a job that runs is what was told of it, that of one that is
/// over is none, and otherwise it is not known.
pub proof fn law_time_left_is_as_told(job: JobView)
    ensures
        match job.time_stats {
            Some(PrintTime::Printing { remaining: Some(span), .. }) => job.print_time_left() == Some(
                span.secs,
            ),
            Some(PrintTime::Printing { remaining: None, .. }) => job.print_time_left() is None,
            Some(PrintTime::Done { .. }) => job.print_time_left() == Some(0u64),
            None => job.print_time_left() is None,
        },
{
}

/// Each event changes what it speaks of, and nothing else of the job; and the
/// temperatures do not concern it.
pub proof fn law_events_change_what_they_speak_of(
    job: JobView,
    raw: Seq<char>,
    code: PrintStateCode,
    line: u32,
    value: Double,
    span: Span,
    which: Thermistor,
    now: Span,
)
    ensures
        ({
            let told = job.after(EventView::PrintState { raw, code }, now);
            &&& told.text == raw && told.code == code
            &&& told.gcode_line == job.gcode_line && told.gcode_pct == job.gcode_pct
        }),
        job.after(EventView::GcodeLine(line), now) == (JobView { gcode_line: line, ..job }),
        job.after(EventView::PrintPercentage(value), now) == (JobView { gcode_pct: value, ..job }),
        ({
            let told = job.after(EventView::RemainingPrintTime(span), now);
            &&& told == (JobView { time_stats: told.time_stats, ..job })
            &&& job.time_stats matches Some(PrintTime::Printing { started, .. }) ==> told.time_stats
                == Some(PrintTime::Printing { started, remaining: Some(span) })
        }),
        job.after(EventView::Temperature { which, value }, now) == job,
        job.after(EventView::TemperatureTarget { which, value }, now) == job,
        JobView::initial().code == PrintStateCode::Offline,
        JobView::initial().text == "Offline"@,
        JobView::initial().active_gcode is None,
        JobView::initial().time_stats is None,
        JobView::initial().gcode_line == 0,
        JobView::initial().gcode_pct.bits == 0,
{
}

/// The gcode that is served is that of the job, in date or not, and the rest of the
/// job stays as it was.
pub proof fn law_gcode_of_the_job_is_the_one_served(job: JobView, gcode: Arc<Gcode>)
    ensures
        job.with_gcode(CurrentGcode::Current(gcode)) == (JobView {
            active_gcode: Some(gcode),
            ..job
        }),
        job.with_gcode(CurrentGcode::Outdated(gcode)) == job.with_gcode(
            CurrentGcode::Current(gcode),
        ),
        ({
            let none = job.with_gcode(CurrentGcode::Nothing);
            &&& none.active_gcode is None && none.gcode_line == 0 && none.gcode_pct.bits == 0
            &&& none.text == job.text && none.code == job.code && none.time_stats == job.time_stats
        }),
{
}

} // verus!
