//! When to look for the printer, to connect to it, and to start over.

use crate::clock::Span;
use crate::json::JsonView;
use crate::printer_spy::{
    after_link_error, after_ping, event_views, link_action, ping_action, ping_interval,
    report_outcome, EventView, FilePath, FilePathView, Incoming, IncomingView, LinkAction,
    LinkError, Listener, PingAction, PingOutcome, ReportOutcome, SessionError,
};
use vstd::prelude::*;

verus! {

/// How far the connection to the printer is.
#[derive(Debug, Clone, Copy, PartialEq, Eq, Structural)]
pub enum Spy {
    /// It is to be forgotten which file the printer worked on.
    Resetting,
    /// It is to be told that the printer is offline.
    Announcing,
    /// The printer was pinged with this sequence number.
    Pinging { sequence: u16 },
    /// Some time is to pass before the ping with this sequence number.
    Waiting { sequence: u16 },
    /// A connection is to be made.
    Connecting,
    /// The printer reports.
    Listening { listener: Listener },
    /// It was given up.
    Stopped,
}

/// Something that happened.
#[derive(Debug)]
pub enum SpyHappening {
    /// What was to be done was done.
    Done,
    /// Nobody is left to be told.
    Unheard,
    /// A ping was answered or not.
    Pinged(PingOutcome),
    /// No connection can be made.
    Refused,
    /// A message came.
    Message(Incoming),
    /// Polling the connection failed.
    LinkError(LinkError),
}

/// What a [`SpyHappening`] says.
pub enum SpyHappeningView {
    Done,
    Unheard,
    Pinged(PingOutcome),
    Refused,
    Message(IncomingView),
    LinkError(LinkError),
}

impl View for SpyHappening {
    type V = SpyHappeningView;

    open spec fn view(&self) -> SpyHappeningView {
        match self {
            SpyHappening::Done => SpyHappeningView::Done,
            SpyHappening::Unheard => SpyHappeningView::Unheard,
            SpyHappening::Pinged(outcome) => SpyHappeningView::Pinged(*outcome),
            SpyHappening::Refused => SpyHappeningView::Refused,
            SpyHappening::Message(message) => SpyHappeningView::Message(message@),
            SpyHappening::LinkError(error) => SpyHappeningView::LinkError(*error),
        }
    }
}

/// Something to do.
#[derive(Debug, Clone, Copy, PartialEq, Eq, Structural)]
pub enum SpyTask {
    /// Tell those who wait for the file that there is no job.
    ResetFile,
    /// Tell that the printer is offline.
    SendOffline,
    /// Ping the printer with this sequence number.
    Ping(u16),
    /// Let this much time pass.
    Wait(Span),
    /// Drop any connection, and make one that subscribes to the reports and asks
    /// for all of them.
    Connect,
    /// Wait for what the connection brings.
    Poll,
    /// Give up for good.
    Stop,
}

impl Spy {
    /// No report that was heard calls the printer offline.
    pub open spec fn wf(self) -> bool {
        self matches Spy::Listening { listener } ==> listener.wf()
    }

    /// Whether this can happen now.
    pub open spec fn expects(self, happening: SpyHappeningView) -> bool {
        match (self, happening) {
            (Spy::Resetting, SpyHappeningView::Done) => true,
            (Spy::Announcing, SpyHappeningView::Done) => true,
            (Spy::Announcing, SpyHappeningView::Unheard) => true,
            (Spy::Pinging { .. }, SpyHappeningView::Pinged(_)) => true,
            (Spy::Waiting { .. }, SpyHappeningView::Done) => true,
            (Spy::Connecting, SpyHappeningView::Done) => true,
            (Spy::Connecting, SpyHappeningView::Refused) => true,
            (Spy::Listening { .. }, SpyHappeningView::Message(_)) => true,
            (Spy::Listening { .. }, SpyHappeningView::LinkError(_)) => true,
            _ => false,
        }
    }
}

/// What is done next, after something happened. Before each attempt at a
/// connection the file is forgotten, then it is told that the printer is offline,
/// then the printer is pinged until it answers. Each connection has a listener of
/// its own that has heard nothing.
pub open spec fn spied(spy: Spy, happening: SpyHappeningView, file: FilePathView) -> (
    Spy,
    SpyTask,
) {
    match (spy, happening) {
        (Spy::Resetting, _) => (Spy::Announcing, SpyTask::SendOffline),
        (Spy::Announcing, SpyHappeningView::Done) => (
            Spy::Pinging { sequence: 0 },
            SpyTask::Ping(0),
        ),
        (Spy::Pinging { sequence }, SpyHappeningView::Pinged(outcome)) => match ping_action(
            sequence,
            outcome,
        ) {
            PingAction::Connect => (Spy::Connecting, SpyTask::Connect),
            PingAction::Retry { sequence, after } => (
                Spy::Waiting { sequence },
                SpyTask::Wait(after),
            ),
            PingAction::Fail => (Spy::Stopped, SpyTask::Stop),
        },
        (Spy::Waiting { sequence }, _) => (Spy::Pinging { sequence }, SpyTask::Ping(sequence)),
        (Spy::Connecting, SpyHappeningView::Done) => (
            Spy::Listening { listener: Listener::fresh() },
            SpyTask::Poll,
        ),
        (
            Spy::Listening { listener },
            SpyHappeningView::Message(IncomingView::Report(report)),
        ) => (
            Spy::Listening { listener: report_outcome(listener, report, file).listener },
            SpyTask::Poll,
        ),
        (Spy::Listening { .. }, SpyHappeningView::Message(_)) => (spy, SpyTask::Poll),
        (Spy::Listening { .. }, SpyHappeningView::LinkError(error)) => match link_action(error) {
            LinkAction::Ignore => (spy, SpyTask::Poll),
            LinkAction::Reconnect => (Spy::Resetting, SpyTask::ResetFile),
            LinkAction::Abort => (Spy::Stopped, SpyTask::Stop),
        },
        _ => (Spy::Stopped, SpyTask::Stop),
    }
}

/// What is passed on after something happened: the events, the file that the
/// printer works on, and whether those who wait for it are told. Only a report
/// leads to anything.
pub open spec fn overheard(spy: Spy, happening: SpyHappeningView, file: FilePathView) -> (
    Seq<EventView>,
    FilePathView,
    bool,
) {
    match (spy, happening) {
        (
            Spy::Listening { listener },
            SpyHappeningView::Message(IncomingView::Report(report)),
        ) => {
            let outcome = report_outcome(listener, report, file);
            (outcome.events, outcome.file, outcome.file_changed)
        },
        _ => (Seq::empty(), file, false),
    }
}

impl Spy {
    /// Begins, with what is done first.
    pub fn start() -> (r: (Spy, SpyTask))
        ensures
            r == (Spy::Resetting, SpyTask::ResetFile),
    {
        (Spy::Resetting, SpyTask::ResetFile)
    }

    /// Goes on after something happened. Returns what is done next and what is
    /// passed on, and brings the file that the printer works on up to date.
    pub fn step(&mut self, happening: SpyHappening, file: &mut FilePath) -> (r: (
        SpyTask,
        ReportOutcome,
    ))
        requires
            old(self).wf(),
            old(self).expects(happening@),
        ensures
            final(self).wf(),
            (*final(self), r.0) == spied(*old(self), happening@, old(file)@),
            (event_views(r.1.events@), final(file)@, r.1.file_changed) == overheard(
                *old(self),
                happening@,
                old(file)@,
            ),
    {
        let mut outcome = ReportOutcome { events: Vec::new(), file_changed: false };
        assert(event_views(outcome.events@) == Seq::<EventView>::empty());
        let (next, task) = match (*self, happening) {
            (Spy::Resetting, _) => (Spy::Announcing, SpyTask::SendOffline),
            (Spy::Announcing, SpyHappening::Done) => (
                Spy::Pinging { sequence: 0 },
                SpyTask::Ping(0),
            ),
            (Spy::Pinging { sequence }, SpyHappening::Pinged(reply)) => match after_ping(
                sequence,
                reply,
            ) {
                PingAction::Connect => (Spy::Connecting, SpyTask::Connect),
                PingAction::Retry { sequence, after } => (
                    Spy::Waiting { sequence },
                    SpyTask::Wait(after),
                ),
                PingAction::Fail => (Spy::Stopped, SpyTask::Stop),
            },
            (Spy::Waiting { sequence }, _) => (
                Spy::Pinging { sequence },
                SpyTask::Ping(sequence),
            ),
            (Spy::Connecting, SpyHappening::Done) => (
                Spy::Listening { listener: Listener::new() },
                SpyTask::Poll,
            ),
            (Spy::Listening { listener }, SpyHappening::Message(Incoming::Report(report))) => {
                let mut listener = listener;
                outcome = listener.handle_report(&report, file);
                (Spy::Listening { listener }, SpyTask::Poll)
            },
            (Spy::Listening { listener }, SpyHappening::Message(_)) => (
                Spy::Listening { listener },
                SpyTask::Poll,
            ),
            (Spy::Listening { listener }, SpyHappening::LinkError(error)) => match after_link_error(
                error,
            ) {
                LinkAction::Ignore => (Spy::Listening { listener }, SpyTask::Poll),
                LinkAction::Reconnect => (Spy::Resetting, SpyTask::ResetFile),
                LinkAction::Abort => (Spy::Stopped, SpyTask::Stop),
            },
            _ => (Spy::Stopped, SpyTask::Stop),
        };
        *self = next;
        (task, outcome)
    }
}

/// After a connection was lost, the file is forgotten, it is told that the
/// printer is offline, and the printer is pinged from the first sequence number
/// on; the next connection begins with a listener that has heard nothing.
pub proof fn law_lost_connection_starts_over(
    listener: Listener,
    error: LinkError,
    file: FilePathView,
)
    requires
        link_action(error) == LinkAction::Reconnect,
    ensures
        ({
            let done = SpyHappeningView::Done;
            let lost = spied(
                Spy::Listening { listener },
                SpyHappeningView::LinkError(error),
                file,
            );
            let reset = spied(lost.0, done, file);
            let told = spied(reset.0, done, file);
            let up = spied(told.0, SpyHappeningView::Pinged(PingOutcome::Replied), file);
            let connected = spied(up.0, done, file);
            &&& lost.1 == SpyTask::ResetFile
            &&& reset.1 == SpyTask::SendOffline
            &&& told.1 == SpyTask::Ping(0)
            &&& up.1 == SpyTask::Connect
            &&& connected == (Spy::Listening { listener: Listener::fresh() }, SpyTask::Poll)
        }),
{
}

/// A printer that does not answer is pinged again, as long as it takes, with the
/// interval between one ping and the next.
pub proof fn law_silent_printer_is_waited_for(
    sequence: u16,
    outcome: PingOutcome,
    file: FilePathView,
)
    requires
        outcome == PingOutcome::NetworkError || outcome == PingOutcome::Timeout || outcome
            == PingOutcome::IoError,
    ensures
        ({
            let silent = spied(
                Spy::Pinging { sequence },
                SpyHappeningView::Pinged(outcome),
                file,
            );
            let waited = spied(silent.0, SpyHappeningView::Done, file);
            let next = ((sequence + 1) % 0x10000) as u16;
            &&& silent.1 == SpyTask::Wait(ping_interval())
            &&& waited == (Spy::Pinging { sequence: next }, SpyTask::Ping(next))
        }),
{
}

/// Nothing is passed on but what a report says while there is a connection, and
/// a connection is made only when the printer answered a ping.
pub proof fn law_only_a_connected_printer_is_heard(
    spy: Spy,
    happening: SpyHappeningView,
    file: FilePathView,
)
    requires
        spy.expects(happening),
    ensures
        spy !is Listening ==> overheard(spy, happening, file) == (
            Seq::<EventView>::empty(),
            file,
            false,
        ),
        spied(spy, happening, file).0 is Listening && spy !is Listening ==> spy is Connecting
            && spied(spy, happening, file).0 == (Spy::Listening { listener: Listener::fresh() }),
        spied(spy, happening, file).0 is Connecting ==> spy is Pinging && happening
            == SpyHappeningView::Pinged(PingOutcome::Replied),
{
}

/// While there is a connection, a report leads to what it says, and nothing else
/// that happens leads to anything; a connection that was lost or refused ends the
/// listening, and an unknown error does not.
pub proof fn law_connection_is_listened_to(
    listener: Listener,
    report: JsonView,
    state: SessionError,
    file: FilePathView,
)
    ensures
        ({
            let spy = Spy::Listening { listener };
            let heard = SpyHappeningView::Message(IncomingView::Report(report));
            let outcome = report_outcome(listener, report, file);
            let after = |error: LinkError| spied(spy, SpyHappeningView::LinkError(error), file);
            &&& spied(spy, heard, file) == (
                Spy::Listening { listener: outcome.listener },
                SpyTask::Poll,
            )
            &&& overheard(spy, heard, file) == (outcome.events, outcome.file, outcome.file_changed)
            &&& spied(spy, SpyHappeningView::Message(IncomingView::Unrelated), file) == (
                spy,
                SpyTask::Poll,
            )
            &&& spied(spy, SpyHappeningView::Message(IncomingView::Malformed), file) == (
                spy,
                SpyTask::Poll,
            )
            &&& overheard(spy, SpyHappeningView::Message(IncomingView::Malformed), file)
                == overheard(Spy::Stopped, SpyHappeningView::Done, file)
            &&& after(LinkError::Io) == (Spy::Resetting, SpyTask::ResetFile)
            &&& after(LinkError::MqttState(state)) == (Spy::Resetting, SpyTask::ResetFile)
            &&& after(LinkError::NetworkTimeout) == (Spy::Resetting, SpyTask::ResetFile)
            &&& after(LinkError::FlushTimeout) == (Spy::Resetting, SpyTask::ResetFile)
            &&& after(LinkError::NotConnAck) == (Spy::Resetting, SpyTask::ResetFile)
            &&& after(LinkError::Tls) == (Spy::Stopped, SpyTask::Stop)
            &&& after(LinkError::ConnectionRefused) == (Spy::Stopped, SpyTask::Stop)
            &&& after(LinkError::Other) == (spy, SpyTask::Poll)
        }),
{
}

/// What keeps an attempt from being made ends it all: nobody to tell, a network
/// that is set up wrongly, a connection that cannot be made.
pub proof fn law_hopeless_attempts_are_given_up(sequence: u16, file: FilePathView)
    ensures
        spied(Spy::Announcing, SpyHappeningView::Unheard, file) == (Spy::Stopped, SpyTask::Stop),
        spied(
            Spy::Pinging { sequence },
            SpyHappeningView::Pinged(PingOutcome::Other),
            file,
        ) == (Spy::Stopped, SpyTask::Stop),
        spied(Spy::Connecting, SpyHappeningView::Refused, file) == (Spy::Stopped, SpyTask::Stop),
        spied(
            Spy::Pinging { sequence },
            SpyHappeningView::Pinged(PingOutcome::Timeout),
            file,
        ).1 == SpyTask::Wait(Span { secs: 5, nanos: 0 }),
{
}

} // verus!
