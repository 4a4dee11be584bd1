//! When to look for a file, to fetch it, and to serve what was fetched.

use crate::clock::Span;
use crate::paths::components_of;
use crate::printer_spy::{FilePath, FilePathView};
use crate::search::{
    all_rooted, copied, dir_views, fetchable, search_start, searchable, CommandView, FtpCommand,
    FtpReply, Interrogation, InterrogationView, Progress, ProgressView, ReplyView,
};
use crate::slurper::{
    archived_file, archived_names, line_starts, positions, resolved, share, CurrentGcode, Gcode,
    GcodeMeta, MetaView, ResolvedView,
};
use std::sync::Arc;
use vstd::prelude::*;

verus! {

/// The most attempts at a connection for one file.
pub const CONNECT_ATTEMPTS: u32 = 4;

/// How long to wait from one attempt at a connection to the next: two seconds.
pub open spec fn retry_delay() -> Span {
    Span { secs: 2, nanos: 0 }
}

/// How far the gcode of the job is.
#[derive(Debug)]
pub enum Fetching {
    /// The printer is to work on another file first.
    Idle,
    /// A connection is to be made, after some attempts that failed.
    Connecting { event: FilePath, cached: Option<Arc<Gcode>>, tries: u32 },
    /// Some time is to pass after an attempt at a connection.
    Waiting { event: FilePath, cached: Option<Arc<Gcode>>, tries: u32 },
    /// The file is looked for.
    Searching { search: Interrogation, cached: Option<Arc<Gcode>> },
    /// The file is fetched.
    Retrieving { meta: GcodeMeta },
}

/// What a [`Fetching`] says.
pub enum FetchingView {
    Idle,
    Connecting { event: FilePathView, cached: Option<Arc<Gcode>>, tries: u32 },
    Waiting { event: FilePathView, cached: Option<Arc<Gcode>>, tries: u32 },
    Searching { search: InterrogationView, cached: Option<Arc<Gcode>> },
    Retrieving { meta: MetaView },
}

impl View for Fetching {
    type V = FetchingView;

    open spec fn view(&self) -> FetchingView {
        match self {
            Fetching::Idle => FetchingView::Idle,
            Fetching::Connecting { event, cached, tries } => FetchingView::Connecting {
                event: event@,
                cached: *cached,
                tries: *tries,
            },
            Fetching::Waiting { event, cached, tries } => FetchingView::Waiting {
                event: event@,
                cached: *cached,
                tries: *tries,
            },
            Fetching::Searching { search, cached } => FetchingView::Searching {
                search: search@,
                cached: *cached,
            },
            Fetching::Retrieving { meta } => FetchingView::Retrieving { meta: meta@ },
        }
    }
}

/// Something that happened.
#[derive(Debug)]
pub enum Happening {
    /// The printer works on another file.
    File(FilePath),
    /// A connection was made.
    Connected,
    /// No connection was made, for want of a network.
    ConnectionError,
    /// No connection was made, for another reason.
    Refused,
    /// Some time passed.
    Waited,
    /// A command was answered.
    Reply(FtpReply),
    /// The file was fetched.
    Content(Arc<[u8]>),
    /// The file could not be fetched.
    NoContent,
}

/// What a [`Happening`] says.
pub enum HappeningView {
    File(FilePathView),
    Connected,
    ConnectionError,
    Refused,
    Waited,
    Reply(ReplyView),
    Content(Seq<u8>),
    NoContent,
}

impl View for Happening {
    type V = HappeningView;

    open spec fn view(&self) -> HappeningView {
        match self {
            Happening::File(event) => HappeningView::File(event@),
            Happening::Connected => HappeningView::Connected,
            Happening::ConnectionError => HappeningView::ConnectionError,
            Happening::Refused => HappeningView::Refused,
            Happening::Waited => HappeningView::Waited,
            Happening::Reply(reply) => HappeningView::Reply(reply@),
            Happening::Content(content) => HappeningView::Content(content@),
            Happening::NoContent => HappeningView::NoContent,
        }
    }
}

/// Something to do.
#[derive(Debug)]
pub enum Task {
    /// Wait until the printer works on another file.
    Listen,
    /// Make a connection, or use the one that is kept.
    Connect,
    /// Let this much time pass.
    Wait(Span),
    /// Send a command.
    Ask(FtpCommand),
    /// Fetch a file, which is about as long as it is said to be.
    Retrieve { path: String, size: usize },
    /// Give up for good.
    Stop,
}

/// What a [`Task`] says.
pub enum TaskView {
    Listen,
    Connect,
    Wait(Span),
    Ask(CommandView),
    Retrieve { path: Seq<char>, size: usize },
    Stop,
}

impl View for Task {
    type V = TaskView;

    open spec fn view(&self) -> TaskView {
        match self {
            Task::Listen => TaskView::Listen,
            Task::Connect => TaskView::Connect,
            Task::Wait(span) => TaskView::Wait(*span),
            Task::Ask(command) => TaskView::Ask(command@),
            Task::Retrieve { path, size } => TaskView::Retrieve { path: path@, size: *size },
            Task::Stop => TaskView::Stop,
        }
    }
}

/// Whether gcode, where there is some, is from a file.
pub open spec fn is_from_file(cached: Option<Arc<Gcode>>) -> bool {
    cached matches Some(gcode) ==> gcode.meta@.wf()
}

impl FetchingView {
    /// There is a file, no more attempts were made than may be, and what was
    /// fetched before is from a file.
    pub open spec fn wf(self) -> bool {
        match self {
            FetchingView::Idle => true,
            FetchingView::Connecting { event, cached, tries } => event !is NoJob && is_from_file(
                cached,
            ) && tries < CONNECT_ATTEMPTS,
            FetchingView::Waiting { event, cached, tries } => event !is NoJob && is_from_file(
                cached,
            ) && 0 < tries <= CONNECT_ATTEMPTS,
            FetchingView::Searching { search, cached } => search.wf() && is_from_file(cached),
            FetchingView::Retrieving { meta } => meta.wf(),
        }
    }

    /// Whether this can happen now. A connection is of use for a file that can be
    /// looked for.
    pub open spec fn expects(self, happening: HappeningView) -> bool {
        match (self, happening) {
            (FetchingView::Idle, HappeningView::File(_)) => true,
            (FetchingView::Connecting { event, .. }, HappeningView::Connected) => searchable(event),
            (FetchingView::Connecting { .. }, HappeningView::ConnectionError) => true,
            (FetchingView::Connecting { .. }, HappeningView::Refused) => true,
            (FetchingView::Waiting { .. }, HappeningView::Waited) => true,
            (FetchingView::Searching { search, .. }, HappeningView::Reply(reply)) =>
            search.answered_by(reply),
            (FetchingView::Retrieving { .. }, HappeningView::Content(_)) => true,
            (FetchingView::Retrieving { .. }, HappeningView::NoContent) => true,
            _ => false,
        }
    }
}

/// Whether what was fetched before is the file that was found.
pub open spec fn is_cached(cached: Option<Arc<Gcode>>, meta: MetaView) -> bool {
    cached matches Some(gcode) && gcode.meta@.same(meta)
}

/// The gcode that was in date.
pub open spec fn in_date(served: CurrentGcode) -> Option<Arc<Gcode>> {
    match served {
        CurrentGcode::Current(gcode) => Some(gcode),
        _ => None,
    }
}

/// What is done next when the printer works on another file.
pub open spec fn begun(event: FilePathView, served: CurrentGcode) -> (FetchingView, TaskView) {
    if event is NoJob {
        (FetchingView::Idle, TaskView::Listen)
    } else {
        (
            FetchingView::Connecting { event, cached: in_date(served), tries: 0 },
            TaskView::Connect,
        )
    }
}

/// How a search goes on.
pub open spec fn searched(progress: ProgressView, cached: Option<Arc<Gcode>>) -> (
    FetchingView,
    TaskView,
) {
    match progress {
        ProgressView::Ask(search, command) => (
            FetchingView::Searching { search, cached },
            TaskView::Ask(command),
        ),
        ProgressView::Found(meta, path) => if is_cached(cached, meta) {
            (FetchingView::Idle, TaskView::Listen)
        } else {
            (
                FetchingView::Retrieving { meta },
                TaskView::Retrieve { path, size: meta.original_filesize },
            )
        },
        _ => (FetchingView::Idle, TaskView::Listen),
    }
}

/// What is done next, after something happened. A file is looked for once there
/// is a connection, which is tried for a few times. Gcode that was in date is not
/// fetched again if the same is known of it. Whatever fails for one file, the next is waited for, except
/// where the server refuses a connection.
pub open spec fn continued(
    fetching: FetchingView,
    happening: HappeningView,
    dirs: Seq<Seq<char>>,
    served: CurrentGcode,
) -> (FetchingView, TaskView) {
    match (fetching, happening) {
        (FetchingView::Idle, HappeningView::File(event)) => begun(event, served),
        (FetchingView::Connecting { event, cached, .. }, HappeningView::Connected) => searched(
            search_start(event, dirs),
            cached,
        ),
        (FetchingView::Connecting { event, cached, tries }, HappeningView::ConnectionError) => (
            FetchingView::Waiting { event, cached, tries: (tries + 1) as u32 },
            TaskView::Wait(retry_delay()),
        ),
        (FetchingView::Connecting { .. }, _) => (FetchingView::Idle, TaskView::Stop),
        (FetchingView::Waiting { event, cached, tries }, _) => if tries < CONNECT_ATTEMPTS {
            (FetchingView::Connecting { event, cached, tries }, TaskView::Connect)
        } else {
            (FetchingView::Idle, TaskView::Listen)
        },
        (FetchingView::Searching { search, cached }, HappeningView::Reply(reply)) => searched(
            search.advanced(reply),
            cached,
        ),
        _ => (FetchingView::Idle, TaskView::Listen),
    }
}

/// What is served once the printer works on another file: without a job nothing;
/// with one, what was in date is not any more.
pub open spec fn served_after(event: FilePathView, served: CurrentGcode) -> CurrentGcode {
    match (event, served) {
        (FilePathView::NoJob, _) => CurrentGcode::Nothing,
        (_, CurrentGcode::Current(gcode)) => CurrentGcode::Outdated(gcode),
        _ => served,
    }
}

/// What is served after something happened, and whether those who wait are told,
/// where no file was fetched.
pub open spec fn served_next(
    fetching: FetchingView,
    happening: HappeningView,
    served: CurrentGcode,
) -> (CurrentGcode, bool) {
    match (fetching, happening) {
        (FetchingView::Idle, HappeningView::File(event)) => (
            served_after(event, served),
            event is NoJob || served is Current,
        ),
        (
            FetchingView::Searching { search, cached: Some(gcode) },
            HappeningView::Reply(reply),
        ) => match search.advanced(reply) {
            ProgressView::Found(meta, _) => if gcode.meta@.same(meta) {
                (CurrentGcode::Current(gcode), true)
            } else {
                (served, false)
            },
            _ => (served, false),
        },
        _ => (served, false),
    }
}

/// What is served once a file was fetched, and whether those who wait are told:
/// the gcode that was made of it, if any could be.
pub open spec fn served_fetched(
    made: ResolvedView,
    before: CurrentGcode,
    after: CurrentGcode,
    notify: bool,
) -> bool {
    match made {
        ResolvedView::Gcode { meta, content } => {
            &&& notify
            &&& after matches CurrentGcode::Current(gcode)
            &&& gcode.meta@ == meta
            &&& gcode.content@ == content
            &&& positions(gcode.line_table@) == line_starts(content)
        },
        _ => !notify && after == before,
    }
}

impl Fetching {
    /// Goes on after something happened. Files are looked for in these directories
    /// where their paths do not begin at the root. Returns what is done next, and
    /// whether those who wait for gcode are told of what is served now.
    pub fn step(
        &mut self,
        happening: Happening,
        dirs: &Vec<String>,
        served: &mut CurrentGcode,
    ) -> (r: (Task, bool))
        requires
            all_rooted(dir_views(dirs@)),
            old(self)@.wf(),
            old(self)@.expects(happening@),
            old(served).wf(),
        ensures
            (final(self)@, r.0@) == continued(
                old(self)@,
                happening@,
                dir_views(dirs@),
                *old(served),
            ),
            final(self)@.wf(),
            final(served).wf(),
            r.0@ matches TaskView::Retrieve { path, .. } ==> fetchable(path),
            match (old(self)@, happening@) {
                (FetchingView::Retrieving { meta }, HappeningView::Content(content)) =>
                served_fetched(
                    resolved(
                        meta,
                        content,
                        archived_names(content),
                        |name: Seq<char>| archived_file(content, name),
                    ),
                    *old(served),
                    *final(served),
                    r.1,
                ),
                _ => (*final(served), r.1) == served_next(old(self)@, happening@, *old(served)),
            },
    {
        let mut state = Fetching::Idle;
        std::mem::swap(self, &mut state);
        match (state, happening) {
            (Fetching::Idle, Happening::File(event)) => self.begin(event, served),
            (Fetching::Connecting { event, cached, .. }, Happening::Connected) => {
                let progress = Interrogation::start(event, copied(dirs));
                self.follow(progress, cached, served)
            },
            (Fetching::Connecting { event, cached, tries }, Happening::ConnectionError) => {
                *self = Fetching::Waiting { event, cached, tries: tries + 1 };
                (Task::Wait(Span { secs: 2, nanos: 0 }), false)
            },
            (Fetching::Connecting { .. }, _) => (Task::Stop, false),
            (Fetching::Waiting { event, cached, tries }, _) => if tries < CONNECT_ATTEMPTS {
                *self = Fetching::Connecting { event, cached, tries };
                (Task::Connect, false)
            } else {
                (Task::Listen, false)
            },
            (Fetching::Searching { search, cached }, Happening::Reply(reply)) => {
                let progress = search.advance(reply);
                self.follow(progress, cached, served)
            },
            (Fetching::Retrieving { meta }, Happening::Content(content)) => {
                match meta.resolve(content) {
                    Ok(gcode) => {
                        *served = CurrentGcode::Current(gcode);
                        (Task::Listen, true)
                    },
                    Err(_) => (Task::Listen, false),
                }
            },
            _ => (Task::Listen, false),
        }
    }

    /// Goes on when the printer works on another file.
    fn begin(&mut self, event: FilePath, served: &mut CurrentGcode) -> (r: (Task, bool))
        requires
            old(self)@ is Idle,
            old(served).wf(),
        ensures
            (final(self)@, r.0@) == begun(event@, *old(served)),
            final(self)@.wf(),
            (*final(served), r.1) == served_next(
                FetchingView::Idle,
                HappeningView::File(event@),
                *old(served),
            ),
    {
        match event {
            FilePath::NoJob => {
                *served = CurrentGcode::Nothing;
                (Task::Listen, true)
            },
            event => {
                let cached = match &*served {
                    CurrentGcode::Current(gcode) => Some(share(gcode)),
                    _ => None,
                };
                let told = match &cached {
                    Some(gcode) => {
                        *served = CurrentGcode::Outdated(share(gcode));
                        true
                    },
                    None => false,
                };
                *self = Fetching::Connecting { event, cached, tries: 0 };
                (Task::Connect, told)
            },
        }
    }

    /// Goes on with what a search has come to.
    fn follow(
        &mut self,
        progress: Progress,
        cached: Option<Arc<Gcode>>,
        served: &mut CurrentGcode,
    ) -> (r: (Task, bool))
        requires
            old(self)@ is Idle,
            is_from_file(cached),
            progress matches Progress::Ask(search, _) ==> search@.wf(),
            progress matches Progress::Found(meta, path) ==> meta@.wf() && fetchable(path@),
        ensures
            (final(self)@, r.0@) == searched(progress@, cached),
            final(self)@.wf(),
            r.0@ matches TaskView::Retrieve { path, .. } ==> fetchable(path),
            match (progress@, cached) {
                (ProgressView::Found(meta, _), Some(gcode)) if gcode.meta@.same(meta) => {
                    r.1 && *final(served) == CurrentGcode::Current(gcode)
                },
                _ => !r.1 && *final(served) == *old(served),
            },
    {
        match progress {
            Progress::Ask(search, command) => {
                *self = Fetching::Searching { search, cached };
                (Task::Ask(command), false)
            },
            Progress::Found(meta, path) => match plan_fetch(cached, meta) {
                FetchPlan::Reuse(gcode) => {
                    *served = CurrentGcode::Current(gcode);
                    (Task::Listen, true)
                },
                FetchPlan::Download(meta) => {
                    let size: usize = meta.original_filesize;
                    *self = Fetching::Retrieving { meta };
                    (Task::Retrieve { path, size }, false)
                },
            },
            _ => (Task::Listen, false),
        }
    }
}

/// How to come by the gcode that was found.
#[derive(Debug)]
pub enum FetchPlan {
    /// Serve what was fetched before.
    Reuse(Arc<Gcode>),
    /// Fetch it.
    Download(GcodeMeta),
}

/// Decides how to come by the gcode that was found: what was fetched before is
/// served again if the same is known of it.
pub fn plan_fetch(cached: Option<Arc<Gcode>>, meta: GcodeMeta) -> (plan: FetchPlan)
    ensures
        match cached {
            Some(gcode) if gcode.meta@.same(meta@) => plan == FetchPlan::Reuse(gcode),
            _ => plan == FetchPlan::Download(meta),
        },
{
    match cached {
        Some(gcode) => if gcode.meta.same(&meta) {
            FetchPlan::Reuse(gcode)
        } else {
            FetchPlan::Download(meta)
        },
        None => FetchPlan::Download(meta),
    }
}

/// Nothing is served as in date for a file that was not fetched yet, and without
/// a job nothing is served at all.
pub proof fn law_other_file_is_not_served(event: FilePathView, served: CurrentGcode)
    ensures
        served_after(event, served) !is Current,
        event is NoJob ==> served_after(event, served) is Nothing,
        event !is NoJob && served !is Nothing ==> served_after(event, served) is Outdated,
        served_after(event, served_after(event, served)) == served_after(event, served),
        served.wf() ==> served_after(event, served).wf(),
{
}

/// While a file is looked for and fetched, nothing is served as in date: what is
/// in date is for the last file that the printer was heard to work on.
pub proof fn law_in_date_is_for_the_last_file(
    fetching: FetchingView,
    happening: HappeningView,
    dirs: Seq<Seq<char>>,
    served: CurrentGcode,
)
    requires
        fetching.expects(happening),
        fetching !is Idle ==> served !is Current,
    ensures
        ({
            let next = continued(fetching, happening, dirs, served).0;
            let after = served_next(fetching, happening, served).0;
            &&& next !is Idle ==> after !is Current
            &&& fetching is Retrieving ==> next is Idle
        }),
{
}

/// A file is not fetched again when what is known of it is what was known of the
/// gcode that was in date. That is never so for a 3MF whose plate had to be chosen:
/// see [`law_chosen_plate_is_fetched_again`].
pub proof fn law_unchanged_file_is_served_again(
    search: InterrogationView,
    gcode: Arc<Gcode>,
    reply: ReplyView,
    path: Seq<char>,
    dirs: Seq<Seq<char>>,
    served: CurrentGcode,
)
    requires
        search.advanced(reply) == ProgressView::Found(gcode.meta@, path),
    ensures
        ({
            let fetching = FetchingView::Searching { search, cached: Some(gcode) };
            let happening = HappeningView::Reply(reply);
            &&& continued(fetching, happening, dirs, served) == (
                FetchingView::Idle,
                TaskView::Listen,
            )
            &&& served_next(fetching, happening, served) == (CurrentGcode::Current(gcode), true)
        }),
{
}

/// A 3MF whose plate has to be chosen is fetched each time, since the gcode that
/// was made of it is known by the plate that was chosen.
pub proof fn law_chosen_plate_is_fetched_again(
    before: MetaView,
    content: Seq<u8>,
    names: Option<Seq<Seq<char>>>,
    file: spec_fn(Seq<char>) -> Option<Seq<u8>>,
    gcode: Arc<Gcode>,
    meta: MetaView,
    path: Seq<char>,
)
    requires
        before.wf(),
        resolved(before, content, names, file) matches ResolvedView::Gcode { meta: settled, .. }
            && gcode.meta@ == settled,
        meta.source is Pending3MF,
    ensures
        searched(ProgressView::Found(meta, path), Some(gcode)) == (
            FetchingView::Retrieving { meta },
            TaskView::Retrieve { path, size: meta.original_filesize },
        ),
{
}

/// A connection is tried for a bounded number of times for each file, with the
/// same delay after each attempt that failed for want of a network.
pub proof fn law_attempts_are_bounded(
    fetching: FetchingView,
    happening: HappeningView,
    dirs: Seq<Seq<char>>,
    served: CurrentGcode,
)
    requires
        fetching.wf(),
        fetching.expects(happening),
    ensures
        match (fetching, continued(fetching, happening, dirs, served).0) {
            (
                FetchingView::Connecting { tries, .. },
                FetchingView::Waiting { tries: made, .. },
            ) => made == tries + 1 && made <= CONNECT_ATTEMPTS,
            (FetchingView::Waiting { tries, .. }, FetchingView::Connecting { tries: made, .. }) =>
            made == tries && made < CONNECT_ATTEMPTS,
            (_, FetchingView::Connecting { tries, .. }) => fetching is Idle && tries == 0,
            (_, next) => next !is Waiting,
        },
        continued(fetching, happening, dirs, served).0 is Waiting <==> continued(
            fetching,
            happening,
            dirs,
            served,
        ).1 == TaskView::Wait(retry_delay()),
{
}

/// A file that the printer starts to work on is connected for, with what was in
/// date kept aside; without a job there is nothing to do.
pub proof fn law_each_file_is_connected_for(
    event: FilePathView,
    gcode: Arc<Gcode>,
    dirs: Seq<Seq<char>>,
    served: CurrentGcode,
)
    requires
        event !is NoJob,
    ensures
        ({
            let idle = FetchingView::Idle;
            let file = HappeningView::File(event);
            let none = HappeningView::File(FilePathView::NoJob);
            &&& continued(idle, file, dirs, CurrentGcode::Current(gcode)) == (
                FetchingView::Connecting { event, cached: Some(gcode), tries: 0 },
                TaskView::Connect,
            )
            &&& served !is Current ==> continued(idle, file, dirs, served) == (
                FetchingView::Connecting { event, cached: None, tries: 0 },
                TaskView::Connect,
            )
            &&& continued(idle, none, dirs, served) == (idle, TaskView::Listen)
            &&& served_next(idle, none, served) == (CurrentGcode::Nothing, true)
            &&& served_next(idle, file, CurrentGcode::Current(gcode)) == (
                CurrentGcode::Outdated(gcode),
                true,
            )
            &&& served !is Current ==> served_next(idle, file, served) == (served, false)
        }),
{
}

/// A connection that fails for want of a network is tried again after two seconds,
/// up to four times for one file, and the file is given up after that; one that
/// fails otherwise ends it all. What is served does not change meanwhile.
pub proof fn law_connection_is_tried_four_times(
    event: FilePathView,
    cached: Option<Arc<Gcode>>,
    tries: u32,
    dirs: Seq<Seq<char>>,
    served: CurrentGcode,
)
    requires
        tries <= 4,
    ensures
        ({
            let connecting = FetchingView::Connecting { event, cached, tries };
            let waiting = FetchingView::Waiting { event, cached, tries };
            let failed = HappeningView::ConnectionError;
            let refused = HappeningView::Refused;
            let waited = HappeningView::Waited;
            &&& continued(connecting, failed, dirs, served) == (
                FetchingView::Waiting { event, cached, tries: (tries + 1) as u32 },
                TaskView::Wait(Span { secs: 2, nanos: 0 }),
            )
            &&& tries < 4 ==> continued(waiting, waited, dirs, served) == (
                connecting,
                TaskView::Connect,
            )
            &&& tries == 4 ==> continued(waiting, waited, dirs, served) == (
                FetchingView::Idle,
                TaskView::Listen,
            )
            &&& continued(connecting, refused, dirs, served).1 is Stop
            &&& served_next(connecting, failed, served) == (served, false)
            &&& served_next(connecting, refused, served) == (served, false)
            &&& served_next(waiting, waited, served) == (served, false)
        }),
{
}

/// A file that was found is fetched from where it was found, unless what is known
/// of it is what was known of the gcode that was in date. In particular it is
/// fetched whenever its time or its size differs, or there is nothing to reuse.
pub proof fn law_changed_file_is_fetched(
    search: InterrogationView,
    reply: ReplyView,
    meta: MetaView,
    path: Seq<char>,
    gcode: Arc<Gcode>,
    dirs: Seq<Seq<char>>,
    served: CurrentGcode,
)
    requires
        search.advanced(reply) == ProgressView::Found(meta, path),
    ensures
        ({
            let happening = HappeningView::Reply(reply);
            let with = FetchingView::Searching { search, cached: Some(gcode) };
            let without = FetchingView::Searching { search, cached: None };
            let fetched = (
                FetchingView::Retrieving { meta },
                TaskView::Retrieve { path, size: meta.original_filesize },
            );
            &&& continued(without, happening, dirs, served) == fetched
            &&& served_next(without, happening, served) == (served, false)
            &&& (gcode.meta@.modified_time != meta.modified_time || gcode.meta@.original_filesize
                != meta.original_filesize || components_of(gcode.meta@.source.targeted_filename())
                != components_of(meta.source.targeted_filename())) ==> {
                &&& continued(with, happening, dirs, served) == fetched
                &&& served_next(with, happening, served) == (served, false)
            }
        }),
{
}

/// A search begins once there is a connection, goes on as it says, and is given up
/// where it found nothing or failed; then what is served stays, and the next file
/// is waited for.
pub proof fn law_search_is_followed(
    event: FilePathView,
    search: InterrogationView,
    cached: Option<Arc<Gcode>>,
    tries: u32,
    reply: ReplyView,
    dirs: Seq<Seq<char>>,
    served: CurrentGcode,
)
    ensures
        ({
            let connecting = FetchingView::Connecting { event, cached, tries };
            let searching = FetchingView::Searching { search, cached };
            let happening = HappeningView::Reply(reply);
            let given_up = (FetchingView::Idle, TaskView::Listen);
            &&& match search_start(event, dirs) {
                ProgressView::Ask(first, command) => continued(
                    connecting,
                    HappeningView::Connected,
                    dirs,
                    served,
                ) == (FetchingView::Searching { search: first, cached }, TaskView::Ask(command)),
                ProgressView::NotFound => continued(
                    connecting,
                    HappeningView::Connected,
                    dirs,
                    served,
                ) == given_up,
                _ => true,
            }
            &&& match search.advanced(reply) {
                ProgressView::Ask(next, command) => continued(searching, happening, dirs, served)
                    == (FetchingView::Searching { search: next, cached }, TaskView::Ask(command))
                    && served_next(searching, happening, served) == (served, false),
                ProgressView::Found(..) => true,
                _ => continued(searching, happening, dirs, served) == given_up && served_next(
                    searching,
                    happening,
                    served,
                ) == (served, false),
            }
        }),
{
}

/// Once a file was fetched, or could not be, the next is waited for. The gcode that
/// was made of it is in date, and those who wait are told; where none could be
/// made, nothing changes and nobody is told.
pub proof fn law_fetched_file_is_served(
    meta: MetaView,
    content: Seq<u8>,
    made: ResolvedView,
    dirs: Seq<Seq<char>>,
    before: CurrentGcode,
    after: CurrentGcode,
    told: bool,
)
    requires
        served_fetched(made, before, after, told),
    ensures
        ({
            let retrieving = FetchingView::Retrieving { meta };
            let waiting = (FetchingView::Idle, TaskView::Listen);
            &&& continued(retrieving, HappeningView::Content(content), dirs, before) == waiting
            &&& continued(retrieving, HappeningView::NoContent, dirs, before) == waiting
            &&& served_next(retrieving, HappeningView::NoContent, before) == (before, false)
            &&& made matches ResolvedView::Gcode { meta: of, content: bytes } ==> told && (
            after matches CurrentGcode::Current(gcode) && gcode.meta@ == of && gcode.content@
                == bytes && positions(gcode.line_table@) == line_starts(bytes))
            &&& made !is Gcode ==> !told && after == before
        }),
{
}

/// Those who wait are told of every change of what is served.
pub proof fn law_changes_are_told(
    fetching: FetchingView,
    happening: HappeningView,
    served: CurrentGcode,
)
    ensures
        served_next(fetching, happening, served).0 != served ==> served_next(
            fetching,
            happening,
            served,
        ).1,
{
}

} // verus!
