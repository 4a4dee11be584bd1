//! The search for the file that the printer works on, as a conversation with its
//! FTP server.

use crate::listing::{entry_views, EntryView, ListEntry};
use crate::paths::{
    components_of, extension, extension_of, file_name, file_name_of, has_root, is_rooted, join,
    joined, last_dot, lemma_component_is_name, lemma_in_directory, lemma_last_dot, parent,
    parent_of, ComponentView,
};
use crate::plates::{
    cached_plate, is_newest, law_newest_plate_is_of_the_newest_file, newest_plate, newest_plate_of,
};
use crate::printer_spy::{FilePath, FilePathView};
use crate::slurper::{meta_of, GcodeMeta, GcodeMetaSource, MetaView, SourceView};
use crate::text::{before_dot, law_text_is_split_at_its_first_dot, law_text_without_a_dot_is_not_split, same_text, split_at_dot};
use vstd::prelude::*;

verus! {

/// A command to the printer's FTP server.
#[derive(Debug)]
pub enum FtpCommand {
    /// Go to this directory.
    ChangeDir(String),
    /// List the directory.
    List,
}

/// What an [`FtpCommand`] says.
pub enum CommandView {
    ChangeDir(Seq<char>),
    List,
}

impl View for FtpCommand {
    type V = CommandView;

    open spec fn view(&self) -> CommandView {
        match self {
            FtpCommand::ChangeDir(dir) => CommandView::ChangeDir(dir@),
            FtpCommand::List => CommandView::List,
        }
    }
}

/// The answer to an [`FtpCommand`].
#[derive(Debug)]
pub enum FtpReply {
    /// The directory was gone to.
    Entered,
    /// The directory was listed.
    Listing(Vec<ListEntry>),
    /// There is no such directory.
    Unavailable,
    /// The command failed otherwise.
    Failed,
}

/// What an [`FtpReply`] says.
pub enum ReplyView {
    Entered,
    Listing(Seq<EntryView>),
    Unavailable,
    Failed,
}

impl View for FtpReply {
    type V = ReplyView;

    open spec fn view(&self) -> ReplyView {
        match self {
            FtpReply::Entered => ReplyView::Entered,
            FtpReply::Listing(entries) => ReplyView::Listing(entry_views(entries@)),
            FtpReply::Unavailable => ReplyView::Unavailable,
            FtpReply::Failed => ReplyView::Failed,
        }
    }
}

/// A directory that a file is looked for in.
#[derive(Debug)]
pub enum Place {
    /// The one that the path of the file names.
    Containing,
    /// One of those to search, with those that are left after it.
    Configured { dir: String, rest: Vec<String> },
}

/// What a [`Place`] says.
pub enum PlaceView {
    Containing,
    Configured { dir: Seq<char>, rest: Seq<Seq<char>> },
}

impl View for Place {
    type V = PlaceView;

    open spec fn view(&self) -> PlaceView {
        match self {
            Place::Containing => PlaceView::Containing,
            Place::Configured { dir, rest } => PlaceView::Configured {
                dir: dir@,
                rest: dir_views(rest@),
            },
        }
    }
}

/// What the directories say, in order.
pub open spec fn dir_views(dirs: Seq<String>) -> Seq<Seq<char>> {
    dirs.map_values(|s: String| s@)
}

/// Whether the directories can be searched: each is a path from the root.
pub open spec fn all_rooted(dirs: Seq<Seq<char>>) -> bool {
    forall|i: int| 0 <= i < dirs.len() ==> is_rooted(#[trigger] dirs[i])
}

/// The directories that are searched where nothing else is set.
pub open spec fn default_dirs() -> Seq<Seq<char>> {
    seq!["/"@, "/models"@]
}

/// The directories that are searched where nothing else is set.
pub fn default_search_dirs() -> (dirs: Vec<String>)
    ensures
        dir_views(dirs@) == default_dirs(),
        all_rooted(dir_views(dirs@)),
{
    let mut dirs: Vec<String> = Vec::new();
    dirs.push("/".to_owned());
    dirs.push("/models".to_owned());
    proof {
        reveal_strlit("/");
        reveal_strlit("/models");
    }
    assert(dir_views(dirs@) =~= default_dirs());
    dirs
}

/// Whether the directories can be searched.
pub fn can_be_searched(dirs: &Vec<String>) -> (r: bool)
    ensures
        r == all_rooted(dir_views(dirs@)),
{
    let ghost views = dir_views(dirs@);
    for i in 0..dirs.len()
        invariant
            views == dir_views(dirs@),
            forall|j: int| 0 <= j < i ==> is_rooted(#[trigger] views[j]),
    {
        assert(views[i as int] == dirs@[i as int]@);
        if !has_root(dirs[i].as_str()) {
            assert(!is_rooted(views[i as int]));
            return false;
        }
    }
    true
}

/// The same directories once more.
pub(crate) fn copied(dirs: &Vec<String>) -> (r: Vec<String>)
    ensures
        dir_views(r@) == dir_views(dirs@),
{
    let mut r: Vec<String> = Vec::new();
    for i in 0..dirs.len()
        invariant
            dir_views(r@) == dir_views(dirs@).take(i as int),
    {
        let ghost before = dir_views(r@);
        r.push(dirs[i].clone());
        assert(dir_views(r@) == before.push(dirs@[i as int]@));
    }
    assert(dir_views(dirs@).take(dirs@.len() as int) == dir_views(dirs@));
    r
}

/// The search for the file that the printer works on.
#[derive(Debug)]
pub enum Interrogation {
    /// A directory was to be gone to.
    Entering { target: FilePath, place: Place },
    /// A directory was to be listed.
    Listing { target: FilePath, place: Place },
    /// A 3MF was found, and the printer's cache was to be gone to.
    EnteringCache { known: String, entry: ListEntry },
    /// A 3MF was found, and the printer's cache was to be listed for files whose
    /// names begin with the stem.
    ListingCache { known: String, entry: ListEntry, stem: String },
}

/// What an [`Interrogation`] says.
pub enum InterrogationView {
    Entering { target: FilePathView, place: PlaceView },
    Listing { target: FilePathView, place: PlaceView },
    EnteringCache { known: Seq<char>, entry: EntryView },
    ListingCache { known: Seq<char>, entry: EntryView, stem: Seq<char> },
}

impl View for Interrogation {
    type V = InterrogationView;

    open spec fn view(&self) -> InterrogationView {
        match self {
            Interrogation::Entering { target, place } => InterrogationView::Entering {
                target: target@,
                place: place@,
            },
            Interrogation::Listing { target, place } => InterrogationView::Listing {
                target: target@,
                place: place@,
            },
            Interrogation::EnteringCache { known, entry } => InterrogationView::EnteringCache {
                known: known@,
                entry: entry@,
            },
            Interrogation::ListingCache { known, entry, stem } => InterrogationView::ListingCache {
                known: known@,
                entry: entry@,
                stem: stem@,
            },
        }
    }
}

/// What a search has come to.
#[derive(Debug)]
pub enum Progress {
    /// The search goes on with the answer to this command.
    Ask(Interrogation, FtpCommand),
    /// The file was found: what is known of it, and the path to fetch it from.
    Found(GcodeMeta, String),
    /// There is no such file.
    NotFound,
    /// A command failed, and the search with it.
    Failed,
}

/// What a [`Progress`] says.
pub enum ProgressView {
    Ask(InterrogationView, CommandView),
    Found(MetaView, Seq<char>),
    NotFound,
    Failed,
}

impl View for Progress {
    type V = ProgressView;

    open spec fn view(&self) -> ProgressView {
        match self {
            Progress::Ask(search, command) => ProgressView::Ask(search@, command@),
            Progress::Found(meta, path) => ProgressView::Found(meta@, path@),
            Progress::NotFound => ProgressView::NotFound,
            Progress::Failed => ProgressView::Failed,
        }
    }
}

/// Whether a file can be looked for: there is one, and a path from the root
/// names it.
pub open spec fn searchable(target: FilePathView) -> bool {
    target.targeted_filename() matches Some(path) && (is_rooted(path) ==> file_name_of(
        path,
    ) is Some)
}

/// Whether a file can be looked for in a directory.
pub open spec fn placed(target: FilePathView, place: PlaceView) -> bool {
    &&& searchable(target)
    &&& match place {
        PlaceView::Containing => is_rooted(target.targeted_filename()->0),
        PlaceView::Configured { dir, rest } => {
            &&& !is_rooted(target.targeted_filename()->0)
            &&& is_rooted(dir)
            &&& all_rooted(rest)
        },
    }
}

/// Whether a file can be fetched: a path from the root names it.
pub open spec fn fetchable(path: Seq<char>) -> bool {
    is_rooted(path) && file_name_of(path) is Some
}

/// How the search goes on with the first of the directories that are left.
pub open spec fn search_in(target: FilePathView, dirs: Seq<Seq<char>>) -> ProgressView {
    if dirs.len() == 0 {
        ProgressView::NotFound
    } else {
        ProgressView::Ask(
            InterrogationView::Entering {
                target,
                place: PlaceView::Configured { dir: dirs[0], rest: dirs.skip(1) },
            },
            CommandView::ChangeDir(dirs[0]),
        )
    }
}

/// How the search for a file begins: in the directory that its path names, or,
/// for a path that does not begin at the root, in the first of those to search.
pub open spec fn search_start(target: FilePathView, dirs: Seq<Seq<char>>) -> ProgressView {
    let path = target.targeted_filename()->0;
    if is_rooted(path) {
        ProgressView::Ask(
            InterrogationView::Entering { target, place: PlaceView::Containing },
            CommandView::ChangeDir(parent_of(path)->0),
        )
    } else {
        search_in(target, dirs)
    }
}

/// How the search goes on when the file is not in a directory.
pub open spec fn search_elsewhere(target: FilePathView, place: PlaceView) -> ProgressView {
    match place {
        PlaceView::Containing => ProgressView::NotFound,
        PlaceView::Configured { rest, .. } => search_in(target, rest),
    }
}

/// The path of a file that was listed in a directory.
pub open spec fn full_path(path: Seq<char>, place: PlaceView, name: Seq<char>) -> Seq<char> {
    match place {
        PlaceView::Containing => path,
        PlaceView::Configured { dir, .. } => joined(dir, name),
    }
}

/// The first of the entries with this name.
pub open spec fn find_entry(entries: Seq<EntryView>, name: Seq<char>) -> Option<EntryView>
    decreases entries.len(),
{
    if entries.len() == 0 {
        None
    } else if entries[0].name == name {
        Some(entries[0])
    } else {
        find_entry(entries.skip(1), name)
    }
}

/// How the search goes on when the file was listed. What a project_file command
/// announced is known as announced, and fetched from where it was found; of another
/// 3MF, the plate is looked for in the printer's cache.
pub open spec fn search_found(
    target: FilePathView,
    place: PlaceView,
    entry: EntryView,
) -> ProgressView {
    match target {
        FilePathView::StrippedPath(path) => {
            let known = full_path(path, place, entry.name);
            if extension_of(known) == Some("3mf"@) {
                ProgressView::Ask(
                    InterrogationView::EnteringCache { known, entry },
                    CommandView::ChangeDir("/cache"@),
                )
            } else {
                ProgressView::Found(
                    meta_of(SourceView::Resolved(FilePathView::StrippedPath(known)), entry),
                    known,
                )
            }
        },
        _ => ProgressView::Found(
            meta_of(SourceView::Resolved(target), entry),
            full_path(target.targeted_filename()->0, place, entry.name),
        ),
    }
}

/// How the search goes on with a listing of a directory.
pub open spec fn search_listed(
    target: FilePathView,
    place: PlaceView,
    entries: Seq<EntryView>,
) -> ProgressView {
    match file_name_of(target.targeted_filename()->0) {
        Some(name) => match find_entry(entries, name) {
            Some(entry) => search_found(target, place, entry),
            None => search_elsewhere(target, place),
        },
        None => search_elsewhere(target, place),
    }
}

/// The 3MF was found, and this is known of the plate.
pub open spec fn pending(
    known: Seq<char>,
    entry: EntryView,
    hint_plate_file: Option<usize>,
) -> ProgressView {
    ProgressView::Found(meta_of(SourceView::Pending3MF { known, hint_plate_file }, entry), known)
}

/// How the search goes on in the printer's cache: for a 3MF whose name has a
/// stem, what is there is listed.
pub open spec fn search_cache(known: Seq<char>, entry: EntryView) -> ProgressView {
    match before_dot(file_name_of(known)->0) {
        Some(stem) => ProgressView::Ask(
            InterrogationView::ListingCache { known, entry, stem },
            CommandView::List,
        ),
        None => pending(known, entry, None),
    }
}

impl PlaceView {
    /// How many commands the directories that are left take at most.
    pub open spec fn commands_left(self) -> nat {
        match self {
            PlaceView::Containing => 0,
            PlaceView::Configured { rest, .. } => 2 * rest.len(),
        }
    }
}

impl InterrogationView {
    /// What is looked for can be, in the directory that its path names if that
    /// begins at the root, and a 3MF that was found can be fetched.
    pub open spec fn wf(self) -> bool {
        match self {
            InterrogationView::Entering { target, place } => placed(target, place),
            InterrogationView::Listing { target, place } => placed(target, place),
            InterrogationView::EnteringCache { known, .. } => fetchable(known),
            InterrogationView::ListingCache { known, .. } => fetchable(known),
        }
    }

    /// How many commands there are at most until the search ends.
    pub open spec fn commands_left(self) -> nat {
        match self {
            InterrogationView::Entering { place, .. } => 4 + place.commands_left(),
            InterrogationView::Listing { place, .. } => 3 + place.commands_left(),
            InterrogationView::EnteringCache { .. } => 2,
            InterrogationView::ListingCache { .. } => 1,
        }
    }

    /// Whether the reply answers the command that was asked for, and a file that
    /// is to be found among the entries of a listing has a name.
    pub open spec fn answered_by(self, reply: ReplyView) -> bool {
        match self {
            InterrogationView::Entering { .. } | InterrogationView::EnteringCache { .. } =>
            reply !is Listing,
            InterrogationView::Listing { target, .. } => reply !is Entered && (
            reply matches ReplyView::Listing(entries) ==> entries.len() > 0 ==> file_name_of(
                target.targeted_filename()->0,
            ) is Some),
            InterrogationView::ListingCache { .. } => reply !is Entered,
        }
    }

    /// How the search goes on with a reply. A directory that the search itself
    /// chose may be missing; the one that a path names may not.
    pub open spec fn advanced(self, reply: ReplyView) -> ProgressView {
        match (self, reply) {
            (InterrogationView::Entering { target, place }, ReplyView::Entered) =>
            ProgressView::Ask(InterrogationView::Listing { target, place }, CommandView::List),
            (InterrogationView::Entering { target, place }, ReplyView::Unavailable) =>
            match place {
                PlaceView::Containing => ProgressView::Failed,
                _ => search_elsewhere(target, place),
            },
            (InterrogationView::Listing { target, place }, ReplyView::Listing(entries)) =>
            search_listed(target, place, entries),
            (InterrogationView::EnteringCache { known, entry }, ReplyView::Entered) =>
            search_cache(known, entry),
            (InterrogationView::EnteringCache { known, entry }, ReplyView::Unavailable) => pending(
                known,
                entry,
                None,
            ),
            (
                InterrogationView::ListingCache { known, entry, stem },
                ReplyView::Listing(entries),
            ) => pending(known, entry, newest_plate_of(entries, stem)),
            _ => ProgressView::Failed,
        }
    }
}

/// What is found has the name that was looked for.
proof fn lemma_find_entry(entries: Seq<EntryView>, name: Seq<char>)
    ensures
        find_entry(entries, name) matches Some(entry) ==> entry.name == name,
    decreases entries.len(),
{
    if entries.len() > 0 && entries[0].name != name {
        lemma_find_entry(entries.skip(1), name);
    }
}

/// A file that was listed can be fetched by its path, which ends in its name.
proof fn lemma_full_path(path: Seq<char>, place: PlaceView, name: Seq<char>)
    requires
        match place {
            PlaceView::Containing => is_rooted(path),
            PlaceView::Configured { dir, .. } => is_rooted(dir),
        },
        file_name_of(path) == Some(name),
    ensures
        fetchable(full_path(path, place, name)),
        file_name_of(full_path(path, place, name)) == Some(name),
{
    lemma_component_is_name(path, components_of(path).len() - 1);
    if let PlaceView::Configured { dir, .. } = place {
        lemma_in_directory(dir, name);
    }
}

/// The first of the entries with this name.
fn take_entry(entries: Vec<ListEntry>, name: &str) -> (r: Option<ListEntry>)
    ensures
        match r {
            Some(entry) => find_entry(entry_views(entries@), name@) == Some(entry@),
            None => find_entry(entry_views(entries@), name@) is None,
        },
{
    let ghost all = entry_views(entries@);
    let mut rest = entries;
    assert(all.skip(0) == all);
    let n: usize = rest.len();
    for i in 0..n
        invariant
            n == rest@.len(),
            rest@ == entries@,
            all == entry_views(entries@),
            find_entry(all, name@) == find_entry(all.skip(i as int), name@),
    {
        assert(all.skip(i as int)[0] == rest@[i as int]@);
        assert(all.skip(i as int).skip(1) == all.skip(i + 1));
        if same_text(rest[i].name.as_str(), name) {
            return Some(rest.swap_remove(i));
        }
    }
    None
}

impl Interrogation {
    /// Begins the search for a file, in these directories where its path does not
    /// begin at the root.
    pub fn start(target: FilePath, dirs: Vec<String>) -> (r: Progress)
        requires
            searchable(target@),
            all_rooted(dir_views(dirs@)),
        ensures
            r@ == search_start(target@, dir_views(dirs@)),
            r matches Progress::Ask(search, _) ==> search@.wf(),
    {
        let dir = match target.targeted_filename() {
            Some(path) => if has_root(path.as_str()) {
                parent(path.as_str())
            } else {
                None
            },
            None => None,
        };
        match dir {
            Some(dir) => Progress::Ask(
                Interrogation::Entering { target, place: Place::Containing },
                FtpCommand::ChangeDir(dir),
            ),
            None => Interrogation::search_in(target, dirs),
        }
    }

    /// Goes on with the first of the directories that are left.
    fn search_in(target: FilePath, dirs: Vec<String>) -> (r: Progress)
        requires
            searchable(target@),
            !is_rooted(target@.targeted_filename()->0),
            all_rooted(dir_views(dirs@)),
        ensures
            r@ == search_in(target@, dir_views(dirs@)),
            r matches Progress::Ask(search, _) ==> search@.wf(),
    {
        let ghost views = dir_views(dirs@);
        if dirs.len() == 0 {
            return Progress::NotFound;
        }
        let mut rest = dirs;
        let dir = rest.remove(0);
        proof {
            assert(dir_views(rest@) == views.skip(1));
            assert(views[0] == dir@);
            assert forall|i: int| 0 <= i < views.skip(1).len() implies is_rooted(
                #[trigger] views.skip(1)[i],
            ) by {
                assert(views.skip(1)[i] == views[i + 1]);
            }
        }
        let command = FtpCommand::ChangeDir(dir.clone());
        Progress::Ask(
            Interrogation::Entering { target, place: Place::Configured { dir, rest } },
            command,
        )
    }

    /// Goes on when the file is not in a directory.
    fn elsewhere(target: FilePath, place: Place) -> (r: Progress)
        requires
            placed(target@, place@),
        ensures
            r@ == search_elsewhere(target@, place@),
            r matches Progress::Ask(search, _) ==> search@.wf(),
    {
        match place {
            Place::Containing => Progress::NotFound,
            Place::Configured { rest, .. } => Interrogation::search_in(target, rest),
        }
    }

    /// Goes on when the file was listed.
    fn found(target: FilePath, place: Place, entry: ListEntry) -> (r: Progress)
        requires
            placed(target@, place@),
            file_name_of(target@.targeted_filename()->0) == Some(entry@.name),
        ensures
            r@ == search_found(target@, place@, entry@),
            r matches Progress::Ask(search, _) ==> search@.wf(),
            r matches Progress::Found(meta, path) ==> meta@.wf() && fetchable(path@),
    {
        proof {
            lemma_full_path(target@.targeted_filename()->0, place@, entry@.name);
        }
        let known = match (&place, target.targeted_filename()) {
            (Place::Containing, Some(path)) => path.clone(),
            (Place::Configured { dir, .. }, _) => join(dir.as_str(), entry.name.as_str()),
            (Place::Containing, None) => return Progress::NotFound,
        };
        match target {
            FilePath::StrippedPath(_) => {
                let is_3mf = match extension(known.as_str()) {
                    Some(ext) => same_text(ext.as_str(), "3mf"),
                    None => false,
                };
                if is_3mf {
                    Progress::Ask(
                        Interrogation::EnteringCache { known, entry },
                        FtpCommand::ChangeDir("/cache".to_owned()),
                    )
                } else {
                    let source = GcodeMetaSource::Resolved(FilePath::StrippedPath(known.clone()));
                    Progress::Found(GcodeMeta::new(source, &entry), known)
                }
            },
            target => Progress::Found(
                GcodeMeta::new(GcodeMetaSource::Resolved(target), &entry),
                known,
            ),
        }
    }

    /// Goes on with the answer to the command that was asked for.
    pub fn advance(self, reply: FtpReply) -> (r: Progress)
        requires
            self@.wf(),
            self@.answered_by(reply@),
        ensures
            r@ == self@.advanced(reply@),
            r matches Progress::Ask(search, _) ==> search@.wf(),
            r matches Progress::Found(meta, path) ==> meta@.wf() && fetchable(path@),
    {
        match (self, reply) {
            (Interrogation::Entering { target, place }, FtpReply::Entered) => Progress::Ask(
                Interrogation::Listing { target, place },
                FtpCommand::List,
            ),
            (Interrogation::Entering { target, place }, FtpReply::Unavailable) => match place {
                Place::Containing => Progress::Failed,
                place => Interrogation::elsewhere(target, place),
            },
            (Interrogation::Listing { target, place }, FtpReply::Listing(entries)) => {
                let name = match target.targeted_filename() {
                    Some(path) => file_name(path.as_str()),
                    None => None,
                };
                let entry = match name {
                    Some(name) => take_entry(entries, name.as_str()),
                    None => None,
                };
                match entry {
                    Some(entry) => {
                        proof {
                            lemma_find_entry(
                                reply@->Listing_0,
                                file_name_of(target@.targeted_filename()->0)->0,
                            );
                        }
                        Interrogation::found(target, place, entry)
                    },
                    None => Interrogation::elsewhere(target, place),
                }
            },
            (Interrogation::EnteringCache { known, entry }, FtpReply::Entered) => {
                let stem = match file_name(known.as_str()) {
                    Some(name) => match split_at_dot(name.as_str()) {
                        Some(stem) => Some(stem.to_owned()),
                        None => None,
                    },
                    None => None,
                };
                match stem {
                    Some(stem) => Progress::Ask(
                        Interrogation::ListingCache { known, entry, stem },
                        FtpCommand::List,
                    ),
                    None => Interrogation::pending(known, entry, None),
                }
            },
            (Interrogation::EnteringCache { known, entry }, FtpReply::Unavailable) =>
            Interrogation::pending(known, entry, None),
            (
                Interrogation::ListingCache { known, entry, stem },
                FtpReply::Listing(entries),
            ) => {
                let hint = newest_plate(&entries, stem.as_str());
                Interrogation::pending(known, entry, hint)
            },
            _ => Progress::Failed,
        }
    }

    /// The 3MF was found, and this is known of the plate.
    fn pending(known: String, entry: ListEntry, hint_plate_file: Option<usize>) -> (r: Progress)
        ensures
            r@ == pending(known@, entry@, hint_plate_file),
    {
        let source = GcodeMetaSource::Pending3MF { known: known.clone(), hint_plate_file };
        Progress::Found(GcodeMeta::new(source, &entry), known)
    }
}

/// Every search ends: with each answer fewer commands are left.
pub proof fn law_search_ends(search: InterrogationView, reply: ReplyView)
    ensures
        search.advanced(reply) matches ProgressView::Ask(next, _) ==> next.commands_left()
            < search.commands_left(),
{
}

/// Where nothing else is set, a file whose path does not begin at the root is
/// looked for at the top of the sdcard, then among the models, and nowhere else.
pub proof fn law_default_directories_are_searched_in_order(
    target: FilePathView,
    missing: ReplyView,
)
    requires
        searchable(target),
        !is_rooted(target.targeted_filename()->0),
        missing is Unavailable,
    ensures
        ({
            let first = search_start(target, default_dirs());
            let second = first->Ask_0.advanced(missing);
            &&& first is Ask && first->Ask_1 == CommandView::ChangeDir("/"@)
            &&& second is Ask && second->Ask_1 == CommandView::ChangeDir("/models"@)
            &&& second->Ask_0.advanced(missing) is NotFound
            &&& search_listed(
                target,
                first->Ask_0->Entering_place,
                Seq::empty(),
            ) == second
        }),
{
    assert(default_dirs().skip(1) == seq!["/models"@]);
    assert(default_dirs().skip(1).skip(1) == Seq::<Seq<char>>::empty());
}

/// Whatever is looked for, a file of its name is found, under a path that it can
/// be fetched from.
pub proof fn law_found_file_is_the_one_looked_for(
    target: FilePathView,
    place: PlaceView,
    entries: Seq<EntryView>,
)
    requires
        placed(target, place),
    ensures
        ({
            let name = file_name_of(target.targeted_filename()->0);
            match search_listed(target, place, entries) {
                ProgressView::Found(meta, path) => {
                    &&& fetchable(path)
                    &&& file_name_of(path) == name
                    &&& file_name_of(meta.source.targeted_filename()) == name
                },
                ProgressView::Ask(InterrogationView::EnteringCache { known, .. }, _) => {
                    fetchable(known) && file_name_of(known) == name
                },
                _ => true,
            }
        }),
{
    let path = target.targeted_filename()->0;
    if let Some(name) = file_name_of(path) {
        lemma_find_entry(entries, name);
        lemma_full_path(path, place, name);
    }
}

/// A file that the printer reported is known by the path that it is fetched from.
/// One that a project_file command announced is known as it was announced, which
/// is such a path exactly when it begins at the root.
pub proof fn law_found_file_is_known_by_its_path(
    target: FilePathView,
    place: PlaceView,
    entries: Seq<EntryView>,
)
    requires
        placed(target, place),
    ensures
        search_listed(target, place, entries) matches ProgressView::Found(meta, path) ==> {
            let known = meta.source.targeted_filename();
            match target {
                FilePathView::Inside3MF { sdcard, .. } => {
                    &&& meta.source == SourceView::Resolved(target)
                    &&& known == sdcard
                    &&& fetchable(known) <==> is_rooted(sdcard)
                    &&& is_rooted(sdcard) ==> path == known
                },
                _ => known == path && fetchable(known),
            }
        },
{
    law_found_file_is_the_one_looked_for(target, place, entries);
}

/// A search in the printer's cache goes on for, and ends with, the 3MF that was
/// found, whatever the cache holds.
pub proof fn law_cache_changes_only_the_hint(
    known: Seq<char>,
    entry: EntryView,
    stem: Seq<char>,
    reply: ReplyView,
)
    ensures
        match (InterrogationView::EnteringCache { known, entry }).advanced(reply) {
            ProgressView::Found(meta, path) => path == known && meta == meta_of(
                SourceView::Pending3MF { known, hint_plate_file: None },
                entry,
            ),
            ProgressView::Ask(next, _) => next matches InterrogationView::ListingCache {
                known: k,
                entry: e,
                ..
            } && k == known && e == entry,
            outcome => outcome is Failed,
        },
        match (InterrogationView::ListingCache { known, entry, stem }).advanced(reply) {
            ProgressView::Found(meta, path) => {
                &&& path == known
                &&& meta.source.targeted_filename() == known
                &&& meta == meta_of(meta.source, entry)
            },
            outcome => outcome is Failed,
        },
{
}

/// Whether a file can be fetched: a path from the root names it.
pub fn is_fetchable(path: &str) -> (r: bool)
    ensures
        r == fetchable(path@),
{
    has_root(path) && file_name(path).is_some()
}

/// Whether a file can be looked for.
pub fn is_searchable(target: &FilePath) -> (r: bool)
    ensures
        r == searchable(target@),
{
    match target.targeted_filename() {
        Some(path) => !has_root(path.as_str()) || file_name(path.as_str()).is_some(),
        None => false,
    }
}

/// Whether a path ends in a name.
pub fn has_file_name(path: &str) -> (r: bool)
    ensures
        r == (file_name_of(path@) is Some),
{
    file_name(path).is_some()
}

/// Where to fetch a file: the directory to go to, and the name there.
pub fn fetch_location(path: &str) -> (r: (String, String))
    requires
        fetchable(path@),
    ensures
        parent_of(path@) == Some(r.0@),
        components_of(r.0@) == components_of(path@).drop_last(),
        file_name_of(path@) == Some(r.1@),
{
    let dir = parent(path);
    let name = file_name(path);
    (dir.unwrap(), name.unwrap())
}

/// The entry that is found is the first of its name, and one is found whenever
/// there is one of the name.
pub proof fn law_first_entry_of_the_name_is_found(entries: Seq<EntryView>, name: Seq<char>)
    ensures
        match find_entry(entries, name) {
            Some(entry) => exists|i: int|
                0 <= i < entries.len() && #[trigger] entries[i] == entry && entry.name == name
                    && forall|j: int| 0 <= j < i ==> (#[trigger] entries[j]).name != name,
            None => forall|i: int| 0 <= i < entries.len() ==> (#[trigger] entries[i]).name != name,
        },
    decreases entries.len(),
{
    if entries.len() > 0 {
        if entries[0].name == name {
            assert(entries[0] == find_entry(entries, name)->0);
        } else {
            let rest = entries.skip(1);
            law_first_entry_of_the_name_is_found(rest, name);
            if find_entry(rest, name) is Some {
                let entry = find_entry(rest, name)->0;
                let i = choose|i: int|
                    0 <= i < rest.len() && #[trigger] rest[i] == entry && entry.name == name
                        && forall|j: int| 0 <= j < i ==> (#[trigger] rest[j]).name != name;
                assert(entries[i + 1] == entry);
                assert forall|j: int| 0 <= j < i + 1 implies (#[trigger] entries[j]).name != name by {
                    if j > 0 {
                        assert(rest[j - 1] == entries[j]);
                    }
                }
            } else {
                assert forall|i: int| 0 <= i < entries.len() implies (#[trigger] entries[i]).name
                    != name by {
                    if i > 0 {
                        assert(rest[i - 1] == entries[i]);
                    }
                }
            }
        }
    }
}

/// An entry with nothing of its name before it is the one that is found.
proof fn lemma_entry_is_found(entries: Seq<EntryView>, name: Seq<char>, at: int)
    requires
        0 <= at < entries.len(),
        entries[at].name == name,
        forall|j: int| 0 <= j < at ==> (#[trigger] entries[j]).name != name,
    ensures
        find_entry(entries, name) == Some(entries[at]),
    decreases at,
{
    if at > 0 {
        assert(entries[0].name != name);
        lemma_entry_is_found(entries.skip(1), name, at - 1);
    }
}

/// Whether a name ends in `.3mf`, with something before it.
pub open spec fn is_named_3mf(name: Seq<char>) -> bool {
    name.len() > 4 && name.skip(name.len() - 4) == seq!['.', '3', 'm', 'f']
}

/// A file is a 3MF by its extension when its name ends in `.3mf`.
proof fn lemma_3mf(name: Seq<char>)
    ensures
        is_named_3mf(name) <==> last_dot(name) > 0 && name.skip(last_dot(name) + 1) == "3mf"@,
{
    reveal_strlit("3mf");
    lemma_last_dot(name);
    let dot = last_dot(name);
    let n = name.len() as int;
    if is_named_3mf(name) {
        let tail = name.skip(n - 4);
        assert(tail[0] == name[n - 4] && tail[1] == name[n - 3] && tail[2] == name[n - 2] && tail[3]
            == name[n - 1]);
        assert(dot == n - 4);
        assert(name.skip(dot + 1) == "3mf"@);
    }
    if dot > 0 && name.skip(dot + 1) == "3mf"@ {
        let tail = name.skip(dot + 1);
        assert(tail.len() == 3);
        assert(tail[0] == name[dot + 1] && tail[1] == name[dot + 2] && tail[2] == name[dot + 3]);
        assert(name.skip(n - 4) == seq!['.', '3', 'm', 'f']);
    }
}

/// The first entry of the name is what the file is known by: its time and its
/// size. A reported file whose name ends in `.3mf` has its plate looked for in the
/// printer's cache; any other, and an announced one, is found with that.
pub proof fn law_listed_file_is_found(
    target: FilePathView,
    place: PlaceView,
    entries: Seq<EntryView>,
    name: Seq<char>,
    at: int,
)
    requires
        placed(target, place),
        file_name_of(target.targeted_filename()->0) == Some(name),
        0 <= at < entries.len(),
        entries[at].name == name,
        forall|j: int| 0 <= j < at ==> (#[trigger] entries[j]).name != name,
    ensures
        ({
            let outcome = search_listed(target, place, entries);
            let path = full_path(target.targeted_filename()->0, place, name);
            if target is StrippedPath && is_named_3mf(name) {
                outcome == ProgressView::Ask(
                    InterrogationView::EnteringCache { known: path, entry: entries[at] },
                    CommandView::ChangeDir("/cache"@),
                )
            } else {
                &&& outcome matches ProgressView::Found(meta, from)
                &&& from == path
                &&& meta.modified_time == entries[at].modified
                &&& meta.original_filesize == entries[at].size
                &&& meta.source == SourceView::Resolved(
                    if target is StrippedPath {
                        FilePathView::StrippedPath(path)
                    } else {
                        target
                    },
                )
            }
        }),
{
    lemma_entry_is_found(entries, name, at);
    let path = target.targeted_filename()->0;
    lemma_full_path(path, place, name);
    lemma_3mf(name);
}

/// A file is found where it was listed: under its own path in the directory that
/// this names, and otherwise as its name in the directory that was searched.
pub proof fn law_path_is_where_the_file_was_listed(
    path: Seq<char>,
    dir: Seq<char>,
    rest: Seq<Seq<char>>,
    name: Seq<char>,
)
    requires
        is_rooted(dir),
        file_name_of(path) == Some(name),
    ensures
        full_path(path, PlaceView::Containing, name) == path,
        is_rooted(full_path(path, PlaceView::Configured { dir, rest }, name)),
        components_of(full_path(path, PlaceView::Configured { dir, rest }, name)) == components_of(
            dir,
        ).push(ComponentView::Normal(name)),
{
    lemma_component_is_name(path, components_of(path).len() - 1);
    lemma_in_directory(dir, name);
}

/// A file whose path begins at the root is looked for in the directory that its
/// path names alone. Any other is looked for in the directories to search, one
/// after the other, until it is found; a directory that is missing is passed over.
pub proof fn law_directories_are_searched_in_order(
    target: FilePathView,
    dirs: Seq<Seq<char>>,
    entries: Seq<EntryView>,
)
    requires
        searchable(target),
        forall|i: int|
            0 <= i < entries.len() ==> Some((#[trigger] entries[i]).name) != file_name_of(
                target.targeted_filename()->0,
            ),
    ensures
        ({
            let path = target.targeted_filename()->0;
            let own = InterrogationView::Entering { target, place: PlaceView::Containing };
            let first = search_start(target, dirs);
            &&& is_rooted(path) ==> first == ProgressView::Ask(
                own,
                CommandView::ChangeDir(parent_of(path)->0),
            )
            &&& own.advanced(ReplyView::Unavailable) is Failed
            &&& search_listed(target, PlaceView::Containing, entries) is NotFound
            &&& !is_rooted(path) && dirs.len() == 0 ==> first is NotFound
            &&& !is_rooted(path) && dirs.len() > 0 ==> {
                let place = PlaceView::Configured { dir: dirs[0], rest: dirs.skip(1) };
                let entering = InterrogationView::Entering { target, place };
                &&& first == ProgressView::Ask(entering, CommandView::ChangeDir(dirs[0]))
                &&& entering.advanced(ReplyView::Unavailable) == search_start(target, dirs.skip(1))
                &&& search_listed(target, place, entries) == search_start(target, dirs.skip(1))
            }
        }),
{
    if let Some(name) = file_name_of(target.targeted_filename()->0) {
        law_first_entry_of_the_name_is_found(entries, name);
    }
}

/// A directory that was entered is listed, and a listing is looked through. A
/// command that failed ends the search, whatever it was for.
pub proof fn law_entered_directories_are_listed(
    search: InterrogationView,
    target: FilePathView,
    place: PlaceView,
    entries: Seq<EntryView>,
)
    ensures
        (InterrogationView::Entering { target, place }).advanced(ReplyView::Entered)
            == ProgressView::Ask(
            InterrogationView::Listing { target, place },
            CommandView::List,
        ),
        (InterrogationView::Listing { target, place }).advanced(ReplyView::Listing(entries))
            == search_listed(target, place, entries),
        search.advanced(ReplyView::Failed) is Failed,
{
}

/// The printer's cache is looked through for files that begin with what stands
/// before the first `.` in the name of the 3MF. The plate of the newest of them is
/// the hint; where there is none, or no cache, there is no hint.
pub proof fn law_newest_cached_plate_is_the_hint(
    known: Seq<char>,
    entry: EntryView,
    stem: Seq<char>,
    tail: Seq<char>,
    entries: Seq<EntryView>,
)
    requires
        file_name_of(known) == Some(stem + seq!['.'] + tail),
        !stem.contains('.'),
    ensures
        ({
            let entering = InterrogationView::EnteringCache { known, entry };
            let listing = InterrogationView::ListingCache { known, entry, stem };
            let outcome = listing.advanced(ReplyView::Listing(entries));
            &&& entering.advanced(ReplyView::Entered) == ProgressView::Ask(
                listing,
                CommandView::List,
            )
            &&& entering.advanced(ReplyView::Unavailable) matches ProgressView::Found(meta, from)
                && meta.source == (SourceView::Pending3MF { known, hint_plate_file: None })
                && from == known
            &&& outcome matches ProgressView::Found(meta, from)
            &&& from == known
            &&& meta.modified_time == entry.modified
            &&& meta.original_filesize == entry.size
            &&& meta.source matches SourceView::Pending3MF { known: path, hint_plate_file }
            &&& path == known
            &&& match hint_plate_file {
                Some(plate) => exists|i: int| #[trigger]
                    is_newest(entries, stem, i) && cached_plate(stem, entries[i].name) == Some(
                        plate,
                    ),
                None => forall|i: int|
                    0 <= i < entries.len() ==> cached_plate(stem, (#[trigger] entries[i]).name) is
                        None,
            }
        }),
{
    law_text_is_split_at_its_first_dot(stem, tail);
    law_newest_plate_is_of_the_newest_file(entries, stem);
}

/// A file can be looked for when there is one, and fetched when a path from the
/// root names it.
pub proof fn law_what_can_be_looked_for_and_fetched(path: Seq<char>, other: Seq<char>)
    ensures
        !searchable(FilePathView::NoJob),
        searchable(FilePathView::StrippedPath(path)) <==> !(path.len() > 0 && path[0] == '/')
            || file_name_of(path) is Some,
        searchable(FilePathView::Inside3MF { sdcard: path, subpath: other }) <==> searchable(
            FilePathView::StrippedPath(path),
        ),
        fetchable(path) <==> path.len() > 0 && path[0] == '/' && file_name_of(path) is Some,
{
}

/// A 3MF whose name has no `.` is found without a look through the printer's cache,
/// and there is no hint.
pub proof fn law_no_hint_without_a_stem(known: Seq<char>, entry: EntryView, name: Seq<char>)
    requires
        file_name_of(known) == Some(name),
        !name.contains('.'),
    ensures
        ({
            let entering = InterrogationView::EnteringCache { known, entry };
            &&& entering.advanced(ReplyView::Entered) matches ProgressView::Found(meta, from)
            &&& meta.source == (SourceView::Pending3MF { known, hint_plate_file: None })
            &&& meta.modified_time == entry.modified
            &&& meta.original_filesize == entry.size
            &&& from == known
        }),
{
    law_text_without_a_dot_is_not_split(name);
}

} // verus!
