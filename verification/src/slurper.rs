//! The gcode of a job: where it comes from, what is known of it, and what is made of
//! the file that holds it.

use crate::clock::Timestamp;
use crate::listing::{EntryView, ListEntry};
use crate::paths::{components_of, same_path};
use crate::plates::{choose_plate, chosen_plate, name_views};
use crate::printer_spy::{FilePath, FilePathView};
use std::sync::Arc;
use vstd::prelude::*;

verus! {

/// Where the gcode of a job comes from.
#[derive(Debug)]
pub enum GcodeMetaSource {
    /// From this file.
    Resolved(FilePath),
    /// From some plate of a 3MF, perhaps from the one that the hint is for.
    Pending3MF { known: String, hint_plate_file: Option<usize> },
}

/// What a [`GcodeMetaSource`] says.
pub enum SourceView {
    Resolved(FilePathView),
    Pending3MF { known: Seq<char>, hint_plate_file: Option<usize> },
}

impl View for GcodeMetaSource {
    type V = SourceView;

    open spec fn view(&self) -> SourceView {
        match self {
            GcodeMetaSource::Resolved(file) => SourceView::Resolved(file@),
            GcodeMetaSource::Pending3MF { known, hint_plate_file } => SourceView::Pending3MF {
                known: known@,
                hint_plate_file: *hint_plate_file,
            },
        }
    }
}

impl SourceView {
    /// There is a file.
    pub open spec fn wf(self) -> bool {
        self != SourceView::Resolved(FilePathView::NoJob)
    }

    /// The path on the sdcard of the file to fetch.
    pub open spec fn targeted_filename(self) -> Seq<char> {
        match self {
            SourceView::Resolved(file) => match file.targeted_filename() {
                Some(path) => path,
                None => Seq::empty(),
            },
            SourceView::Pending3MF { known, .. } => known,
        }
    }

    /// Whether two sources are the same, paths being the same when their
    /// components are.
    pub open spec fn same(self, other: SourceView) -> bool {
        match (self, other) {
            (SourceView::Resolved(a), SourceView::Resolved(b)) => same_file(a, b),
            (
                SourceView::Pending3MF { known: a, hint_plate_file: x },
                SourceView::Pending3MF { known: b, hint_plate_file: y },
            ) => components_of(a) == components_of(b) && x == y,
            _ => false,
        }
    }
}

/// Whether two files are the same, paths being the same when their components
/// are.
pub open spec fn same_file(a: FilePathView, b: FilePathView) -> bool {
    match (a, b) {
        (
            FilePathView::Inside3MF { sdcard: s, subpath: p },
            FilePathView::Inside3MF { sdcard: t, subpath: q },
        ) => components_of(s) == components_of(t) && components_of(p) == components_of(q),
        (FilePathView::StrippedPath(s), FilePathView::StrippedPath(t)) => components_of(s)
            == components_of(t),
        (FilePathView::NoJob, FilePathView::NoJob) => true,
        _ => false,
    }
}

impl GcodeMetaSource {
    /// The path on the sdcard of the file to fetch.
    pub fn targeted_filename(&self) -> (path: &str)
        requires
            self@.wf(),
        ensures
            path@ == self@.targeted_filename(),
    {
        match self {
            GcodeMetaSource::Resolved(FilePath::Inside3MF { sdcard, .. }) => sdcard.as_str(),
            GcodeMetaSource::Resolved(FilePath::StrippedPath(path)) => path.as_str(),
            GcodeMetaSource::Resolved(FilePath::NoJob) => "",
            GcodeMetaSource::Pending3MF { known, .. } => known.as_str(),
        }
    }

    /// Whether two sources are the same.
    fn same(&self, other: &GcodeMetaSource) -> (r: bool)
        ensures
            r == self@.same(other@),
    {
        match (self, other) {
            (
                GcodeMetaSource::Resolved(FilePath::Inside3MF { sdcard: s, subpath: p }),
                GcodeMetaSource::Resolved(FilePath::Inside3MF { sdcard: t, subpath: q }),
            ) => same_path(s.as_str(), t.as_str()) && same_path(p.as_str(), q.as_str()),
            (
                GcodeMetaSource::Resolved(FilePath::StrippedPath(s)),
                GcodeMetaSource::Resolved(FilePath::StrippedPath(t)),
            ) => same_path(s.as_str(), t.as_str()),
            (
                GcodeMetaSource::Resolved(FilePath::NoJob),
                GcodeMetaSource::Resolved(FilePath::NoJob),
            ) => true,
            (
                GcodeMetaSource::Pending3MF { known: a, hint_plate_file: x },
                GcodeMetaSource::Pending3MF { known: b, hint_plate_file: y },
            ) => same_path(a.as_str(), b.as_str()) && match (x, y) {
                (Some(x), Some(y)) => *x == *y,
                (None, None) => true,
                _ => false,
            },
            _ => false,
        }
    }
}

/// What is known of the gcode of a job before it is fetched.
#[derive(Debug)]
pub struct GcodeMeta {
    /// May be distinct from the file that the printer named (canonicalization of names, for
    /// instance).
    pub source: GcodeMetaSource,
    pub modified_time: Timestamp,
    pub original_filesize: usize,
}

/// What a [`GcodeMeta`] says.
pub struct MetaView {
    pub source: SourceView,
    pub modified_time: Timestamp,
    pub original_filesize: usize,
}

impl View for GcodeMeta {
    type V = MetaView;

    open spec fn view(&self) -> MetaView {
        MetaView {
            source: self.source@,
            modified_time: self.modified_time,
            original_filesize: self.original_filesize,
        }
    }
}

impl MetaView {
    /// There is a file.
    pub open spec fn wf(self) -> bool {
        self.source.wf()
    }

    /// Whether two of them are the same, paths being the same when their
    /// components are.
    pub open spec fn same(self, other: MetaView) -> bool {
        self.source.same(other.source) && self.modified_time == other.modified_time
            && self.original_filesize == other.original_filesize
    }
}

/// What is known of a file that was listed.
pub open spec fn meta_of(source: SourceView, entry: EntryView) -> MetaView {
    MetaView { source, modified_time: entry.modified, original_filesize: entry.size }
}

impl GcodeMeta {
    /// What is known of a file that was listed.
    pub fn new(source: GcodeMetaSource, witness: &ListEntry) -> (r: GcodeMeta)
        ensures
            r@ == meta_of(source@, witness@),
    {
        GcodeMeta {
            source,
            modified_time: witness.modified,
            original_filesize: witness.size,
        }
    }

    /// Whether the same is known of both.
    pub fn same(&self, other: &GcodeMeta) -> (r: bool)
        ensures
            r == self@.same(other@),
    {
        self.source.same(&other.source) && self.modified_time == other.modified_time
            && self.original_filesize == other.original_filesize
    }
}

/// The byte that ends a line.
pub const LINE_BREAK: u8 = 10;

/// The gcode of a job.
#[derive(Debug)]
pub struct Gcode {
    pub meta: GcodeMeta,
    /// Where in the content each line begins.
    pub line_table: Arc<[usize]>,
    pub content: Arc<[u8]>,
}

/// Makes a list that can be shared, through `std::sync::Arc`'s `From<Vec<T>>`.
///
/// Trusted: the result has the same items in the same order.
#[verifier::external_body]
fn shared<T>(items: Vec<T>) -> (r: Arc<[T]>)
    ensures
        r@ == items@,
{
    Arc::from(items)
}

/// Whether a line of `content` begins at `at`.
pub open spec fn starts_line(content: Seq<u8>, at: int) -> bool {
    at == 0 || content[at - 1] == LINE_BREAK
}

/// Where in `content` each line begins, in order. What follows a line break at
/// the very end is no line.
pub open spec fn line_starts(content: Seq<u8>) -> Seq<int> {
    Seq::new(content.len(), |i: int| i).filter(|i: int| starts_line(content, i))
}

/// The positions as integers.
pub open spec fn positions(table: Seq<usize>) -> Seq<int> {
    table.map_values(|x: usize| x as int)
}

/// One more position is added to those that pass, if it passes.
proof fn lemma_filter_next(content: Seq<u8>, n: int)
    requires
        0 <= n < content.len(),
    ensures
        ({
            let starts = |i: int| starts_line(content, i);
            let upto = Seq::new(n as nat, |i: int| i);
            let next = Seq::new((n + 1) as nat, |i: int| i);
            next.filter(starts) == if starts_line(content, n) {
                upto.filter(starts).push(n)
            } else {
                upto.filter(starts)
            }
        }),
{
    reveal(Seq::filter);
    assert(Seq::new((n + 1) as nat, |i: int| i).drop_last() == Seq::new(n as nat, |i: int| i));
}

impl Gcode {
    /// The gcode, with its lines found.
    pub fn new(meta: GcodeMeta, content: Arc<[u8]>) -> (r: Gcode)
        ensures
            r.meta == meta,
            r.content == content,
            positions(r.line_table@) == line_starts(content@),
    {
        let mut line_table: Vec<usize> = Vec::new();
        let ghost starts = |i: int| starts_line(content@, i);
        proof {
            reveal(Seq::filter);
            assert(positions(line_table@) == Seq::new(0, |i: int| i).filter(starts));
        }
        for i in 0..content.len()
            invariant
                starts == (|i: int| starts_line(content@, i)),
                positions(line_table@) == Seq::new(i as nat, |i: int| i).filter(starts),
        {
            proof {
                lemma_filter_next(content@, i as int);
            }
            let ghost before = positions(line_table@);
            if i == 0 || content[i - 1] == LINE_BREAK {
                line_table.push(i);
                assert(positions(line_table@) == before.push(i as int));
            }
        }
        Gcode { meta, line_table: shared(line_table), content }
    }
}

/// The positions below `n` at which a line begins, in order.
proof fn lemma_starts_below(content: Seq<u8>, n: nat)
    requires
        n <= content.len(),
    ensures
        ({
            let table = Seq::new(n, |i: int| i).filter(|i: int| starts_line(content, i));
            &&& forall|i: int| 0 <= i < table.len() ==> 0 <= #[trigger] table[i] < n
            &&& forall|i: int, j: int| 0 <= i < j < table.len() ==> table[i] < table[j]
            &&& forall|at: int|
                #[trigger] table.contains(at) <==> 0 <= at < n && starts_line(content, at)
        }),
    decreases n,
{
    reveal(Seq::filter);
    let starts = |i: int| starts_line(content, i);
    let table = Seq::new(n, |i: int| i).filter(starts);
    if n > 0 {
        let m = (n - 1) as nat;
        lemma_starts_below(content, m);
        lemma_filter_next(content, m as int);
        let before = Seq::new(m, |i: int| i).filter(starts);
        assert forall|at: int| #[trigger] table.contains(at) <==> 0 <= at < n && starts_line(
            content,
            at,
        ) by {
            assert(before.contains(at) <==> 0 <= at < m && starts_line(content, at));
            if starts_line(content, m as int) {
                assert(table == before.push(m as int));
                assert(table.last() == m);
                if before.contains(at) {
                    let i = before.index_of(at);
                    assert(table[i] == at);
                }
                if table.contains(at) && at != m {
                    let i = table.index_of(at);
                    assert(before[i] == at);
                }
            }
        }
    } else {
        assert(table.len() == 0);
    }
}

/// The table of lines has the beginning of every line, and nothing else, in the
/// order of the content; each lies inside the content, and the first line begins
/// at 0.
pub proof fn law_line_table(content: Seq<u8>)
    ensures
        forall|i: int|
            0 <= i < line_starts(content).len() ==> 0 <= #[trigger] line_starts(content)[i]
                < content.len(),
        forall|i: int, j: int|
            0 <= i < j < line_starts(content).len() ==> line_starts(content)[i] < line_starts(
                content,
            )[j],
        forall|at: int| #[trigger]
            line_starts(content).contains(at) <==> 0 <= at < content.len() && starts_line(
                content,
                at,
            ),
        content.len() > 0 ==> line_starts(content).len() > 0 && line_starts(content)[0] == 0,
{
    lemma_starts_below(content, content.len());
    let table = line_starts(content);
    if content.len() > 0 {
        assert(table.contains(0));
        let i = table.index_of(0);
        assert(table[i] == 0);
    }
}

/// That the same is known of two files is an equivalence.
pub proof fn law_same_is_an_equivalence(a: MetaView, b: MetaView, c: MetaView)
    ensures
        a.same(a),
        a.same(b) ==> b.same(a),
        a.same(b) && b.same(c) ==> a.same(c),
{
}

/// Why the `zip` crate could not read an archive.
#[verifier::external_type_specification]
#[verifier::external_body]
pub struct ExZipError(zip::result::ZipError);

/// Why there is no gcode in what was fetched.
#[derive(Debug)]
pub enum GcodeError {
    /// It is not a 3MF, or the file inside it cannot be read.
    Zip(zip::result::ZipError),
    /// No plate is in the 3MF.
    NoGcodeIn3MF,
}

/// The names of the files in an archive, in the order of its directory, if it is
/// one.
pub uninterp spec fn archived_names(archive: Seq<u8>) -> Option<Seq<Seq<char>>>;

/// The content of a file in an archive, if it can be read.
pub uninterp spec fn archived_file(archive: Seq<u8>, name: Seq<char>) -> Option<Seq<u8>>;

/// Lists the files in an archive, through `zip::ZipArchive::file_names`.
///
/// Trusted: whether the bytes are an archive, and the names in it, depend on the
/// bytes alone; the result is named [`archived_names`].
#[verifier::external_body]
fn archive_names(archive: &[u8]) -> (r: Result<Vec<String>, zip::result::ZipError>)
    ensures
        match r {
            Ok(names) => archived_names(archive@) == Some(name_views(names@)),
            Err(_) => archived_names(archive@) is None,
        },
{
    let archive = zip::ZipArchive::new(std::io::Cursor::new(archive))?;
    let names = archive.file_names().map(str::to_string).collect();
    Ok(names)
}

/// Reads a file in an archive, through `zip::ZipArchive::by_name`.
///
/// Trusted: whether the file can be read, and its content, depend on the bytes
/// of the archive and on the name alone; the result is named [`archived_file`].
#[verifier::external_body]
fn archive_file(archive: &[u8], name: &str) -> (r: Result<Vec<u8>, zip::result::ZipError>)
    ensures
        match r {
            Ok(content) => archived_file(archive@, name@) == Some(content@),
            Err(_) => archived_file(archive@, name@) is None,
        },
{
    let mut archive = zip::ZipArchive::new(std::io::Cursor::new(archive))?;
    let mut file = archive.by_name(name)?;
    let mut content = Vec::new();
    std::io::Read::read_to_end(&mut file, &mut content)?;
    Ok(content)
}

/// What became of what was fetched.
pub enum ResolvedView {
    /// The gcode: what is known of it, and its content.
    Gcode { meta: MetaView, content: Seq<u8> },
    /// An archive, or a file inside it, cannot be read.
    Zip,
    /// No plate is in the 3MF.
    NoGcodeIn3MF,
}

/// The gcode that is the file `subpath` inside a 3MF.
pub open spec fn resolved_inside(
    meta: MetaView,
    sdcard: Seq<char>,
    subpath: Seq<char>,
    file: Option<Seq<u8>>,
) -> ResolvedView {
    match file {
        Some(content) => ResolvedView::Gcode {
            meta: MetaView {
                source: SourceView::Resolved(FilePathView::Inside3MF { sdcard, subpath }),
                ..meta
            },
            content,
        },
        None => ResolvedView::Zip,
    }
}

/// What becomes of the content that was fetched: of a 3MF, the gcode is the file
/// inside it that was announced, or that of the plate which is chosen; any other
/// file is the gcode itself.
pub open spec fn resolved(
    meta: MetaView,
    content: Seq<u8>,
    names: Option<Seq<Seq<char>>>,
    file: spec_fn(Seq<char>) -> Option<Seq<u8>>,
) -> ResolvedView {
    match meta.source {
        SourceView::Resolved(FilePathView::Inside3MF { sdcard, subpath }) => resolved_inside(
            meta,
            sdcard,
            subpath,
            file(subpath),
        ),
        SourceView::Resolved(_) => ResolvedView::Gcode { meta, content },
        SourceView::Pending3MF { known, hint_plate_file } => match names {
            Some(names) => match chosen_plate(names, hint_plate_file) {
                Some(name) => resolved_inside(meta, known, name, file(name)),
                None => ResolvedView::NoGcodeIn3MF,
            },
            None => ResolvedView::Zip,
        },
    }
}

/// Whether the result is what `view` says.
pub open spec fn resolves_to(r: Result<Arc<Gcode>, GcodeError>, view: ResolvedView) -> bool {
    match (r, view) {
        (Ok(gcode), ResolvedView::Gcode { meta, content }) => gcode.meta@ == meta
            && gcode.content@ == content && positions(gcode.line_table@) == line_starts(content),
        (Err(GcodeError::Zip(_)), ResolvedView::Zip) => true,
        (Err(GcodeError::NoGcodeIn3MF), ResolvedView::NoGcodeIn3MF) => true,
        _ => false,
    }
}

/// What is made of the content that was fetched is of the file that was fetched,
/// and its source is settled.
pub proof fn law_gcode_is_of_the_file_fetched(
    meta: MetaView,
    content: Seq<u8>,
    names: Option<Seq<Seq<char>>>,
    file: spec_fn(Seq<char>) -> Option<Seq<u8>>,
)
    requires
        meta.wf(),
    ensures
        resolved(meta, content, names, file) matches ResolvedView::Gcode { meta: settled, .. } ==> {
            &&& settled.wf()
            &&& settled.source is Resolved
            &&& settled.source.targeted_filename() == meta.source.targeted_filename()
            &&& settled.modified_time == meta.modified_time
            &&& settled.original_filesize == meta.original_filesize
            &&& meta.source is Resolved ==> settled == meta
        },
{
}

impl GcodeMeta {
    /// Settles which file inside a 3MF is the gcode, by the names of the files
    /// in it.
    pub fn settle(self, names: &Vec<String>) -> (r: Option<GcodeMeta>)
        ensures
            match self@.source {
                SourceView::Pending3MF { known, hint_plate_file } => match chosen_plate(
                    name_views(names@),
                    hint_plate_file,
                ) {
                    Some(subpath) => r matches Some(meta) && meta@ == (MetaView {
                        source: SourceView::Resolved(
                            FilePathView::Inside3MF { sdcard: known, subpath },
                        ),
                        ..self@
                    }),
                    None => r is None,
                },
                _ => r matches Some(meta) && meta@ == self@,
            },
    {
        match self.source {
            GcodeMetaSource::Pending3MF { known, hint_plate_file } => match choose_plate(
                names,
                hint_plate_file,
            ) {
                Some(subpath) => Some(
                    GcodeMeta {
                        source: GcodeMetaSource::Resolved(
                            FilePath::Inside3MF { sdcard: known, subpath },
                        ),
                        modified_time: self.modified_time,
                        original_filesize: self.original_filesize,
                    },
                ),
                None => None,
            },
            source => Some(
                GcodeMeta {
                    source,
                    modified_time: self.modified_time,
                    original_filesize: self.original_filesize,
                },
            ),
        }
    }

    /// Makes the gcode of what was fetched.
    pub fn resolve(self, content: Arc<[u8]>) -> (r: Result<Arc<Gcode>, GcodeError>)
        requires
            self@.wf(),
        ensures
            resolves_to(
                r,
                resolved(
                    self@,
                    content@,
                    archived_names(content@),
                    |name: Seq<char>| archived_file(content@, name),
                ),
            ),
    {
        let pending = match &self.source {
            GcodeMetaSource::Pending3MF { .. } => true,
            GcodeMetaSource::Resolved(FilePath::Inside3MF { .. }) => false,
            GcodeMetaSource::Resolved(_) => return Ok(Arc::new(Gcode::new(self, content))),
        };
        let meta = if pending {
            let names = match archive_names(&content) {
                Ok(names) => names,
                Err(err) => return Err(GcodeError::Zip(err)),
            };
            match self.settle(&names) {
                Some(meta) => meta,
                None => return Err(GcodeError::NoGcodeIn3MF),
            }
        } else {
            self
        };
        let file = match &meta.source {
            GcodeMetaSource::Resolved(FilePath::Inside3MF { subpath, .. }) => archive_file(
                &content,
                subpath.as_str(),
            ),
            _ => return Err(GcodeError::NoGcodeIn3MF),
        };
        match file {
            Ok(inside) => Ok(Arc::new(Gcode::new(meta, shared(inside)))),
            Err(err) => Err(GcodeError::Zip(err)),
        }
    }
}

/// The gcode that is served.
#[derive(Debug)]
pub enum CurrentGcode {
    /// There is no job, or nothing is available.
    Nothing,
    /// Might be invalid (but still keeping around in case we can use it as a cache).
    Outdated(Arc<Gcode>),
    /// Valid for the last seen FilePath.
    Current(Arc<Gcode>),
}

impl CurrentGcode {
    /// What is served is from a file.
    pub open spec fn wf(self) -> bool {
        match self {
            CurrentGcode::Nothing => true,
            CurrentGcode::Outdated(gcode) | CurrentGcode::Current(gcode) => gcode.meta@.wf(),
        }
    }
}

/// Shares gcode, through `std::sync::Arc`'s `clone`.
///
/// Trusted: the result is the same gcode.
#[verifier::external_body]
pub(crate) fn share(gcode: &Arc<Gcode>) -> (r: Arc<Gcode>)
    ensures
        r == *gcode,
{
    Arc::clone(gcode)
}

impl Default for CurrentGcode {
    fn default() -> (r: CurrentGcode)
        ensures
            r is Nothing,
    {
        CurrentGcode::Nothing
    }
}

impl Clone for CurrentGcode {
    fn clone(&self) -> (r: CurrentGcode)
        ensures
            r == *self,
    {
        match self {
            CurrentGcode::Nothing => CurrentGcode::Nothing,
            CurrentGcode::Outdated(gcode) => CurrentGcode::Outdated(share(gcode)),
            CurrentGcode::Current(gcode) => CurrentGcode::Current(share(gcode)),
        }
    }
}

/// A file is fetched by its path on the sdcard, whatever is to be taken out of it.
pub proof fn law_target_is_the_path_on_the_sdcard(path: Seq<char>, other: Seq<char>, hint: Option<
    usize,
>)
    ensures
        (SourceView::Resolved(
            FilePathView::Inside3MF { sdcard: path, subpath: other },
        )).targeted_filename() == path,
        (SourceView::Resolved(FilePathView::StrippedPath(path))).targeted_filename() == path,
        (SourceView::Pending3MF {
            known: path,
            hint_plate_file: hint,
        }).targeted_filename() == path,
        (FilePathView::Inside3MF { sdcard: path, subpath: other }).targeted_filename() == Some(
            path,
        ),
        (FilePathView::StrippedPath(path)).targeted_filename() == Some(path),
        FilePathView::NoJob.targeted_filename() is None,
{
}

/// What is known of two files is the same only if they were modified at the same
/// time and are of the same size, and are the same file on the sdcard, whatever
/// their source. Where they come from the same source, that is all it takes.
pub proof fn law_same_files_are_of_one_time_and_size(a: MetaView, b: MetaView)
    ensures
        a.same(b) ==> a.modified_time == b.modified_time,
        a.same(b) ==> a.original_filesize == b.original_filesize,
        a.same(b) ==> components_of(a.source.targeted_filename()) == components_of(
            b.source.targeted_filename(),
        ),
        a.same(b) ==> (a.source is Pending3MF <==> b.source is Pending3MF),
        a.source == b.source && a.modified_time == b.modified_time && a.original_filesize
            == b.original_filesize ==> a.same(b),
{
}

/// Files that are taken out of a 3MF are the same only if they are the same file
/// inside it, and 3MFs whose plate is still to be chosen only if the hints are the
/// same. One that is taken out of a 3MF is not the same as one that is not.
pub proof fn law_same_files_are_of_one_plate(a: MetaView, b: MetaView)
    requires
        a.same(b),
    ensures
        match a.source {
            SourceView::Resolved(FilePathView::Inside3MF { subpath: p, .. }) => b.source matches
                SourceView::Resolved(FilePathView::Inside3MF { subpath: q, .. }) && components_of(p)
                == components_of(q),
            SourceView::Resolved(FilePathView::StrippedPath(_)) => b.source matches
                SourceView::Resolved(FilePathView::StrippedPath(_)),
            SourceView::Resolved(FilePathView::NoJob) => b.source == a.source,
            SourceView::Pending3MF { hint_plate_file: x, .. } => b.source matches
                SourceView::Pending3MF { hint_plate_file: y, .. } && x == y,
        },
{
}

/// Paths are compared by their components: the same file is the same under any
/// spelling of its path that has the same components.
pub proof fn law_spelling_of_a_path_does_not_matter(
    meta: MetaView,
    path: Seq<char>,
    other: Seq<char>,
    subpath: Seq<char>,
)
    requires
        components_of(path) == components_of(other),
    ensures
        (MetaView {
            source: SourceView::Resolved(FilePathView::StrippedPath(path)),
            ..meta
        }).same(
            MetaView { source: SourceView::Resolved(FilePathView::StrippedPath(other)), ..meta },
        ),
        (MetaView {
            source: SourceView::Resolved(FilePathView::Inside3MF { sdcard: path, subpath }),
            ..meta
        }).same(
            MetaView {
                source: SourceView::Resolved(FilePathView::Inside3MF { sdcard: other, subpath }),
                ..meta
            },
        ),
        (MetaView {
            source: SourceView::Pending3MF { known: path, hint_plate_file: None },
            ..meta
        }).same(
            MetaView {
                source: SourceView::Pending3MF { known: other, hint_plate_file: None },
                ..meta
            },
        ),
{
}

/// What is known of a file that was listed is the time and the size of its entry.
pub proof fn law_listed_file_is_of_the_time_and_size_listed(source: SourceView, entry: EntryView)
    ensures
        meta_of(source, entry).source == source,
        meta_of(source, entry).modified_time == entry.modified,
        meta_of(source, entry).original_filesize == entry.size,
{
}

/// A line begins at the start of the content, and after every byte 10 but one that
/// ends the content.
pub proof fn law_lines_begin_after_line_breaks(content: Seq<u8>, at: int)
    ensures
        line_starts(content).contains(at) <==> 0 <= at < content.len() && (at == 0 || content[at
            - 1] == 10),
{
    law_line_table(content);
    assert(line_starts(content).contains(at) <==> 0 <= at < content.len() && starts_line(
        content,
        at,
    ));
}

/// What is made of a file: of one that is no 3MF all of it; of a 3MF the file
/// inside it that was announced, or that of the chosen plate. Where there is no
/// plate, or the 3MF or the file inside it cannot be read, there is no gcode.
pub proof fn law_gcode_is_taken_from_the_right_place(
    meta: MetaView,
    content: Seq<u8>,
    names: Option<Seq<Seq<char>>>,
    file: spec_fn(Seq<char>) -> Option<Seq<u8>>,
)
    requires
        meta.wf(),
    ensures
        match meta.source {
            SourceView::Resolved(FilePathView::Inside3MF { subpath, .. }) => match file(subpath) {
                Some(inside) => resolved(meta, content, names, file) == (ResolvedView::Gcode {
                    meta,
                    content: inside,
                }),
                None => resolved(meta, content, names, file) is Zip,
            },
            SourceView::Resolved(_) => resolved(meta, content, names, file) == (
            ResolvedView::Gcode { meta, content }),
            SourceView::Pending3MF { known, hint_plate_file } => match names {
                Some(names) => match chosen_plate(names, hint_plate_file) {
                    Some(name) => match file(name) {
                        Some(inside) => resolved(meta, content, Some(names), file) matches
                            ResolvedView::Gcode { meta: settled, content: made } && made == inside
                            && settled.source == SourceView::Resolved(
                            FilePathView::Inside3MF { sdcard: known, subpath: name },
                        ) && settled.modified_time == meta.modified_time
                            && settled.original_filesize == meta.original_filesize,
                        None => resolved(meta, content, Some(names), file) is Zip,
                    },
                    None => resolved(meta, content, Some(names), file) is NoGcodeIn3MF,
                },
                None => resolved(meta, content, names, file) is Zip,
            },
        },
{
}

} // verus!
