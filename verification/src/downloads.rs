//! Which file can be downloaded, and under which path.

use crate::fetching::served_fetched;
use crate::paths::{
    body_components, component_views, components, components_of, file_name, file_name_of, has_root,
    is_rooted, lemma_after_separator, lemma_component_is_name, lemma_name_components,
    lemma_root_is_first, lemma_without_root, normalize, normalized, without_root, Component,
    ComponentView,
};
use crate::slurper::{share, CurrentGcode, Gcode, MetaView, ResolvedView};
use crate::text::{law_trimming_takes_the_leading_run, same_text, trimmed_start};
use std::sync::Arc;
use vstd::prelude::*;

verus! {

/// The path under the downloads that a file on the sdcard is reported with.
pub open spec fn reported_path(target: Seq<char>) -> Seq<char> {
    trimmed_start(target, '/')
}

/// Whether a path under the downloads is the path of a file on the sdcard.
pub open spec fn is_path_of(path: Seq<char>, target: Seq<char>) -> bool {
    normalized(components_of(path)) == without_root(components_of(target))
}

/// Whether a path under the downloads is the name of a file on the sdcard.
pub open spec fn is_name_of(path: Seq<char>, target: Seq<char>) -> bool {
    file_name_of(target) matches Some(name) && normalized(components_of(path)) == seq![
        ComponentView::Normal(name),
    ]
}

/// Whether a path under the downloads stands for a file on the sdcard, by its
/// path or by its name alone.
pub open spec fn names_file(path: Seq<char>, target: Seq<char>) -> bool {
    is_path_of(path, target) || is_name_of(path, target)
}

/// The answer to a download.
#[derive(Debug)]
pub enum Download {
    /// There is no such file.
    NotFound,
    /// The gcode is being fetched.
    Conflict,
    /// The gcode.
    Content(Arc<Gcode>),
}

/// The answer to the download of a file, by what is served.
pub open spec fn download(served: CurrentGcode, path: Seq<char>) -> Download {
    match served {
        CurrentGcode::Nothing => Download::NotFound,
        CurrentGcode::Outdated(gcode) => if names_file(
            path,
            gcode.meta@.source.targeted_filename(),
        ) {
            Download::Conflict
        } else {
            Download::NotFound
        },
        CurrentGcode::Current(gcode) => if names_file(
            path,
            gcode.meta@.source.targeted_filename(),
        ) {
            Download::Content(gcode)
        } else {
            Download::NotFound
        },
    }
}

impl Download {
    /// The HTTP status of the answer.
    pub open spec fn status_code(self) -> u16 {
        match self {
            Download::NotFound => 404,
            Download::Conflict => 409,
            Download::Content(_) => 200,
        }
    }

    /// The HTTP status of the answer.
    pub fn status(&self) -> (r: u16)
        ensures
            r == self.status_code(),
    {
        match self {
            Download::NotFound => 404,
            Download::Conflict => 409,
            Download::Content(_) => 200,
        }
    }

    /// What the answer says instead of the gcode.
    pub fn message(&self) -> (r: &'static str)
        ensures
            r@ == if self is Conflict {
                "Still fetching new gcode"@
            } else {
                ""@
            },
    {
        match self {
            Download::Conflict => "Still fetching new gcode",
            _ => "",
        }
    }
}

/// Answers the download of a file.
pub fn handle_gcode_download(served: &CurrentGcode, path: &str) -> (r: Download)
    requires
        served.wf(),
    ensures
        r == download(*served, path@),
{
    match served {
        CurrentGcode::Nothing => Download::NotFound,
        CurrentGcode::Outdated(gcode) => if is_named(path, gcode.meta.source.targeted_filename()) {
            Download::Conflict
        } else {
            Download::NotFound
        },
        CurrentGcode::Current(gcode) => if is_named(path, gcode.meta.source.targeted_filename()) {
            Download::Content(share(gcode))
        } else {
            Download::NotFound
        },
    }
}

/// Whether two components are the same.
fn same_component(a: &Component, b: &Component) -> (r: bool)
    ensures
        r == (a@ == b@),
{
    match (a, b) {
        (Component::Root, Component::Root) => true,
        (Component::Current, Component::Current) => true,
        (Component::Parent, Component::Parent) => true,
        (Component::Normal(x), Component::Normal(y)) => same_text(x.as_str(), y.as_str()),
        _ => false,
    }
}

/// Whether the components in `a` are those in `b`, from the given one on.
fn same_components(a: &Vec<Component>, b: &Vec<Component>, from: usize) -> (r: bool)
    requires
        from <= b@.len(),
    ensures
        r == (component_views(a@) == component_views(b@).skip(from as int)),
{
    let ghost x = component_views(a@);
    let ghost y = component_views(b@).skip(from as int);
    if a.len() != b.len() - from {
        assert(x.len() != y.len());
        return false;
    }
    let n: usize = b.len();
    for i in 0..a.len()
        invariant
            n == b@.len(),
            from <= b@.len(),
            a@.len() == b@.len() - from,
            x == component_views(a@),
            y == component_views(b@).skip(from as int),
            forall|j: int| 0 <= j < i ==> x[j] == y[j],
    {
        assert(x[i as int] == a@[i as int]@);
        assert(y[i as int] == b@[i + from]@);
        if !same_component(&a[i], &b[i + from]) {
            return false;
        }
    }
    assert(x == y);
    true
}

/// Whether these are the components of a file on the sdcard, but for the root.
fn is_path(asked: &Vec<Component>, target: &str) -> (r: bool)
    ensures
        r == (component_views(asked@) == without_root(components_of(target@))),
{
    proof {
        lemma_without_root(target@);
    }
    let from: usize = if has_root(target) {
        proof {
            lemma_root_is_first(target@);
        }
        1
    } else {
        0
    };
    let all = components(target);
    assert(component_views(all@).skip(0) == component_views(all@));
    same_components(asked, &all, from)
}

/// Whether a path under the downloads stands for a file on the sdcard.
pub fn is_named(path: &str, target: &str) -> (r: bool)
    ensures
        r == names_file(path@, target@),
{
    let asked = components(normalize(path).as_str());
    if is_path(&asked, target) {
        return true;
    }
    match file_name(target) {
        Some(name) => is_only(&asked, name.as_str()),
        None => false,
    }
}

/// Whether a name is the one component there is.
fn is_only(components: &Vec<Component>, name: &str) -> (r: bool)
    ensures
        r == (component_views(components@) == seq![ComponentView::Normal(name@)]),
{
    let ghost views = component_views(components@);
    if components.len() != 1 {
        assert(views.len() != 1);
        return false;
    }
    assert(views[0] == components@[0]@);
    match &components[0] {
        Component::Normal(only) => {
            let same = same_text(only.as_str(), name);
            assert(same ==> views == seq![ComponentView::Normal(name@)]);
            same
        },
        _ => false,
    }
}

/// Whether no component stands for the directory it is in, or for the one above.
pub open spec fn is_plain(components: Seq<ComponentView>) -> bool {
    forall|i: int|
        0 <= i < components.len() ==> #[trigger] components[i] !is Current
            && components[i] !is Parent
}

/// Resolving leaves nothing to be resolved.
proof fn lemma_normalized_is_plain(components: Seq<ComponentView>)
    ensures
        is_plain(normalized(components)),
    decreases components.len(),
{
    if components.len() > 0 {
        lemma_normalized_is_plain(components.drop_last());
    }
}

/// Where nothing is to be resolved, resolving changes nothing.
proof fn lemma_plain_is_normalized(components: Seq<ComponentView>)
    requires
        is_plain(components),
    ensures
        normalized(components) == components,
    decreases components.len(),
{
    if components.len() > 0 {
        assert(components.last() !is Current && components.last() !is Parent);
        lemma_plain_is_normalized(components.drop_last());
        assert(components.drop_last().push(components.last()) == components);
    }
}

/// A leading `.` is resolved to nothing.
proof fn lemma_leading_dot(components: Seq<ComponentView>)
    ensures
        normalized(seq![ComponentView::Current] + components) == normalized(components),
    decreases components.len(),
{
    let all = seq![ComponentView::Current] + components;
    if components.len() > 0 {
        lemma_leading_dot(components.drop_last());
        assert(all.drop_last() == seq![ComponentView::Current] + components.drop_last());
    } else {
        assert(all.drop_last() == components);
    }
}

/// Leading separators contribute nothing to a path.
proof fn lemma_leading_separators(path: Seq<char>)
    ensures
        body_components(trimmed_start(path, '/')) == body_components(path),
        !is_rooted(trimmed_start(path, '/')),
        !is_rooted(path) ==> trimmed_start(path, '/') == path,
    decreases path.len(),
{
    if is_rooted(path) {
        lemma_leading_separators(path.skip(1));
        assert(seq!['/'] + path.skip(1) == path);
        lemma_after_separator(path, path.skip(1));
        assert(body_components(path) == components_of(path).skip(1));
        assert(body_components(path.skip(1)) == components_of(path).skip(1));
    }
}

/// Resolving a path that does not begin at the root resolves what its segments
/// contribute.
proof fn lemma_normalized_body(path: Seq<char>)
    requires
        !is_rooted(path),
    ensures
        normalized(components_of(path)) == normalized(body_components(path)),
{
    let body = body_components(path);
    lemma_leading_dot(body);
    assert(Seq::<ComponentView>::empty() + body == body);
}

/// A path from the root is plain when what its segments contribute is.
proof fn lemma_plain_body(path: Seq<char>)
    requires
        is_rooted(path),
    ensures
        components_of(path).skip(1) == body_components(path),
        is_plain(components_of(path)) <==> is_plain(body_components(path)),
{
    let all = components_of(path);
    let body = body_components(path);
    assert(all.skip(1) == body);
    assert(all[0] is Root);
    if is_plain(all) {
        assert forall|i: int| 0 <= i < body.len() implies #[trigger] body[i] !is Current && body[i]
            !is Parent by {
            assert(all[i + 1] == body[i]);
        }
    }
    if is_plain(body) {
        assert forall|i: int| 0 <= i < all.len() implies #[trigger] all[i] !is Current && all[i]
            !is Parent by {
            if i > 0 {
                assert(all[i] == body[i - 1]);
            }
        }
    }
}

/// The path that a file is reported with is its path exactly when that is plain.
proof fn lemma_reported_path(target: Seq<char>)
    ensures
        is_path_of(reported_path(target), target) <==> is_plain(components_of(target)),
{
    let path = reported_path(target);
    lemma_leading_separators(target);
    lemma_without_root(target);
    lemma_normalized_is_plain(components_of(path));
    if is_rooted(target) {
        lemma_plain_body(target);
        lemma_normalized_body(path);
        if is_plain(body_components(target)) {
            lemma_plain_is_normalized(body_components(target));
        }
    } else if is_plain(components_of(target)) {
        lemma_plain_is_normalized(components_of(target));
    }
}

/// The path that `/api/job` reports is that of a valid download: of the gcode
/// when it is in date, and otherwise of the answer that it is being fetched. This
/// holds of every file whose path has no `..`, and no `.` at its beginning, and of
/// every one whose path resolves to its name alone.
pub proof fn law_reported_path_is_a_download(gcode: Arc<Gcode>)
    ensures
        ({
            let target = gcode.meta@.source.targeted_filename();
            let path = reported_path(target);
            if is_plain(components_of(target)) || is_name_of(path, target) {
                &&& download(CurrentGcode::Current(gcode), path) == Download::Content(gcode)
                &&& download(CurrentGcode::Outdated(gcode), path) == Download::Conflict
            } else {
                &&& download(CurrentGcode::Current(gcode), path) == Download::NotFound
                &&& download(CurrentGcode::Outdated(gcode), path) == Download::NotFound
            }
        }),
{
    lemma_reported_path(gcode.meta@.source.targeted_filename());
}

/// What was made of a file that was fetched is what its reported path downloads.
pub proof fn law_fetched_gcode_is_downloaded(
    meta: MetaView,
    content: Seq<u8>,
    before: CurrentGcode,
    after: CurrentGcode,
)
    requires
        served_fetched(ResolvedView::Gcode { meta, content }, before, after, true),
        is_plain(components_of(meta.source.targeted_filename())),
    ensures
        download(after, reported_path(meta.source.targeted_filename())) matches Download::Content(
            gcode,
        ) && gcode.content@ == content && gcode.meta@ == meta,
{
    lemma_reported_path(meta.source.targeted_filename());
}

/// The name that `/api/job` reports is that of a valid download: of the gcode
/// when it is in date, and otherwise of the answer that it is being fetched.
pub proof fn law_reported_name_is_a_download(gcode: Arc<Gcode>, name: Seq<char>)
    requires
        file_name_of(gcode.meta@.source.targeted_filename()) == Some(name),
    ensures
        download(CurrentGcode::Current(gcode), name) == Download::Content(gcode),
        download(CurrentGcode::Outdated(gcode), name) == Download::Conflict,
{
    let target = gcode.meta@.source.targeted_filename();
    lemma_component_is_name(target, components_of(target).len() - 1);
    lemma_name_components(name);
    lemma_plain_is_normalized(components_of(name));
}

/// Only the file that is served can be downloaded: under a path with nothing to be
/// resolved in it, that is its path on the sdcard without the root, or its name.
pub proof fn law_only_the_served_file_is_a_download(gcode: Arc<Gcode>, path: Seq<char>)
    requires
        is_plain(components_of(path)),
    ensures
        ({
            let target = gcode.meta@.source.targeted_filename();
            let asked = components_of(path);
            let meant = asked == without_root(components_of(target)) || (asked.len() == 1
                && asked[0] is Normal && file_name_of(target) == Some(asked[0]->Normal_0));
            &&& download(CurrentGcode::Current(gcode), path) == if meant {
                Download::Content(gcode)
            } else {
                Download::NotFound
            }
            &&& download(CurrentGcode::Outdated(gcode), path) == if meant {
                Download::Conflict
            } else {
                Download::NotFound
            }
            &&& download(CurrentGcode::Nothing, path) is NotFound
        }),
{
    let target = gcode.meta@.source.targeted_filename();
    let asked = components_of(path);
    lemma_plain_is_normalized(asked);
    if asked.len() == 1 && asked[0] is Normal && file_name_of(target) == Some(asked[0]->Normal_0) {
        assert(asked == seq![ComponentView::Normal(asked[0]->Normal_0)]);
    }
}

/// Outdated gcode is never given out, nothing is given out where nothing is served,
/// and what is given out is what is served. The status tells which it was.
pub proof fn law_only_gcode_in_date_is_given_out(served: CurrentGcode, path: Seq<char>)
    ensures
        download(served, path) matches Download::Content(gcode) ==> served
            == CurrentGcode::Current(gcode),
        download(served, path) is Conflict ==> served is Outdated,
        served is Nothing ==> download(served, path) is NotFound,
        served is Current ==> download(served, path) !is Conflict,
        download(served, path).status_code() == match download(served, path) {
            Download::NotFound => 404u16,
            Download::Conflict => 409u16,
            Download::Content(_) => 200u16,
        },
{
}

/// The path that a file is reported with is its path without the separators that
/// it begins with.
pub proof fn law_reported_path_has_no_leading_separator(target: Seq<char>)
    ensures
        ({
            let path = reported_path(target);
            let n = target.len() - path.len();
            &&& 0 <= n && path == target.skip(n)
            &&& forall|i: int| 0 <= i < n ==> #[trigger] target[i] == '/'
            &&& path.len() > 0 ==> path[0] != '/'
        }),
{
    law_trimming_takes_the_leading_run(target, '/');
}

} // verus!
