//! Unix paths as text: their components, and the operations on them that the
//! printer's file names go through.

use vstd::prelude::*;

verus! {

/// One component of a path.
#[derive(Debug)]
pub enum Component {
    /// The leading `/`.
    Root,
    /// A leading `.`.
    Current,
    /// A `..`, wherever it stands.
    Parent,
    /// A name.
    Normal(String),
}

/// What a [`Component`] stands for.
pub enum ComponentView {
    Root,
    Current,
    Parent,
    Normal(Seq<char>),
}

impl View for Component {
    type V = ComponentView;

    open spec fn view(&self) -> ComponentView {
        match self {
            Component::Root => ComponentView::Root,
            Component::Current => ComponentView::Current,
            Component::Parent => ComponentView::Parent,
            Component::Normal(name) => ComponentView::Normal(name@),
        }
    }
}

/// The components that `components` stands for.
pub open spec fn component_views(components: Seq<Component>) -> Seq<ComponentView> {
    components.map_values(|c: Component| c@)
}

/// Where the first segment of `path` ends: at the first `/`, or at the end.
pub open spec fn segment_end(path: Seq<char>) -> nat
    decreases path.len(),
{
    if path.len() == 0 || path[0] == '/' {
        0
    } else {
        1 + segment_end(path.skip(1))
    }
}

/// The component that one segment between separators contributes: none for an
/// empty segment and for `.`.
pub open spec fn segment_component(segment: Seq<char>) -> Seq<ComponentView> {
    if segment == Seq::<char>::empty() || segment == seq!['.'] {
        Seq::empty()
    } else if segment == seq!['.', '.'] {
        seq![ComponentView::Parent]
    } else {
        seq![ComponentView::Normal(segment)]
    }
}

/// The components that the segments of `path` contribute, in order.
pub open spec fn body_components(path: Seq<char>) -> Seq<ComponentView>
    decreases path.len(),
{
    let end = segment_end(path) as int;
    if end < path.len() {
        segment_component(path.take(end)) + body_components(path.skip(end + 1))
    } else {
        segment_component(path)
    }
}

/// The component that only the start of a path has: the root, or a leading `.`.
pub open spec fn start_component(path: Seq<char>) -> Seq<ComponentView> {
    if path.len() > 0 && path[0] == '/' {
        seq![ComponentView::Root]
    } else if path.take(segment_end(path) as int) == seq!['.'] {
        seq![ComponentView::Current]
    } else {
        Seq::empty()
    }
}

/// The components of `path`: repeated and trailing separators, and every `.`
/// but a leading one, contribute nothing.
pub open spec fn components_of(path: Seq<char>) -> Seq<ComponentView> {
    start_component(path) + body_components(path)
}

/// The components left when each `.` is dropped and each `..` takes the name
/// before it away, if there is one.
pub open spec fn normalized(components: Seq<ComponentView>) -> Seq<ComponentView>
    decreases components.len(),
{
    if components.len() == 0 {
        Seq::empty()
    } else {
        let before = normalized(components.drop_last());
        match components.last() {
            ComponentView::Current => before,
            ComponentView::Parent => if before.len() > 0 && before.last() is Normal {
                before.drop_last()
            } else {
                before
            },
            _ => before.push(components.last()),
        }
    }
}

/// The components but for the root.
pub open spec fn without_root(components: Seq<ComponentView>) -> Seq<ComponentView> {
    components.filter(|c: ComponentView| c !is Root)
}

/// The last component of `path`, if it is a name.
pub open spec fn file_name_of(path: Seq<char>) -> Option<Seq<char>> {
    let components = components_of(path);
    if components.len() > 0 && components.last() is Normal {
        Some(components.last()->Normal_0)
    } else {
        None
    }
}

/// Whether `path` begins at the root.
pub open spec fn is_rooted(path: Seq<char>) -> bool {
    path.len() > 0 && path[0] == '/'
}

/// Where the last `.` of `name` stands, or -1.
pub open spec fn last_dot(name: Seq<char>) -> int
    decreases name.len(),
{
    if name.len() == 0 {
        -1
    } else if name.last() == '.' {
        name.len() - 1
    } else {
        last_dot(name.drop_last())
    }
}

/// What follows the last `.` of a file name, if that `.` does not begin it.
pub open spec fn extension_of(path: Seq<char>) -> Option<Seq<char>> {
    match file_name_of(path) {
        Some(name) => if last_dot(name) > 0 {
            Some(name.skip(last_dot(name) + 1))
        } else {
            None
        },
        None => None,
    }
}

/// `path` appended to `base`, with one separator between them where `base`
/// does not end in one. A rooted `path` takes the place of `base`.
pub open spec fn joined(base: Seq<char>, path: Seq<char>) -> Seq<char> {
    if is_rooted(path) {
        path
    } else if path.len() == 0 || base.len() == 0 || base.last() == '/' {
        base + path
    } else {
        base.push('/') + path
    }
}

/// The directory that a path stands in, as `typed_path` writes it.
pub uninterp spec fn parent_of(path: Seq<char>) -> Option<Seq<char>>;

/// Lists the components of a path, through `typed_path::Utf8Path::components`.
///
/// Trusted: the iterator yields [`components_of`] the path, in order.
#[verifier::external_body]
pub(crate) fn components(path: &str) -> (r: Vec<Component>)
    ensures
        component_views(r@) == components_of(path@),
{
    typed_path::Utf8UnixPath::new(path).components().map(|c| match c {
        typed_path::Utf8UnixComponent::RootDir => Component::Root,
        typed_path::Utf8UnixComponent::CurDir => Component::Current,
        typed_path::Utf8UnixComponent::ParentDir => Component::Parent,
        typed_path::Utf8UnixComponent::Normal(name) => Component::Normal(name.to_string()),
    }).collect()
}

/// Resolves `.` and `..` in a path, through `typed_path::Utf8Path::normalize`.
///
/// Trusted: the components of the result are the [`normalized`] components of
/// the path.
#[verifier::external_body]
pub(crate) fn normalize(path: &str) -> (r: String)
    ensures
        components_of(r@) == normalized(components_of(path@)),
{
    typed_path::Utf8UnixPath::new(path).normalize().into_string()
}

/// The file name of a path, through `typed_path::Utf8Path::file_name`.
///
/// Trusted: it is the last component, where that is a name.
#[verifier::external_body]
pub(crate) fn file_name(path: &str) -> (r: Option<String>)
    ensures
        r matches Some(name) ==> file_name_of(path@) == Some(name@),
        r is None ==> file_name_of(path@) is None,
{
    typed_path::Utf8UnixPath::new(path).file_name().map(str::to_string)
}

/// Whether a path begins at the root, through `typed_path::Utf8Path::has_root`.
///
/// Trusted: it does when its first character is `/`.
#[verifier::external_body]
pub(crate) fn has_root(path: &str) -> (r: bool)
    ensures
        r == is_rooted(path@),
{
    typed_path::Utf8UnixPath::new(path).has_root()
}

/// The directory that a path stands in, through `typed_path::Utf8Path::parent`.
///
/// Trusted: the result, named [`parent_of`], has the components of the path but
/// for the last, and there is none for the root and for an empty path.
#[verifier::external_body]
pub(crate) fn parent(path: &str) -> (r: Option<String>)
    ensures
        match r {
            Some(dir) => {
                &&& parent_of(path@) == Some(dir@)
                &&& components_of(path@).len() > 0
                &&& components_of(dir@) == components_of(path@).drop_last()
            },
            None => {
                &&& parent_of(path@) is None
                &&& components_of(path@).len() == 0 || components_of(path@).last() is Root
            },
        },
{
    typed_path::Utf8UnixPath::new(path).parent().map(|dir| dir.as_str().to_string())
}

/// The extension of a path, through `typed_path::Utf8Path::extension`.
///
/// Trusted: it is what follows the last `.` of the file name, where something
/// stands before that `.`.
#[verifier::external_body]
pub(crate) fn extension(path: &str) -> (r: Option<String>)
    ensures
        r matches Some(ext) ==> extension_of(path@) == Some(ext@),
        r is None ==> extension_of(path@) is None,
{
    typed_path::Utf8UnixPath::new(path).extension().map(str::to_string)
}

/// Appends a path to another, through `typed_path::Utf8PathBuf::push`.
///
/// Trusted: the result is the two paths [`joined`].
#[verifier::external_body]
pub(crate) fn join(base: &str, path: &str) -> (r: String)
    ensures
        r@ == joined(base@, path@),
{
    let mut buf = typed_path::Utf8UnixPathBuf::from(base);
    buf.push(path);
    buf.into_string()
}

/// Whether two paths are the same path, through `typed_path::Utf8Path`'s `==`.
///
/// Trusted: they are when their components are the same.
#[verifier::external_body]
pub(crate) fn same_path(a: &str, b: &str) -> (r: bool)
    ensures
        r == (components_of(a@) == components_of(b@)),
{
    typed_path::Utf8UnixPath::new(a) == typed_path::Utf8UnixPath::new(b)
}

/// The file name of a path that the printer reported, through
/// `unix_path::Path::file_name`.
///
/// Trusted: it is the last component, where that is a name. The name is a part
/// of the text of the path, so it is text itself.
#[verifier::external_body]
pub(crate) fn reported_file_name(path: &str) -> (r: Option<String>)
    ensures
        r matches Some(name) ==> file_name_of(path@) == Some(name@),
        r is None ==> file_name_of(path@) is None,
{
    match unix_path::Path::new(path).file_name() {
        Some(name) => name.to_str().map(str::to_string),
        None => None,
    }
}

/// Whether two paths that the printer reported are the same path, through
/// `unix_path::PathBuf`'s `==`.
///
/// Trusted: they are when their components are the same.
#[verifier::external_body]
pub(crate) fn same_reported_path(a: &str, b: &str) -> (r: bool)
    ensures
        r == (components_of(a@) == components_of(b@)),
{
    unix_path::PathBuf::from(a) == unix_path::PathBuf::from(b)
}

/// Whether `name` can be the name of a file: it is not empty, has no separator,
/// and is neither `.` nor `..`.
pub open spec fn is_name(name: Seq<char>) -> bool {
    &&& name.len() > 0
    &&& !name.contains('/')
    &&& name != seq!['.']
    &&& name != seq!['.', '.']
}

/// The first segment has no separator in it, and ends at one or at the end.
proof fn lemma_segment_end(path: Seq<char>)
    ensures
        segment_end(path) <= path.len(),
        !path.take(segment_end(path) as int).contains('/'),
        segment_end(path) < path.len() ==> path[segment_end(path) as int] == '/',
    decreases path.len(),
{
    if path.len() > 0 && path[0] != '/' {
        let rest = path.skip(1);
        lemma_segment_end(rest);
        let first = path.take(segment_end(path) as int);
        assert forall|i: int| 0 <= i < first.len() implies first[i] != '/' by {
            if i > 0 {
                assert(rest.take(segment_end(rest) as int)[i - 1] == first[i]);
            }
        }
    }
}

/// The first segment reaches to the first separator.
proof fn lemma_segment_end_at(path: Seq<char>, end: int)
    requires
        0 <= end <= path.len(),
        !path.take(end).contains('/'),
        end < path.len() ==> path[end] == '/',
    ensures
        segment_end(path) == end,
    decreases path.len(),
{
    if end > 0 {
        assert(path.take(end)[0] == path[0]);
        let rest = path.skip(1);
        let before = rest.take(end - 1);
        assert forall|i: int| 0 <= i < before.len() implies before[i] != '/' by {
            assert(path.take(end)[i + 1] == before[i]);
        }
        lemma_segment_end_at(rest, end - 1);
    }
}

/// The names among the components that the segments contribute can be names.
proof fn lemma_body_names(path: Seq<char>)
    ensures
        forall|i: int|
            0 <= i < body_components(path).len() ==> (
            #[trigger] body_components(path)[i] matches ComponentView::Normal(name) ==> is_name(
                name,
            )),
        forall|i: int|
            0 <= i < body_components(path).len() ==> #[trigger] body_components(path)[i] !is Root,
    decreases path.len(),
{
    lemma_segment_end(path);
    let end = segment_end(path) as int;
    let first = path.take(end);
    assert(first.len() == 0 ==> first == Seq::<char>::empty());
    if end < path.len() {
        let rest = body_components(path.skip(end + 1));
        lemma_body_names(path.skip(end + 1));
        let own = segment_component(first);
        assert forall|i: int| 0 <= i < body_components(path).len() implies (
        #[trigger] body_components(path)[i] matches ComponentView::Normal(name) ==> is_name(
            name,
        )) by {
            if i >= own.len() {
                assert(body_components(path)[i] == rest[i - own.len()]);
            }
        }
    } else {
        assert(first == path);
    }
}

/// A name among the components of a path can be a name.
pub proof fn lemma_component_is_name(path: Seq<char>, i: int)
    requires
        0 <= i < components_of(path).len(),
        components_of(path)[i] is Normal,
    ensures
        is_name(components_of(path)[i]->Normal_0),
{
    lemma_body_names(path);
    let start = start_component(path);
    if i < start.len() {
        assert(components_of(path)[i] == start[i]);
    } else {
        assert(components_of(path)[i] == body_components(path)[i - start.len()]);
    }
}

/// A path from the root has the root, and nothing else has it, as its first
/// component only.
pub proof fn lemma_root_is_first(path: Seq<char>)
    ensures
        forall|i: int|
            0 <= i < components_of(path).len() ==> (#[trigger] components_of(path)[i] is Root <==> (
            i == 0 && is_rooted(path))),
        is_rooted(path) ==> components_of(path).len() > 0,
{
    lemma_body_names(path);
    let start = start_component(path);
    assert forall|i: int| 0 <= i < components_of(path).len() implies (
    #[trigger] components_of(path)[i] is Root <==> (i == 0 && is_rooted(path))) by {
        if i < start.len() {
            assert(components_of(path)[i] == start[i]);
        } else {
            assert(components_of(path)[i] == body_components(path)[i - start.len()]);
        }
    }
}

/// Where the root is nowhere, leaving it out leaves everything.
proof fn lemma_nothing_left_out(components: Seq<ComponentView>)
    requires
        forall|i: int| 0 <= i < components.len() ==> #[trigger] components[i] !is Root,
    ensures
        without_root(components) == components,
    decreases components.len(),
{
    reveal(Seq::filter);
    if components.len() > 0 {
        lemma_nothing_left_out(components.drop_last());
        assert(components.last() !is Root);
        assert(components.drop_last().push(components.last()) == components);
    }
}

/// The components but for the root are all but the first of a path from the
/// root, and all of any other.
pub proof fn lemma_without_root(path: Seq<char>)
    ensures
        without_root(components_of(path)) == if is_rooted(path) {
            components_of(path).skip(1)
        } else {
            components_of(path)
        },
{
    let all = components_of(path);
    lemma_root_is_first(path);
    if is_rooted(path) {
        let rest = all.skip(1);
        lemma_nothing_left_out(rest);
        assert(all == seq![ComponentView::Root] + rest);
        Seq::filter_distributes_over_add(
            seq![ComponentView::Root],
            rest,
            |c: ComponentView| c !is Root,
        );
        assert(without_root(seq![ComponentView::Root]) == Seq::<ComponentView>::empty()) by {
            reveal_with_fuel(Seq::filter, 2);
        }
        assert(Seq::<ComponentView>::empty() + rest == rest);
    } else {
        lemma_nothing_left_out(all);
    }
}

/// A name is the one component of itself.
pub proof fn lemma_name_components(name: Seq<char>)
    requires
        is_name(name),
    ensures
        body_components(name) == seq![ComponentView::Normal(name)],
        components_of(name) == seq![ComponentView::Normal(name)],
{
    assert(name.take(name.len() as int) == name);
    lemma_segment_end_at(name, name.len() as int);
    assert(name.contains(name[0]));
}

/// A separator contributes nothing, and what follows it contributes its own.
pub proof fn lemma_after_separator(path: Seq<char>, rest: Seq<char>)
    requires
        path == seq!['/'] + rest,
    ensures
        components_of(path) == seq![ComponentView::Root] + body_components(rest),
{
    assert(segment_end(path) == 0);
    assert(path.take(0) == Seq::<char>::empty());
    assert(path.skip(1) == rest);
    assert(body_components(path) == body_components(rest));
}

/// What two paths with a separator between them contribute is what the first
/// does, then what the second does.
proof fn lemma_body_append(first: Seq<char>, second: Seq<char>)
    ensures
        body_components(first + seq!['/'] + second) == body_components(first) + body_components(
            second,
        ),
    decreases first.len(),
{
    let whole = first + seq!['/'] + second;
    lemma_segment_end(first);
    let end = segment_end(first) as int;
    assert(whole.take(end) == first.take(end));
    lemma_segment_end_at(whole, end);
    if end < first.len() {
        let rest = first.skip(end + 1);
        assert(whole.skip(end + 1) == rest + seq!['/'] + second);
        lemma_body_append(rest, second);
        assert(body_components(whole) =~= segment_component(first.take(end)) + body_components(rest)
            + body_components(second));
    } else {
        assert(first.take(end) == first);
        assert(whole.skip(end + 1) == second);
    }
}

/// The components of a name in a directory that is a path from the root are those
/// of the directory, and the name.
pub proof fn lemma_in_directory(dir: Seq<char>, name: Seq<char>)
    requires
        is_rooted(dir),
        is_name(name),
    ensures
        is_rooted(joined(dir, name)),
        components_of(joined(dir, name)) == components_of(dir).push(ComponentView::Normal(name)),
{
    assert(name[0] != '/') by {
        assert(name.contains(name[0]));
    }
    lemma_name_components(name);
    if dir.last() == '/' {
        let above = dir.drop_last();
        assert(dir == above + seq!['/'] + Seq::<char>::empty());
        lemma_body_append(above, Seq::empty());
        assert(joined(dir, name) == above + seq!['/'] + name);
        lemma_body_append(above, name);
        assert(body_components(Seq::<char>::empty()) == Seq::<ComponentView>::empty());
    } else {
        assert(joined(dir, name) == dir + seq!['/'] + name);
        lemma_body_append(dir, name);
    }
    assert(components_of(joined(dir, name)) =~= components_of(dir).push(
        ComponentView::Normal(name),
    ));
}

/// Where the last `.` stands there is one, and none stands after it.
pub proof fn lemma_last_dot(name: Seq<char>)
    ensures
        -1 <= last_dot(name) < name.len(),
        last_dot(name) >= 0 ==> name[last_dot(name)] == '.',
        forall|i: int| last_dot(name) < i < name.len() ==> #[trigger] name[i] != '.',
    decreases name.len(),
{
    if name.len() > 0 && name.last() != '.' {
        let before = name.drop_last();
        lemma_last_dot(before);
        assert forall|i: int| last_dot(name) < i < name.len() implies #[trigger] name[i] != '.' by {
            if i < before.len() {
                assert(before[i] == name[i]);
            }
        }
    }
}

/// Normalizing keeps names and the root, drops each `.`, and lets a `..` take the
/// name before it away; where there is no name to take, a `..` is dropped too.
pub proof fn law_parents_take_names_away(
    components: Seq<ComponentView>,
    name: Seq<char>,
)
    ensures
        ({
            let kept = normalized(components);
            &&& normalized(components.push(ComponentView::Normal(name))) == kept.push(
                ComponentView::Normal(name),
            )
            &&& normalized(components.push(ComponentView::Root)) == kept.push(ComponentView::Root)
            &&& normalized(components.push(ComponentView::Current)) == kept
            &&& normalized(
                components.push(ComponentView::Normal(name)).push(ComponentView::Parent),
            ) == kept
            &&& kept.len() == 0 || kept.last() !is Normal ==> normalized(
                components.push(ComponentView::Parent),
            ) == kept
            &&& normalized(Seq::<ComponentView>::empty()).len() == 0
        }),
{
    assert(components.push(ComponentView::Normal(name)).drop_last() == components);
    assert(components.push(ComponentView::Root).drop_last() == components);
    assert(components.push(ComponentView::Current).drop_last() == components);
    assert(components.push(ComponentView::Parent).drop_last() == components);
    let named = components.push(ComponentView::Normal(name));
    assert(named.push(ComponentView::Parent).drop_last() == named);
    assert(normalized(named).drop_last() == normalized(components));
}

/// Of the `.`s between separators, only one that begins a path is a component of
/// it; a path from the root begins with the root.
pub proof fn law_paths_begin_at_the_root_or_here(rest: Seq<char>)
    ensures
        components_of(seq!['.', '/'] + rest) == seq![ComponentView::Current] + body_components(rest),
        components_of(seq!['/'] + rest) == seq![ComponentView::Root] + body_components(rest),
        components_of(seq!['/', '.', '/'] + rest) == components_of(seq!['/'] + rest),
        components_of(seq!['/', '/'] + rest) == components_of(seq!['/'] + rest),
{
    let here = seq!['.', '/'] + rest;
    lemma_segment_end_at(here, 1);
    assert(here.take(1) == seq!['.']);
    assert(here.skip(2) == rest);
    let root = seq!['/'] + rest;
    assert(root.take(0) == Seq::<char>::empty());
    assert(root.skip(1) == rest);
    let again = seq!['/', '/'] + rest;
    assert(again.take(0) == Seq::<char>::empty());
    assert(again.skip(1) == root);
    let dotted = seq!['/', '.', '/'] + rest;
    assert(dotted.take(0) == Seq::<char>::empty());
    assert(dotted.skip(1) == here);
}

} // verus!
