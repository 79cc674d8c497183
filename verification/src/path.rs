//! What the platform's path rules say about a location.
//!
//! Paths are taken apart by the standard library. Its answers are trusted, not
//! proved: each function here that is marked `external_body` only makes the
//! call, and its contract ties the answer to a name that the rest of the
//! library can speak about. What is built on those answers is verified.

use crate::text::str_eq;
use vstd::prelude::*;
use vstd::string::StringExecFns;

verus! {

/// The parent that `std::path::Path::parent` reports for `path`: the path
/// without its final component, or `None` when `path` is empty or ends in a
/// root.
pub uninterp spec fn path_parent(path: Seq<char>) -> Option<Seq<char>>;

/// The final component that `std::path::Path::file_name` reports for `path`,
/// or `None` when the path ends in `..` or has no component to name.
pub uninterp spec fn path_file_name(path: Seq<char>) -> Option<Seq<char>>;

/// The components that `std::path::Path::components` walks through for
/// `path`, first to last, each as the text it stands for.
pub uninterp spec fn path_components(path: Seq<char>) -> Seq<Seq<char>>;

/// The path that `std::path::Path::join` makes of `base` and `path`: `path`
/// adjoined to `base`, or `path` alone when it is absolute.
pub uninterp spec fn path_join(base: Seq<char>, path: Seq<char>) -> Seq<char>;

/// The characters of an optional string.
pub open spec fn opt_view(text: Option<String>) -> Option<Seq<char>> {
    match text {
        Some(s) => Some(s@),
        None => None,
    }
}

/// The characters of each string in a sequence.
pub open spec fn views(texts: Seq<String>) -> Seq<Seq<char>> {
    Seq::new(texts.len(), |i: int| texts[i]@)
}

/// The extension of a file name: what follows its last dot. There is none
/// when the name is `..`, holds no dot, or holds its only dot in front.
pub open spec fn name_extension(name: Seq<char>) -> Option<Seq<char>> {
    let dot = name.index_of_last('.');
    if name != seq!['.', '.'] && dot is Some && dot->0 > 0 {
        Some(name.skip(dot->0 + 1))
    } else {
        None
    }
}

/// The extension of the file that `path` names, without its dot.
pub open spec fn path_extension(path: Seq<char>) -> Option<Seq<char>> {
    match path_file_name(path) {
        Some(name) => name_extension(name),
        None => None,
    }
}

/// Calls `std::path::Path::parent`. Trusted: the result is what the standard
/// library answers for these characters, which [`path_parent`] names. The
/// parent of a path that is valid UTF-8 is cut at a separator, so turning it
/// back into a `String` loses nothing.
#[verifier::external_body]
pub(crate) fn parent_of(path: &str) -> (parent: Option<String>)
    ensures
        opt_view(parent) == path_parent(path@),
{
    match std::path::Path::new(path).parent() {
        Some(p) => Some(p.to_string_lossy().into_owned()),
        None => None,
    }
}

/// Calls `std::path::Path::file_name`. Trusted: the result is what the
/// standard library answers for these characters, which [`path_file_name`]
/// names. A component of a path that is valid UTF-8 is valid UTF-8 itself.
#[verifier::external_body]
pub(crate) fn file_name_of(path: &str) -> (name: Option<String>)
    ensures
        opt_view(name) == path_file_name(path@),
{
    match std::path::Path::new(path).file_name() {
        Some(n) => Some(n.to_string_lossy().into_owned()),
        None => None,
    }
}

/// Calls `std::path::Path::extension`. Trusted: as the standard library
/// documents it, the result is the part of the file name after its last dot,
/// and there is none without a file name, without a dot in it, or when the
/// only dot leads the name.
#[verifier::external_body]
pub(crate) fn extension_of(path: &str) -> (extension: Option<String>)
    ensures
        opt_view(extension) == path_extension(path@),
{
    match std::path::Path::new(path).extension() {
        Some(e) => Some(e.to_string_lossy().into_owned()),
        None => None,
    }
}

/// Calls `std::path::Path::components` and collects the text of each
/// component. Trusted: the result is what the standard library walks through
/// for these characters, which [`path_components`] names.
#[verifier::external_body]
pub(crate) fn components_of(path: &str) -> (components: Vec<String>)
    ensures
        views(components@) == path_components(path@),
{
    std::path::Path::new(path).components().map(
        |c| c.as_os_str().to_string_lossy().into_owned(),
    ).collect()
}

/// Calls `std::path::Path::join`. Trusted: the result is the path that the
/// standard library makes of the two, which [`path_join`] names. Joining
/// two paths that are valid UTF-8 gives valid UTF-8.
#[verifier::external_body]
pub(crate) fn join(base: &str, path: &str) -> (joined: String)
    ensures
        joined@ == path_join(base@, path@),
{
    std::path::Path::new(base).join(path).to_string_lossy().into_owned()
}

/// One button of the path bar.
pub struct Crumb {
    /// Text on the button.
    pub label: String,
    /// Whether a separator is drawn after the button.
    pub separator_after: bool,
}

/// What one crumb shows, as the model sees it.
pub struct CrumbModel {
    pub label: Seq<char>,
    pub separator_after: bool,
}

impl View for Crumb {
    type V = CrumbModel;

    open spec fn view(&self) -> CrumbModel {
        CrumbModel { label: self.label@, separator_after: self.separator_after }
    }
}

/// The label of a component: the component itself, and a slash for one
/// that is empty or the root.
pub open spec fn crumb_label(component: Seq<char>) -> Seq<char> {
    if component.len() == 0 || component == seq!['/'] {
        seq!['/']
    } else {
        component
    }
}

/// The path bar for a list of components: one crumb each, in order, with a
/// separator after every crumb but the last.
pub open spec fn crumbs_for(components: Seq<Seq<char>>) -> Seq<CrumbModel> {
    Seq::new(
        components.len(),
        |i: int|
            CrumbModel {
                label: crumb_label(components[i]),
                separator_after: i < components.len() - 1,
            },
    )
}

/// The crumbs of a sequence, as the model sees them.
pub open spec fn crumb_views(crumbs: Seq<Crumb>) -> Seq<CrumbModel> {
    Seq::new(crumbs.len(), |i: int| crumbs[i]@)
}

/// Lays out the path bar for components that were already taken apart.
pub fn breadcrumbs_from(components: Vec<String>) -> (crumbs: Vec<Crumb>)
    ensures
        crumb_views(crumbs@) == crumbs_for(views(components@)),
{
    let mut crumbs: Vec<Crumb> = Vec::new();
    let mut i: usize = 0;
    proof {
        reveal_strlit("/");
        assert("/"@ =~= seq!['/']);
    }
    while i < components.len()
        invariant
            i <= components.len(),
            crumbs.len() == i,
            "/"@ == seq!['/'],
            forall|k: int|
                0 <= k < i ==> (#[trigger] crumbs[k])@ == crumbs_for(views(components@))[k],
        decreases components.len() - i,
    {
        let component = components[i].as_str();
        let label = if component.is_empty() || str_eq(component, "/") {
            String::from_str("/")
        } else {
            components[i].clone()
        };
        crumbs.push(Crumb { label, separator_after: i < components.len() - 1 });
        i = i + 1;
    }
    assert(crumb_views(crumbs@) =~= crumbs_for(views(components@)));
    crumbs
}

/// Lays out the path bar for `path`.
pub fn breadcrumbs(path: &str) -> (crumbs: Vec<Crumb>)
    ensures
        crumb_views(crumbs@) == crumbs_for(path_components(path@)),
{
    breadcrumbs_from(components_of(path))
}

} // verus!
