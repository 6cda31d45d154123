//! Finding the workspace and the package from where the user stands.
//!
//! The search climbs from a directory towards the root of the file system
//! and stops at the first directory that holds a marker. Looking into a
//! directory is the caller's part; what to look at next, and when to stop,
//! is decided here.

use vstd::prelude::*;
use crate::text::views;

verus! {

/// The name of the file that stores a workspace's configuration.
pub const COLB_CONFIG_FILENAME: &'static str = ".colb.toml";

/// What the user is told when no package was named and none was found.
pub const PACKAGE_NOT_DETECTED: &'static str =
    "Could not detect package, try specifying it explicitly!";

/// An absolute directory, free of links and dots: the root of its file
/// system and the names on the way down from there.
#[derive(Debug, PartialEq, Eq)]
pub struct Directory {
    pub root: String,
    pub components: Vec<String>,
}

/// The mathematical content of a [`Directory`].
pub struct DirectoryView {
    pub root: Seq<char>,
    pub components: Seq<Seq<char>>,
}

impl View for Directory {
    type V = DirectoryView;

    open spec fn view(&self) -> DirectoryView {
        DirectoryView { root: self.root@, components: views(self.components@) }
    }
}

impl DeepView for Directory {
    type V = DirectoryView;

    open spec fn deep_view(&self) -> DirectoryView {
        self@
    }
}

impl DirectoryView {
    /// The directory one level up; the root has none.
    pub open spec fn parent(self) -> Option<DirectoryView> {
        if self.components.len() == 0 {
            None
        } else {
            Some(DirectoryView { root: self.root, components: self.components.drop_last() })
        }
    }

    /// The directory's own name; the root has none.
    pub open spec fn name(self) -> Option<Seq<char>> {
        if self.components.len() == 0 {
            None
        } else {
            Some(self.components.last())
        }
    }

    /// Whether `other` is this directory or lies anywhere below it.
    pub open spec fn encloses(self, other: DirectoryView) -> bool {
        &&& self.root == other.root
        &&& self.components.is_prefix_of(other.components)
    }
}

/// What looking for one marker in one directory showed.
#[derive(Clone, Copy, Debug, PartialEq, Eq, Structural)]
pub enum MarkerProbe {
    /// The marker is there.
    Present,
    /// The marker is not there.
    Absent,
    /// The file system would not say (no permission, a broken link).
    Failed,
}

/// Whether any of the probes found its marker.
pub open spec fn any_present(probes: Seq<MarkerProbe>) -> bool {
    exists|i: int| 0 <= i < probes.len() && probes[i] == MarkerProbe::Present
}

/// Decides from the probes of one directory, one probe per marker, whether
/// the directory holds a marker. A probe that failed counts as absent.
pub fn contains_marker(probes: &[MarkerProbe]) -> (found: bool)
    ensures
        found == any_present(probes@),
{
    let mut i: usize = 0;
    while i < probes.len()
        invariant
            i <= probes.len(),
            forall|j: int| 0 <= j < i ==> probes[j] != MarkerProbe::Present,
        decreases probes.len() - i,
    {
        if let MarkerProbe::Present = probes[i] {
            return true;
        }
        i += 1;
    }
    false
}

/// Where an upward search stands.
#[derive(Debug, PartialEq, Eq)]
pub enum Search {
    /// The caller is to look for the markers in this directory.
    Probe(Directory),
    /// This directory holds a marker; the search is over.
    Found(Directory),
    /// No directory up to the root holds a marker; the search is over.
    NotFound,
}

/// The mathematical content of a [`Search`].
pub enum SearchView {
    Probe(DirectoryView),
    Found(DirectoryView),
    NotFound,
}

impl View for Search {
    type V = SearchView;

    open spec fn view(&self) -> SearchView {
        match self {
            Search::Probe(d) => SearchView::Probe(d@),
            Search::Found(d) => SearchView::Found(d@),
            Search::NotFound => SearchView::NotFound,
        }
    }
}

/// The state that follows a look into `current`: found if it holds a
/// marker, else on to its parent, else nothing left to try.
pub open spec fn after_probe(current: DirectoryView, contains: bool) -> SearchView {
    if contains {
        SearchView::Found(current)
    } else {
        match current.parent() {
            Some(parent) => SearchView::Probe(parent),
            None => SearchView::NotFound,
        }
    }
}

/// The whole search from `start`, where `marked` tells which directories
/// hold a marker: the nearest marked directory on the way up, `start`
/// itself included.
pub open spec fn search_upwards(
    start: DirectoryView,
    marked: spec_fn(DirectoryView) -> bool,
) -> Option<DirectoryView>
    decreases start.components.len(),
{
    if marked(start) {
        Some(start)
    } else {
        match start.parent() {
            Some(parent) => search_upwards(parent, marked),
            None => None,
        }
    }
}

/// Whether directory `d` holds one of `markers`, where `entries` are the
/// directory entries that exist, each as the directory and the name in it.
pub open spec fn holds_marker(
    entries: Set<(DirectoryView, Seq<char>)>,
    markers: Seq<Seq<char>>,
    d: DirectoryView,
) -> bool {
    exists|i: int| 0 <= i < markers.len() && entries.contains((d, #[trigger] markers[i]))
}

/// The search for `markers` from `start` in a file system with `entries`.
pub open spec fn locate(
    entries: Set<(DirectoryView, Seq<char>)>,
    markers: Seq<Seq<char>>,
    start: DirectoryView,
) -> Option<DirectoryView> {
    search_upwards(start, |d: DirectoryView| holds_marker(entries, markers, d))
}

proof fn lemma_views_drop_last(items: Seq<String>)
    requires
        items.len() > 0,
    ensures
        views(items.drop_last()) == views(items).drop_last(),
        views(items).last() == items.last()@,
{
    assert(views(items.drop_last()) =~= views(items).drop_last());
}

/// Begins a search at `start`, the directory the user stands in. Without
/// such a directory there is nothing to search.
pub fn find_upwards(start: Option<Directory>) -> (search: Search)
    ensures
        search@ == match start {
            Some(d) => SearchView::Probe(d@),
            None => SearchView::NotFound,
        },
{
    match start {
        Some(d) => Search::Probe(d),
        None => Search::NotFound,
    }
}

/// Continues a search after the caller has looked into `current`;
/// `contains` tells whether a marker was there.
pub fn continue_upwards(current: Directory, contains: bool) -> (search: Search)
    ensures
        search@ == after_probe(current@, contains),
{
    if contains {
        return Search::Found(current);
    }
    let mut current = current;
    let ghost before = current.components@;
    match current.components.pop() {
        Some(_) => {
            proof {
                lemma_views_drop_last(before);
            }
            Search::Probe(current)
        },
        None => Search::NotFound,
    }
}

/// The package to work on: the one named explicitly, else the name of the
/// directory that the search for a package marker found. No name is made
/// up where neither is there.
pub open spec fn package_choice(
    package: Option<Seq<char>>,
    found: Option<DirectoryView>,
) -> Option<Seq<char>> {
    match package {
        Some(p) => Some(p),
        None => match found {
            Some(d) => d.name(),
            None => None,
        },
    }
}

/// Picks the package: `package` if the user named one, else the name of
/// the directory `found` by the search for a package marker.
pub fn package_or(package: Option<String>, found: Option<Directory>) -> (chosen: Option<String>)
    ensures
        chosen.deep_view() == package_choice(package.deep_view(), found.deep_view()),
{
    if package.is_some() {
        return package;
    }
    match found {
        Some(d) => {
            let mut components = d.components;
            let ghost before = components@;
            match components.pop() {
                Some(name) => {
                    proof {
                        lemma_views_drop_last(before);
                    }
                    Some(name)
                },
                None => None,
            }
        },
        None => None,
    }
}

/// The markers of a workspace root: the build tree, or the stored
/// configuration.
pub open spec fn workspace_marker_names() -> Seq<Seq<char>> {
    seq!["build"@, COLB_CONFIG_FILENAME@]
}

/// The marker of a package root: its manifest.
pub open spec fn package_marker_names() -> Seq<Seq<char>> {
    seq!["package.xml"@]
}

/// The names to look for when searching for the workspace.
pub fn workspace_markers() -> (markers: Vec<String>)
    ensures
        views(markers@) == workspace_marker_names(),
{
    let mut markers: Vec<String> = Vec::new();
    markers.push("build".to_owned());
    markers.push(COLB_CONFIG_FILENAME.to_owned());
    assert(views(markers@) =~= workspace_marker_names());
    markers
}

/// The names to look for when searching for the package.
pub fn package_markers() -> (markers: Vec<String>)
    ensures
        views(markers@) == package_marker_names(),
{
    let mut markers: Vec<String> = Vec::new();
    markers.push("package.xml".to_owned());
    assert(views(markers@) =~= package_marker_names());
    markers
}

/// The workspace to work in: the one named explicitly, else the one the
/// search found, else the directory the user stands in.
pub open spec fn workspace_choice(
    workspace: Option<Seq<char>>,
    detected: Option<Seq<char>>,
) -> Seq<char> {
    match workspace {
        Some(w) => w,
        None => match detected {
            Some(d) => d,
            None => "."@,
        },
    }
}

/// Picks the workspace: `workspace` if the user named one, else the
/// `detected` one, else the current directory.
pub fn workspace_or(workspace: Option<String>, detected: Option<String>) -> (chosen: String)
    ensures
        chosen@ == workspace_choice(workspace.deep_view(), detected.deep_view()),
{
    match workspace {
        Some(w) => w,
        None => match detected {
            Some(d) => d,
            None => ".".to_owned(),
        },
    }
}

/// Probes that report the file system as it is: one probe per marker, and
/// a marker is reported present exactly if its entry exists.
pub open spec fn faithful_probes(
    probes: Seq<MarkerProbe>,
    entries: Set<(DirectoryView, Seq<char>)>,
    markers: Seq<Seq<char>>,
    d: DirectoryView,
) -> bool {
    &&& probes.len() == markers.len()
    &&& forall|i: int|
        0 <= i < probes.len() ==> (#[trigger] probes[i] == MarkerProbe::Present
            <==> entries.contains((d, markers[i])))
}

/// On faithful probes of a directory, the decision of [`contains_marker`]
/// is whether the directory holds one of the markers.
pub proof fn lemma_probes_decide_marker(
    probes: Seq<MarkerProbe>,
    entries: Set<(DirectoryView, Seq<char>)>,
    markers: Seq<Seq<char>>,
    d: DirectoryView,
)
    requires
        faithful_probes(probes, entries, markers, d),
    ensures
        any_present(probes) == holds_marker(entries, markers, d),
{
    if any_present(probes) {
        let i = choose|i: int| 0 <= i < probes.len() && probes[i] == MarkerProbe::Present;
        assert(entries.contains((d, markers[i])));
    }
    if holds_marker(entries, markers, d) {
        let i = choose|i: int| 0 <= i < markers.len() && entries.contains((d, #[trigger] markers[i]));
        assert(probes[i] == MarkerProbe::Present);
    }
}

/// The search is the run of its own steps: what it finds from `start` is
/// what the state after looking into `start` leads to.
pub proof fn lemma_search_follows_steps(
    start: DirectoryView,
    marked: spec_fn(DirectoryView) -> bool,
)
    ensures
        search_upwards(start, marked) == match after_probe(start, marked(start)) {
            SearchView::Found(d) => Some(d),
            SearchView::Probe(parent) => search_upwards(parent, marked),
            SearchView::NotFound => None,
        },
{
}

/// What a search finds is the nearest marked directory: it encloses the
/// start, it is marked, and nothing between it and the start is marked.
/// The search finds nothing only where no directory on the way up is marked.
pub proof fn lemma_search_finds_nearest(
    start: DirectoryView,
    marked: spec_fn(DirectoryView) -> bool,
)
    ensures
        match search_upwards(start, marked) {
            Some(d) => {
                &&& d.encloses(start)
                &&& marked(d)
                &&& forall|x: DirectoryView|
                    d.encloses(x) && #[trigger] x.encloses(start) && x != d ==> !marked(x)
            },
            None => forall|x: DirectoryView| #[trigger] x.encloses(start) ==> !marked(x),
        },
    decreases start.components.len(),
{
    if marked(start) {
        assert forall|x: DirectoryView|
            start.encloses(x) && #[trigger] x.encloses(start) && x != start implies !marked(x) by {
            assert(x.components =~= start.components);
        }
    } else {
        match start.parent() {
            Some(parent) => {
                lemma_search_finds_nearest(parent, marked);
                assert forall|x: DirectoryView| #[trigger]
                    x.encloses(start) && x != start implies x.encloses(parent) by {
                    if x.components.len() == start.components.len() {
                        assert(x.components =~= start.components);
                    }
                }
            },
            None => {
                assert forall|x: DirectoryView| #[trigger] x.encloses(start) implies !marked(x) by {
                    assert(x.components =~= start.components);
                }
            },
        }
    }
}

/// Where exactly one directory on the way up from `start` holds one of
/// `markers`, call it `a`, the search from `start` finds `a`: neither a
/// directory below it nor one above it. This holds for every list of
/// markers and every start that `a` encloses, `a` itself among them.
pub proof fn lemma_locate_returns_the_marked_ancestor(
    entries: Set<(DirectoryView, Seq<char>)>,
    markers: Seq<Seq<char>>,
    a: DirectoryView,
    start: DirectoryView,
)
    requires
        a.encloses(start),
        holds_marker(entries, markers, a),
        forall|x: DirectoryView|
            #[trigger] x.encloses(start) && x != a ==> !holds_marker(entries, markers, x),
    ensures
        locate(entries, markers, start) == Some(a),
{
    let marked = |d: DirectoryView| holds_marker(entries, markers, d);
    lemma_search_finds_nearest(start, marked);
    assert(marked(a));
    match search_upwards(start, marked) {
        Some(d) => {
            assert(marked(d));
            assert(d.encloses(start));
        },
        None => {
            assert(!marked(a));
        },
    }
}

} // verus!
