//! Where the engine keeps its files: beside the proxy's data directory.

use vstd::prelude::*;
use vstd::string::*;
use crate::config::option_text;

verus! {

/// The places of the engine's files.
#[derive(Clone, Debug, PartialEq, Eq)]
pub struct Layout {
    /// The directory that holds the data directory, the runtime configuration
    /// and the log.
    pub base: String,
    /// The runtime configuration.
    pub torrc: String,
    /// The log that the proxy's output goes to.
    pub log: String,
}

/// The mathematical value of a [`Layout`].
pub struct LayoutView {
    pub base: Seq<char>,
    pub torrc: Seq<char>,
    pub log: Seq<char>,
}

impl View for Layout {
    type V = LayoutView;

    open spec fn view(&self) -> LayoutView {
        LayoutView { base: self.base@, torrc: self.torrc@, log: self.log@ }
    }
}

/// The mathematical value of an optional layout.
pub open spec fn layout_view(layout: Option<Layout>) -> Option<LayoutView> {
    match layout {
        Some(l) => Some(l@),
        None => None,
    }
}

/// The parent of a path, by the rules for paths of the kind of host that the
/// crate is built for: the path without its last component, if it has one
/// that can be left out.
pub uninterp spec fn path_parent(path: Seq<char>) -> Option<Seq<char>>;

/// A name adjoined to a directory, by the rules for paths of the kind of host
/// that the crate is built for.
pub uninterp spec fn path_join(base: Seq<char>, name: Seq<char>) -> Seq<char>;

/// The layout for a data directory: the files are kept in its parent, the
/// runtime configuration under the name `torrc` and the log under the name
/// `tor.log`. A data directory without a parent has no layout.
pub open spec fn layout_for(data_directory: Seq<char>) -> Option<LayoutView> {
    match path_parent(data_directory) {
        Some(base) => Some(
            LayoutView {
                base,
                torrc: path_join(base, "torrc"@),
                log: path_join(base, "tor.log"@),
            },
        ),
        None => None,
    }
}

/// Calls `std::path::Path::parent` on `path`. The contract gives the result
/// its name, and claims of it what the documentation says of every host: the
/// empty path has no parent.
#[verifier::external_body]
fn parent_dir(path: &str) -> (parent: Option<String>)
    ensures
        option_text(parent) == path_parent(path@),
        path@.len() == 0 ==> parent is None,
{
    std::path::Path::new(path).parent().map(|p| p.to_string_lossy().into_owned())
}

/// Calls `std::path::Path::join` on `base` with `name`. The contract gives
/// the result its name and claims nothing more of it.
#[verifier::external_body]
fn join_path(base: &str, name: &str) -> (joined: String)
    ensures
        joined@ == path_join(base@, name@),
{
    std::path::Path::new(base).join(name).to_string_lossy().into_owned()
}

impl Layout {
    /// The layout for a data directory. The empty path has none.
    pub fn of(data_directory: &str) -> (layout: Option<Layout>)
        ensures
            layout_view(layout) == layout_for(data_directory@),
            data_directory@.len() == 0 ==> layout is None,
    {
        match parent_dir(data_directory) {
            Some(base) => {
                let torrc = join_path(base.as_str(), "torrc");
                let log = join_path(base.as_str(), "tor.log");
                Some(Layout { base, torrc, log })
            },
            None => None,
        }
    }
}

} // verus!
