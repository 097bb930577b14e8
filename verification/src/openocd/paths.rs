//! Where the debugger is installed and where its scripts lie.
//!
//! Nothing here reads the file system or runs a program. The caller makes
//! the observations (which well-known directories exist, what a walk of a
//! directory met, what the debugger printed) and the functions of this
//! module decide on them.

use vstd::prelude::*;
use crate::error::Error;
use crate::listing::{views, Entry, EntryView};
use crate::pathname::{
    depth,
    file_name,
    file_name_of,
    join,
    join_path,
    parent,
    parent_of,
    relative_path,
    relative_to,
    within_depth,
};
use crate::text::same_text;

verus! {

/// What a search of `haystack` for the regular expression `pattern` gives
/// for the capture group named `group`: the text that the group matched in
/// the leftmost match, or `None` where the pattern is not a valid expression,
/// matches nowhere, or has no group of that name that took part.
pub uninterp spec fn regex_capture(pattern: Seq<char>, group: Seq<char>, haystack: Seq<char>) -> Option<
    Seq<char>,
>;

/// Searches `haystack` with the `regex` crate: `Regex::new` compiles
/// `pattern`, `Regex::captures` finds the leftmost match and `Captures::name`
/// picks the group `group` from it. The contract gives the outcome a name
/// and claims nothing else of it.
#[verifier::external_body]
fn capture_named(pattern: &str, group: &str, haystack: &str) -> (r: Option<String>)
    ensures
        match r {
            Some(text) => regex_capture(pattern@, group@, haystack@) == Some(text@),
            None => regex_capture(pattern@, group@, haystack@) is None,
        },
{
    match regex::Regex::new(pattern) {
        Ok(re) => re.captures(haystack).and_then(|found| found.name(group)).map(
            |part| part.as_str().to_owned(),
        ),
        Err(_) => None,
    }
}

/// The first well-known installation directory on Unix-like systems.
pub open spec fn unix_local_root() -> Seq<char> {
    "/usr/local/share/openocd"@
}

/// The second well-known installation directory on Unix-like systems.
pub open spec fn unix_shared_root() -> Seq<char> {
    "/usr/share/openocd"@
}

/// Whether the probes found a directory at `path`.
pub open spec fn is_present(probes: Seq<EntryView>, path: Seq<char>) -> bool {
    exists|i: int| 0 <= i < probes.len() && (#[trigger] probes[i]).is_dir && probes[i].path == path
}

/// The installation directory on a Unix-like system: the first of the two
/// well-known directories that the probes found.
pub open spec fn unix_root(probes: Seq<EntryView>) -> Option<Seq<char>> {
    if is_present(probes, unix_local_root()) {
        Some(unix_local_root())
    } else if is_present(probes, unix_shared_root()) {
        Some(unix_shared_root())
    } else {
        None
    }
}

/// The directory two levels above `bin`.
pub open spec fn two_up(bin: Seq<char>) -> Option<Seq<char>> {
    match parent(bin) {
        Some(dir) => parent(dir),
        None => None,
    }
}

/// Whether `e` is the directory called `name` directly inside `dir`.
pub open spec fn is_subdir(e: EntryView, dir: Seq<char>, name: Seq<char>) -> bool {
    e.is_dir && parent(e.path) == Some(dir) && file_name(e.path) == name
}

/// Whether the walk met a directory called `name` directly inside `dir`.
pub open spec fn has_subdir(tree: Seq<EntryView>, dir: Seq<char>, name: Seq<char>) -> bool {
    exists|i: int| 0 <= i < tree.len() && is_subdir(#[trigger] tree[i], dir, name)
}

/// Whether `dir` holds the three directories of scripts that the debugger
/// needs: `board`, `interface` and `target`.
pub open spec fn valid_scripts(tree: Seq<EntryView>, dir: Seq<char>) -> bool {
    &&& has_subdir(tree, dir, "board"@)
    &&& has_subdir(tree, dir, "interface"@)
    &&& has_subdir(tree, dir, "target"@)
}

/// How many levels below the installation directory the scripts directory
/// is looked for. The walk of an installation need not go deeper.
pub const SCRIPTS_SEARCH_DEPTH: usize = 8;

/// Whether entry `i` of the walk is a scripts directory of the installation
/// at `root`: a directory called `scripts` that lies under `root`, no more
/// than `SCRIPTS_SEARCH_DEPTH` levels down. What it holds is not asked: an
/// installation may lack a category of scripts.
pub open spec fn is_scripts_dir(root: Seq<char>, tree: Seq<EntryView>, i: int) -> bool {
    &&& tree[i].is_dir
    &&& file_name(tree[i].path) == "scripts"@
    &&& relative_to(root, tree[i].path) matches Some(rel) && depth(rel) <= SCRIPTS_SEARCH_DEPTH
}

/// Whether the installation at `root` is complete: the walk met its
/// scripts directory, and that directory holds all three directories of
/// scripts.
pub open spec fn complete_scripts(root: Seq<char>, tree: Seq<EntryView>) -> bool {
    scripts_dir(root, tree) matches Some(scripts) && valid_scripts(tree, scripts)
}

/// The index of the first scripts directory that the walk met at or after
/// entry `from`.
pub open spec fn first_scripts_dir(root: Seq<char>, tree: Seq<EntryView>, from: int) -> Option<int>
    decreases tree.len() - from,
{
    if from < 0 || from >= tree.len() {
        None
    } else if is_scripts_dir(root, tree, from) {
        Some(from)
    } else {
        first_scripts_dir(root, tree, from + 1)
    }
}

/// The scripts directory of the installation at `root`: the first that the
/// walk met.
pub open spec fn scripts_dir(root: Seq<char>, tree: Seq<EntryView>) -> Option<Seq<char>> {
    match first_scripts_dir(root, tree, 0) {
        Some(i) => Some(tree[i].path),
        None => None,
    }
}

/// What `first_scripts_dir` finds is a scripts directory and the first one;
/// where it finds none, there is none.
pub proof fn lemma_first_scripts_dir(root: Seq<char>, tree: Seq<EntryView>, from: int)
    requires
        0 <= from,
    ensures
        match first_scripts_dir(root, tree, from) {
            Some(i) => {
                &&& from <= i < tree.len()
                &&& is_scripts_dir(root, tree, i)
                &&& forall|j: int| from <= j < i ==> !is_scripts_dir(root, tree, j)
            },
            None => forall|j: int| from <= j < tree.len() ==> !is_scripts_dir(root, tree, j),
        },
    decreases tree.len() - from,
{
    if from < tree.len() && !is_scripts_dir(root, tree, from) {
        lemma_first_scripts_dir(root, tree, from + 1);
    }
}

/// The scripts directory is found exactly where the walk met a directory
/// called `scripts` under the root within the search depth, whatever that
/// directory holds; and what is found is such a directory.
pub proof fn lemma_scripts_dir_found_iff_present(root: Seq<char>, tree: Seq<EntryView>)
    ensures
        scripts_dir(root, tree) is Some <==> exists|i: int|
            0 <= i < tree.len() && is_scripts_dir(root, tree, i),
        scripts_dir(root, tree) matches Some(dir) ==> {
            &&& file_name(dir) == "scripts"@
            &&& relative_to(root, dir) is Some
            &&& exists|i: int| 0 <= i < tree.len() && tree[i].is_dir && tree[i].path == dir
        },
{
    lemma_first_scripts_dir(root, tree, 0);
}

/// The three directories of scripts of one installation.
#[derive(Debug)]
pub struct OpenocdPaths {
    pub board: String,
    pub target: String,
    pub interface: String,
}

impl OpenocdPaths {
    /// The three directories of the installation at `root`, given what a
    /// walk of `root` met. It fails where no installation was found (`root`
    /// is `None`) and where the walk met no scripts directory, and only
    /// there: whether the three directories exist is not asked, and one
    /// that does not is later listed as empty.
    pub fn new(root: Option<&str>, tree: &Vec<Entry>) -> (r: Result<OpenocdPaths, Error>)
        ensures
            match root {
                Some(at) => match scripts_dir(at@, views(tree@)) {
                    Some(scripts) => {
                        &&& r is Ok
                        &&& r->Ok_0.board@ == join(scripts, "board"@)
                        &&& r->Ok_0.target@ == join(scripts, "target"@)
                        &&& r->Ok_0.interface@ == join(scripts, "interface"@)
                    },
                    None => r == Err::<OpenocdPaths, Error>(Error::ToolNotFound),
                },
                None => r == Err::<OpenocdPaths, Error>(Error::ToolNotFound),
            },
    {
        let at = match root {
            Some(at) => at,
            None => {
                return Err(Error::ToolNotFound);
            },
        };
        match Self::scripts(at, tree) {
            Some(scripts) => Ok(
                OpenocdPaths {
                    board: Self::board(scripts.as_str()),
                    target: Self::target(scripts.as_str()),
                    interface: Self::interface(scripts.as_str()),
                },
            ),
            None => Err(Error::ToolNotFound),
        }
    }

    /// The directory of board scripts inside `script`.
    pub fn board(script: &str) -> (r: String)
        ensures
            r@ == join(script@, "board"@),
    {
        join_path(script, "board")
    }

    /// The directory of interface scripts inside `script`.
    pub fn interface(script: &str) -> (r: String)
        ensures
            r@ == join(script@, "interface"@),
    {
        join_path(script, "interface")
    }

    /// The directory of target scripts inside `script`.
    pub fn target(script: &str) -> (r: String)
        ensures
            r@ == join(script@, "target"@),
    {
        join_path(script, "target")
    }

    /// The regular expression that finds the debugger's own path in what it
    /// prints when it is given a flag that it does not know.
    pub fn unknown_option_pattern() -> (r: &'static str)
        ensures
            r@ == "(?P<path>.+): unknown option"@,
    {
        "(?P<path>.+): unknown option"
    }

    /// The path of the real debugger binary, read from what the debugger
    /// printed when it was run with a flag that it does not know: the text
    /// before `: unknown option`.
    pub fn hack_binary_path(output: &str) -> (r: Option<String>)
        ensures
            match r {
                Some(path) => regex_capture(
                    "(?P<path>.+): unknown option"@,
                    "path"@,
                    output@,
                ) == Some(path@),
                None => regex_capture("(?P<path>.+): unknown option"@, "path"@, output@) is None,
            },
    {
        capture_named(Self::unknown_option_pattern(), "path", output)
    }

    /// The two well-known installation directories on a Unix-like system,
    /// the one that is preferred first. The caller looks which of them
    /// exist and hands the outcome to `root`.
    pub fn well_known_roots() -> (r: Vec<&'static str>)
        ensures
            r@.len() == 2,
            r@[0]@ == unix_local_root(),
            r@[1]@ == unix_shared_root(),
    {
        let mut roots: Vec<&'static str> = Vec::new();
        roots.push("/usr/local/share/openocd");
        roots.push("/usr/share/openocd");
        roots
    }

    /// Whether the probes found a directory at `path`.
    pub fn present(probes: &Vec<Entry>, path: &str) -> (r: bool)
        ensures
            r == is_present(views(probes@), path@),
    {
        let mut i: usize = 0;
        while i < probes.len()
            invariant
                i <= probes.len(),
                forall|j: int| 0 <= j < i ==> !(views(probes@)[j].is_dir && views(probes@)[j].path == path@),
            decreases probes.len() - i,
        {
            let probe = &probes[i];
            assert(views(probes@)[i as int] == probe@);
            if probe.is_dir && same_text(probe.path.as_str(), path) {
                return true;
            }
            i += 1;
        }
        false
    }

    /// The installation directory on a Unix-like system, given which of
    /// the well-known directories the caller found: the first of
    /// `/usr/local/share/openocd` and `/usr/share/openocd` that is there.
    pub fn root(probes: &Vec<Entry>) -> (r: Option<String>)
        ensures
            match r {
                Some(at) => unix_root(views(probes@)) == Some(at@),
                None => unix_root(views(probes@)) is None,
            },
    {
        if Self::present(probes, "/usr/local/share/openocd") {
            Some("/usr/local/share/openocd".to_owned())
        } else if Self::present(probes, "/usr/share/openocd") {
            Some("/usr/share/openocd".to_owned())
        } else {
            None
        }
    }

    /// The scripts directory of the installation at `openocd_path`, given
    /// what a walk of that directory met: the first directory of the walk
    /// that is called `scripts` and lies no more than
    /// `SCRIPTS_SEARCH_DEPTH` levels below `openocd_path`.
    pub fn scripts(openocd_path: &str, tree: &Vec<Entry>) -> (r: Option<String>)
        ensures
            match r {
                Some(dir) => scripts_dir(openocd_path@, views(tree@)) == Some(dir@),
                None => scripts_dir(openocd_path@, views(tree@)) is None,
            },
    {
        let ghost all = views(tree@);
        let mut i: usize = 0;
        while i < tree.len()
            invariant
                i <= tree.len(),
                all == views(tree@),
                first_scripts_dir(openocd_path@, all, 0) == first_scripts_dir(
                    openocd_path@,
                    all,
                    i as int,
                ),
            decreases tree.len() - i,
        {
            let entry = &tree[i];
            assert(all[i as int] == entry@);
            if entry.is_dir {
                let name = file_name_of(entry.path.as_str());
                if same_text(name.as_str(), "scripts") {
                    if let Some(rel) = relative_path(openocd_path, entry.path.as_str()) {
                        if within_depth(rel.as_str(), SCRIPTS_SEARCH_DEPTH) {
                            return Some(entry.path.clone());
                        }
                    }
                }
            }
            i += 1;
        }
        None
    }

    /// Whether the walk met a directory called `name` directly inside
    /// `dir`.
    pub fn subdir_present(tree: &Vec<Entry>, dir: &str, name: &str) -> (r: bool)
        ensures
            r == has_subdir(views(tree@), dir@, name@),
    {
        let mut i: usize = 0;
        while i < tree.len()
            invariant
                i <= tree.len(),
                forall|j: int| 0 <= j < i ==> !is_subdir(views(tree@)[j], dir@, name@),
            decreases tree.len() - i,
        {
            let entry = &tree[i];
            assert(views(tree@)[i as int] == entry@);
            if entry.is_dir {
                let last = file_name_of(entry.path.as_str());
                if same_text(last.as_str(), name) {
                    if let Some(up) = parent_of(entry.path.as_str()) {
                        if same_text(up.as_str(), dir) {
                            return true;
                        }
                    }
                }
            }
            i += 1;
        }
        false
    }

    /// Whether `scripts` is a complete scripts directory: the walk met
    /// `board`, `interface` and `target` as directories directly inside it.
    /// A candidate installation is held to this before it is taken for the
    /// debugger's own.
    pub fn validate_scripts(scripts: &str, tree: &Vec<Entry>) -> (r: bool)
        ensures
            r == valid_scripts(views(tree@), scripts@),
    {
        Self::subdir_present(tree, scripts, "board") && Self::subdir_present(
            tree,
            scripts,
            "interface",
        ) && Self::subdir_present(tree, scripts, "target")
    }

    /// The installation directory of the debugger binary at `bin`: two
    /// directories up.
    pub fn from_bin_to_root(bin: &str) -> (r: Option<String>)
        ensures
            match r {
                Some(root) => two_up(bin@) == Some(root@),
                None => two_up(bin@) is None,
            },
    {
        match parent_of(bin) {
            Some(dir) => parent_of(dir.as_str()),
            None => None,
        }
    }
}

} // verus!
