//! Finding the installation from the debugger binary, step by step.
//!
//! Where the debugger is found through the search path, its installation
//! is expected two directories above the binary. The binary may be a
//! launcher that lies elsewhere; then the actual binary is asked for its own
//! path, once, and the search is repeated from there. Each step of the
//! search needs something from outside (a look at the search path, a walk
//! of a directory, a run of the binary), so the search is a state that the
//! caller drives: it does what the state asks for and reports what came of
//! it.

use vstd::prelude::*;
use crate::listing::{views, Entry};
use crate::openocd::paths::{complete_scripts, regex_capture, two_up, OpenocdPaths};

verus! {

/// Where the search stands, and with it what the caller is to do next.
#[derive(Debug)]
pub enum Resolution {
    /// Walk `root` and report what the walk met.
    Inspect { root: String, binary: String, probed: bool },
    /// Run `binary` with a flag that it does not know and report what it
    /// printed.
    Probe { binary: String },
    /// The installation is at `root`.
    Found { root: String },
    /// There is no installation to be found.
    NotFound,
}

/// A `Resolution` with its texts as sequences of characters.
pub enum ResolutionView {
    Inspect { root: Seq<char>, binary: Seq<char>, probed: bool },
    Probe { binary: Seq<char> },
    Found { root: Seq<char> },
    NotFound,
}

impl View for Resolution {
    type V = ResolutionView;

    open spec fn view(&self) -> ResolutionView {
        match *self {
            Resolution::Inspect { root, binary, probed } => ResolutionView::Inspect {
                root: root@,
                binary: binary@,
                probed,
            },
            Resolution::Probe { binary } => ResolutionView::Probe { binary: binary@ },
            Resolution::Found { root } => ResolutionView::Found { root: root@ },
            Resolution::NotFound => ResolutionView::NotFound,
        }
    }
}

/// The search from the binary at `binary`: its installation is looked at
/// if the binary lies two levels deep, else the binary is asked.
pub open spec fn from_binary(binary: Seq<char>, probed: bool) -> ResolutionView {
    match two_up(binary) {
        Some(root) => ResolutionView::Inspect { root, binary, probed },
        None => if probed {
            ResolutionView::NotFound
        } else {
            ResolutionView::Probe { binary }
        },
    }
}

/// The state after the search path was looked at.
pub open spec fn located(binary: Option<Seq<char>>) -> ResolutionView {
    match binary {
        Some(binary) => from_binary(binary, false),
        None => ResolutionView::NotFound,
    }
}

/// The state after the walk that `state` asked for: `valid` says whether
/// the walk met a scripts directory that holds all three directories of
/// scripts.
pub open spec fn inspected(state: ResolutionView, valid: bool) -> ResolutionView {
    match state {
        ResolutionView::Inspect { root, binary, probed } => if valid {
            ResolutionView::Found { root }
        } else if probed {
            ResolutionView::NotFound
        } else {
            ResolutionView::Probe { binary }
        },
        _ => state,
    }
}

/// The state after the run that `state` asked for: `actual` is the path that
/// the binary gave for itself, if it gave one.
pub open spec fn probed(state: ResolutionView, actual: Option<Seq<char>>) -> ResolutionView {
    match state {
        ResolutionView::Probe { binary } => match actual {
            Some(actual) => from_binary(actual, true),
            None => ResolutionView::NotFound,
        },
        _ => state,
    }
}

impl Resolution {
    /// The search from the binary at `binary`.
    fn from_binary(binary: String, probed: bool) -> (r: Resolution)
        ensures
            r@ == from_binary(binary@, probed),
    {
        match OpenocdPaths::from_bin_to_root(binary.as_str()) {
            Some(root) => Resolution::Inspect { root, binary, probed },
            None => if probed {
                Resolution::NotFound
            } else {
                Resolution::Probe { binary }
            },
        }
    }

    /// Starts the search with what the search path gave for the debugger:
    /// the path of its binary, or `None`.
    pub fn locate(binary: Option<&str>) -> (r: Resolution)
        ensures
            r@ == located(
                match binary {
                    Some(path) => Some(path@),
                    None => None,
                },
            ),
    {
        match binary {
            Some(path) => Self::from_binary(path.to_owned(), false),
            None => Resolution::NotFound,
        }
    }

    /// Goes on with what the walk of the candidate met. A candidate is the
    /// installation where the walk met its scripts directory and that
    /// directory holds `board`, `interface` and `target`. Any other sends
    /// the search to the binary itself, once; after that the search has
    /// failed. In any other state nothing changes.
    pub fn inspect(self, tree: &Vec<Entry>) -> (r: Resolution)
        ensures
            r@ == inspected(
                self@,
                self matches Resolution::Inspect { root, .. } && complete_scripts(
                    root@,
                    views(tree@),
                ),
            ),
    {
        match self {
            Resolution::Inspect { root, binary, probed } => {
                let complete = match OpenocdPaths::scripts(root.as_str(), tree) {
                    Some(scripts) => OpenocdPaths::validate_scripts(scripts.as_str(), tree),
                    None => false,
                };
                if complete {
                    Resolution::Found { root }
                } else if probed {
                    Resolution::NotFound
                } else {
                    Resolution::Probe { binary }
                }
            },
            other => other,
        }
    }

    /// Goes on with the path that the binary gave for itself. In any state
    /// but `Probe` nothing changes.
    pub fn probe_result(self, actual: Option<String>) -> (r: Resolution)
        ensures
            r@ == probed(
                self@,
                match actual {
                    Some(path) => Some(path@),
                    None => None,
                },
            ),
    {
        match self {
            Resolution::Probe { binary } => match actual {
                Some(path) => Self::from_binary(path, true),
                None => Resolution::NotFound,
            },
            other => other,
        }
    }

    /// Goes on with what the binary printed when it was run with a flag
    /// that it does not know, or with `None` where it could not be run. In
    /// any state but `Probe` nothing changes.
    pub fn probe(self, output: Option<&str>) -> (r: Resolution)
        ensures
            r@ == probed(
                self@,
                match output {
                    Some(text) => regex_capture("(?P<path>.+): unknown option"@, "path"@, text@),
                    None => None,
                },
            ),
    {
        let actual = match output {
            Some(text) => OpenocdPaths::hack_binary_path(text),
            None => None,
        };
        self.probe_result(actual)
    }
}

/// The binary is asked at most once: a search that has asked it and then
/// meets a candidate without complete scripts has failed.
pub proof fn lemma_second_failure_is_final(binary: Seq<char>, actual: Option<Seq<char>>)
    ensures
        inspected(probed(ResolutionView::Probe { binary }, actual), false) == ResolutionView::NotFound,
        !(probed(ResolutionView::Probe { binary }, actual) is Probe),
{
}

/// A candidate with a complete scripts directory ends the search at once,
/// with that candidate, and no run of the binary is asked for.
pub proof fn lemma_valid_candidate_is_found(root: Seq<char>, binary: Seq<char>, was_probed: bool)
    ensures
        inspected(ResolutionView::Inspect { root, binary, probed: was_probed }, true)
            == (ResolutionView::Found { root }),
{
}

/// The two final states stay what they are, whatever is reported.
pub proof fn lemma_final_states_stay(valid: bool, actual: Option<Seq<char>>, root: Seq<char>)
    ensures
        inspected(ResolutionView::NotFound, valid) == ResolutionView::NotFound,
        probed(ResolutionView::NotFound, actual) == ResolutionView::NotFound,
        inspected(ResolutionView::Found { root }, valid) == (ResolutionView::Found { root }),
        probed(ResolutionView::Found { root }, actual) == (ResolutionView::Found { root }),
{
}

} // verus!
