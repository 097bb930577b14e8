//! The catalog of configuration scripts: every file under a directory whose
//! extension ends in `cfg`, named by its path below that directory.

use vstd::prelude::*;
use crate::error::Error;
use crate::listing::{views, Entry, EntryView};
use crate::openocd::paths::OpenocdPaths;
use crate::pathname::{
    extension,
    file_name,
    join,
    last_dot,
    lemma_last_dot,
    lemma_last_sep,
    lemma_relative_to_join,
    relative_path,
    relative_to,
    split_points,
};
use crate::text::chars_of;

verus! {

/// A configuration script: the name it is offered under and where it lies.
#[derive(Debug)]
pub struct Config {
    pub name: String,
    pub path: String,
}

/// A `Config` with its two texts as sequences of characters.
pub struct ConfigView {
    pub name: Seq<char>,
    pub path: Seq<char>,
}

impl View for Config {
    type V = ConfigView;

    open spec fn view(&self) -> ConfigView {
        ConfigView { name: self.name@, path: self.path@ }
    }
}

impl Clone for Config {
    fn clone(&self) -> (r: Self)
        ensures
            r@ == self@,
    {
        Config { name: self.name.clone(), path: self.path.clone() }
    }
}

impl Default for Config {
    /// The record of no script: both texts empty.
    fn default() -> (r: Self)
        ensures
            r@.name.len() == 0,
            r@.path.len() == 0,
    {
        Config { name: String::new(), path: String::new() }
    }
}

/// The records of a list, each by its view.
pub open spec fn config_views(configs: Seq<Config>) -> Seq<ConfigView> {
    configs.map_values(|c: Config| c@)
}

/// Whether an extension marks a configuration script: its last three
/// characters are `cfg`, in either case.
pub open spec fn ends_in_cfg(ext: Seq<char>) -> bool {
    let n = ext.len() as int;
    &&& n >= 3
    &&& (ext[n - 3] == 'c' || ext[n - 3] == 'C')
    &&& (ext[n - 2] == 'f' || ext[n - 2] == 'F')
    &&& (ext[n - 1] == 'g' || ext[n - 1] == 'G')
}

/// The name of the script at the relative path `rel`: the path without its
/// extension and the `.` before it. `None` where `rel` has no extension or
/// one that does not end in `cfg`.
pub open spec fn config_name(rel: Seq<char>) -> Option<Seq<char>> {
    match extension(rel) {
        Some(ext) => if ends_in_cfg(ext) {
            Some(rel.subrange(0, rel.len() - ext.len() - 1))
        } else {
            None
        },
        None => None,
    }
}

/// The record that a walk of `dir` yields for the entry `e`, if any: `e` is
/// a file under `dir` whose relative path has a script's name.
pub open spec fn record_of(dir: Seq<char>, e: EntryView) -> Option<ConfigView> {
    if e.is_dir {
        None
    } else {
        match relative_to(dir, e.path) {
            Some(rel) => match config_name(rel) {
                Some(name) => Some(ConfigView { name, path: e.path }),
                None => None,
            },
            None => None,
        }
    }
}

/// The records of a whole listing of `dir`: one for each entry that yields
/// one, in the order of the listing.
pub open spec fn discovered(dir: Seq<char>, entries: Seq<EntryView>) -> Seq<ConfigView> {
    entries.filter(|e: EntryView| record_of(dir, e) is Some).map_values(
        |e: EntryView| record_of(dir, e)->0,
    )
}

/// Whether what follows index `from` in `chars` marks a configuration
/// script.
pub(crate) fn has_cfg_suffix(chars: &Vec<char>, from: usize) -> (r: bool)
    requires
        from <= chars.len(),
    ensures
        r == ends_in_cfg(chars@.subrange(from as int, chars@.len() as int)),
{
    let n: usize = chars.len();
    let ghost ext = chars@.subrange(from as int, n as int);
    if n - from < 3 {
        return false;
    }
    let c: char = chars[n - 3];
    let f: char = chars[n - 2];
    let g: char = chars[n - 1];
    assert(ext[ext.len() - 3] == c);
    assert(ext[ext.len() - 2] == f);
    assert(ext[ext.len() - 1] == g);
    (c == 'c' || c == 'C') && (f == 'f' || f == 'F') && (g == 'g' || g == 'G')
}

/// The name of a configuration script, cut from its relative path.
pub struct ConfigFileName {
    pub name: String,
}

impl ConfigFileName {
    /// Cuts the script's name from `path`, or fails where `path` does not
    /// name a configuration script.
    pub fn try_from(path: &str) -> (r: Result<ConfigFileName, ()>)
        ensures
            match r {
                Ok(file) => config_name(path@) == Some(file.name@),
                Err(_) => config_name(path@) is None,
            },
    {
        let chars = chars_of(path);
        let (_, ext) = split_points(&chars);
        match ext {
            None => Err(()),
            Some(e) => {
                if has_cfg_suffix(&chars, e) {
                    Ok(ConfigFileName { name: path.substring_char(0, e - 1).to_owned() })
                } else {
                    Err(())
                }
            },
        }
    }
}

/// Adding an entry to a listing adds its record, if it yields one, after
/// the records of the entries before it.
pub proof fn lemma_discovered_push(dir: Seq<char>, entries: Seq<EntryView>, e: EntryView)
    ensures
        discovered(dir, entries.push(e)) == match record_of(dir, e) {
            Some(record) => discovered(dir, entries).push(record),
            None => discovered(dir, entries),
        },
{
    let keep = |e: EntryView| record_of(dir, e) is Some;
    let make = |e: EntryView| record_of(dir, e)->0;
    entries.lemma_filter_push(e, keep);
    if record_of(dir, e) is Some {
        assert(entries.filter(keep).push(e).map_values(make) =~= entries.filter(keep).map_values(
            make,
        ).push(make(e)));
    }
}

/// A walk yields exactly one record for each of its entries that is a
/// script, in the order of the walk, and none for any other entry: where
/// `scripts` of the entries are scripts, there are `scripts` records, each
/// the record of its script.
pub proof fn lemma_one_record_for_each_script(dir: Seq<char>, entries: Seq<EntryView>)
    ensures
        ({
            let scripts = entries.filter(|e: EntryView| record_of(dir, e) is Some);
            let records = discovered(dir, entries);
            &&& records.len() == scripts.len()
            &&& scripts.len() <= entries.len()
            &&& forall|k: int|
                0 <= k < records.len() ==> {
                    &&& entries.contains(#[trigger] scripts[k])
                    &&& record_of(dir, scripts[k]) == Some(records[k])
                    &&& records[k].path == scripts[k].path
                    &&& !scripts[k].is_dir
                }
            &&& forall|i: int|
                0 <= i < entries.len() && record_of(dir, #[trigger] entries[i]) is Some
                    ==> scripts.contains(entries[i])
        }),
{
    let keep = |e: EntryView| record_of(dir, e) is Some;
    let scripts = entries.filter(keep);
    entries.lemma_filter_len(keep);
    assert forall|k: int| 0 <= k < scripts.len() implies entries.contains(
        #[trigger] scripts[k],
    ) && keep(scripts[k]) by {
        entries.lemma_filter_pred(keep, k);
        assert(scripts.contains(scripts[k]));
        entries.lemma_filter_contains_rev(keep, scripts[k]);
    }
    assert forall|i: int|
        0 <= i < entries.len() && record_of(dir, #[trigger] entries[i]) is Some implies scripts.contains(
        entries[i],
    ) by {
        entries.lemma_filter_contains(keep, i);
    }
}

/// The entries of a walk are its scripts and the others: with `n` scripts
/// among them and `m` others, the walk yields `n` records, whatever `m` is.
pub proof fn lemma_others_are_ignored(dir: Seq<char>, entries: Seq<EntryView>)
    ensures
        discovered(dir, entries).len() + entries.filter(
            |e: EntryView| record_of(dir, e) is None,
        ).len() == entries.len(),
    decreases entries.len(),
{
    let scripts = |e: EntryView| record_of(dir, e) is Some;
    let others = |e: EntryView| record_of(dir, e) is None;
    if entries.len() == 0 {
        assert(entries.filter(scripts).len() == 0 && entries.filter(others).len() == 0) by {
            reveal(Seq::filter);
        }
    } else {
        let front = entries.drop_last();
        let last = entries.last();
        assert(entries =~= front.push(last));
        lemma_others_are_ignored(dir, front);
        front.lemma_filter_push(last, scripts);
        front.lemma_filter_push(last, others);
    }
}

/// A listing without any script gives no record, and a listing of scripts
/// alone gives one record for each entry.
pub proof fn lemma_all_or_nothing(dir: Seq<char>, entries: Seq<EntryView>)
    ensures
        (forall|i: int| 0 <= i < entries.len() ==> record_of(dir, #[trigger] entries[i]) is None)
            ==> discovered(dir, entries).len() == 0,
        (forall|i: int| 0 <= i < entries.len() ==> record_of(dir, #[trigger] entries[i]) is Some)
            ==> discovered(dir, entries).len() == entries.len(),
    decreases entries.len(),
{
    if entries.len() == 0 {
        assert(discovered(dir, entries).len() == 0) by {
            reveal(Seq::filter);
        }
    } else {
        let front = entries.drop_last();
        assert(entries =~= front.push(entries.last()));
        lemma_all_or_nothing(dir, front);
        lemma_discovered_push(dir, front, entries.last());
        assert forall|i: int| 0 <= i < front.len() implies front[i] == entries[i] by {}
        if forall|i: int| 0 <= i < entries.len() ==> record_of(dir, #[trigger] entries[i]) is None {
            assert(forall|i: int|
                0 <= i < front.len() ==> record_of(dir, #[trigger] front[i]) is None);
        }
        if forall|i: int| 0 <= i < entries.len() ==> record_of(dir, #[trigger] entries[i]) is Some {
            assert(forall|i: int|
                0 <= i < front.len() ==> record_of(dir, #[trigger] front[i]) is Some);
        }
    }
}

/// The name of a script and its extension, put together again with a `.`
/// between them, are the script's relative path; the extension holds
/// neither `.` nor separator.
pub proof fn lemma_name_and_extension(rel: Seq<char>)
    requires
        config_name(rel) is Some,
    ensures
        extension(rel) is Some,
        ends_in_cfg(extension(rel)->0),
        rel == config_name(rel)->0 + seq!['.'] + extension(rel)->0,
{
    let name = file_name(rel);
    lemma_last_sep(rel);
    lemma_last_dot(name);
    let ext = extension(rel)->0;
    let dot = last_dot(name);
    assert(name[dot] == '.');
    assert(rel =~= rel.subrange(0, rel.len() - ext.len() - 1) + seq!['.'] + ext);
}

/// The file at the relative path `rel` under `dir` yields the record whose
/// name is `rel` without its extension and whose path is the file's own, if
/// `rel` names a script, and no record else.
pub proof fn lemma_record_of_file_under(dir: Seq<char>, rel: Seq<char>)
    ensures
        record_of(dir, EntryView { path: join(dir, rel), is_dir: false }) == match config_name(rel) {
            Some(name) => Some(ConfigView { name, path: join(dir, rel) }),
            None => None,
        },
        record_of(dir, EntryView { path: join(dir, rel), is_dir: true }) is None,
{
    lemma_relative_to_join(dir, rel);
}

/// The records of a directory given what a walk of it saw: those that the
/// walk yields, and none where the walk found no directory.
pub open spec fn listed(dir: Seq<char>, listing: Option<Vec<Entry>>) -> Seq<ConfigView> {
    match listing {
        Some(entries) => discovered(dir, views(entries@)),
        None => Seq::empty(),
    }
}

/// The scripts of the three categories that the debugger is set up with.
#[derive(Debug)]
pub struct ConfigsSet {
    pub boards: Vec<Config>,
    pub interfaces: Vec<Config>,
    pub targets: Vec<Config>,
}

impl ConfigsSet {
    /// Whether this set holds, for each of the three directories of
    /// `paths`, the records of that directory's walk.
    pub open spec fn lists(
        self,
        paths: OpenocdPaths,
        boards: Option<Vec<Entry>>,
        interfaces: Option<Vec<Entry>>,
        targets: Option<Vec<Entry>>,
    ) -> bool {
        &&& config_views(self.boards@) == listed(paths.board@, boards)
        &&& config_views(self.interfaces@) == listed(paths.interface@, interfaces)
        &&& config_views(self.targets@) == listed(paths.target@, targets)
    }

    /// The scripts of the installation whose directories are `paths`,
    /// given what a walk of each of the three saw. A directory that is not
    /// there gives an empty list. Only an installation that was not found
    /// makes the whole fail, with the error that `paths` brings.
    pub fn new(
        paths: Result<OpenocdPaths, Error>,
        boards: &Option<Vec<Entry>>,
        interfaces: &Option<Vec<Entry>>,
        targets: &Option<Vec<Entry>>,
    ) -> (r: Result<ConfigsSet, Error>)
        ensures
            match paths {
                Ok(found) => r is Ok && r->Ok_0.lists(found, *boards, *interfaces, *targets),
                Err(error) => r is Err && r->Err_0 == error,
            },
    {
        match paths {
            Ok(found) => Ok(
                ConfigsSet {
                    boards: Self::extract_configs(found.board.as_str(), boards),
                    interfaces: Self::extract_configs(found.interface.as_str(), interfaces),
                    targets: Self::extract_configs(found.target.as_str(), targets),
                },
            ),
            Err(error) => Err(error),
        }
    }

    /// The scripts under `configs_dir`, given what a walk of it saw, or
    /// nothing where the walk found no directory there.
    pub fn extract_configs(configs_dir: &str, listing: &Option<Vec<Entry>>) -> (r: Vec<Config>)
        ensures
            config_views(r@) == listed(configs_dir@, *listing),
    {
        match Self::extract_configs_from(configs_dir, listing) {
            Ok(configs) => configs,
            Err(_) => {
                let none: Vec<Config> = Vec::new();
                assert(config_views(none@) =~= Seq::<ConfigView>::empty());
                none
            },
        }
    }

    /// The scripts under `configs_dir`, given what a walk of it saw:
    /// `listing` holds every path that the walk met, or `None` where
    /// `configs_dir` is not a directory, which is an error of its own and
    /// never an empty list.
    pub fn extract_configs_from(configs_dir: &str, listing: &Option<Vec<Entry>>) -> (r: Result<
        Vec<Config>,
        Error,
    >)
        ensures
            match *listing {
                Some(entries) => r is Ok && config_views(r->Ok_0@) == discovered(
                    configs_dir@,
                    views(entries@),
                ),
                None => r == Err::<Vec<Config>, Error>(Error::DirectoryMissing),
            },
    {
        let entries = match listing {
            Some(entries) => entries,
            None => {
                return Err(Error::DirectoryMissing);
            },
        };
        let mut found: Vec<Config> = Vec::new();
        let mut i: usize = 0;
        assert(views(entries@).take(0) =~= Seq::<EntryView>::empty());
        assert(discovered(configs_dir@, Seq::<EntryView>::empty()) =~= Seq::<ConfigView>::empty())
            by {
            reveal(Seq::filter);
        }
        assert(config_views(found@) =~= Seq::<ConfigView>::empty());
        while i < entries.len()
            invariant
                i <= entries.len(),
                config_views(found@) == discovered(configs_dir@, views(entries@).take(i as int)),
            decreases entries.len() - i,
        {
            let entry = &entries[i];
            let ghost before = views(entries@).take(i as int);
            let ghost records = config_views(found@);
            proof {
                assert(views(entries@).take(i + 1) =~= before.push(entry@));
                lemma_discovered_push(configs_dir@, before, entry@);
            }
            if !entry.is_dir {
                if let Some(rel) = relative_path(configs_dir, entry.path.as_str()) {
                    if let Ok(file) = ConfigFileName::try_from(rel.as_str()) {
                        let config = Config { name: file.name, path: entry.path.clone() };
                        found.push(config);
                        assert(config_views(found@) =~= records.push(config@));
                    }
                }
            }
            i += 1;
        }
        assert(views(entries@).take(entries.len() as int) =~= views(entries@));
        Ok(found)
    }
}

} // verus!
