//! The debugger's installation in its plain layout: the scripts directory
//! directly inside the installation directory, and the scripts of a category
//! directly inside that category's directory.

use vstd::prelude::*;
use crate::error::Error;
use crate::listing::{views, Entry, EntryView};
use crate::openocd::config::{
    config_name,
    config_views,
    ends_in_cfg,
    has_cfg_suffix,
    record_of,
    ConfigView,
};
use crate::openocd::paths::{unix_root, OpenocdPaths};
use crate::openocd::proc::{arguments, texts};
use crate::pathname::{
    extension,
    file_name,
    join,
    join_path,
    last_dot,
    last_sep,
    lemma_last_dot,
    relative_path,
    relative_to,
    split_points,
};
use crate::text::chars_of;

pub mod config;
pub mod event;
pub mod events;
pub mod output;
pub mod paths;
pub mod proc;
pub mod resolver;

pub use crate::openocd::config::Config;

verus! {

/// The file name of a configuration script and its extension.
pub struct ConfigFile {
    pub name: String,
    pub ext: String,
}

/// The three categories of configuration scripts.
#[allow(clippy::upper_case_acronyms)]
#[derive(Clone, Copy, Debug, PartialEq, Eq, Structural)]
pub enum ConfigType {
    BOARD,
    INTERFACE,
    TARGET,
}

impl ConfigType {
    /// The category that `name` names: one of `BOARD`, `INTERFACE` and
    /// `TARGET`, written exactly so.
    pub fn from_name(name: &str) -> (r: Option<ConfigType>)
        ensures
            r == if name@ == "BOARD"@ {
                Some(ConfigType::BOARD)
            } else if name@ == "INTERFACE"@ {
                Some(ConfigType::INTERFACE)
            } else if name@ == "TARGET"@ {
                Some(ConfigType::TARGET)
            } else {
                None
            },
    {
        if crate::text::same_text(name, "BOARD") {
            Some(ConfigType::BOARD)
        } else if crate::text::same_text(name, "INTERFACE") {
            Some(ConfigType::INTERFACE)
        } else if crate::text::same_text(name, "TARGET") {
            Some(ConfigType::TARGET)
        } else {
            None
        }
    }
}

impl ConfigFile {
    /// The file name and the extension of the script at `path`, or a
    /// failure where `path` does not name a configuration script.
    pub fn try_from(path: &str) -> (r: Result<ConfigFile, ()>)
        ensures
            match r {
                Ok(file) => {
                    &&& file.name@ == file_name(path@)
                    &&& extension(path@) == Some(file.ext@)
                    &&& ends_in_cfg(file.ext@)
                },
                Err(_) => config_name(path@) is None,
            },
    {
        let chars = chars_of(path);
        let n: usize = chars.len();
        let (start, ext) = split_points(&chars);
        match ext {
            None => Err(()),
            Some(e) => {
                if has_cfg_suffix(&chars, e) {
                    Ok(
                        ConfigFile {
                            name: path.substring_char(start, n).to_owned(),
                            ext: path.substring_char(e, n).to_owned(),
                        },
                    )
                } else {
                    Err(())
                }
            },
        }
    }

    /// The file name without the extension and the `.` before it, or
    /// `None` where the file name does not end in them.
    pub fn stem(&self) -> (r: Option<String>)
        ensures
            match r {
                Some(stem) => self.name@ == stem@ + seq!['.'] + self.ext@,
                None => !(seq!['.'] + self.ext@).is_suffix_of(self.name@),
            },
    {
        let name = chars_of(self.name.as_str());
        let ext = chars_of(self.ext.as_str());
        let n: usize = name.len();
        let e: usize = ext.len();
        let ghost tail = seq!['.'] + self.ext@;
        if n <= e {
            return None;
        }
        let cut: usize = n - e - 1;
        let ghost end = name@.subrange(cut as int, n as int);
        if name[cut] != '.' {
            assert(end[0] != tail[0]);
            return None;
        }
        let mut k: usize = 0;
        while k < e
            invariant
                k <= e,
                e == ext.len(),
                n == name.len(),
                cut == n - e - 1,
                ext@ == self.ext@,
                name@ == self.name@,
                tail == seq!['.'] + self.ext@,
                end == name@.subrange(cut as int, n as int),
                forall|j: int| 0 <= j < k ==> name@[cut + 1 + j] == ext@[j],
            decreases e - k,
        {
            if name[cut + 1 + k] != ext[k] {
                assert(end[1 + k] != tail[1 + k]);
                return None;
            }
            k += 1;
        }
        let stem = self.name.as_str().substring_char(0, cut).to_owned();
        assert(self.name@ =~= stem@ + seq!['.'] + self.ext@);
        Some(stem)
    }
}

/// Whether `e` lies directly inside `dir`, with no directory between.
pub open spec fn is_direct(dir: Seq<char>, e: EntryView) -> bool {
    relative_to(dir, e.path) matches Some(rel) && last_sep(rel) == -1
}

/// The records of the scripts directly inside `dir`, given a listing of
/// `dir`: one for each file of the listing that lies directly inside `dir`
/// and has a script's name, in the order of the listing.
pub open spec fn direct_scripts(dir: Seq<char>, entries: Seq<EntryView>) -> Seq<ConfigView> {
    entries.filter(|e: EntryView| is_direct(dir, e) && record_of(dir, e) is Some).map_values(
        |e: EntryView| record_of(dir, e)->0,
    )
}

/// Adding an entry to a listing adds its record, if it lies directly
/// inside the directory and yields one, after the records before it.
pub proof fn lemma_direct_scripts_push(dir: Seq<char>, entries: Seq<EntryView>, e: EntryView)
    ensures
        direct_scripts(dir, entries.push(e)) == if is_direct(dir, e) && record_of(dir, e) is Some {
            direct_scripts(dir, entries).push(record_of(dir, e)->0)
        } else {
            direct_scripts(dir, entries)
        },
{
    let keep = |e: EntryView| is_direct(dir, e) && record_of(dir, e) is Some;
    let make = |e: EntryView| record_of(dir, e)->0;
    entries.lemma_filter_push(e, keep);
    if keep(e) {
        assert(entries.filter(keep).push(e).map_values(make) =~= entries.filter(keep).map_values(
            make,
        ).push(make(e)));
    }
}

/// The directory of the category `config_type` in the installation at
/// `root`.
pub open spec fn category_dir(config_type: ConfigType, root: Seq<char>) -> Seq<char> {
    let scripts = join(root, "scripts"@);
    match config_type {
        ConfigType::BOARD => join(scripts, "board"@),
        ConfigType::INTERFACE => join(scripts, "interface"@),
        ConfigType::TARGET => join(scripts, "target"@),
    }
}

/// The scripts of one category in the installation at `root`, given a
/// listing of that category's directory, which is `None` where the
/// directory is not there. Without an installation (`root` is `None`) the
/// answer is `ToolNotFound`; a directory that is not there gives an empty
/// list.
pub fn get_configs(config_type: ConfigType, root: Option<&str>, listing: &Option<Vec<Entry>>) -> (r:
    Result<Vec<Config>, Error>)
    ensures
        match root {
            Some(at) => r is Ok && config_views(r->Ok_0@) == match *listing {
                Some(entries) => direct_scripts(category_dir(config_type, at@), views(entries@)),
                None => Seq::<ConfigView>::empty(),
            },
            None => r == Err::<Vec<Config>, Error>(Error::ToolNotFound),
        },
{
    match root {
        Some(at) => {
            let path = match config_type {
                ConfigType::BOARD => board_path(at),
                ConfigType::INTERFACE => interface_path(at),
                ConfigType::TARGET => target_path(at),
            };
            match extract_configs_from(path.as_str(), listing) {
                Ok(configs) => Ok(configs),
                Err(_) => {
                    let none: Vec<Config> = Vec::new();
                    assert(config_views(none@) =~= Seq::<ConfigView>::empty());
                    Ok(none)
                },
            }
        },
        None => Err(Error::ToolNotFound),
    }
}

/// The scripts directly inside `configs_dir`, given a listing of it, or
/// `DirectoryMissing` where `listing` says that it is no directory.
pub fn extract_configs_from(configs_dir: &str, listing: &Option<Vec<Entry>>) -> (r: Result<
    Vec<Config>,
    Error,
>)
    ensures
        match *listing {
            Some(entries) => r is Ok && config_views(r->Ok_0@) == direct_scripts(
                configs_dir@,
                views(entries@),
            ),
            None => r == Err::<Vec<Config>, Error>(Error::DirectoryMissing),
        },
{
    let entries = match listing {
        Some(entries) => entries,
        None => {
            return Err(Error::DirectoryMissing);
        },
    };
    let mut board_names: Vec<Config> = Vec::new();
    let mut i: usize = 0;
    assert(views(entries@).take(0) =~= Seq::<EntryView>::empty());
    assert(direct_scripts(configs_dir@, Seq::<EntryView>::empty()) =~= Seq::<ConfigView>::empty())
        by {
        reveal(Seq::filter);
    }
    assert(config_views(board_names@) =~= Seq::<ConfigView>::empty());
    while i < entries.len()
        invariant
            i <= entries.len(),
            config_views(board_names@) == direct_scripts(
                configs_dir@,
                views(entries@).take(i as int),
            ),
        decreases entries.len() - i,
    {
        let entry = &entries[i];
        let ghost before = views(entries@).take(i as int);
        let ghost records = config_views(board_names@);
        proof {
            assert(views(entries@).take(i + 1) =~= before.push(entry@));
            lemma_direct_scripts_push(configs_dir@, before, entry@);
        }
        if !entry.is_dir {
            if let Some(rel) = relative_path(configs_dir, entry.path.as_str()) {
                let chars = chars_of(rel.as_str());
                let (start, _) = split_points(&chars);
                if start == 0 {
                    assert(file_name(rel@) =~= rel@);
                    if let Ok(file) = ConfigFile::try_from(rel.as_str()) {
                        proof {
                            lemma_last_dot(rel@);
                            let dot = last_dot(rel@);
                            assert(rel@.subrange(dot, rel@.len() as int) =~= seq!['.'] + file.ext@);
                        }
                        if let Some(board_name) = file.stem() {
                            assert(board_name@ =~= rel@.subrange(
                                0,
                                rel@.len() - file.ext@.len() - 1,
                            ));
                            let config = Config { name: board_name, path: entry.path.clone() };
                            board_names.push(config);
                            assert(config_views(board_names@) =~= records.push(config@));
                        }
                    }
                }
            }
        }
        i += 1;
    }
    assert(views(entries@).take(entries.len() as int) =~= views(entries@));
    Ok(board_names)
}

/// The installation directory on a Unix-like system, given which of the
/// well-known directories the caller found.
pub fn root_path(probes: &Vec<Entry>) -> (r: Option<String>)
    ensures
        match r {
            Some(at) => unix_root(views(probes@)) == Some(at@),
            None => unix_root(views(probes@)) is None,
        },
{
    OpenocdPaths::root(probes)
}

/// The scripts directory of the installation at `openocd_path`.
pub fn scripts_path(openocd_path: &str) -> (r: String)
    ensures
        r@ == join(openocd_path@, "scripts"@),
{
    join_path(openocd_path, "scripts")
}

/// The directory of board scripts of the installation at `openocd_path`.
pub fn board_path(openocd_path: &str) -> (r: String)
    ensures
        r@ == category_dir(ConfigType::BOARD, openocd_path@),
{
    join_path(scripts_path(openocd_path).as_str(), "board")
}

/// The directory of interface scripts of the installation at
/// `openocd_path`.
pub fn interface_path(openocd_path: &str) -> (r: String)
    ensures
        r@ == category_dir(ConfigType::INTERFACE, openocd_path@),
{
    join_path(scripts_path(openocd_path).as_str(), "interface")
}

/// The directory of target scripts of the installation at `openocd_path`.
pub fn target_path(openocd_path: &str) -> (r: String)
    ensures
        r@ == category_dir(ConfigType::TARGET, openocd_path@),
{
    join_path(scripts_path(openocd_path).as_str(), "target")
}

/// The arguments to start the debugger with for the scripts `config`, or
/// `None` where the caller has found no debugger to start.
pub fn start_as_process(available: bool, config: &Vec<Config>) -> (r: Option<Vec<String>>)
    ensures
        match r {
            Some(args) => available && texts(args@) == arguments(config_views(config@)),
            None => !available,
        },
{
    crate::openocd::proc::start(available, config)
}

} // verus!
