//! The user's last selection, as it is kept between two runs.

use vstd::prelude::*;
use crate::gitpod::config::Config as GitpodConfig;
use crate::openocd::config::Config as OpenocdConfig;

verus! {

/// The script that the user chose in each of the three categories. A
/// category without a choice holds the record with two empty texts.
#[derive(Debug)]
pub struct OpenocdConfigSet {
    pub board: OpenocdConfig,
    pub interface: OpenocdConfig,
    pub target: OpenocdConfig,
}

impl OpenocdConfigSet {
    /// The chosen scripts in the order in which the debugger is given
    /// them: board, interface, target.
    pub fn selection(&self) -> (r: Vec<OpenocdConfig>)
        ensures
            r@.len() == 3,
            r@[0]@ == self.board@,
            r@[1]@ == self.interface@,
            r@[2]@ == self.target@,
    {
        let mut out: Vec<OpenocdConfig> = Vec::new();
        out.push(self.board.clone());
        out.push(self.interface.clone());
        out.push(self.target.clone());
        out
    }
}

impl Clone for OpenocdConfigSet {
    fn clone(&self) -> (r: Self)
        ensures
            r.board@ == self.board@,
            r.interface@ == self.interface@,
            r.target@ == self.target@,
    {
        OpenocdConfigSet {
            board: self.board.clone(),
            interface: self.interface.clone(),
            target: self.target.clone(),
        }
    }
}

impl Default for OpenocdConfigSet {
    /// Nothing chosen in any category.
    fn default() -> (r: Self)
        ensures
            r.board@.name.len() == 0 && r.board@.path.len() == 0,
            r.interface@.name.len() == 0 && r.interface@.path.len() == 0,
            r.target@.name.len() == 0 && r.target@.path.len() == 0,
    {
        OpenocdConfigSet {
            board: OpenocdConfig::default(),
            interface: OpenocdConfig::default(),
            target: OpenocdConfig::default(),
        }
    }
}

/// All that is kept between two runs.
#[derive(Debug)]
pub struct AppConfig {
    pub openocd: OpenocdConfigSet,
    pub gitpod: GitpodConfig,
}

impl Clone for AppConfig {
    fn clone(&self) -> (r: Self)
        ensures
            r.openocd.board@ == self.openocd.board@,
            r.openocd.interface@ == self.openocd.interface@,
            r.openocd.target@ == self.openocd.target@,
            r.gitpod.instance_id@ == self.gitpod.instance_id@,
            r.gitpod.hostname@ == self.gitpod.hostname@,
    {
        AppConfig { openocd: self.openocd.clone(), gitpod: self.gitpod.clone() }
    }
}

impl Default for AppConfig {
    /// Nothing chosen yet: every text empty.
    fn default() -> (r: Self)
        ensures
            r.openocd.board@.name.len() == 0 && r.openocd.board@.path.len() == 0,
            r.openocd.interface@.name.len() == 0 && r.openocd.interface@.path.len() == 0,
            r.openocd.target@.name.len() == 0 && r.openocd.target@.path.len() == 0,
            r.gitpod.instance_id@.len() == 0,
            r.gitpod.hostname@.len() == 0,
    {
        AppConfig { openocd: OpenocdConfigSet::default(), gitpod: GitpodConfig::default() }
    }
}

} // verus!
