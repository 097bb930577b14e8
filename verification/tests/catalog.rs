use justrunmydebugger::error::Error;
use justrunmydebugger::listing::Entry;
use justrunmydebugger::openocd::config::{Config, ConfigFileName, ConfigsSet};
use justrunmydebugger::openocd::paths::OpenocdPaths;
use justrunmydebugger::openocd::{
    board_path, extract_configs_from, get_configs, interface_path, root_path, scripts_path,
    start_as_process, target_path, ConfigFile, ConfigType,
};

fn pairs(configs: &[Config]) -> Vec<(String, String)> {
    configs.iter().map(|c| (c.name.clone(), c.path.clone())).collect()
}

fn pair(name: &str, path: &str) -> (String, String) {
    (name.to_string(), path.to_string())
}

#[test]
fn name_is_the_relative_path_without_its_extension() {
    let listing = Some(vec![Entry::file("/abs/board/st_nucleo_f4.cfg")]);
    let found = ConfigsSet::extract_configs_from("/abs", &listing).unwrap();
    assert_eq!(
        pairs(&found),
        vec![pair("board/st_nucleo_f4", "/abs/board/st_nucleo_f4.cfg")]
    );
}

#[test]
fn discover_returns_one_record_for_each_script_and_no_other() {
    let listing = Some(vec![
        Entry::file("/s/target/stm32f0x.cfg"),
        Entry::file("/s/target/readme.txt"),
        Entry::file("/s/target/nested/deep/chip.cfg"),
        Entry::dir("/s/target/nested/deep"),
        Entry::file("/s/target/noext"),
        Entry::dir("/s/target/nested"),
        Entry::file("/s/target/old.xcfg"),
        Entry::file("/s/target/.cfg"),
        Entry::file("/s/target/UPPER.CFG"),
        Entry::file("/s/target/mixed.Cfg"),
        Entry::file("/s/target/almost.cfgx"),
        Entry::dir("/s/target/dir.cfg"),
        Entry::file("/elsewhere/stray.cfg"),
        Entry::dir("/s/target"),
    ]);
    let found = ConfigsSet::extract_configs_from("/s/target", &listing).unwrap();
    assert_eq!(
        pairs(&found),
        vec![
            pair("stm32f0x", "/s/target/stm32f0x.cfg"),
            pair("nested/deep/chip", "/s/target/nested/deep/chip.cfg"),
            pair("old", "/s/target/old.xcfg"),
            pair("UPPER", "/s/target/UPPER.CFG"),
            pair("mixed", "/s/target/mixed.Cfg"),
        ]
    );
}

#[test]
fn discover_on_a_missing_directory_is_an_error_of_its_own() {
    assert_eq!(
        ConfigsSet::extract_configs_from("/nowhere", &None).map(|v| v.len()),
        Err(Error::DirectoryMissing)
    );
    let empty = Some(Vec::new());
    assert_eq!(
        ConfigsSet::extract_configs_from("/empty", &empty).map(|v| v.len()),
        Ok(0)
    );
}

#[test]
fn extract_configs_takes_a_missing_directory_for_empty() {
    assert!(ConfigsSet::extract_configs("/nowhere", &None).is_empty());
    let listing = Some(vec![Entry::file("/d/a.cfg")]);
    assert_eq!(
        pairs(&ConfigsSet::extract_configs("/d", &listing)),
        vec![pair("a", "/d/a.cfg")]
    );
}

#[test]
fn config_file_name_accepts_extensions_that_end_in_cfg() {
    assert_eq!(ConfigFileName::try_from("board/x.cfg").unwrap().name, "board/x");
    assert_eq!(ConfigFileName::try_from("x.xcfg").unwrap().name, "x");
    assert_eq!(ConfigFileName::try_from("x.tar.cfg").unwrap().name, "x.tar");
    assert_eq!(ConfigFileName::try_from("x.CFG").unwrap().name, "x");
    assert!(ConfigFileName::try_from("x.cfg.bak").is_err());
    assert!(ConfigFileName::try_from("x.cf").is_err());
    assert!(ConfigFileName::try_from("x").is_err());
    assert!(ConfigFileName::try_from("cfg").is_err());
    assert!(ConfigFileName::try_from("").is_err());
    assert!(ConfigFileName::try_from("dir.cfg/x").is_err());
}

#[test]
fn configs_set_holds_the_three_categories() {
    let paths = Ok(OpenocdPaths {
        board: "/r/scripts/board".to_string(),
        target: "/r/scripts/target".to_string(),
        interface: "/r/scripts/interface".to_string(),
    });
    let boards = Some(vec![Entry::file("/r/scripts/board/b.cfg")]);
    let interfaces = None;
    let targets = Some(vec![
        Entry::file("/r/scripts/target/t1.cfg"),
        Entry::file("/r/scripts/target/t2.cfg"),
    ]);
    let set = ConfigsSet::new(paths, &boards, &interfaces, &targets).unwrap();
    assert_eq!(pairs(&set.boards), vec![pair("b", "/r/scripts/board/b.cfg")]);
    assert!(set.interfaces.is_empty());
    assert_eq!(
        pairs(&set.targets),
        vec![
            pair("t1", "/r/scripts/target/t1.cfg"),
            pair("t2", "/r/scripts/target/t2.cfg"),
        ]
    );
}

#[test]
fn configs_set_fails_only_without_an_installation() {
    let r = ConfigsSet::new(Err(Error::ToolNotFound), &None, &None, &None);
    assert_eq!(r.map(|_| ()), Err(Error::ToolNotFound));
    let paths = Ok(OpenocdPaths {
        board: "/r/scripts/board".to_string(),
        target: "/r/scripts/target".to_string(),
        interface: "/r/scripts/interface".to_string(),
    });
    let set = ConfigsSet::new(paths, &None, &None, &None).unwrap();
    assert!(set.boards.is_empty() && set.interfaces.is_empty() && set.targets.is_empty());
}

#[test]
fn default_config_is_empty() {
    let c = Config::default();
    assert_eq!(c.name, "");
    assert_eq!(c.path, "");
    let d = Config { name: "n".to_string(), path: "p".to_string() }.clone();
    assert_eq!((d.name.as_str(), d.path.as_str()), ("n", "p"));
}

#[test]
fn plain_layout_paths() {
    assert_eq!(scripts_path("/usr/share/openocd"), "/usr/share/openocd/scripts");
    assert_eq!(board_path("/usr/share/openocd"), "/usr/share/openocd/scripts/board");
    assert_eq!(interface_path("/usr/share/openocd"), "/usr/share/openocd/scripts/interface");
    assert_eq!(target_path("/usr/share/openocd"), "/usr/share/openocd/scripts/target");
}

#[test]
fn plain_layout_lists_only_what_lies_directly_inside() {
    let listing = Some(vec![
        Entry::file("/r/scripts/board/a.cfg"),
        Entry::file("/r/scripts/board/sub/b.cfg"),
        Entry::dir("/r/scripts/board/sub"),
        Entry::file("/r/scripts/board/c.txt"),
        Entry::file("/r/scripts/board/d.xcfg"),
    ]);
    let found = extract_configs_from("/r/scripts/board", &listing).unwrap();
    assert_eq!(
        pairs(&found),
        vec![
            pair("a", "/r/scripts/board/a.cfg"),
            pair("d", "/r/scripts/board/d.xcfg"),
        ]
    );
    assert_eq!(
        extract_configs_from("/r/scripts/board", &None).map(|v| v.len()),
        Err(Error::DirectoryMissing)
    );
}

#[test]
fn get_configs_picks_the_category() {
    let listing = Some(vec![Entry::file("/r/scripts/target/t.cfg")]);
    let found = get_configs(ConfigType::TARGET, Some("/r"), &listing).unwrap();
    assert_eq!(pairs(&found), vec![pair("t", "/r/scripts/target/t.cfg")]);
    // the same listing does not lie in the directory of another category
    let none = get_configs(ConfigType::BOARD, Some("/r"), &listing).unwrap();
    assert!(none.is_empty());
    assert_eq!(get_configs(ConfigType::INTERFACE, Some("/r"), &None).map(|v| v.len()), Ok(0));
    assert_eq!(
        get_configs(ConfigType::BOARD, None, &listing).map(|v| v.len()),
        Err(Error::ToolNotFound)
    );
}

#[test]
fn config_type_is_read_from_its_name() {
    assert_eq!(ConfigType::from_name("BOARD"), Some(ConfigType::BOARD));
    assert_eq!(ConfigType::from_name("INTERFACE"), Some(ConfigType::INTERFACE));
    assert_eq!(ConfigType::from_name("TARGET"), Some(ConfigType::TARGET));
    assert_eq!(ConfigType::from_name("board"), None);
    assert_eq!(ConfigType::from_name(""), None);
}

#[test]
fn config_file_keeps_name_and_extension() {
    let f = ConfigFile::try_from("/r/scripts/board/st_nucleo_f4.cfg").unwrap();
    assert_eq!(f.name, "st_nucleo_f4.cfg");
    assert_eq!(f.ext, "cfg");
    assert_eq!(f.stem(), Some("st_nucleo_f4".to_string()));
    assert!(ConfigFile::try_from("/r/scripts/board/readme.md").is_err());
    let odd = ConfigFile { name: "a.cfg".to_string(), ext: "xcfg".to_string() };
    assert_eq!(odd.stem(), None);
    let short = ConfigFile { name: "cfg".to_string(), ext: "cfg".to_string() };
    assert_eq!(short.stem(), None);
}

#[test]
fn root_path_is_the_unix_root() {
    let probes = vec![Entry::dir("/usr/share/openocd")];
    assert_eq!(root_path(&probes), Some("/usr/share/openocd".to_string()));
    assert_eq!(root_path(&Vec::new()), None);
}

#[test]
fn start_as_process_builds_the_arguments() {
    let configs = vec![Config { name: "a".to_string(), path: "/a.cfg".to_string() }];
    assert_eq!(
        start_as_process(true, &configs),
        Some(vec!["-f".to_string(), "/a.cfg".to_string()])
    );
    assert_eq!(start_as_process(false, &configs), None);
}
