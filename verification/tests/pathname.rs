use justrunmydebugger::pathname::{
    extension_of, file_name_of, join_path, parent_of, relative_path, within_depth,
};
use justrunmydebugger::text::{chars_of, contains_text, same_text};

#[test]
fn file_name_is_what_follows_the_last_separator() {
    assert_eq!(file_name_of("/usr/share/openocd/scripts"), "scripts");
    assert_eq!(file_name_of("board/st_nucleo_f4.cfg"), "st_nucleo_f4.cfg");
    assert_eq!(file_name_of("C:\\tools\\openocd\\bin\\openocd.exe"), "openocd.exe");
    assert_eq!(file_name_of("plain"), "plain");
    assert_eq!(file_name_of("dir/"), "");
    assert_eq!(file_name_of(""), "");
}

#[test]
fn extension_is_what_follows_the_last_dot_of_the_file_name() {
    assert_eq!(extension_of("board/st_nucleo_f4.cfg"), Some("cfg".to_string()));
    assert_eq!(extension_of("a.tar.gz"), Some("gz".to_string()));
    assert_eq!(extension_of("trailing."), Some("".to_string()));
    assert_eq!(extension_of("x.y/noext"), None);
    assert_eq!(extension_of("noext"), None);
    assert_eq!(extension_of(".hidden"), None);
    assert_eq!(extension_of("dir/.hidden"), None);
    assert_eq!(extension_of(".hidden.cfg"), Some("cfg".to_string()));
    assert_eq!(extension_of(".."), None);
    assert_eq!(extension_of("dir/.."), None);
    assert_eq!(extension_of(""), None);
}

#[test]
fn parent_drops_the_last_component() {
    assert_eq!(parent_of("/usr/bin/openocd"), Some("/usr/bin".to_string()));
    assert_eq!(parent_of("/usr/bin"), Some("/usr".to_string()));
    assert_eq!(parent_of("/usr"), Some("/".to_string()));
    assert_eq!(parent_of("/"), None);
    assert_eq!(parent_of("openocd"), Some("".to_string()));
    assert_eq!(parent_of(""), None);
    assert_eq!(
        parent_of("C:\\tools\\openocd\\bin\\openocd.exe"),
        Some("C:\\tools\\openocd\\bin".to_string())
    );
}

#[test]
fn join_puts_one_separator_between() {
    assert_eq!(join_path("/usr/share/openocd", "scripts"), "/usr/share/openocd/scripts");
    assert_eq!(join_path("/usr/share/openocd/", "scripts"), "/usr/share/openocd/scripts");
    assert_eq!(join_path("C:\\openocd\\", "scripts"), "C:\\openocd\\scripts");
    assert_eq!(join_path("", "scripts"), "scripts");
    assert_eq!(join_path("/", "scripts"), "/scripts");
}

#[test]
fn relative_path_strips_the_directory_and_one_separator() {
    assert_eq!(
        relative_path("/opt/scripts", "/opt/scripts/board/a.cfg"),
        Some("board/a.cfg".to_string())
    );
    assert_eq!(
        relative_path("/opt/scripts/", "/opt/scripts/board/a.cfg"),
        Some("board/a.cfg".to_string())
    );
    assert_eq!(relative_path("/opt/scripts", "/opt/scripts"), Some("".to_string()));
    assert_eq!(relative_path("", "board/a.cfg"), Some("board/a.cfg".to_string()));
    assert_eq!(relative_path("/opt/scripts", "/opt/scripts2/a.cfg"), None);
    assert_eq!(relative_path("/opt/scripts", "/opt/other/a.cfg"), None);
    assert_eq!(relative_path("/opt/scripts/long", "/opt"), None);
}

#[test]
fn path_functions_count_characters_not_bytes() {
    assert_eq!(file_name_of("/données/carte.cfg"), "carte.cfg");
    assert_eq!(parent_of("/données/carte.cfg"), Some("/données".to_string()));
    assert_eq!(extension_of("/données/cärte.cfg"), Some("cfg".to_string()));
    assert_eq!(
        relative_path("/données", "/données/cärte.cfg"),
        Some("cärte.cfg".to_string())
    );
}

#[test]
fn text_helpers_compare_and_search() {
    assert_eq!(chars_of("añb"), vec!['a', 'ñ', 'b']);
    assert!(same_text("openocd", "openocd"));
    assert!(!same_text("openocd", "openoce"));
    assert!(!same_text("openocd", "openocd "));
    assert!(contains_text("openocd.exe", "openocd"));
    assert!(contains_text("my-openocd", "openocd"));
    assert!(contains_text("openocd", ""));
    assert!(contains_text("", ""));
    assert!(!contains_text("openoc", "openocd"));
    assert!(!contains_text("OpenOCD", "openocd"));
    assert!(!contains_text("", "openocd"));
}

#[test]
fn depth_counts_the_components() {
    assert!(within_depth("", 0));
    assert!(!within_depth("scripts", 0));
    assert!(within_depth("scripts", 1));
    assert!(!within_depth("share/scripts", 1));
    assert!(within_depth("share/scripts", 2));
    assert!(within_depth("share\\openocd\\scripts", 3));
    assert!(!within_depth("share\\openocd\\scripts", 2));
    assert!(within_depth("a/b", usize::MAX));
}
