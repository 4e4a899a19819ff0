use tive::logger::{get_data_dir, log_filter, log_path, DATA_ENV, LOG_ENV, LOG_FILE};
use tive::shared::{Dirs, PROJECT_NAME};
use tive::text::{decimal_string, join_path, same_bytes, same_text};

fn dirs() -> Dirs {
    Dirs { config: "/c".to_string(), data: "/d".to_string(), cache: "/k".to_string() }
}

#[test]
fn host_directories_are_named_host() {
    assert_eq!(dirs().host_config_dir(), "/c/host");
    assert_eq!(dirs().host_data_dir(), "/d/host");
    assert_eq!(dirs().host_cache_dir(), "/k/host");
}

#[test]
fn host_directories_agree_with_std_paths() {
    for base in ["/c", "/c/", "", "rel", "a/b/", "/"] {
        let dirs = Dirs { config: base.to_string(), data: base.to_string(), cache: base.to_string() };
        let expected = std::path::PathBuf::from(base).join("host");
        assert_eq!(dirs.host_config_dir(), expected.to_string_lossy());
        assert_eq!(dirs.host_data_dir(), expected.to_string_lossy());
        assert_eq!(dirs.host_cache_dir(), expected.to_string_lossy());
    }
}

#[test]
fn join_adds_one_separator_at_most() {
    assert_eq!(join_path("/a", "b"), "/a/b");
    assert_eq!(join_path("/a/", "b"), "/a/b");
    assert_eq!(join_path("", "b"), "b");
    assert_eq!(join_path("/", "b"), "/b");
    assert_eq!(join_path(".", ".data"), "./.data");
    assert_eq!(join_path("caf\u{00e9}", "b"), "caf\u{00e9}/b");
}

#[test]
fn platform_directories_win() {
    let located = Dirs::locate(Some(dirs()), Some("/home/u".to_string()));
    assert_eq!(located.config, "/c");
    assert_eq!(located.data, "/d");
    assert_eq!(located.cache, "/k");
}

#[test]
fn home_directories_are_the_second_choice() {
    let located = Dirs::locate(None, Some("/home/u".to_string()));
    assert_eq!(located.config, "/home/u/.config/tive");
    assert_eq!(located.data, "/home/u/.local/share/tive");
    assert_eq!(located.cache, "/home/u/.cache/tive");
}

#[test]
fn working_directory_is_the_last_resort() {
    let located = Dirs::locate(None, None);
    assert_eq!(located.config, "./.tive/config");
    assert_eq!(located.data, "./.tive/data");
    assert_eq!(located.cache, "./.tive/cache");
}

#[test]
fn names_derive_from_the_project_name() {
    assert_eq!(PROJECT_NAME, "TIVE");
    assert_eq!(DATA_ENV, "TIVE_DATA");
    assert_eq!(LOG_ENV, "TIVE_LOGLEVEL");
    assert_eq!(LOG_FILE, "TIVE.log");
}

#[test]
fn data_directory_prefers_the_named_one() {
    assert_eq!(get_data_dir(Some("/named".to_string()), Some("/platform".to_string())), "/named");
    assert_eq!(get_data_dir(None, Some("/platform".to_string())), "/platform");
    assert_eq!(get_data_dir(None, None), "./.data");
    assert_eq!(get_data_dir(Some("/named".to_string()), None), "/named");
}

#[test]
fn log_file_lies_in_the_data_directory() {
    assert_eq!(log_path("/data"), "/data/TIVE.log");
    assert_eq!(log_path("./.data"), "./.data/TIVE.log");
}

#[test]
fn log_filter_prefers_the_general_one() {
    assert_eq!(log_filter(Some("debug".to_string()), Some("trace".to_string())), "debug");
    assert_eq!(log_filter(None, Some("trace".to_string())), "trace");
    assert_eq!(log_filter(None, None), "tive=info");
}

#[test]
fn decimal_of_every_length() {
    for n in [0u16, 1, 9, 10, 11, 99, 100, 101, 999, 1000, 4321, 9999, 10000, 65535] {
        assert_eq!(decimal_string(n), n.to_string());
    }
}

#[test]
fn text_is_compared_by_its_characters() {
    assert!(same_text("", ""));
    assert!(same_text("text", "text"));
    assert!(!same_text("text", "texT"));
    assert!(!same_text("text", "tex"));
    assert!(!same_text("tex", "text"));
    assert!(same_text("caf\u{00e9}", "caf\u{00e9}"));
    assert!(!same_text("cafe", "caf\u{00e9}"));
    assert!(same_bytes(b"ab", b"ab"));
    assert!(!same_bytes(b"ab", b"ba"));
    assert!(!same_bytes(b"ab", b"abc"));
}
