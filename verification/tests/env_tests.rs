use sandbox_exec::exec_env::apply_boxlite_runtime_env;
use sandbox_exec::exec_env::boxlite_runtime_dir;
use sandbox_exec::exec_env::build_dir;
use sandbox_exec::exec_env::build_runtime_dir;
use sandbox_exec::exec_env::deps_runtime_dir;
use sandbox_exec::exec_env::discover_boxlite_runtime_dir;
use sandbox_exec::exec_env::env_get;
use sandbox_exec::exec_env::env_set;
use sandbox_exec::exec_env::minimal_env;
use sandbox_exec::exec_env::prepend_env_path;
use sandbox_exec::exec_env::probe_path;
use sandbox_exec::exec_env::profile_dir_from_exe;
use sandbox_exec::exec_env::BuildEntry;
use sandbox_exec::exec_env::ProfileProbe;
use sandbox_exec::paths::absolutize;
use sandbox_exec::paths::is_absolute;
use sandbox_exec::paths::join_parts;
use sandbox_exec::paths::split;
use sandbox_exec::strmap::StrMap;

fn env(pairs: &[(&str, &str)]) -> StrMap<String> {
    let mut env = StrMap::new();
    for (k, v) in pairs {
        env.insert(k.to_string(), v.to_string());
    }
    env
}

fn value(env: &StrMap<String>, key: &str) -> Option<String> {
    env.get(key).cloned()
}

fn entry(name: &str, has_probe: bool, modified: u64) -> BuildEntry {
    BuildEntry {
        name: name.to_string(),
        runtime_dir: format!("/p/build/{name}/out/runtime"),
        has_probe,
        modified,
    }
}

#[test]
fn absolute_paths_begin_with_the_separator() {
    assert!(is_absolute("/tmp"));
    assert!(is_absolute("/"));
    assert!(!is_absolute("tmp"));
    assert!(!is_absolute("./tmp"));
    assert!(!is_absolute(""));
}

#[test]
fn absolutize_resolves_dots_against_the_working_directory() {
    assert_eq!(absolutize("/path/to/./123/../456", "/cwd"), Some("/path/to/456".to_string()));
    assert_eq!(absolutize("path/to", "/cwd"), Some("/cwd/path/to".to_string()));
    assert_eq!(absolutize("../x", "/a/b"), Some("/a/x".to_string()));
    assert_eq!(absolutize("", "/a/b"), Some("/a/b".to_string()));
    assert_eq!(absolutize("../../..", "/a"), Some("/".to_string()));
    assert_eq!(absolutize("x", "rel"), None);
    assert_eq!(absolutize("..", ""), None);
    assert_eq!(absolutize("/x", "rel"), None);
}

#[test]
fn lists_split_at_every_separator() {
    assert_eq!(split("a:b:c", ':'), vec!["a", "b", "c"]);
    assert_eq!(split("abc", ':'), vec!["abc"]);
    assert_eq!(split("", ':'), vec![""]);
    assert_eq!(split(":", ':'), vec!["", ""]);
    assert_eq!(split("a::b:", ':'), vec!["a", "", "b", ""]);
    assert_eq!(join_parts(&vec!["a".to_string(), "".to_string(), "b".to_string()], ':'), "a::b");
    assert_eq!(join_parts(&vec!["a".to_string()], ':'), "a");
    assert_eq!(join_parts(&Vec::new(), ':'), "");
}

#[test]
fn the_runtime_directory_goes_first_and_occurs_once() {
    let mut e = env(&[("LD_LIBRARY_PATH", "/usr/lib:/rt:/opt/lib:/rt/")]);
    prepend_env_path(&mut e, "LD_LIBRARY_PATH", "/rt");
    assert_eq!(value(&e, "LD_LIBRARY_PATH"), Some("/rt:/usr/lib:/opt/lib".to_string()));
    prepend_env_path(&mut e, "LD_LIBRARY_PATH", "/rt");
    assert_eq!(value(&e, "LD_LIBRARY_PATH"), Some("/rt:/usr/lib:/opt/lib".to_string()));
}

#[test]
fn a_missing_or_empty_search_path_is_filled() {
    let mut e = env(&[("EMPTY", "")]);
    prepend_env_path(&mut e, "MISSING", "/rt");
    assert_eq!(value(&e, "MISSING"), Some("/rt".to_string()));
    prepend_env_path(&mut e, "EMPTY", "/rt");
    assert_eq!(value(&e, "EMPTY"), Some("/rt:".to_string()));
}

#[test]
fn a_value_with_the_separator_changes_nothing() {
    let mut e = env(&[("LD_LIBRARY_PATH", "/usr/lib")]);
    prepend_env_path(&mut e, "LD_LIBRARY_PATH", "/a:/b");
    assert_eq!(value(&e, "LD_LIBRARY_PATH"), Some("/usr/lib".to_string()));
    prepend_env_path(&mut e, "OTHER", "/a:/b");
    assert_eq!(value(&e, "OTHER"), None);
    assert_eq!(e.len(), 1);
}

#[test]
fn the_runtime_directory_is_exported_and_prepended() {
    let mut e = env(&[("PATH", "/bin"), ("DYLD_LIBRARY_PATH", "/x")]);
    apply_boxlite_runtime_env(&mut e, Some("/rt"));
    assert_eq!(value(&e, "BOXLITE_RUNTIME_DIR"), Some("/rt".to_string()));
    assert_eq!(value(&e, "DYLD_LIBRARY_PATH"), Some("/rt:/x".to_string()));
    assert_eq!(value(&e, "DYLD_FALLBACK_LIBRARY_PATH"), Some("/rt".to_string()));
    assert_eq!(value(&e, "LD_LIBRARY_PATH"), Some("/rt".to_string()));
    assert_eq!(value(&e, "DYLD_INSERT_LIBRARIES"), None);
    assert_eq!(value(&e, "PATH"), Some("/bin".to_string()));
    assert_eq!(e.len(), 5);

    let mut untouched = env(&[("PATH", "/bin")]);
    apply_boxlite_runtime_env(&mut untouched, None);
    assert_eq!(untouched.len(), 1);
}

#[test]
fn the_minimal_environment_inherits_only_what_is_listed() {
    let host = env(&[
        ("PATH", "/bin"),
        ("HOME", "/root"),
        ("SECRET", "hunter2"),
        ("LD_LIBRARY_PATH", "/lib"),
        ("DYLD_INSERT_LIBRARIES", "/i.dylib"),
    ]);
    let allow = vec!["PATH".to_string(), "HOME".to_string(), "TMPDIR".to_string()];
    let plain = minimal_env(&host, &allow, None);
    assert_eq!(value(&plain, "PATH"), Some("/bin".to_string()));
    assert_eq!(value(&plain, "HOME"), Some("/root".to_string()));
    assert_eq!(value(&plain, "LD_LIBRARY_PATH"), Some("/lib".to_string()));
    assert_eq!(value(&plain, "DYLD_INSERT_LIBRARIES"), Some("/i.dylib".to_string()));
    assert_eq!(value(&plain, "SECRET"), None);
    assert_eq!(value(&plain, "TMPDIR"), None);
    assert_eq!(plain.len(), 4);

    let with_runtime = minimal_env(&host, &allow, Some("/rt"));
    assert_eq!(value(&with_runtime, "LD_LIBRARY_PATH"), Some("/rt:/lib".to_string()));
    assert_eq!(value(&with_runtime, "BOXLITE_RUNTIME_DIR"), Some("/rt".to_string()));
    assert_eq!(value(&with_runtime, "SECRET"), None);
}

#[test]
fn env_set_and_get_agree() {
    let mut e = StrMap::new();
    assert!(env_get(&e, "A").is_none());
    env_set(&mut e, "A".to_string(), "1".to_string());
    env_set(&mut e, "A".to_string(), "2".to_string());
    assert_eq!(env_get(&e, "A"), Some(&"2".to_string()));
    assert_eq!(e.len(), 1);
}

#[test]
fn the_profile_directory_is_above_deps() {
    assert_eq!(profile_dir_from_exe("/t/debug/codex"), Some("/t/debug".to_string()));
    assert_eq!(profile_dir_from_exe("/t/debug/deps/codex-1a2b"), Some("/t/debug".to_string()));
    assert_eq!(profile_dir_from_exe("/deps/codex"), Some("/".to_string()));
    assert_eq!(profile_dir_from_exe("deps/codex"), Some("".to_string()));
    assert_eq!(profile_dir_from_exe("/"), None);
    assert_eq!(profile_dir_from_exe(""), None);
}

#[test]
fn probe_paths_are_built_from_the_profile_directory() {
    assert_eq!(deps_runtime_dir("/t/debug"), "/t/debug/deps/runtime");
    assert_eq!(build_dir("/t/debug"), "/t/debug/build");
    assert_eq!(build_runtime_dir("/t/debug/build/boxlite-1"), "/t/debug/build/boxlite-1/out/runtime");
    assert_eq!(probe_path("/t/debug/deps/runtime"), "/t/debug/deps/runtime/mke2fs");
}

#[test]
fn the_newest_eligible_build_directory_wins() {
    let entries = vec![
        entry("boxlite-a", true, 10),
        entry("other-b", true, 99),
        entry("boxlite-c", false, 50),
        entry("boxlite-d", true, 30),
        entry("boxlite-e", true, 30),
        entry("boxlit", true, 70),
    ];
    assert_eq!(discover_boxlite_runtime_dir(&entries), Some("/p/build/boxlite-d/out/runtime".to_string()));
    assert_eq!(discover_boxlite_runtime_dir(&vec![entry("boxlite-c", false, 1), entry("x", true, 2)]), None);
    assert_eq!(discover_boxlite_runtime_dir(&Vec::new()), None);
    assert_eq!(discover_boxlite_runtime_dir(&vec![entry("boxlite-", true, 0)]), Some("/p/build/boxlite-/out/runtime".to_string()));
}

#[test]
fn the_first_hit_of_the_discovery_wins() {
    let probe = |deps: bool| ProfileProbe {
        deps_runtime_dir: "/p/deps/runtime".to_string(),
        deps_has_probe: deps,
        build_entries: vec![entry("boxlite-a", true, 1)],
    };
    assert_eq!(boxlite_runtime_dir(Some("/env".to_string()), Some(&probe(true))), Some("/env".to_string()));
    assert_eq!(boxlite_runtime_dir(Some("/env".to_string()), None), Some("/env".to_string()));
    assert_eq!(boxlite_runtime_dir(None, Some(&probe(true))), Some("/p/deps/runtime".to_string()));
    assert_eq!(boxlite_runtime_dir(None, Some(&probe(false))), Some("/p/build/boxlite-a/out/runtime".to_string()));
    assert_eq!(boxlite_runtime_dir(None, None), None);
    let nothing = ProfileProbe { deps_runtime_dir: "/p/deps/runtime".to_string(), deps_has_probe: false, build_entries: Vec::new() };
    assert_eq!(boxlite_runtime_dir(None, Some(&nothing)), None);
}
