use shader_interface::config::{Config, LangStrings, installation_program_path};

fn with_dump(path: &str) -> Config {
    let mut cfg = Config::new();
    cfg.dump_file = Some(path.to_string());
    cfg
}

fn strings(rtl: bool) -> LangStrings {
    LangStrings {
        rtl,
        messages: vec![
            ("crashreporter-error-opening-file".to_string(), "Could not open { $path }".to_string()),
            ("crashreporter-error-moving-path".to_string(), "Moving { $from } to { $to } failed".to_string()),
            ("crashreporter-title".to_string(), "Crash Reporter".to_string()),
        ],
    }
}

#[test]
fn new_config_is_empty() {
    let cfg = Config::new();
    assert!(!cfg.auto_submit && !cfg.dump_all_threads && !cfg.delete_dump && !cfg.run_memtest);
    assert!(cfg.dump_file.is_none() && cfg.data_dir.is_none() && cfg.strings.is_none());
    assert!(cfg.restart_args.is_empty());
    assert!(!cfg.is_rtl());
    assert_eq!(cfg.extra_file(), None);
    assert_eq!(cfg.memory_file(), None);
}

#[test]
fn extra_and_memory_files_follow_the_dump() {
    let cfg = with_dump("pending/abc.dmp");
    assert_eq!(cfg.extra_file(), Some("pending/abc.extra".to_string()));
    assert_eq!(cfg.memory_file_if(true), Some("pending/abc.memory.json.gz".to_string()));
    assert_eq!(cfg.memory_file_if(false), None);
    assert_eq!(cfg.memory_file(), None);
    assert_eq!(cfg.dump_file(), "pending/abc.dmp");
    assert_eq!(cfg.local_dump_id(), Some("abc".to_string()));
}

#[test]
fn data_dir_paths() {
    let mut cfg = Config::new();
    cfg.data_dir = Some("data".to_string());
    assert_eq!(cfg.data_dir(), "data");
    assert_eq!(cfg.version_eol_file("128.0"), "data/EndOfLife128.0");
    assert_eq!(cfg.submitted_crash_dir(), "data/submitted");
}

#[test]
fn localized_strings() {
    let mut cfg = Config::new();
    cfg.strings = Some(strings(true));
    assert!(cfg.is_rtl());
    assert_eq!(cfg.string("crashreporter-title"), "Crash Reporter");
    assert_eq!(cfg.string("no-such-message"), "no-such-message");
    assert_eq!(
        cfg.build_string("crashreporter-error-opening-file").arg("path", "/tmp/x.extra").get(),
        "Could not open /tmp/x.extra"
    );
    assert_eq!(
        cfg.build_string("crashreporter-error-moving-path")
            .arg("from", "a")
            .arg("to", "b")
            .get(),
        "Moving a to b failed"
    );
}

#[test]
fn program_path_takes_the_running_extension() {
    assert_eq!(
        installation_program_path("firefox", "install/crashreporter.exe", "install"),
        "install/firefox.exe"
    );
    assert_eq!(installation_program_path("firefox", "install/crashreporter", "install"), "install/firefox");
}
