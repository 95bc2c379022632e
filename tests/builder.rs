use build_settings::{
    join_relative, split_marked, split_white_space, upload_dir, watch_dir, Builder, BuilderRecord,
    ConfigError, FsSnapshot, Platform, ScriptFormat,
};

fn builder(command: Option<&str>) -> Builder {
    Builder::new(
        command.map(|c| c.to_string()),
        "/proj".to_string(),
        "/proj/dist".to_string(),
        ScriptFormat::ServiceWorker,
        "/proj/src".to_string(),
    )
}

fn snapshot(root: &str, upload: Result<&str, &str>, watch: Result<&str, &str>) -> FsSnapshot {
    FsSnapshot {
        root: "/proj".to_string(),
        root_canonical: Ok(root.to_string()),
        upload_canonical: upload.map(|s| s.to_string()).map_err(|s| s.to_string()),
        watch_canonical: watch.map(|s| s.to_string()).map_err(|s| s.to_string()),
        upload_is_dir: true,
        watch_is_dir: true,
    }
}

#[test]
fn posix_command_runs_through_sh() {
    let b = builder(Some("npm run build"));
    let (text, p) = b.build_command(Platform::Posix).unwrap();
    assert_eq!(text, "npm run build");
    assert_eq!(p.program, "sh");
    assert_eq!(p.args, vec!["-c".to_string(), "npm run build".to_string()]);
    assert_eq!(p.cwd, "/proj");
}

#[test]
fn posix_command_keeps_shell_syntax() {
    let b = builder(Some("npm run build  | tee 'out log'"));
    let (_, p) = b.build_command(Platform::Posix).unwrap();
    assert_eq!(p.args[1], "npm run build  | tee 'out log'");
}

#[test]
fn windows_command_is_split_into_words() {
    let b = builder(Some("  npm\trun   build \n"));
    let (text, p) = b.build_command(Platform::Windows).unwrap();
    assert_eq!(text, "  npm\trun   build \n");
    assert_eq!(p.program, "cmd");
    assert_eq!(p.args, vec!["/C", "npm", "run", "build"]);
    assert_eq!(p.cwd, "/proj");
}

#[test]
fn no_command_builds_nothing() {
    let b = builder(None);
    assert!(b.build_command(Platform::Posix).is_none());
    assert!(b.build_command(Platform::Windows).is_none());
}

#[test]
fn split_white_space_handles_unicode_space() {
    let words = split_white_space("a\u{3000}b\u{a0}c  d");
    assert_eq!(words, vec!["a", "b", "c", "d"]);
    assert!(split_white_space(" \t ").is_empty());
    assert!(split_white_space("").is_empty());
}

#[test]
fn split_marked_follows_the_mask() {
    let words = split_marked("ab,cd,,e", &vec![false, false, true, false, false, true, true, false]);
    assert_eq!(words, vec!["ab", "cd", "e"]);
    assert_eq!(split_marked("xy", &vec![true, true]), Vec::<String>::new());
}

#[test]
fn default_directories_are_below_the_root() {
    assert_eq!(upload_dir("/home/me/proj"), "/home/me/proj/dist");
    assert_eq!(watch_dir("/home/me/proj"), "/home/me/proj/src");
    assert_eq!(upload_dir("/home/me/proj/"), "/home/me/proj/dist");
    assert_eq!(watch_dir(""), "src");
    assert_eq!(join_relative("/", "src"), "/src");
}

#[test]
fn record_without_fields_gets_defaults() {
    let record = BuilderRecord {
        command: None,
        cwd: None,
        upload_dir: None,
        upload_format: ScriptFormat::Modules,
        watch_dir: None,
    };
    let b = Builder::from_record(record, "/work");
    assert_eq!(b.cwd, "/work");
    assert_eq!(b.upload_dir, "/work/dist");
    assert_eq!(b.watch_dir, "/work/src");
    assert_eq!(b.upload_format, ScriptFormat::Modules);
    assert_eq!(b.command, None);
}

#[test]
fn record_with_all_fields_keeps_them() {
    let record = BuilderRecord {
        command: Some("make".to_string()),
        cwd: Some("/a".to_string()),
        upload_dir: Some("/b/out".to_string()),
        upload_format: ScriptFormat::ServiceWorker,
        watch_dir: Some("/c/lib".to_string()),
    };
    let b = Builder::from_record(record, "/work");
    let expected = Builder::new(
        Some("make".to_string()),
        "/a".to_string(),
        "/b/out".to_string(),
        ScriptFormat::ServiceWorker,
        "/c/lib".to_string(),
    );
    assert_eq!(b, expected);
    assert_eq!(b.build_command(Platform::Posix).unwrap().1.cwd, "/a");
}

#[test]
fn valid_layout_is_accepted() {
    let fs = snapshot("/proj", Ok("/proj/dist"), Ok("/proj/src"));
    assert_eq!(builder(None).verify_config(&fs), Ok(()));
}

#[test]
fn output_dir_at_root_is_refused() {
    let fs = snapshot("/proj", Ok("/proj"), Ok("/proj/src"));
    assert_eq!(
        builder(None).verify_config(&fs),
        Err(ConfigError::InvalidLayout { path: "/proj/dist".to_string() })
    );
}

#[test]
fn watch_dir_at_root_is_refused() {
    let mut fs = snapshot("/proj", Ok("/proj/dist"), Ok("/proj"));
    fs.upload_is_dir = false;
    assert_eq!(
        builder(None).verify_config(&fs),
        Err(ConfigError::InvalidLayout { path: "/proj/src".to_string() })
    );
}

#[test]
fn output_collision_masks_watch_errors() {
    let fs = snapshot("/proj", Ok("/proj"), Err("missing"));
    assert_eq!(
        builder(None).verify_config(&fs),
        Err(ConfigError::InvalidLayout { path: "/proj/dist".to_string() })
    );
}

#[test]
fn output_file_is_not_a_directory() {
    let mut fs = snapshot("/proj", Ok("/proj/dist"), Ok("/proj/src"));
    fs.upload_is_dir = false;
    fs.watch_is_dir = false;
    assert_eq!(
        builder(None).verify_config(&fs),
        Err(ConfigError::NotADirectory { path: "/proj/dist".to_string() })
    );
}

#[test]
fn watch_file_is_not_a_directory() {
    let mut fs = snapshot("/proj", Ok("/proj/dist"), Ok("/proj/src"));
    fs.watch_is_dir = false;
    assert_eq!(
        builder(None).verify_config(&fs),
        Err(ConfigError::NotADirectory { path: "/proj/src".to_string() })
    );
}

#[test]
fn unresolvable_paths_are_reported() {
    let fs = snapshot("/proj", Err("no such file"), Ok("/proj/src"));
    assert_eq!(
        builder(None).verify_config(&fs),
        Err(ConfigError::PathResolution {
            path: "/proj/dist".to_string(),
            cause: "no such file".to_string()
        })
    );
    let fs = snapshot("/proj", Ok("/proj/dist"), Err("denied"));
    assert_eq!(
        builder(None).verify_config(&fs),
        Err(ConfigError::PathResolution { path: "/proj/src".to_string(), cause: "denied".to_string() })
    );
    let mut fs = snapshot("/proj", Ok("/proj/dist"), Ok("/proj/src"));
    fs.root_canonical = Err("gone".to_string());
    assert_eq!(
        builder(None).verify_config(&fs),
        Err(ConfigError::PathResolution { path: "/proj".to_string(), cause: "gone".to_string() })
    );
}

#[test]
fn repeated_checks_agree() {
    let b = builder(None);
    for fs in [
        snapshot("/proj", Ok("/proj/dist"), Ok("/proj/src")),
        snapshot("/proj", Ok("/proj"), Ok("/proj/src")),
        snapshot("/proj", Err("missing"), Ok("/proj/src")),
    ] {
        assert_eq!(b.verify_config(&fs), b.verify_config(&fs));
    }
}

#[test]
fn error_messages_name_the_path() {
    let e = ConfigError::NotADirectory { path: "/x".to_string() };
    assert!(e.message().ends_with("/x"));
    let e = ConfigError::PathResolution { path: "/y".to_string(), cause: "gone".to_string() };
    assert_eq!(e.message(), "cannot resolve path /y: gone");
}
