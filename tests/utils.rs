use organizer::utils::{shortest_paths, EntryStat, FileMetaData};

fn stat(is_dir: bool, mode: u32) -> EntryStat {
    EntryStat {
        is_dir,
        is_file: !is_dir,
        is_symlink: false,
        size: 42,
        mode,
        owner_uid: 1000,
        owner_gid: 100,
        created: Some(7),
        modified: None,
    }
}

#[test]
fn test_shortest_paths() {
    let paths = vec![
        "/home/downloads/abc".to_string(),
        "/home/downloads".to_string(),
        "/var/logs".to_string(),
        "/var/logs/nginx".to_string(),
        "/home/user/docs".to_string(),
    ];

    let filtered_paths = shortest_paths(paths);

    assert!(!filtered_paths.contains(&"/home/downloads/abc".to_string()));
    assert!(filtered_paths.contains(&"/home/downloads".to_string()));
    assert!(filtered_paths.contains(&"/var/logs".to_string()));
    assert!(!filtered_paths.contains(&"/var/logs/nginx".to_string()));
    assert!(filtered_paths.contains(&"/home/user/docs".to_string()));
}

#[test]
fn shortest_paths_has_no_duplicates() {
    let paths = vec!["/a".to_string(), "/a".to_string(), "/a/b".to_string()];
    assert_eq!(shortest_paths(paths), vec!["/a".to_string()]);
    assert!(shortest_paths(vec![]).is_empty());
}

#[test]
fn snapshot_splits_name_and_extension() {
    let m = FileMetaData::from_stat("/tmp/in/archive.tar.gz", Some("/real/archive.tar.gz".to_string()), stat(false, 0o755));
    assert_eq!(m.path, "/real/archive.tar.gz");
    assert_eq!(m.file_name, "archive.tar");
    assert_eq!(m.extension, Some("gz".to_string()));
    assert_eq!(m.full_name(), "archive.tar.gz");
    assert!(m.is_file && !m.is_dir);
    assert_eq!(m.size, 42);
    assert_eq!(m.owner_uid, 1000);
    assert_eq!(m.owner_gid, 100);
    assert_eq!(m.created, Some(7));
    assert_eq!(m.modified, None);
    assert!(m.is_executable());
    assert!(!m.is_hidden());
}

#[test]
fn snapshot_without_extension_keeps_given_path() {
    let m = FileMetaData::from_stat("dir/.bashrc", None, stat(false, 0o644));
    assert_eq!(m.path, "dir/.bashrc");
    assert_eq!(m.file_name, ".bashrc");
    assert_eq!(m.extension, None);
    assert!(m.is_hidden());
    assert!(!m.is_executable());

    let d = FileMetaData::from_stat("/tmp/in/sub", None, stat(true, 0o755));
    assert_eq!(d.file_name, "sub");
    assert_eq!(d.extension, None);
    assert!(d.is_dir);

    let t = FileMetaData::from_stat("trailing.", None, stat(false, 0));
    assert_eq!(t.file_name, "trailing");
    assert_eq!(t.extension, Some(String::new()));
    assert_eq!(t.full_name(), "trailing.");
}
