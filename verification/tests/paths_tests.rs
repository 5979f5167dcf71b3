use launcher::paths::LocalPath;

fn names(path: &LocalPath) -> Vec<&str> {
    path.parts.iter().map(|p| p.as_str()).collect()
}

#[test]
fn join_appends_one_name() {
    let root = LocalPath::new("C:\\");
    assert_eq!(root.root, "C:\\");
    assert!(root.parts.is_empty());
    let file = root.join("a").join("b.txt");
    assert_eq!(file.root, "C:\\");
    assert_eq!(names(&file), vec!["a", "b.txt"]);
    assert_eq!(names(&root), Vec::<&str>::new());
}

#[test]
fn file_name_and_parent_undo_join() {
    let dir = LocalPath::new("/opt").join("tools");
    let file = dir.join("run.sh");
    assert_eq!(file.file_name(), Some("run.sh".to_string()));
    let parent = file.parent().unwrap();
    assert!(parent.same_as(&dir));
    assert_eq!(LocalPath::new("/opt").file_name(), None);
    assert!(LocalPath::new("/opt").parent().is_none());
    assert!(dir.parent().unwrap().same_as(&LocalPath::new("/opt")));
}

#[test]
fn same_as_compares_root_and_names() {
    let a = LocalPath::new("/x").join("y");
    assert!(a.same_as(&a.duplicate()));
    assert!(!a.same_as(&LocalPath::new("/x")));
    assert!(!a.same_as(&LocalPath::new("/x").join("z")));
    assert!(!a.same_as(&LocalPath::new("/w").join("y")));
    assert!(!a.same_as(&a.join("y")));
    assert!(!LocalPath::new("/x/y").same_as(&a));
}
