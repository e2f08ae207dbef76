use directory_filter::tree::copy_files;
use directory_filter::{Directory, File};

fn files(paths: &[&str]) -> Vec<File> {
    paths.iter().map(|path| File::new(path.to_string())).collect()
}

#[test]
fn a_file_is_its_path() {
    let file = File::new("a/x.txt".to_string());
    assert_eq!(file.path(), "a/x.txt");
    assert_eq!(file.as_string(), "a/x.txt".to_string());
    assert_eq!(file.clone(), file);
    assert_ne!(file, File::new("a/y.txt".to_string()));
}

#[test]
fn a_directory_lists_its_files_in_walk_order() {
    let inner = Directory::new("r/d/e".to_string(), files(&["r/d/e/3"]), vec![]);
    let first = Directory::new("r/d".to_string(), files(&["r/d/2"]), vec![inner]);
    let second = Directory::new("r/f".to_string(), files(&["r/f/4", "r/f/5"]), vec![]);
    let root = Directory::new("r".to_string(), files(&["r/0", "r/1"]), vec![first, second]);
    assert_eq!(root.path(), "r");
    assert_eq!(root.path_string(), "r".to_string());
    assert_eq!(root.each_file(), &files(&["r/0", "r/1"]));
    assert_eq!(root.each_sub_directory().len(), 2);
    assert_eq!(root.each_sub_directory()[1].path(), "r/f");
    assert_eq!(
        root.files(),
        files(&["r/0", "r/1", "r/d/2", "r/d/e/3", "r/f/4", "r/f/5"])
    );
    assert_eq!(root.len(), 6);
    let mut out = files(&["before"]);
    root.each_sub_directory()[0].collect_files(&mut out);
    assert_eq!(out, files(&["before", "r/d/2", "r/d/e/3"]));
}

#[test]
fn an_empty_directory_has_no_files() {
    let empty = Directory::new("nothing".to_string(), vec![], vec![]);
    assert_eq!(empty.len(), 0);
    assert!(empty.files().is_empty());
}

#[test]
fn copies_are_equal_to_what_they_were_made_from() {
    let inner = Directory::new("r/d".to_string(), files(&["r/d/2"]), vec![]);
    let root = Directory::new("r".to_string(), files(&["r/0"]), vec![inner]);
    let copy = root.clone();
    assert_eq!(copy, root);
    assert_eq!(copy.files(), root.files());
    let list = files(&["x", "y"]);
    assert_eq!(copy_files(&list), list);
}
