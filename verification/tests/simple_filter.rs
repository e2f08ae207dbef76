use directory_filter::matchers::find_matches;
use directory_filter::{CompileError, CompiledPattern, Directory, File, RegexBuilder, SimpleFilter};

fn files(paths: &[&str]) -> Vec<File> {
    paths.iter().map(|path| File::new(path.to_string())).collect()
}

fn deep_tree() -> Directory {
    let leaf = Directory::new("top/mid/leaf".to_string(), files(&["top/mid/leaf/z.rs"]), vec![]);
    let mid = Directory::new(
        "top/mid".to_string(),
        files(&["top/mid/m1.rs", "top/mid/m2.txt"]),
        vec![leaf],
    );
    let side = Directory::new("top/side".to_string(), files(&["top/side/s.rs"]), vec![]);
    Directory::new("top".to_string(), files(&["top/readme"]), vec![mid, side])
}

#[test]
fn the_pattern_is_taken_in_the_syntax_of_the_engine() {
    let tree = deep_tree();
    let filter = SimpleFilter::new(&tree, "m[12]\\.").unwrap();
    assert!(filter.is_match("top/mid/m1.rs"));
    assert!(!filter.is_match("top/mid/m3.rs"));
    let filtered = filter.execute();
    assert_eq!(filtered.file_matches(), &files(&["top/mid/m1.rs", "top/mid/m2.txt"]));
    assert_eq!(filtered.pattern().as_str(), "m[12]\\.");
    assert_eq!(filtered.directory(), &tree);
    assert_eq!(filtered.total_len(), 5);
}

#[test]
fn a_pattern_that_the_engine_cannot_read_is_refused() {
    let tree = deep_tree();
    match SimpleFilter::new(&tree, "m[12") {
        Err(CompileError::Syntax(_)) => {}
        _ => panic!("an unclosed class must be refused"),
    }
}

#[test]
fn a_matching_directory_brings_all_its_files() {
    let tree = deep_tree();
    let filter = SimpleFilter::new(&tree, "mid$").unwrap();
    assert_eq!(
        filter.find_matches(&tree),
        files(&["top/mid/m1.rs", "top/mid/m2.txt", "top/mid/leaf/z.rs"])
    );
    assert_eq!(
        filter.find_matches(&tree.each_sub_directory()[1]),
        files(&[])
    );
}

#[test]
fn the_plain_matcher_and_the_walk_with_a_collector_agree() {
    let tree = deep_tree();
    for raw in ["", "rs", "mid", "top", "z", "M", "m2", "leaf", "side/s", "nothing here"] {
        let pattern = RegexBuilder::new(raw.to_string()).build().unwrap();
        let plain = SimpleFilter::with_pattern(&tree, pattern.clone()).execute();
        let walked = find_matches(&tree, &pattern);
        assert_eq!(plain.file_matches(), &walked);
    }
    let raw = CompiledPattern::new("^top/(mid|side)/[a-z0-9]+\\.rs$").unwrap();
    let plain = SimpleFilter::with_pattern(&tree, raw.clone()).execute();
    assert_eq!(plain.file_matches(), &find_matches(&tree, &raw));
    assert_eq!(plain.len(), 2);
}

#[test]
fn a_match_all_text_always_gives_a_filter() {
    let tree = deep_tree();
    for text in ["", ".*", "(?s).*"] {
        let filter = SimpleFilter::new(&tree, text).expect("a match-all text gives a filter");
        assert_eq!(filter.execute().len(), 5);
    }
}
