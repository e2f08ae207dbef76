use directory_filter::matchers::{find_file_matches, find_matches};
use directory_filter::{
    CompiledPattern, Directory, File, FilteredDirectory, RegexBuilder, Search,
};

fn fuzzy(raw: &str) -> CompiledPattern {
    RegexBuilder::new(raw.to_string()).build().unwrap()
}

fn files(paths: &[&str]) -> Vec<File> {
    paths.iter().map(|path| File::new(path.to_string())).collect()
}

fn sample_tree() -> Directory {
    let a = Directory::new("a".to_string(), files(&["a/x.txt", "a/y.log"]), vec![]);
    let b = Directory::new("b".to_string(), files(&["b/x.log"]), vec![]);
    Directory::new(".".to_string(), vec![], vec![a, b])
}

fn case_tree() -> Directory {
    let src = Directory::new(
        "src".to_string(),
        files(&["src/Alpha.rs", "src/Abacus.rs", "src/beta.rs"]),
        vec![],
    );
    Directory::new(".".to_string(), files(&["./About"]), vec![src])
}

#[test]
fn a_new_view_has_no_match_yet() {
    let view = FilteredDirectory::new(sample_tree(), fuzzy("x"));
    assert_eq!(view.len(), 0);
    assert_eq!(view.total_len(), 3);
    assert!(view.file_matches().is_empty());
    assert_eq!(view.pattern().as_str(), "(?s)(?i).*x.*");
    assert_eq!(view.directory(), &sample_tree());
}

#[test]
fn run_filter_with_match_all_takes_every_file() {
    let mut view = FilteredDirectory::new(sample_tree(), fuzzy(""));
    view.run_filter();
    assert_eq!(view.file_matches(), &files(&["a/x.txt", "a/y.log", "b/x.log"]));
    assert_eq!(view.len(), 3);
    let mut raw = FilteredDirectory::new(sample_tree(), CompiledPattern::new("").unwrap());
    raw.run_filter();
    assert_eq!(raw.len(), 3);
}

#[test]
fn run_filter_with_a_pattern_takes_the_matches() {
    let mut view = FilteredDirectory::new(sample_tree(), fuzzy("x"));
    view.run_filter();
    assert_eq!(view.file_matches(), &files(&["a/x.txt", "b/x.log"]));
    assert_eq!(view.len(), 2);
    assert_eq!(view.total_len(), 3);
}

#[test]
fn run_filter_twice_gives_the_same_match_set() {
    let mut view = FilteredDirectory::new(sample_tree(), fuzzy("x"));
    view.run_filter();
    let first = view.clone();
    view.run_filter();
    assert!(view.same_matches(&first));
    assert_eq!(view.file_matches(), first.file_matches());
}

#[test]
fn the_additive_test_compares_the_compiled_texts() {
    let view = FilteredDirectory::new(sample_tree(), fuzzy("A"));
    assert!(view.new_regex_is_addative(&fuzzy("Ab")));
    assert!(view.new_regex_is_addative(&fuzzy("A")));
    assert!(!view.new_regex_is_addative(&fuzzy("B")));
    assert!(!view.new_regex_is_addative(&fuzzy("a")));
    let lower = FilteredDirectory::new(sample_tree(), fuzzy("a"));
    assert!(!lower.new_regex_is_addative(&fuzzy("ab")));
    assert!(lower.new_regex_is_addative(&fuzzy("a")));
    let all = FilteredDirectory::new(sample_tree(), fuzzy(""));
    assert!(all.new_regex_is_addative(&fuzzy("A")));
    assert!(!all.new_regex_is_addative(&fuzzy("a")));
    let empty = FilteredDirectory::new(sample_tree(), CompiledPattern::new("").unwrap());
    assert!(!empty.new_regex_is_addative(&fuzzy("A")));
    assert!(!empty.new_regex_is_addative(&CompiledPattern::new("").unwrap()));
}

#[test]
fn an_additive_step_agrees_with_a_full_scan() {
    let mut view = FilteredDirectory::new(case_tree(), fuzzy("A"));
    view.run_filter();
    assert_eq!(
        view.file_matches(),
        &files(&["./About", "src/Alpha.rs", "src/Abacus.rs"])
    );
    assert!(view.new_regex_is_addative(&fuzzy("Ab")));
    view.re_filter(fuzzy("Ab"));
    assert_eq!(view.pattern().as_str(), "(?s).*A.*b.*");
    let mut rescan = FilteredDirectory::new(case_tree(), fuzzy("Ab"));
    rescan.run_filter();
    assert_eq!(view.file_matches(), &files(&["./About", "src/Abacus.rs"]));
    assert!(view.same_matches(&rescan));
}

#[test]
fn an_additive_step_from_match_all_agrees_with_a_full_scan() {
    let mut view = FilteredDirectory::new(case_tree(), fuzzy(""));
    view.run_filter();
    assert!(view.new_regex_is_addative(&fuzzy("Al")));
    view.re_filter(fuzzy("Al"));
    let mut rescan = FilteredDirectory::new(case_tree(), fuzzy("Al"));
    rescan.run_filter();
    assert_eq!(view.file_matches(), &files(&["src/Alpha.rs"]));
    assert!(view.same_matches(&rescan));
}

#[test]
fn any_other_step_scans_the_whole_tree() {
    let mut view = FilteredDirectory::new(sample_tree(), fuzzy("y"));
    view.run_filter();
    assert_eq!(view.file_matches(), &files(&["a/y.log"]));
    view.re_filter(fuzzy("x"));
    assert_eq!(view.file_matches(), &files(&["a/x.txt", "b/x.log"]));
    assert_eq!(view.pattern().as_str(), "(?s)(?i).*x.*");
    view.re_filter(fuzzy(""));
    assert_eq!(view.len(), 3);
}

#[test]
fn an_additive_step_on_a_view_that_was_never_scanned_finds_nothing() {
    let mut view = FilteredDirectory::new(case_tree(), fuzzy("A"));
    view.re_filter(fuzzy("Ab"));
    assert!(view.file_matches().is_empty());
    let mut rescan = FilteredDirectory::new(case_tree(), fuzzy("Ab"));
    rescan.run_filter();
    assert_eq!(rescan.len(), 2);
    assert!(!view.same_matches(&rescan));
}

#[test]
fn an_additive_step_can_miss_files_whose_path_lacks_the_directory() {
    let odd = Directory::new("Ab".to_string(), files(&["zzz"]), vec![]);
    let tree = Directory::new(".".to_string(), vec![], vec![odd]);
    let mut view = FilteredDirectory::new(tree.clone(), fuzzy("A"));
    view.run_filter();
    assert_eq!(view.file_matches(), &files(&["zzz"]));
    view.re_filter(fuzzy("Ab"));
    assert!(view.file_matches().is_empty());
    let mut rescan = FilteredDirectory::new(tree, fuzzy("Ab"));
    rescan.run_filter();
    assert_eq!(rescan.file_matches(), &files(&["zzz"]));
}

#[test]
fn match_sets_are_compared_by_content() {
    let mut x = FilteredDirectory::new(sample_tree(), fuzzy("x"));
    x.run_filter();
    let mut log = FilteredDirectory::new(sample_tree(), fuzzy("log"));
    log.run_filter();
    assert_eq!(x.len(), log.len());
    assert!(!x.same_matches(&log));
    assert!(x.same_matches(&x.clone()));
}

#[test]
fn the_iterator_hands_out_the_matches_in_order() {
    let mut view = FilteredDirectory::new(sample_tree(), fuzzy("x"));
    view.run_filter();
    let mut iterator = view.into_iter();
    assert_eq!(iterator.next(), Some(File::new("a/x.txt".to_string())));
    assert_eq!(iterator.next(), Some(File::new("b/x.log".to_string())));
    assert_eq!(iterator.next(), None);
    assert_eq!(iterator.next(), None);
}

#[test]
fn a_snapshot_does_not_follow_the_view() {
    let mut view = FilteredDirectory::new(sample_tree(), fuzzy("x"));
    view.run_filter();
    let snapshot = view.clone();
    view.re_filter(fuzzy("y"));
    assert_eq!(snapshot.file_matches(), &files(&["a/x.txt", "b/x.log"]));
    assert_eq!(snapshot.pattern().as_str(), "(?s)(?i).*x.*");
    assert_eq!(view.file_matches(), &files(&["a/y.log"]));
}

#[test]
fn a_full_scan_searches_the_tree_unless_the_pattern_matches_all() {
    assert_eq!(
        FilteredDirectory::new(sample_tree(), fuzzy("")).search_for_scan(),
        Search::AllFiles
    );
    assert_eq!(
        FilteredDirectory::new(sample_tree(), CompiledPattern::match_all()).search_for_scan(),
        Search::AllFiles
    );
    assert_eq!(
        FilteredDirectory::new(sample_tree(), fuzzy("x")).search_for_scan(),
        Search::Tree
    );
}

#[test]
fn a_step_searches_the_previous_matches_when_it_is_additive() {
    let view = FilteredDirectory::new(sample_tree(), fuzzy("A"));
    assert_eq!(view.search_for(&fuzzy("Ab")), Search::PreviousMatches);
    assert_eq!(view.search_for(&fuzzy("B")), Search::Tree);
    assert_eq!(view.search_for(&fuzzy("")), Search::AllFiles);
    let all = FilteredDirectory::new(sample_tree(), fuzzy(""));
    assert_eq!(all.search_for(&fuzzy("A")), Search::PreviousMatches);
    assert_eq!(all.search_for(&fuzzy("a")), Search::Tree);
    assert_eq!(all.search_for(&fuzzy("")), Search::PreviousMatches);
    let empty = FilteredDirectory::new(sample_tree(), CompiledPattern::match_all());
    assert_eq!(empty.search_for(&fuzzy("A")), Search::Tree);
    assert_eq!(empty.search_for(&CompiledPattern::match_all()), Search::AllFiles);
}

#[test]
fn what_was_found_is_taken_as_it_is() {
    let mut view = FilteredDirectory::new(sample_tree(), fuzzy("y"));
    view.run_filter();
    view.adopt(fuzzy("x"), files(&["b/x.log", "a/x.txt"]));
    assert_eq!(view.pattern().as_str(), "(?s)(?i).*x.*");
    assert_eq!(view.file_matches(), &files(&["b/x.log", "a/x.txt"]));
    assert_eq!(view.total_len(), 3);
    let mut scanned = FilteredDirectory::new(sample_tree(), fuzzy("x"));
    scanned.run_filter();
    assert!(!view.same_matches(&scanned));
    let mut sorted: Vec<String> = view.file_matches().iter().map(|f| f.as_string()).collect();
    sorted.sort();
    assert_eq!(sorted, vec!["a/x.txt", "b/x.log"]);
}

#[test]
fn searching_as_told_and_taking_what_was_found_is_the_step_itself() {
    for (first, second) in [("A", "Ab"), ("A", "b"), ("", "Al"), ("b", ""), ("Al", "Al")] {
        let mut stepped = FilteredDirectory::new(case_tree(), fuzzy(first));
        stepped.run_filter();
        let mut told = stepped.clone();
        stepped.re_filter(fuzzy(second));
        let new_regex = fuzzy(second);
        let found = match told.search_for(&new_regex) {
            Search::AllFiles => told.directory().files(),
            Search::Tree => find_matches(told.directory(), &new_regex),
            Search::PreviousMatches => find_file_matches(told.file_matches(), &new_regex),
        };
        told.adopt(new_regex, found);
        assert!(told.same_matches(&stepped), "{:?} then {:?}", first, second);
        assert_eq!(told.pattern().as_str(), stepped.pattern().as_str());
    }
}
