//! The filtered view: a tree, the active pattern and the current match set.

use crate::matchers::{
    find_file_matches, find_matches, forest_matches, matching_paths, tree_matches,
};
use crate::pattern::{is_match_all_text, pattern_matches, CompiledPattern};
use crate::regex_builder::{
    any_character_flag, case_flag, fuzzy_piece, fuzzy_text, has_upper_case,
};
use crate::tree::{all_files, copy_files, forest_files, paths_of, Directory, File, Tree};
use vstd::prelude::*;

verus! {

/// The model of a filtered view.
pub struct FilteredView {
    pub tree: Tree,
    pub pattern: Seq<char>,
    pub matches: Seq<Seq<char>>,
}

/// Whether the match set of the view is what a full scan gives.
pub open spec fn is_current(view: FilteredView) -> bool {
    view.matches == tree_matches(view.tree, view.pattern)
}

/// The view after a full scan.
pub open spec fn after_run_filter(view: FilteredView) -> FilteredView {
    FilteredView {
        tree: view.tree,
        pattern: view.pattern,
        matches: tree_matches(view.tree, view.pattern),
    }
}

/// Whether the step from the text `previous` to the text `next` may be
/// answered from the previous match set: `previous` is not empty and `next`
/// begins with it.
pub open spec fn is_additive(previous: Seq<char>, next: Seq<char>) -> bool {
    previous.len() != 0 && previous.is_prefix_of(next)
}

/// The view after the pattern was replaced by one compiled from `next`:
/// on an additive step the previous match set narrowed by the new pattern,
/// else a full scan with the new pattern.
pub open spec fn after_re_filter(view: FilteredView, next: Seq<char>) -> FilteredView {
    if is_additive(view.pattern, next) {
        FilteredView {
            tree: view.tree,
            pattern: next,
            matches: matching_paths(next, view.matches),
        }
    } else {
        after_run_filter(FilteredView { tree: view.tree, pattern: next, matches: view.matches })
    }
}

/// What has to be searched to bring a view up to date.
#[derive(Debug, Clone, Copy, PartialEq, Eq, Structural)]
pub enum Search {
    /// Nothing is tested: every file of the tree is taken.
    AllFiles,
    /// The tree is walked under the pattern.
    Tree,
    /// The previous match set is narrowed by the pattern.
    PreviousMatches,
}

/// What a full scan under the pattern of `text` searches: nothing under a
/// match-all pattern, else the tree.
pub open spec fn search_of_scan(text: Seq<char>) -> Search {
    if is_match_all_text(text) {
        Search::AllFiles
    } else {
        Search::Tree
    }
}

/// What the step to the pattern of `next` searches: the previous match set
/// on an additive step, else what a full scan under the new pattern does.
pub open spec fn search_of_step(view: FilteredView, next: Seq<char>) -> Search {
    if is_additive(view.pattern, next) {
        Search::PreviousMatches
    } else {
        search_of_scan(next)
    }
}

/// What a search of the view under the pattern of `text` finds, in the order
/// of a search without workers.
pub open spec fn found_in_order(view: FilteredView, search: Search, text: Seq<char>) -> Seq<
    Seq<char>,
> {
    match search {
        Search::AllFiles => all_files(view.tree),
        Search::Tree => tree_matches(view.tree, text),
        Search::PreviousMatches => matching_paths(text, view.matches),
    }
}

/// The view with the pattern of `text` and the match set `found` in place.
pub open spec fn adopted(view: FilteredView, text: Seq<char>, found: Seq<Seq<char>>) -> FilteredView {
    FilteredView { tree: view.tree, pattern: text, matches: found }
}

/// A tree, the active pattern, and the files that currently match.
pub struct FilteredDirectory {
    directory: Directory,
    regex: CompiledPattern,
    file_matches: Vec<File>,
}

impl View for FilteredDirectory {
    type V = FilteredView;

    closed spec fn view(&self) -> FilteredView {
        FilteredView {
            tree: self.directory@,
            pattern: self.regex@,
            matches: paths_of(self.file_matches@),
        }
    }
}

impl FilteredDirectory {
    /// A view of `directory` under the pattern `regex`, with no match yet:
    /// the first scan fills the match set.
    pub fn new(directory: Directory, regex: CompiledPattern) -> (filtered: FilteredDirectory)
        ensures
            filtered@.tree == directory@,
            filtered@.pattern == regex@,
            filtered@.matches == Seq::<Seq<char>>::empty(),
    {
        FilteredDirectory { directory, regex, file_matches: Vec::new() }
    }

    /// A view of `directory` under the pattern `regex` with a match set that
    /// was found elsewhere.
    pub(crate) fn with_matches(directory: Directory, regex: CompiledPattern, file_matches: Vec<File>) -> (filtered:
        FilteredDirectory)
        ensures
            filtered@ == (FilteredView {
                tree: directory@,
                pattern: regex@,
                matches: paths_of(file_matches@),
            }),
    {
        FilteredDirectory { directory, regex, file_matches }
    }

    /// The files that match, in order.
    pub fn file_matches(&self) -> (file_matches: &Vec<File>)
        ensures
            paths_of(file_matches@) == self@.matches,
    {
        &self.file_matches
    }

    /// The number of files that match.
    pub fn len(&self) -> (count: usize)
        ensures
            count == self@.matches.len(),
    {
        self.file_matches.len()
    }

    /// The number of files in the tree.
    pub fn total_len(&self) -> (count: usize)
        ensures
            count == all_files(self@.tree).len(),
    {
        self.directory.len()
    }

    /// The tree that the match set was computed against.
    pub fn directory(&self) -> (directory: &Directory)
        ensures
            directory@ == self@.tree,
    {
        &self.directory
    }

    /// The active pattern.
    pub fn pattern(&self) -> (pattern: &CompiledPattern)
        ensures
            pattern@ == self@.pattern,
    {
        &self.regex
    }

    /// Replaces the tree, as after a change below it. The match set is left
    /// as it was until the next scan.
    pub fn replace_directory(&mut self, directory: Directory)
        ensures
            final(self)@ == (FilteredView {
                tree: directory@,
                pattern: old(self)@.pattern,
                matches: old(self)@.matches,
            }),
    {
        self.directory = directory;
    }

    /// Full scan: the match set becomes the files of the tree that match the
    /// active pattern. Under a match-all pattern these are all the files of
    /// the tree, and the matcher is not asked.
    pub fn run_filter(&mut self)
        ensures
            final(self)@ == after_run_filter(old(self)@),
            is_match_all_text(old(self)@.pattern) ==> final(self)@.matches == all_files(
                old(self)@.tree,
            ),
    {
        if self.regex.is_match_all() {
            self.file_matches = self.directory.files();
        } else {
            self.file_matches = find_matches(&self.directory, &self.regex);
        }
    }

    /// Replaces the pattern. On an additive step only the previous match set
    /// is searched; on any other step the whole tree is scanned.
    pub fn re_filter(&mut self, new_regex: CompiledPattern)
        ensures
            final(self)@ == after_re_filter(old(self)@, new_regex@),
    {
        if self.new_regex_is_addative(&new_regex) {
            self.file_matches = find_file_matches(&self.file_matches, &new_regex);
            self.regex = new_regex;
        } else {
            self.regex = new_regex;
            self.run_filter();
        }
    }

    /// What a full scan of this view has to search.
    pub fn search_for_scan(&self) -> (search: Search)
        ensures
            search == search_of_scan(self@.pattern),
    {
        if self.regex.is_match_all() {
            Search::AllFiles
        } else {
            Search::Tree
        }
    }

    /// What the step to `new_regex` has to search.
    pub fn search_for(&self, new_regex: &CompiledPattern) -> (search: Search)
        ensures
            search == search_of_step(self@, new_regex@),
    {
        if self.new_regex_is_addative(new_regex) {
            Search::PreviousMatches
        } else if new_regex.is_match_all() {
            Search::AllFiles
        } else {
            Search::Tree
        }
    }

    /// Takes a pattern and the match set that a search under it has found.
    /// The search is the caller's: with workers it finds the files of
    /// `found_in_order` in an order of its own.
    pub fn adopt(&mut self, regex: CompiledPattern, file_matches: Vec<File>)
        ensures
            final(self)@ == adopted(old(self)@, regex@, paths_of(file_matches@)),
    {
        self.regex = regex;
        self.file_matches = file_matches;
    }

    /// Whether the step to `new_regex` is additive.
    pub fn new_regex_is_addative(&self, new_regex: &CompiledPattern) -> (additive: bool)
        ensures
            additive == is_additive(self@.pattern, new_regex@),
    {
        if self.regex.as_str().is_empty() {
            return false;
        }
        new_regex.starts_with(&self.regex)
    }

    /// Whether this view and `other` hold the same match set: the same files
    /// in the same order.
    pub fn same_matches(&self, other: &FilteredDirectory) -> (same: bool)
        ensures
            same == (self@.matches == other@.matches),
    {
        crate::tree::same_files(&self.file_matches, &other.file_matches)
    }

    /// An iterator over the match set, which takes the view.
    pub fn into_iter(self) -> (iterator: FilteredDirectoryIntoIterator)
        ensures
            iterator.remaining() == self@.matches,
    {
        FilteredDirectoryIntoIterator { filtered_directory: self, index: 0 }
    }
}

impl Clone for FilteredDirectory {
    /// A snapshot: a copy that shares nothing with the view.
    fn clone(&self) -> (snapshot: FilteredDirectory)
        ensures
            snapshot@ == self@,
    {
        FilteredDirectory {
            directory: self.directory.clone(),
            regex: self.regex.clone(),
            file_matches: copy_files(&self.file_matches),
        }
    }
}

/// Hands out the files of a match set one by one.
pub struct FilteredDirectoryIntoIterator {
    filtered_directory: FilteredDirectory,
    index: usize,
}

impl FilteredDirectoryIntoIterator {
    /// The paths of the files that are still to come.
    pub closed spec fn remaining(&self) -> Seq<Seq<char>> {
        if self.index <= self.filtered_directory@.matches.len() {
            self.filtered_directory@.matches.skip(self.index as int)
        } else {
            Seq::empty()
        }
    }

    /// The next file of the match set, or `None` when all were handed out.
    pub fn next(&mut self) -> (item: Option<File>)
        ensures
            match item {
                Some(file) => {
                    &&& old(self).remaining().len() > 0
                    &&& file@ == old(self).remaining().first()
                    &&& final(self).remaining() == old(self).remaining().drop_first()
                },
                None => {
                    &&& old(self).remaining().len() == 0
                    &&& final(self).remaining() == old(self).remaining()
                },
            },
    {
        if self.index < self.filtered_directory.file_matches.len() {
            let file = self.filtered_directory.file_matches[self.index].clone();
            self.index += 1;
            Some(file)
        } else {
            None
        }
    }
}

/// A full scan leaves a view whose match set is current.
pub proof fn lemma_run_filter_is_current(view: FilteredView)
    ensures
        is_current(after_run_filter(view)),
{
}

/// Scanning twice, with the tree and the pattern unchanged, gives the match
/// set of the first scan.
pub proof fn lemma_run_filter_idempotent(view: FilteredView)
    ensures
        after_run_filter(after_run_filter(view)) == after_run_filter(view),
{
}

/// A full scan is: search what `search_of_scan` names, and take what was
/// found.
pub proof fn lemma_scan_by_search(view: FilteredView)
    ensures
        adopted(
            view,
            view.pattern,
            found_in_order(view, search_of_scan(view.pattern), view.pattern),
        ) == after_run_filter(view),
{
}

/// The step to a new pattern is: search what `search_of_step` names, and
/// take the pattern and what was found.
pub proof fn lemma_step_by_search(view: FilteredView, next: Seq<char>)
    ensures
        adopted(view, next, found_in_order(view, search_of_step(view, next), next))
            == after_re_filter(view, next),
{
}

/// Whether the pattern of `narrow` matches only paths that the pattern of
/// `wide` matches too.
pub open spec fn narrows(narrow: Seq<char>, wide: Seq<char>) -> bool {
    forall|path: Seq<char>| #[trigger]
        pattern_matches(narrow, path) ==> pattern_matches(wide, path)
}

/// Whether taking a matching directory whole is the same as testing its
/// files one by one: wherever in the tree a directory's own path matches,
/// every file below that directory matches too.
pub open spec fn shortcut_is_exact(tree: Tree, text: Seq<char>) -> bool
    decreases tree, 0nat,
{
    &&& pattern_matches(text, tree.path) ==> all_files(tree) == matching_paths(
        text,
        all_files(tree),
    )
    &&& forest_shortcut_is_exact(tree.children, tree.children.len(), text)
}

/// `shortcut_is_exact` of each of the first `n` trees of `forest`.
pub open spec fn forest_shortcut_is_exact(forest: Seq<Tree>, n: nat, text: Seq<char>) -> bool
    decreases forest, n,
{
    if n == 0 || n > forest.len() {
        true
    } else {
        forest_shortcut_is_exact(forest, (n - 1) as nat, text) && shortcut_is_exact(
            forest[n - 1],
            text,
        )
    }
}

/// Where the directory shortcut is exact, the matches of a tree are its
/// files filtered by the pattern.
pub proof fn lemma_exact_shortcut_is_a_filter(tree: Tree, text: Seq<char>)
    requires
        shortcut_is_exact(tree, text),
    ensures
        tree_matches(tree, text) == matching_paths(text, all_files(tree)),
    decreases tree, 0nat,
{
    if !pattern_matches(text, tree.path) {
        lemma_exact_forest_is_a_filter(tree.children, tree.children.len(), text);
    }
}

/// Where the directory shortcut is exact, the matches of a forest are its
/// files filtered by the pattern.
pub proof fn lemma_exact_forest_is_a_filter(forest: Seq<Tree>, n: nat, text: Seq<char>)
    requires
        forest_shortcut_is_exact(forest, n, text),
    ensures
        forest_matches(forest, n, text) == matching_paths(text, forest_files(forest, n)),
    decreases forest, n,
{
    if 0 < n <= forest.len() {
        lemma_exact_forest_is_a_filter(forest, (n - 1) as nat, text);
        lemma_exact_shortcut_is_a_filter(forest[n - 1], text);
    }
}

/// Filtering by a wide pattern and then by one that narrows it is filtering
/// by the narrow one.
pub proof fn lemma_narrowing_absorbs(paths: Seq<Seq<char>>, wide: Seq<char>, narrow: Seq<char>)
    requires
        narrows(narrow, wide),
    ensures
        matching_paths(narrow, matching_paths(wide, paths)) == matching_paths(narrow, paths),
    decreases paths.len(),
{
    let by_wide = |path: Seq<char>| pattern_matches(wide, path);
    let by_narrow = |path: Seq<char>| pattern_matches(narrow, path);
    if paths.len() > 0 {
        let shorter = paths.drop_last();
        lemma_narrowing_absorbs(shorter, wide, narrow);
        assert(shorter.push(paths.last()) =~= paths);
        shorter.lemma_filter_push(paths.last(), by_wide);
        shorter.lemma_filter_push(paths.last(), by_narrow);
        shorter.filter(by_wide).lemma_filter_push(paths.last(), by_narrow);
    }
}

/// The additive step agrees with a full scan under these conditions: the
/// match set is current; the new pattern narrows the previous one; and for
/// both patterns the directory shortcut is exact on the tree. Then narrowing
/// the previous match set by the new pattern gives what a full scan with the
/// new pattern gives. Nothing is said of a step without these conditions.
pub proof fn lemma_additive_step_agrees_with_rescan(view: FilteredView, next: Seq<char>)
    requires
        is_additive(view.pattern, next),
        is_current(view),
        narrows(next, view.pattern),
        shortcut_is_exact(view.tree, view.pattern),
        shortcut_is_exact(view.tree, next),
    ensures
        after_re_filter(view, next) == after_run_filter(
            FilteredView { tree: view.tree, pattern: next, matches: view.matches },
        ),
{
    lemma_exact_shortcut_is_a_filter(view.tree, view.pattern);
    lemma_exact_shortcut_is_a_filter(view.tree, next);
    lemma_narrowing_absorbs(all_files(view.tree), view.pattern, next);
}

/// The pieces of a search text, laid end to end: the fuzzy text without its
/// opening flag and its closing "anything".
pub open spec fn fuzzy_body(raw: Seq<char>, flag: Seq<char>) -> Seq<char> {
    raw.map_values(|c: char| fuzzy_piece(flag, c)).flatten()
}

/// The body of a longer text is the body of its beginning, then the body of
/// the rest.
pub proof fn lemma_fuzzy_body_of_longer_text(raw: Seq<char>, more: Seq<char>, flag: Seq<char>)
    ensures
        fuzzy_body(raw + more, flag) == fuzzy_body(raw, flag) + fuzzy_body(more, flag),
{
    let piece = |c: char| fuzzy_piece(flag, c);
    assert((raw + more).map_values(piece) =~= raw.map_values(piece) + more.map_values(piece));
    vstd::seq_lib::lemma_flatten_concat(raw.map_values(piece), more.map_values(piece));
}

/// The body of a text that is not empty begins with the flag.
pub proof fn lemma_fuzzy_body_begins_with_flag(raw: Seq<char>, flag: Seq<char>)
    requires
        raw.len() > 0,
    ensures
        fuzzy_body(raw, flag).len() >= flag.len() + 2,
        fuzzy_body(raw, flag).subrange(0, flag.len() as int) == flag,
        fuzzy_body(raw, flag)[flag.len() as int] == '.',
        fuzzy_body(raw, flag)[flag.len() as int + 1] == '*',
{
    let pieces = raw.map_values(|c: char| fuzzy_piece(flag, c));
    assert(pieces.flatten() == pieces.first() + pieces.drop_first().flatten());
    assert(pieces.first() == fuzzy_piece(flag, raw[0]));
    assert(fuzzy_body(raw, flag).subrange(0, flag.len() as int) =~= flag);
}

/// When typing on is an additive step. The step from a search text to a
/// longer one that begins with it is additive when the longer text holds an
/// upper-case letter, and the shorter one holds one too or is empty: then
/// nothing stands between the pieces, and the pattern of the longer text
/// begins with the pattern of the shorter.
pub proof fn lemma_typing_on_with_upper_case_is_additive(raw: Seq<char>, more: Seq<char>)
    requires
        has_upper_case(raw + more),
        raw.len() == 0 || has_upper_case(raw),
    ensures
        is_additive(fuzzy_text(raw), fuzzy_text(raw + more)),
{
    let none = Seq::<char>::empty();
    let shorter = fuzzy_text(raw);
    let longer = fuzzy_text(raw + more);
    assert(case_flag(raw + more) == none);
    lemma_fuzzy_body_of_longer_text(raw, more, none);
    assert(longer == any_character_flag() + (fuzzy_body(raw, none) + fuzzy_body(more, none))
        + seq!['.', '*']);
    if raw.len() == 0 {
        crate::regex_builder::lemma_empty_search_text_is_match_all(raw);
        assert(fuzzy_body(raw, none) =~= none);
    } else {
        assert(shorter == any_character_flag() + fuzzy_body(raw, none) + seq!['.', '*']);
    }
    if more.len() == 0 {
        assert(fuzzy_body(more, none) =~= none);
        assert(raw + more =~= raw);
        assert(shorter =~= longer.subrange(0, shorter.len() as int));
    } else {
        lemma_fuzzy_body_begins_with_flag(more, none);
        assert(shorter =~= longer.subrange(0, shorter.len() as int));
    }
}

/// When typing on is not an additive step. The step from a search text that
/// is not empty to a longer one is not additive when the longer text holds no
/// upper-case letter: where the pattern of the shorter text closes with
/// "anything", the pattern of the longer goes on with the flag.
pub proof fn lemma_typing_on_without_upper_case_is_not_additive(raw: Seq<char>, more: Seq<char>)
    requires
        !has_upper_case(raw + more),
        raw.len() > 0,
        more.len() > 0,
    ensures
        !is_additive(fuzzy_text(raw), fuzzy_text(raw + more)),
{
    let flag = seq!['(', '?', 'i', ')'];
    let shorter = fuzzy_text(raw);
    let longer = fuzzy_text(raw + more);
    assert(!has_upper_case(raw)) by {
        if has_upper_case(raw) {
            let i = choose|i: int|
                0 <= i < raw.len() && crate::regex_builder::is_upper_case(#[trigger] raw[i]);
            assert((raw + more)[i] == raw[i]);
        }
    }
    lemma_fuzzy_body_of_longer_text(raw, more, flag);
    lemma_fuzzy_body_begins_with_flag(more, flag);
    let body = any_character_flag() + fuzzy_body(raw, flag);
    assert(shorter == body + seq!['.', '*']);
    assert(longer =~= body + fuzzy_body(more, flag) + seq!['.', '*']);
    assert(shorter[body.len() as int] == '.');
    assert(fuzzy_body(more, flag).subrange(0, 4)[0] == '(');
    assert(longer[body.len() as int] == '(');
    if shorter.is_prefix_of(longer) {
        assert(longer.subrange(0, shorter.len() as int)[body.len() as int]
            == longer[body.len() as int]);
    }
}

} // verus!
