//! The simple filter: the plain recursive matcher, against which the walk
//! with a collector is held.

use crate::filtered_directory::{after_run_filter, FilteredDirectory, FilteredView};
use crate::matchers::{forest_matches, matching_paths, tree_matches};
use crate::pattern::{pattern_compiles, pattern_matches, CompileError, CompiledPattern};
use crate::tree::{paths_of, trees_of, Directory, File};
use vstd::prelude::*;

verus! {

/// A pattern and the tree it is to be applied to.
pub struct SimpleFilter<'a> {
    directory: &'a Directory,
    regex: CompiledPattern,
}

impl<'a> SimpleFilter<'a> {
    /// The tree of the filter.
    pub closed spec fn tree(&self) -> crate::tree::Tree {
        self.directory@
    }

    /// The text of the filter's pattern.
    pub closed spec fn pattern(&self) -> Seq<char> {
        self.regex@
    }

    /// A filter for `directory` whose pattern is `filter_string` as it
    /// stands, in the engine's own syntax. The filter is returned exactly
    /// where there is a pattern for the text: always for a match-all text,
    /// and for any other where the engine compiles it. Where there is none,
    /// the engine's reason is returned.
    pub fn new(directory: &'a Directory, filter_string: &str) -> (outcome: Result<
        SimpleFilter<'a>,
        CompileError,
    >)
        ensures
            outcome matches Ok(filter) ==> filter.tree() == directory@ && filter.pattern()
                == filter_string@,
            outcome is Ok <==> pattern_compiles(filter_string@),
    {
        match CompiledPattern::new(filter_string) {
            Ok(regex) => Ok(SimpleFilter { directory, regex }),
            Err(error) => Err(error),
        }
    }

    /// A filter for `directory` with a pattern that was compiled before.
    pub fn with_pattern(directory: &'a Directory, regex: CompiledPattern) -> (filter: SimpleFilter<
        'a,
    >)
        ensures
            filter.tree() == directory@,
            filter.pattern() == regex@,
    {
        SimpleFilter { directory, regex }
    }

    /// Applies the pattern to the tree: a filtered view of a copy of the
    /// tree, with the match set of a full scan.
    pub fn execute(&self) -> (filtered: FilteredDirectory)
        ensures
            filtered@ == after_run_filter(
                FilteredView { tree: self.tree(), pattern: self.pattern(), matches: Seq::empty() },
            ),
    {
        FilteredDirectory::with_matches(
            self.directory.clone(),
            self.regex.clone(),
            self.find_matches(self.directory),
        )
    }

    /// The files below `directory` that match: all of them when the path of
    /// the directory itself matches, else the direct files that match, then
    /// the matches of each sub-directory in turn.
    pub fn find_matches(&self, directory: &Directory) -> (matches: Vec<File>)
        ensures
            paths_of(matches@) == tree_matches(directory@, self.pattern()),
        decreases directory,
    {
        if self.is_match(directory.path()) {
            return directory.files();
        }
        let mut matches: Vec<File> = Vec::new();
        let files = directory.each_file();
        let ghost by_pattern = |path: Seq<char>| pattern_matches(self.pattern(), path);
        let mut i: usize = 0;
        while i < files.len()
            invariant
                i <= files.len(),
                by_pattern == |path: Seq<char>| pattern_matches(self.pattern(), path),
                paths_of(matches@) == paths_of(files@).take(i as int).filter(by_pattern),
            decreases files.len() - i,
        {
            proof {
                let paths = paths_of(files@);
                paths.take(i as int).lemma_filter_push(paths[i as int], by_pattern);
                assert(paths.take(i + 1) =~= paths.take(i as int).push(paths[i as int]));
            }
            if self.is_match(files[i].path()) {
                matches.push(files[i].clone());
            }
            i += 1;
        }
        assert(paths_of(files@).take(i as int) =~= paths_of(files@));
        let sub_directories = directory.each_sub_directory();
        let mut j: usize = 0;
        while j < sub_directories.len()
            invariant
                j <= sub_directories.len(),
                decreases_to!(directory => sub_directories),
                trees_of(sub_directories@) == directory@.children,
                paths_of(matches@) == matching_paths(self.pattern(), directory@.files)
                    + forest_matches(directory@.children, j as nat, self.pattern()),
            decreases sub_directories.len() - j,
        {
            let mut below = self.find_matches(&sub_directories[j]);
            proof {
                assert(paths_of(matches@ + below@) =~= paths_of(matches@) + paths_of(below@));
            }
            matches.append(&mut below);
            j += 1;
        }
        matches
    }

    /// Whether the pattern matches the path.
    pub fn is_match(&self, path: &str) -> (found: bool)
        ensures
            found == pattern_matches(self.pattern(), path@),
    {
        self.regex.is_match(path)
    }
}

} // verus!
