//! The bounded matcher: applies a compiled pattern to a tree or to a flat
//! list of files.

use crate::collector::Collector;
use crate::pattern::{pattern_matches, CompiledPattern};
use crate::tree::{all_files, paths_of, trees_of, Directory, File, Tree};
use vstd::multiset::Multiset;
use vstd::prelude::*;

verus! {

/// The default bound on the number of sub-directories that are walked concurrently.
pub const DEFAULT_CONCURRENCY_LIMIT: usize = 4;

/// The default number of workers that share a flat list of files.
pub const DEFAULT_POOL_SIZE: u32 = 8;

/// The paths among `paths` that the pattern compiled from `text` matches, in order.
pub open spec fn matching_paths(text: Seq<char>, paths: Seq<Seq<char>>) -> Seq<Seq<char>> {
    paths.filter(|path: Seq<char>| pattern_matches(text, path))
}

/// The files below `tree` that match the pattern compiled from `text`. A
/// directory whose own path matches brings every file below it; any other
/// brings its direct files that match, then what its children bring.
pub open spec fn tree_matches(tree: Tree, text: Seq<char>) -> Seq<Seq<char>>
    decreases tree, 0nat,
{
    if pattern_matches(text, tree.path) {
        all_files(tree)
    } else {
        matching_paths(text, tree.files) + forest_matches(
            tree.children,
            tree.children.len(),
            text,
        )
    }
}

/// What the first `n` trees of `forest` bring, in order.
pub open spec fn forest_matches(forest: Seq<Tree>, n: nat, text: Seq<char>) -> Seq<Seq<char>>
    decreases forest, n,
{
    if n == 0 || n > forest.len() {
        Seq::empty()
    } else {
        forest_matches(forest, (n - 1) as nat, text) + tree_matches(forest[n - 1], text)
    }
}

/// The paths whose verdict is there and is `true`, in order.
pub open spec fn selected(paths: Seq<Seq<char>>, verdicts: Seq<bool>) -> Seq<Seq<char>>
    decreases paths.len(),
{
    if paths.len() == 0 {
        Seq::empty()
    } else {
        let last = paths.len() - 1;
        let before = selected(paths.drop_last(), verdicts);
        if last < verdicts.len() && verdicts[last] {
            before.push(paths.last())
        } else {
            before
        }
    }
}

/// What one directory hands to the collector, given the verdict on its own
/// path and the verdicts on its direct files.
pub open spec fn node_hits(tree: Tree, directory_matched: bool, file_verdicts: Seq<bool>) -> Seq<
    Seq<char>,
> {
    if directory_matched {
        all_files(tree)
    } else {
        selected(tree.files, file_verdicts)
    }
}

/// The batches that a walk of `tree` hands to the collector, in the order of
/// a walk that hands no sub-directory to another worker.
pub open spec fn walk_batches(tree: Tree, text: Seq<char>) -> Seq<Seq<Seq<char>>>
    decreases tree, 0nat,
{
    if pattern_matches(text, tree.path) {
        seq![all_files(tree)]
    } else {
        seq![matching_paths(text, tree.files)] + forest_batches(
            tree.children,
            tree.children.len(),
            text,
        )
    }
}

/// The batches of the first `n` trees of `forest`.
pub open spec fn forest_batches(forest: Seq<Tree>, n: nat, text: Seq<char>) -> Seq<
    Seq<Seq<char>>,
>
    decreases forest, n,
{
    if n == 0 || n > forest.len() {
        Seq::empty()
    } else {
        forest_batches(forest, (n - 1) as nat, text) + walk_batches(forest[n - 1], text)
    }
}

/// Selecting by the pattern's own verdicts is filtering by the pattern.
pub proof fn lemma_selected_by_pattern(paths: Seq<Seq<char>>, verdicts: Seq<bool>, text: Seq<char>)
    requires
        verdicts.len() == paths.len(),
        forall|i: int| 0 <= i < paths.len() ==> verdicts[i] == pattern_matches(text, paths[i]),
    ensures
        selected(paths, verdicts) == matching_paths(text, paths),
    decreases paths.len(),
{
    let matches = |path: Seq<char>| pattern_matches(text, path);
    if paths.len() == 0 {
    } else {
        let shorter = paths.drop_last();
        lemma_selected_by_pattern(shorter, verdicts.drop_last(), text);
        lemma_selected_ignores_surplus(shorter, verdicts);
        shorter.lemma_filter_push(paths.last(), matches);
        assert(shorter.push(paths.last()) =~= paths);
    }
}

/// Verdicts beyond the end of the list of paths select nothing.
pub proof fn lemma_selected_ignores_surplus(paths: Seq<Seq<char>>, verdicts: Seq<bool>)
    requires
        paths.len() <= verdicts.len(),
    ensures
        selected(paths, verdicts) == selected(paths, verdicts.take(paths.len() as int)),
    decreases paths.len(),
{
    if paths.len() > 0 {
        let shorter = paths.drop_last();
        lemma_selected_ignores_surplus(shorter, verdicts);
        lemma_selected_ignores_surplus(shorter, verdicts.take(paths.len() as int));
        assert(verdicts.take(paths.len() as int).take(shorter.len() as int) =~= verdicts.take(
            shorter.len() as int,
        ));
    }
}

/// The batches of a walk, laid end to end, are the matches of the tree.
pub proof fn lemma_walk_batches_flatten(tree: Tree, text: Seq<char>)
    ensures
        walk_batches(tree, text).flatten() == tree_matches(tree, text),
    decreases tree, 0nat,
{
    if pattern_matches(text, tree.path) {
        seq![all_files(tree)].lemma_flatten_one_element();
    } else {
        let own = seq![matching_paths(text, tree.files)];
        let below = forest_batches(tree.children, tree.children.len(), text);
        lemma_forest_batches_flatten(tree.children, tree.children.len(), text);
        vstd::seq_lib::lemma_flatten_concat(own, below);
        own.lemma_flatten_one_element();
    }
}

/// The batches of a forest, laid end to end, are the matches of the forest.
pub proof fn lemma_forest_batches_flatten(forest: Seq<Tree>, n: nat, text: Seq<char>)
    ensures
        forest_batches(forest, n, text).flatten() == forest_matches(forest, n, text),
    decreases forest, n,
{
    if n == 0 || n > forest.len() {
    } else {
        lemma_forest_batches_flatten(forest, (n - 1) as nat, text);
        lemma_walk_batches_flatten(forest[n - 1], text);
        vstd::seq_lib::lemma_flatten_concat(
            forest_batches(forest, (n - 1) as nat, text),
            walk_batches(forest[n - 1], text),
        );
    }
}

/// The files of a list of batches, each counted as often as it occurs,
/// whatever the order of the batches and of the files in them.
pub open spec fn gathered(batches: Seq<Seq<Seq<char>>>) -> Multiset<Seq<char>> {
    batches.flatten().to_multiset()
}

/// What is gathered from a list of batches is what is gathered from all but
/// the batch at `i`, and the files of that batch.
pub proof fn lemma_gathered_remove(batches: Seq<Seq<Seq<char>>>, i: int)
    requires
        0 <= i < batches.len(),
    ensures
        gathered(batches) == gathered(batches.remove(i)).add(batches[i].to_multiset()),
{
    let front = batches.subrange(0, i);
    let back = batches.subrange(i + 1, batches.len() as int);
    let one = seq![batches[i]];
    assert(batches =~= front + one + back);
    vstd::seq_lib::lemma_flatten_concat(front + one, back);
    vstd::seq_lib::lemma_flatten_concat(front, one);
    vstd::seq_lib::lemma_flatten_concat(front, back);
    one.lemma_flatten_one_element();
    vstd::seq_lib::lemma_multiset_commutative(front.flatten() + batches[i], back.flatten());
    vstd::seq_lib::lemma_multiset_commutative(front.flatten(), batches[i]);
    vstd::seq_lib::lemma_multiset_commutative(front.flatten(), back.flatten());
}

/// What is gathered does not depend on the order of the batches: two lists
/// that hold the same batches, each as often in the one as in the other, hold
/// the same files.
pub proof fn lemma_gathered_ignores_order(left: Seq<Seq<Seq<char>>>, right: Seq<Seq<Seq<char>>>)
    requires
        left.to_multiset() == right.to_multiset(),
    ensures
        gathered(left) == gathered(right),
    decreases left.len(),
{
    vstd::seq_lib::to_multiset_len(left);
    vstd::seq_lib::to_multiset_len(right);
    if left.len() > 0 {
        let last = left.len() - 1;
        let batch = left[last];
        vstd::seq_lib::to_multiset_contains(left, batch);
        vstd::seq_lib::to_multiset_contains(right, batch);
        let i = choose|i: int| 0 <= i < right.len() && right[i] == batch;
        vstd::seq_lib::to_multiset_remove(left, last);
        vstd::seq_lib::to_multiset_remove(right, i);
        lemma_gathered_ignores_order(left.remove(last), right.remove(i));
        lemma_gathered_remove(left, last);
        lemma_gathered_remove(right, i);
    }
}

/// The match set does not depend on the order of the walk. When the batches
/// of a walk reach the collector in any order, as they do when
/// sub-directories are handed to other workers, the files gathered are those
/// that the walk without workers finds, each as often.
pub proof fn lemma_matches_do_not_depend_on_order(
    tree: Tree,
    text: Seq<char>,
    arrived: Seq<Seq<Seq<char>>>,
)
    requires
        arrived.to_multiset() == walk_batches(tree, text).to_multiset(),
    ensures
        gathered(arrived) == tree_matches(tree, text).to_multiset(),
{
    lemma_gathered_ignores_order(arrived, walk_batches(tree, text));
    lemma_walk_batches_flatten(tree, text);
}

/// Whether the pattern matches the path.
pub fn is_string_match(path: &str, pattern: &CompiledPattern) -> (found: bool)
    ensures
        found == pattern_matches(pattern@, path@),
{
    pattern.is_match(path)
}

/// Admission test of the tree walk: a sub-directory may be handed to a new
/// worker only while fewer than `concurrency_limit` workers are running.
pub fn max_concurrency_reached(current_concurrency: usize, concurrency_limit: usize) -> (reached:
    bool)
    ensures
        reached == (current_concurrency >= concurrency_limit),
{
    current_concurrency >= concurrency_limit
}

/// The count of the workers of a walk. It never exceeds its limit: a worker
/// is counted before it starts, and only while the count is below the limit.
/// Held behind a lock, it keeps the bound whatever the workers do.
pub struct Admission {
    current_concurrency: usize,
    concurrency_limit: usize,
}

impl Admission {
    #[verifier::type_invariant]
    spec fn within_limit(&self) -> bool {
        self.current_concurrency <= self.concurrency_limit
    }

    /// The number of workers that hold a place.
    pub closed spec fn running(&self) -> nat {
        self.current_concurrency as nat
    }

    /// The bound on the number of workers.
    pub closed spec fn limit(&self) -> nat {
        self.concurrency_limit as nat
    }

    /// A count of no workers, with the given limit.
    pub fn new(concurrency_limit: usize) -> (admission: Admission)
        ensures
            admission.running() == 0,
            admission.limit() == concurrency_limit,
    {
        Admission { current_concurrency: 0, concurrency_limit }
    }

    /// Asks for one more worker. While the limit is not reached a place is
    /// reserved and counted; else the count stays as it is, and the caller
    /// walks the sub-directory itself.
    pub fn reserve(&mut self) -> (reserved: bool)
        ensures
            reserved == (old(self).running() < old(self).limit()),
            final(self).running() == old(self).running() + if reserved { 1nat } else { 0nat },
            final(self).limit() == old(self).limit(),
    {
        proof {
            use_type_invariant(&*self);
        }
        if max_concurrency_reached(self.current_concurrency, self.concurrency_limit) {
            false
        } else {
            self.current_concurrency = self.current_concurrency + 1;
            true
        }
    }

    /// A worker has left and gives its place back.
    pub fn release(&mut self)
        ensures
            final(self).running() == if old(self).running() > 0 {
                (old(self).running() - 1) as nat
            } else {
                0nat
            },
            final(self).limit() == old(self).limit(),
    {
        proof {
            use_type_invariant(&*self);
        }
        if self.current_concurrency > 0 {
            self.current_concurrency = self.current_concurrency - 1;
        }
    }

    /// The number of workers that hold a place. It is within the limit.
    pub fn current_concurrency(&self) -> (running: usize)
        ensures
            running == self.running(),
            running <= self.limit(),
    {
        proof {
            use_type_invariant(self);
        }
        self.current_concurrency
    }

    /// The bound on the number of workers.
    pub fn concurrency_limit(&self) -> (limit: usize)
        ensures
            limit == self.limit(),
    {
        self.concurrency_limit
    }
}

/// Whether a walk is over: the collector was found empty and no worker is
/// still running. Either alone is not enough, since a running worker may
/// still hand in a batch after the collector was found empty.
pub fn walk_is_complete(collector_was_empty: bool, current_concurrency: usize) -> (complete: bool)
    ensures
        complete == (collector_was_empty && current_concurrency == 0),
{
    collector_was_empty && current_concurrency == 0
}

/// The pattern's verdict on each file of the list.
pub fn verdicts_for(files: &Vec<File>, pattern: &CompiledPattern) -> (verdicts: Vec<bool>)
    ensures
        verdicts@.len() == files@.len(),
        forall|i: int|
            0 <= i < files@.len() ==> verdicts@[i] == pattern_matches(
                pattern@,
                #[trigger] paths_of(files@)[i],
            ),
{
    let mut verdicts: Vec<bool> = Vec::new();
    let mut i: usize = 0;
    while i < files.len()
        invariant
            i <= files.len(),
            verdicts@.len() == i,
            forall|k: int|
                0 <= k < i ==> verdicts@[k] == pattern_matches(
                    pattern@,
                    #[trigger] paths_of(files@)[k],
                ),
        decreases files.len() - i,
    {
        let verdict = is_string_match(files[i].path(), pattern);
        verdicts.push(verdict);
        i += 1;
    }
    verdicts
}

/// The files whose verdict is there and is `true`, in order.
pub fn select_files(files: &Vec<File>, verdicts: &Vec<bool>) -> (hits: Vec<File>)
    ensures
        paths_of(hits@) == selected(paths_of(files@), verdicts@),
{
    let mut hits: Vec<File> = Vec::new();
    let mut i: usize = 0;
    while i < files.len()
        invariant
            i <= files.len(),
            paths_of(hits@) == selected(paths_of(files@).take(i as int), verdicts@),
        decreases files.len() - i,
    {
        proof {
            let paths = paths_of(files@);
            assert(paths.take(i + 1).drop_last() =~= paths.take(i as int));
        }
        if i < verdicts.len() && verdicts[i] {
            hits.push(files[i].clone());
        }
        i += 1;
    }
    assert(paths_of(files@).take(i as int) =~= paths_of(files@));
    hits
}

/// What one directory hands to the collector: every file below it when its
/// own path matched, else its direct files whose verdict is `true`.
pub fn node_batch(directory: &Directory, directory_matched: bool, file_verdicts: &Vec<bool>) -> (batch:
    Vec<File>)
    ensures
        paths_of(batch@) == node_hits(directory@, directory_matched, file_verdicts@),
{
    if directory_matched {
        directory.files()
    } else {
        select_files(directory.each_file(), file_verdicts)
    }
}

/// Walks the directory and hands its batches to the collector: one batch for
/// the directory itself, then, unless its own path matched, the batches of
/// each sub-directory in turn.
pub fn fetch_matches(directory: &Directory, pattern: &CompiledPattern, collector: &mut Collector)
    ensures
        final(collector)@ == old(collector)@ + walk_batches(directory@, pattern@),
    decreases directory,
{
    let ghost before = collector@;
    let directory_matched = is_string_match(directory.path(), pattern);
    if directory_matched {
        let batch = node_batch(directory, true, &Vec::new());
        collector.push(batch);
    } else {
        let verdicts = verdicts_for(directory.each_file(), pattern);
        let batch = node_batch(directory, false, &verdicts);
        proof {
            lemma_selected_by_pattern(directory@.files, verdicts@, pattern@);
        }
        collector.push(batch);
        let sub_directories = directory.each_sub_directory();
        let mut j: usize = 0;
        while j < sub_directories.len()
            invariant
                j <= sub_directories.len(),
                decreases_to!(directory => sub_directories),
                trees_of(sub_directories@) == directory@.children,
                collector@ == before + seq![matching_paths(pattern@, directory@.files)]
                    + forest_batches(directory@.children, j as nat, pattern@),
            decreases sub_directories.len() - j,
        {
            fetch_matches(&sub_directories[j], pattern, collector);
            j += 1;
        }
    }
}

/// Walks the directory with a collector of its own and gathers what was
/// handed in.
pub fn execute(directory: &Directory, pattern: &CompiledPattern) -> (file_matches: Vec<File>)
    ensures
        paths_of(file_matches@) == tree_matches(directory@, pattern@),
{
    let mut collector = Collector::new();
    fetch_matches(directory, pattern, &mut collector);
    let mut file_merged_matches: Vec<File> = Vec::new();
    collector.drain_into(&mut file_merged_matches);
    proof {
        lemma_walk_batches_flatten(directory@, pattern@);
    }
    file_merged_matches
}

/// The files below the directory that match the pattern.
pub fn find_matches(directory: &Directory, pattern: &CompiledPattern) -> (file_matches: Vec<File>)
    ensures
        paths_of(file_matches@) == tree_matches(directory@, pattern@),
{
    execute(directory, pattern)
}

/// The files of the list that match the pattern, in the order of the list.
pub fn find_file_matches(files: &Vec<File>, pattern: &CompiledPattern) -> (file_matches: Vec<File>)
    ensures
        paths_of(file_matches@) == matching_paths(pattern@, paths_of(files@)),
{
    let verdicts = verdicts_for(files, pattern);
    let hits = select_files(files, &verdicts);
    proof {
        lemma_selected_by_pattern(paths_of(files@), verdicts@, pattern@);
    }
    let mut collector = Collector::new();
    collector.push(hits);
    let mut file_merged_matches: Vec<File> = Vec::new();
    collector.drain_into(&mut file_merged_matches);
    proof {
        seq![matching_paths(pattern@, paths_of(files@))].lemma_flatten_one_element();
    }
    file_merged_matches
}

} // verus!
