//! The continuous filter: one filtered view, driven by new search texts and
//! by changes of the tree, and the life cycle of the two listeners that
//! bring them.
//!
//! Nothing here waits or runs in the background. Each function is one
//! decision: it takes what a listener received and says what to publish. The
//! two listeners differ on purpose in when they publish: a new search text is
//! always answered with a snapshot, a change of the tree only when the match
//! set changed.
//!
//! Each step that scans comes in two forms. The one searches by itself,
//! without workers. The other, named `.._found`, takes the match set that the
//! caller has found, with workers of its own, where the filtered view said
//! what to search.

use crate::filter_event_broker::FilterEventBroker;
use crate::filtered_directory::{
    adopted, after_re_filter, after_run_filter, found_in_order, search_of_scan, search_of_step,
    FilteredDirectory, FilteredView,
};
use crate::pattern::{pattern_compiles, CompileError, CompiledPattern};
use crate::regex_builder::{fuzzy_text, RegexBuilder};
use crate::tree::{copy_files, paths_of, same_files, Directory, File};
use vstd::prelude::*;

verus! {

/// The view with a new tree in place of the old, the match set not yet scanned.
pub open spec fn with_tree(view: FilteredView, tree: crate::tree::Tree) -> FilteredView {
    FilteredView { tree, pattern: view.pattern, matches: view.matches }
}

/// The filter proper: the filtered view, with the two ways of bringing it
/// up to date.
pub struct Filter {
    filtered_directory: FilteredDirectory,
}

impl View for Filter {
    type V = FilteredView;

    closed spec fn view(&self) -> FilteredView {
        self.filtered_directory@
    }
}

impl Filter {
    /// A filter over `directory` under the pattern `regex`, not yet scanned.
    pub fn with_pattern(directory: Directory, regex: CompiledPattern) -> (filter: Filter)
        ensures
            filter@ == (FilteredView {
                tree: directory@,
                pattern: regex@,
                matches: Seq::empty(),
            }),
    {
        Filter { filtered_directory: FilteredDirectory::new(directory, regex) }
    }

    /// A filter over `directory` under the pattern of the empty text, which
    /// matches every file. The filter is not yet scanned.
    pub fn new(directory: Directory) -> (filter: Filter)
        ensures
            filter@ == (FilteredView {
                tree: directory@,
                pattern: Seq::empty(),
                matches: Seq::empty(),
            }),
    {
        Filter::with_pattern(directory, CompiledPattern::match_all())
    }

    /// The filtered view as it stands.
    pub fn filtered_directory(&self) -> (filtered: &FilteredDirectory)
        ensures
            filtered@ == self@,
    {
        &self.filtered_directory
    }

    /// Puts a new tree in place of the old. The match set is left as it was
    /// until the next scan.
    pub fn update_directory(&mut self, directory: Directory)
        ensures
            final(self)@ == with_tree(old(self)@, directory@),
    {
        self.filtered_directory.replace_directory(directory);
    }

    /// Full scan, published on change: the snapshot is returned when the
    /// match set differs from the one before the scan, in its files or in
    /// their order, and `None` when it does not.
    pub fn scan(&mut self) -> (published: Option<FilteredDirectory>)
        ensures
            final(self)@ == after_run_filter(old(self)@),
            match published {
                Some(snapshot) => snapshot@ == final(self)@ && final(self)@.matches != old(self)@.matches,
                None => final(self)@.matches == old(self)@.matches,
            },
    {
        let previous = copy_files(self.filtered_directory.file_matches());
        self.filtered_directory.run_filter();
        let changed = !same_files(&previous, self.filtered_directory.file_matches());
        if changed {
            Some(self.filtered_directory.clone())
        } else {
            None
        }
    }

    /// As `scan`, with the match set that a search of the caller has found:
    /// it is taken, and published on change.
    pub fn scan_found(&mut self, file_matches: Vec<File>) -> (published: Option<FilteredDirectory>)
        ensures
            final(self)@ == adopted(old(self)@, old(self)@.pattern, paths_of(file_matches@)),
            match published {
                Some(snapshot) => snapshot@ == final(self)@ && final(self)@.matches != old(self)@.matches,
                None => final(self)@.matches == old(self)@.matches,
            },
    {
        let changed = !same_files(self.filtered_directory.file_matches(), &file_matches);
        let regex = self.filtered_directory.pattern().clone();
        self.filtered_directory.adopt(regex, file_matches);
        if changed {
            Some(self.filtered_directory.clone())
        } else {
            None
        }
    }

    /// As `rescan`, with the match set that a search of the caller has found
    /// under the new pattern: both are taken, and always published.
    pub fn rescan_found(&mut self, new_regex: CompiledPattern, file_matches: Vec<File>) -> (published:
        FilteredDirectory)
        ensures
            final(self)@ == adopted(old(self)@, new_regex@, paths_of(file_matches@)),
            published@ == final(self)@,
    {
        self.filtered_directory.adopt(new_regex, file_matches);
        self.filtered_directory.clone()
    }

    /// Replaces the pattern, always published: the snapshot is returned
    /// whether or not the match set changed.
    pub fn rescan(&mut self, new_regex: CompiledPattern) -> (published: FilteredDirectory)
        ensures
            final(self)@ == after_re_filter(old(self)@, new_regex@),
            published@ == final(self)@,
    {
        self.filtered_directory.re_filter(new_regex);
        self.filtered_directory.clone()
    }
}

/// Where a continuous filter stands in its life.
#[derive(Debug, Clone, Copy, PartialEq, Eq, Structural)]
pub enum Lifecycle {
    /// Made, not yet started.
    Created,
    /// Started; the listeners take events.
    Running,
    /// Told to stop; a listener has yet to notice.
    Stopping,
    /// Told to stop, and both listeners have left.
    Stopped,
}

/// The two listeners of a continuous filter.
#[derive(Debug, Clone, Copy, PartialEq, Eq, Structural)]
pub enum Listener {
    /// Brings new search texts from the broker.
    Pattern,
    /// Brings changes of the tree.
    Tree,
}

/// The model of a continuous filter.
pub struct OrchestratorView {
    pub filtered: FilteredView,
    pub phase: Lifecycle,
    pub pattern_listener: bool,
    pub tree_listener: bool,
}

/// The phase once the stop flag is set: stopped when no listener is left.
pub open spec fn phase_when_stopping(pattern_listener: bool, tree_listener: bool) -> Lifecycle {
    if pattern_listener || tree_listener {
        Lifecycle::Stopping
    } else {
        Lifecycle::Stopped
    }
}

/// Whether the stop flag is set.
pub open spec fn is_stopping(phase: Lifecycle) -> bool {
    phase == Lifecycle::Stopping || phase == Lifecycle::Stopped
}

/// The state after `start`.
pub open spec fn after_start(state: OrchestratorView) -> OrchestratorView {
    if state.phase == Lifecycle::Created {
        OrchestratorView {
            filtered: after_run_filter(state.filtered),
            phase: Lifecycle::Running,
            pattern_listener: true,
            tree_listener: true,
        }
    } else {
        state
    }
}

/// The state after `start_found` with the match set `found`.
pub open spec fn after_start_found(state: OrchestratorView, found: Seq<Seq<char>>) -> OrchestratorView {
    if state.phase == Lifecycle::Created {
        OrchestratorView {
            filtered: adopted(state.filtered, state.filtered.pattern, found),
            phase: Lifecycle::Running,
            pattern_listener: true,
            tree_listener: true,
        }
    } else {
        state
    }
}

/// The state after the pattern listener brought a pattern compiled from
/// `text`, and the match set `found` under it.
pub open spec fn after_pattern_found(
    state: OrchestratorView,
    text: Seq<char>,
    found: Seq<Seq<char>>,
) -> OrchestratorView {
    if state.pattern_listener {
        OrchestratorView {
            filtered: adopted(state.filtered, text, found),
            phase: state.phase,
            pattern_listener: state.pattern_listener,
            tree_listener: state.tree_listener,
        }
    } else {
        state
    }
}

/// The state after the tree listener brought the changed tree, and the match
/// set `found` in it.
pub open spec fn after_tree_found(
    state: OrchestratorView,
    tree: crate::tree::Tree,
    found: Seq<Seq<char>>,
) -> OrchestratorView {
    if state.tree_listener {
        OrchestratorView {
            filtered: adopted(with_tree(state.filtered, tree), state.filtered.pattern, found),
            phase: state.phase,
            pattern_listener: state.pattern_listener,
            tree_listener: state.tree_listener,
        }
    } else {
        state
    }
}

/// The state after the pattern listener brought a pattern compiled from `text`.
pub open spec fn after_pattern(state: OrchestratorView, text: Seq<char>) -> OrchestratorView {
    if state.pattern_listener {
        OrchestratorView {
            filtered: after_re_filter(state.filtered, text),
            phase: state.phase,
            pattern_listener: state.pattern_listener,
            tree_listener: state.tree_listener,
        }
    } else {
        state
    }
}

/// The state after the tree listener brought the changed tree.
pub open spec fn after_tree_change(state: OrchestratorView, tree: crate::tree::Tree) -> OrchestratorView {
    if state.tree_listener {
        OrchestratorView {
            filtered: after_run_filter(with_tree(state.filtered, tree)),
            phase: state.phase,
            pattern_listener: state.pattern_listener,
            tree_listener: state.tree_listener,
        }
    } else {
        state
    }
}

/// The state after the listener `listener` left its loop.
pub open spec fn after_listener_left(state: OrchestratorView, listener: Listener) -> OrchestratorView {
    let pattern_listener = state.pattern_listener && listener != Listener::Pattern;
    let tree_listener = state.tree_listener && listener != Listener::Tree;
    OrchestratorView {
        filtered: state.filtered,
        phase: if is_stopping(state.phase) {
            phase_when_stopping(pattern_listener, tree_listener)
        } else {
            state.phase
        },
        pattern_listener,
        tree_listener,
    }
}

/// The state after the stop flag was set.
pub open spec fn after_stop(state: OrchestratorView) -> OrchestratorView {
    OrchestratorView {
        filtered: state.filtered,
        phase: phase_when_stopping(state.pattern_listener, state.tree_listener),
        pattern_listener: state.pattern_listener,
        tree_listener: state.tree_listener,
    }
}

/// The state after the pattern listener learnt that the broker is closed:
/// the stop flag is set and the listener leaves.
pub open spec fn after_broker_closed(state: OrchestratorView) -> OrchestratorView {
    if state.pattern_listener {
        after_listener_left(after_stop(state), Listener::Pattern)
    } else {
        state
    }
}

/// The state after the tree listener learnt that its source is closed: the
/// listener leaves, and the stop flag is left as it is.
pub open spec fn after_tree_source_closed(state: OrchestratorView) -> OrchestratorView {
    if state.tree_listener {
        after_listener_left(state, Listener::Tree)
    } else {
        state
    }
}

/// Whether the listener is in its loop.
pub open spec fn listener_runs(state: OrchestratorView, listener: Listener) -> bool {
    match listener {
        Listener::Pattern => state.pattern_listener,
        Listener::Tree => state.tree_listener,
    }
}

/// The state after a listener looked at the stop flag before waiting for its
/// next event: it leaves when the flag is set.
pub open spec fn after_listener_check(state: OrchestratorView, listener: Listener) -> OrchestratorView {
    if is_stopping(state.phase) {
        after_listener_left(state, listener)
    } else {
        state
    }
}

/// What the phase and the listeners of a state have to do with each other:
/// listeners run only after the start, and a stopped filter has none.
pub open spec fn consistent(state: OrchestratorView) -> bool {
    &&& state.phase == Lifecycle::Created ==> !state.pattern_listener && !state.tree_listener
    &&& state.phase == Lifecycle::Stopping ==> state.pattern_listener || state.tree_listener
    &&& state.phase == Lifecycle::Stopped ==> !state.pattern_listener && !state.tree_listener
}

/// The continuous filter: a filter, and the life cycle of its two listeners.
pub struct ContinuousFilter {
    actual_filter: Filter,
    phase: Lifecycle,
    pattern_listener: bool,
    tree_listener: bool,
}

impl View for ContinuousFilter {
    type V = OrchestratorView;

    closed spec fn view(&self) -> OrchestratorView {
        OrchestratorView {
            filtered: self.actual_filter@,
            phase: self.phase,
            pattern_listener: self.pattern_listener,
            tree_listener: self.tree_listener,
        }
    }
}

impl ContinuousFilter {
    /// A continuous filter over `directory`, not yet started. Its pattern is
    /// that of the empty text, which matches every file.
    pub fn new(directory: Directory) -> (filter: ContinuousFilter)
        ensures
            filter@ == (OrchestratorView {
                filtered: FilteredView {
                    tree: directory@,
                    pattern: Seq::empty(),
                    matches: Seq::empty(),
                },
                phase: Lifecycle::Created,
                pattern_listener: false,
                tree_listener: false,
            }),
    {
        ContinuousFilter {
            actual_filter: Filter::new(directory),
            phase: Lifecycle::Created,
            pattern_listener: false,
            tree_listener: false,
        }
    }

    /// Starts a filter that was not started before: the tree is scanned once
    /// and the snapshot is returned, to be published whatever it holds; from
    /// then on both listeners run. On a filter that was started, or stopped,
    /// before, nothing happens and `None` is returned.
    pub fn start(&mut self) -> (published: Option<FilteredDirectory>)
        ensures
            final(self)@ == after_start(old(self)@),
            match published {
                Some(snapshot) => old(self)@.phase == Lifecycle::Created && snapshot@ == final(self)@.filtered,
                None => old(self)@.phase != Lifecycle::Created,
            },
    {
        if self.phase == Lifecycle::Created {
            let changed = self.actual_filter.scan();
            self.phase = Lifecycle::Running;
            self.pattern_listener = true;
            self.tree_listener = true;
            match changed {
                Some(snapshot) => Some(snapshot),
                None => Some(self.actual_filter.filtered_directory().clone()),
            }
        } else {
            None
        }
    }

    /// As `start`, with the match set that a search of the caller has found.
    /// What is to be searched is what `search_for_scan` of the filtered view
    /// says.
    pub fn start_found(&mut self, file_matches: Vec<File>) -> (published: Option<FilteredDirectory>)
        ensures
            final(self)@ == after_start_found(old(self)@, paths_of(file_matches@)),
            match published {
                Some(snapshot) => old(self)@.phase == Lifecycle::Created && snapshot@ == final(self)@.filtered,
                None => old(self)@.phase != Lifecycle::Created,
            },
    {
        if self.phase == Lifecycle::Created {
            let changed = self.actual_filter.scan_found(file_matches);
            self.phase = Lifecycle::Running;
            self.pattern_listener = true;
            self.tree_listener = true;
            match changed {
                Some(snapshot) => Some(snapshot),
                None => Some(self.actual_filter.filtered_directory().clone()),
            }
        } else {
            None
        }
    }

    /// As `pattern_compiled`, with the match set that a search of the caller
    /// has found under the new pattern. What is to be searched is what
    /// `search_for` of the filtered view says of the new pattern.
    pub fn pattern_found(&mut self, new_regex: CompiledPattern, file_matches: Vec<File>) -> (published:
        Option<FilteredDirectory>)
        ensures
            final(self)@ == after_pattern_found(old(self)@, new_regex@, paths_of(file_matches@)),
            match published {
                Some(snapshot) => old(self)@.pattern_listener && snapshot@ == final(self)@.filtered,
                None => !old(self)@.pattern_listener,
            },
    {
        if self.pattern_listener {
            Some(self.actual_filter.rescan_found(new_regex, file_matches))
        } else {
            None
        }
    }

    /// As `tree_changed`, with the match set that a search of the caller has
    /// found in the new tree under the pattern of the filtered view.
    pub fn tree_found(&mut self, directory: Directory, file_matches: Vec<File>) -> (published: Option<
        FilteredDirectory,
    >)
        ensures
            final(self)@ == after_tree_found(old(self)@, directory@, paths_of(file_matches@)),
            match published {
                Some(snapshot) => {
                    &&& old(self)@.tree_listener
                    &&& snapshot@ == final(self)@.filtered
                    &&& final(self)@.filtered.matches != old(self)@.filtered.matches
                },
                None => final(self)@.filtered.matches == old(self)@.filtered.matches,
            },
    {
        if self.tree_listener {
            self.actual_filter.update_directory(directory);
            self.actual_filter.scan_found(file_matches)
        } else {
            None
        }
    }

    /// The pattern listener received a pattern: the view is filtered anew,
    /// and the snapshot is returned, to be published whether or not the match
    /// set changed. Without a running pattern listener nothing happens.
    pub fn pattern_compiled(&mut self, new_regex: CompiledPattern) -> (published: Option<
        FilteredDirectory,
    >)
        ensures
            final(self)@ == after_pattern(old(self)@, new_regex@),
            match published {
                Some(snapshot) => old(self)@.pattern_listener && snapshot@ == final(self)@.filtered,
                None => !old(self)@.pattern_listener,
            },
    {
        if self.pattern_listener {
            Some(self.actual_filter.rescan(new_regex))
        } else {
            None
        }
    }

    /// The pattern listener received a search text: its fuzzy pattern is
    /// compiled and the view is filtered anew, as in `pattern_compiled`. The
    /// text is taken exactly where there is a pattern for its fuzzy text:
    /// always for the empty search text, and for any other where the engine
    /// compiles the fuzzy text. Where there is none, the filter is left as
    /// it was, nothing is to be published, and the engine's reason is
    /// returned.
    pub fn pattern_changed(&mut self, filter_string: String) -> (outcome: Result<
        Option<FilteredDirectory>,
        CompileError,
    >)
        ensures
            match outcome {
                Ok(published) => {
                    &&& final(self)@ == after_pattern(old(self)@, fuzzy_text(filter_string@))
                    &&& match published {
                        Some(snapshot) => old(self)@.pattern_listener && snapshot@ == final(self)@.filtered,
                        None => !old(self)@.pattern_listener,
                    }
                },
                Err(_) => final(self)@ == old(self)@,
            },
            outcome is Ok <==> pattern_compiles(fuzzy_text(filter_string@)),
            filter_string@.len() == 0 ==> outcome is Ok,
    {
        proof {
            if filter_string@.len() == 0 {
                crate::regex_builder::lemma_empty_search_text_is_match_all(filter_string@);
            }
        }
        match RegexBuilder::new(filter_string).build() {
            Ok(new_regex) => Ok(self.pattern_compiled(new_regex)),
            Err(error) => Err(error),
        }
    }

    /// The pattern listener learnt that the broker is closed: the stop flag
    /// is set and the pattern listener leaves.
    pub fn broker_closed(&mut self)
        ensures
            final(self)@ == after_broker_closed(old(self)@),
    {
        if self.pattern_listener {
            self.pattern_listener = false;
            self.phase = stopping_phase(self.pattern_listener, self.tree_listener);
        }
    }

    /// The tree listener received a change: the new tree is scanned, and the
    /// snapshot is returned only when the match set changed. Without a
    /// running tree listener nothing happens.
    pub fn tree_changed(&mut self, directory: Directory) -> (published: Option<FilteredDirectory>)
        ensures
            final(self)@ == after_tree_change(old(self)@, directory@),
            match published {
                Some(snapshot) => {
                    &&& old(self)@.tree_listener
                    &&& snapshot@ == final(self)@.filtered
                    &&& final(self)@.filtered.matches != old(self)@.filtered.matches
                },
                None => final(self)@.filtered.matches == old(self)@.filtered.matches,
            },
    {
        if self.tree_listener {
            self.actual_filter.update_directory(directory);
            self.actual_filter.scan()
        } else {
            None
        }
    }

    /// The tree listener learnt that its source is closed: it leaves, and the
    /// stop flag is left as it is.
    pub fn tree_source_closed(&mut self)
        ensures
            final(self)@ == after_tree_source_closed(old(self)@),
    {
        if self.tree_listener {
            self.tree_listener = false;
            if self.is_stopping() {
                self.phase = stopping_phase(self.pattern_listener, self.tree_listener);
            }
        }
    }

    /// Sets the stop flag. A filter without running listeners is stopped at
    /// once; this holds of one that was never started too.
    pub fn stop(&mut self)
        ensures
            final(self)@ == after_stop(old(self)@),
    {
        self.phase = stopping_phase(self.pattern_listener, self.tree_listener);
    }

    /// A listener looks at the stop flag before it waits for its next event.
    /// It may go on while the flag is not set; once it is set the listener
    /// leaves, and the filter is stopped when the other has left too.
    pub fn listener_may_continue(&mut self, listener: Listener) -> (go_on: bool)
        ensures
            final(self)@ == after_listener_check(old(self)@, listener),
            go_on == (!is_stopping(old(self)@.phase) && listener_runs(old(self)@, listener)),
    {
        if self.is_stopping() {
            match listener {
                Listener::Pattern => {
                    self.pattern_listener = false;
                },
                Listener::Tree => {
                    self.tree_listener = false;
                },
            }
            self.phase = stopping_phase(self.pattern_listener, self.tree_listener);
            false
        } else {
            match listener {
                Listener::Pattern => self.pattern_listener,
                Listener::Tree => self.tree_listener,
            }
        }
    }

    /// Whether the stop flag is set.
    pub fn is_stopping(&self) -> (stopping: bool)
        ensures
            stopping == is_stopping(self@.phase),
    {
        self.phase == Lifecycle::Stopping || self.phase == Lifecycle::Stopped
    }

    /// Where the filter stands in its life.
    pub fn phase(&self) -> (phase: Lifecycle)
        ensures
            phase == self@.phase,
    {
        self.phase
    }

    /// The filtered view as it stands.
    pub fn filtered_directory(&self) -> (filtered: &FilteredDirectory)
        ensures
            filtered@ == self@.filtered,
    {
        self.actual_filter.filtered_directory()
    }

    /// Whether there is work at hand: a search text waits in the broker, or
    /// a scan is under way. Whether one is under way is known to whoever
    /// runs the scans, and is handed in.
    pub fn is_processing(broker: &FilterEventBroker, scan_in_progress: bool) -> (processing: bool)
        ensures
            processing == (broker@.queue.len() > 0 || scan_in_progress),
    {
        broker.has_pending_events() || scan_in_progress
    }
}

/// The phase once the stop flag is set.
fn stopping_phase(pattern_listener: bool, tree_listener: bool) -> (phase: Lifecycle)
    ensures
        phase == phase_when_stopping(pattern_listener, tree_listener),
{
    if pattern_listener || tree_listener {
        Lifecycle::Stopping
    } else {
        Lifecycle::Stopped
    }
}

/// The steps that search by themselves are the steps that take what was
/// found, where what was found is what a search without workers finds.
pub proof fn lemma_steps_by_search(state: OrchestratorView, text: Seq<char>, tree: crate::tree::Tree)
    ensures
        after_start(state) == after_start_found(
            state,
            found_in_order(
                state.filtered,
                search_of_scan(state.filtered.pattern),
                state.filtered.pattern,
            ),
        ),
        after_pattern(state, text) == after_pattern_found(
            state,
            text,
            found_in_order(state.filtered, search_of_step(state.filtered, text), text),
        ),
        after_tree_change(state, tree) == after_tree_found(
            state,
            tree,
            found_in_order(
                with_tree(state.filtered, tree),
                search_of_scan(state.filtered.pattern),
                state.filtered.pattern,
            ),
        ),
{
}

/// An orderly shutdown. On a running filter, once the broker is closed, the
/// stop flag is set, and the tree listener has looked at the flag or found
/// its source closed, the filter is stopped and no listener is left.
pub proof fn lemma_shutdown_stops_both_listeners(state: OrchestratorView)
    requires
        state.phase == Lifecycle::Running,
    ensures
        after_stop(after_broker_closed(state)).phase == phase_when_stopping(
            false,
            state.tree_listener,
        ),
        after_listener_check(after_stop(after_broker_closed(state)), Listener::Tree).phase
            == Lifecycle::Stopped,
        after_tree_source_closed(after_stop(after_broker_closed(state))).phase
            == Lifecycle::Stopped,
        !after_listener_check(
            after_stop(after_broker_closed(state)),
            Listener::Tree,
        ).pattern_listener,
        !after_listener_check(after_stop(after_broker_closed(state)), Listener::Tree).tree_listener,
{
}

/// Every step keeps phase and listeners consistent.
pub proof fn lemma_steps_keep_consistency(
    state: OrchestratorView,
    text: Seq<char>,
    tree: crate::tree::Tree,
    found: Seq<Seq<char>>,
    listener: Listener,
)
    requires
        consistent(state),
    ensures
        consistent(after_start(state)),
        consistent(after_pattern(state, text)),
        consistent(after_tree_change(state, tree)),
        consistent(after_start_found(state, found)),
        consistent(after_pattern_found(state, text, found)),
        consistent(after_tree_found(state, tree, found)),
        consistent(after_broker_closed(state)),
        consistent(after_tree_source_closed(state)),
        consistent(after_stop(state)),
        consistent(after_listener_check(state, listener)),
{
}

/// The stop flag, once set, stays set.
pub proof fn lemma_stopping_is_final(
    state: OrchestratorView,
    text: Seq<char>,
    tree: crate::tree::Tree,
    found: Seq<Seq<char>>,
    listener: Listener,
)
    requires
        is_stopping(state.phase),
    ensures
        is_stopping(after_start(state).phase),
        is_stopping(after_pattern(state, text).phase),
        is_stopping(after_tree_change(state, tree).phase),
        is_stopping(after_start_found(state, found).phase),
        is_stopping(after_pattern_found(state, text, found).phase),
        is_stopping(after_tree_found(state, tree, found).phase),
        is_stopping(after_broker_closed(state).phase),
        is_stopping(after_tree_source_closed(state).phase),
        is_stopping(after_stop(state).phase),
        is_stopping(after_listener_check(state, listener).phase),
{
}

} // verus!
