//! Continuous fuzzy filtering of a directory tree: the files whose path
//! matches a search text, kept up to date while the text and the tree change.
//!
//! The parts, leaves first:
//!
//! - [`tree`]: files and directories, and their model.
//! - [`pattern`]: compiled patterns. Matching is the work of a
//!   regular-expression engine; what the engine answers is named, not
//!   defined, and everything else is stated over that name.
//! - [`regex_builder`]: the fuzzy pattern of a search text.
//! - [`collector`] and [`matchers`]: the walk of a tree, or of a flat list,
//!   under a pattern.
//! - [`simple_filter`]: the plain recursive matcher.
//! - [`filtered_directory`]: a tree, a pattern and the current match set,
//!   with the full scan and the additive step.
//! - [`filter_event_broker`]: the queue of search texts, which hands out
//!   only the latest of a burst.
//! - [`continuous_filter`]: the filter proper and the life cycle of its
//!   listeners.
//!
//! Nothing in this library waits, locks or starts a thread. Where a program
//! would wait, a function returns and says so; the program waits and calls
//! again. Where a program searches with workers, the library says what is to
//! be searched and takes what was found.

pub mod collector;
pub mod continuous_filter;
pub mod filter_event_broker;
pub mod filtered_directory;
pub mod matchers;
pub mod pattern;
pub mod regex_builder;
pub mod simple_filter;
pub mod tree;

pub use collector::Collector;
pub use continuous_filter::{ContinuousFilter, Filter, Lifecycle, Listener};
pub use filter_event_broker::{BrokerClosed, FilterEventBroker};
pub use filtered_directory::{FilteredDirectory, FilteredDirectoryIntoIterator, Search};
pub use matchers::max_concurrency_reached;
pub use pattern::{CompileError, CompiledPattern};
pub use regex_builder::RegexBuilder;
pub use simple_filter::SimpleFilter;
pub use tree::{Directory, File};
