//! A flexible alternative to the iterator `enumerate` pattern: wrap any lazy
//! sequence so that it yields `(index, value)` pairs, where the index type,
//! its start value and its step are all chosen by the caller.
//!
//! The three entry points live on [`IndexerIterator`], which every
//! [`LazySequence`] implements:
//!  * `index::<T>()` counts from zero in steps of one,
//!  * `index_start::<T>(start)` counts from `start` in steps of one,
//!  * `index_step::<T>(start, step)` counts from `start` in steps of `step`.

mod index_types;
mod indexer;
mod laws;
mod sequence;

pub use index_types::IndexArith;
pub use index_types::IndexDefaults;
pub use index_types::IndexType;

pub use sequence::DoubleEndedLazySequence;
pub use sequence::ExactLazySequence;
pub use sequence::LazySequence;
pub use sequence::VecSource;

pub use indexer::IndexConversionError;
pub use indexer::Indexer;
pub use indexer::IndexerIterator;

pub use laws::back_emissions;
pub use laws::front_emissions;
pub use laws::lemma_back_emissions_at;
pub use laws::lemma_back_emissions_len;
pub use laws::lemma_front_emissions_len;
pub use laws::lemma_front_emissions_step;
pub use laws::lemma_reverse_symmetry;
pub use laws::lemma_sequencing;
pub use laws::lemma_skip_equivalence;
pub use laws::lemma_state_after;
pub use laws::state_after;
