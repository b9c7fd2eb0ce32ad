//! Building blocks for interactive pickers: filters, sorters, scorers and
//! actions that combine over one shared entry type, a fuzzy scorer, a
//! frecency sorter, and the session of a terminal picker that follows its
//! selection by identity while the list under it is filtered and merged.

pub mod action;
pub mod buffer;
pub mod closure;
pub mod filter;
pub mod frecency;
pub mod keys;
pub mod nucleo;
pub mod scorer;
pub mod scroll;
pub mod sorter;
pub mod ui;
