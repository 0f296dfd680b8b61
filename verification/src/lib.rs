//! An interactive batch cleaner for requested media items.
//!
//! The library holds the verified core of the tool: merging partial records
//! from several unreliable data sources into one collection of complete
//! items, a two-stage disclosure of the failures met on the way, validation
//! of the operator's selection, and a batch deletion that removes items by
//! descending index so that every pending index stays valid.
//!
//! All input and output (terminal prompts, the selection widget, the calls
//! that actually reach the backend services) live outside the library and
//! hand it plain values.

pub mod deletion;
pub mod disclosure;
pub mod errors;
pub mod flow;
pub mod gather;
pub mod media;
pub mod selection;
