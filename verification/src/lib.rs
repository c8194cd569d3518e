//! Verified core of a task-explorer dashboard for a zero-knowledge proof
//! service.
//!
//! The library holds the logic that the dashboard's user interface renders:
//! domain records (tasks, prover nodes, proof rounds, users, images), the
//! formatting utilities that turn their fields into display text, the tagged
//! cell model that drives generic tables and cards, the pagination
//! controller, and the search-query classifier.  Network fetching and the
//! HTML layer live outside the library and exchange plain values with it.

pub mod card;
pub mod codec;
pub mod config;
pub mod entry;
pub mod lebytes;
pub mod node_details;
pub mod pagination;
pub mod records;
pub mod search;
pub mod strutil;
pub mod table;
pub mod task;
pub mod time;

pub use strutil::shorten_address;
pub use strutil::shorten_md5;
pub use strutil::u64_to_string;
pub use strutil::UnwrapOrNA;
