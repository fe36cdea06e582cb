//! A fixed-capacity history buffer: it keeps the `N` most recently written
//! values and overwrites the oldest one on every write once it is full.
pub mod model;
pub mod history_buffer;
pub mod laws;

pub use history_buffer::HistoryBuffer;
pub use model::HistoryView;
