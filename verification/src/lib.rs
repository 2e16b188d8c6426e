//! Logic behind a set of interactive widget test panels: a bounded,
//! deduplicating event history, the textual summary of a pointer
//! interaction, and the texts that fill the table and resize panels.

pub mod decimal;
pub mod history;
pub mod laws;
pub mod panels;
pub mod summary;
pub mod table;
pub mod text;

pub use history::{DeduplicatedHistory, HistoryEntry, Row, CAPACITY};
pub use panels::{CursorTest, IdTest, InputTest, WindowResizeTest};
pub use summary::{response_summary, ButtonEvents, Interaction, PointerButton};
