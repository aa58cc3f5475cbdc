//! Task prioritization and dynamic reward engine.
//!
//! The library scores pending tasks by urgency, narrows them to a short
//! candidate list, converts a monthly budget into a per-task bounty, and
//! drives the show / select / archive-or-reschedule lifecycle over an
//! append-only funds ledger.  All amounts of money are held in cents and all
//! points in time as Unix-epoch seconds; urgency scores are exact rationals.
//! Storage and terminal I/O live outside the library and hand plain values
//! in and out.

pub mod clock;
pub mod errors;
pub mod finance;
pub mod folders;
pub mod ledger;
pub mod lifecycle;
pub mod prompt;
pub mod selector;
pub mod tasks;
pub mod weighting;

pub use errors::EngineError;
pub use folders::Folder;
pub use folders::ParseStyleError;
pub use folders::Style;
pub use ledger::Ledger;
pub use ledger::Transaction;
pub use lifecycle::AppState;
pub use lifecycle::Disposition;
pub use lifecycle::startup;
pub use selector::Ranking;
pub use tasks::Priority;
pub use tasks::Task;
pub use weighting::Weight;
pub use weighting::calculate_weight;
