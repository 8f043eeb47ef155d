pub mod changes;
pub mod error;
pub mod pipeline;
pub mod prompt;
pub mod response;
pub mod text;

pub use changes::{DiffCollector, GitDiff, ToolOutcome};
pub use error::ReviewError;
pub use pipeline::{CodeReviewer, Event, Outcome, Stage};
pub use response::HttpOutcome;

