//! The decision logic of FileFloat, a floating desktop file-search widget:
//! where the floating window docks, hides and reappears at the screen edges,
//! how it expands into a search panel and collapses back, and how search
//! results from the Everything engine, the Windows index and the file system
//! are read, named and classified.

pub mod geometry;
pub mod runtime;
pub mod text;
pub mod json;
pub mod search;
pub mod queries;
pub mod shell;
