//! Retention-tag computation and backup-pipeline planning.
//!
//! The library decides which periodic-retention tags (nightly, weekly,
//! monthly, quarterly, yearly, always the baseline `standard`) apply at a
//! given moment, serializes the resulting tag set as the object-store wire
//! document, and plans the command sequences of the two backup pipelines
//! (a streamed single-object export and a distributed multi-object raw
//! backup), including the decisions taken on each external outcome.

pub mod tags;
pub mod text;
pub mod catalog;
pub mod evaluate;
pub mod wire;
pub mod commands;
pub mod listing;
pub mod pipeline;
