//! A cancellable, generation-sequenced search pipeline for a directory of
//! plain-text notes.
//!
//! The library accepts a stream of queries, runs a two-phase
//! listing-then-matching pass over a set of files, supersedes stale in-flight
//! runs through a shared generation counter, and hands the finished (possibly
//! partial) result list back to a consumer tagged with its generation.
//!
//! Directory traversal, file reading and file-change notification are outside
//! capabilities: a caller enumerates the files and their contents and feeds
//! them in as plain values; everything the pipeline decides about them is
//! verified.

pub mod dispatch;
pub mod generation;
pub mod note;
pub mod pattern;
pub mod search;
pub mod sorting;
pub mod worker;
