//! A content-inspection engine for text messages.
//!
//! An engine holds an ordered list of rule groups. To evaluate a payload it
//! folds the case once and scans the groups in priority order. The first
//! pattern found in the folded payload decides: allow, drop, or redact with
//! a fixed replacement.

pub mod text;
pub mod verdict;
pub mod rules;
pub mod laws;
pub mod engine;
