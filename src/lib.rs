//! Admission rule that gives run-once Pods an active deadline.
//!
//! A Pod whose restart policy is `OnFailure` or `Never` and whose
//! `activeDeadlineSeconds` is unset or zero gets a deadline: the value of its
//! namespace's override annotation when that parses as an integer, else the
//! configured default. Every other object is let through unchanged.
pub mod decimal;
pub mod laws;
pub mod model;
pub mod namespace;
pub mod policy;
pub mod settings;
