//! The decisions of a reconcile pass: what each custom resource should own,
//! and what it reports.
pub mod cluster;
pub mod encryption;
pub mod networking;
pub mod ops;
pub mod owner;
pub mod ownership;
pub mod pass;
pub mod single;
