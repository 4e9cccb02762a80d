//! Reconciles open pull requests with the tracker records their titles name.
//!
//! The library decides: which record a title names, which workflow status a
//! pull request's labels ask for, which fields of the record must change, and
//! what to do next while a pull request is synchronised. Network access,
//! notifications and configuration files are left to the caller.

pub mod aha;
pub mod github;
pub mod keys;
pub mod labels;
pub mod options;
pub mod patch;
