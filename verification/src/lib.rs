//! Orchestration of a CityJSON validation run.
//!
//! A run gathers the Extension schemas a dataset needs, puts the dataset
//! through a fixed sequence of stages that stops at the first one to report
//! an error, and ends in a verdict. This crate decides what is to be done
//! next and what the answers amount to, and renders the report; disk and
//! network are left to the caller.

pub mod acquisition;
pub mod extension;
pub mod json;
pub mod laws;
pub mod pipeline;
pub mod report;
pub mod stage;
pub mod text;
pub mod validator;
pub mod verdict;
