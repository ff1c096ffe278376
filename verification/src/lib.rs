//! Export scheduling and export preparation for typst documents.
//!
//! The library decides when an export task has to run, reads the page
//! selection and merge gap that an export task asks for, parses fill colors
//! and creation timestamps, and drives the typst exporters.

pub mod timing;
pub mod length;
pub mod typst_types;
pub mod transform;
pub mod color;
pub mod text;
pub mod datetime;
pub mod compute;
pub mod project;
