//! The workbench UI: territories and their borders.
pub mod territory;
