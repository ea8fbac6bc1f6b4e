//! The scan results shown in tabs, one tab for each group.

pub mod message;
pub mod table;
pub mod tabs;
