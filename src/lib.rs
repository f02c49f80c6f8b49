//! File analysis: recognising container formats from their entry lists and
//! building inventories of ZIP and RAR archives.

pub mod entry;
pub mod file;
pub mod rar;
pub mod registry;
pub mod render;
pub mod report;
pub mod sniff;
pub mod text;
pub mod zip;
