pub mod common;
pub mod header;
pub mod subrecord;
