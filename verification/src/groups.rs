pub mod group;
pub mod header;
