pub mod aact;
pub mod clas;
pub mod glob;
pub mod gmst;
pub mod header;
pub mod kywd;
pub mod lcrt;
pub mod record;
pub mod tes4;
pub mod txst;
