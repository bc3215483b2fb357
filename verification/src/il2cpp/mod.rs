pub mod class;
pub mod generic;
pub mod method;
