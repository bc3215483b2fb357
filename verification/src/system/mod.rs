pub mod action;
pub mod string;
