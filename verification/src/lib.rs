//! Verified core of a library for working with Il2Cpp runtime structures:
//! string transcoding, method metadata, generic instantiation contexts,
//! delegate construction requests and the attribute grammar of the
//! class-method generator.
pub mod class_method;
pub mod il2cpp;
pub mod macro_context;
pub mod system;
