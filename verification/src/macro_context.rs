//! The items that generated code refers to.
pub use crate::il2cpp::class::Il2CppClass;
pub use crate::il2cpp::method::MethodInfo;
