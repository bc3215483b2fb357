use vstd::prelude::*;

use crate::il2cpp::generic::Il2CppGenericContext;

verus! {

/// What the library reads of a runtime class: its address and, for a class
/// instantiated from a generic definition, the generic class record.
#[derive(Clone)]
pub struct Il2CppClass {
    pub address: usize,
    pub generic_class: Option<Il2CppGenericClass>,
}

/// The record of an instantiated generic class: the context (type
/// arguments) it was instantiated with.
#[derive(Clone)]
pub struct Il2CppGenericClass {
    pub context: Il2CppGenericContext,
}

} // verus!
