use vstd::prelude::*;

use crate::il2cpp::method::MethodInfo;

verus! {

/// A method instantiated from a generic definition, with the context of its
/// type arguments.
pub struct Il2CppGenericMethod {
    pub method_definition: MethodInfo,
    pub generic_context: Il2CppGenericContext,
}

/// The type arguments of a generic class and of a generic method.
#[derive(Clone)]
pub struct Il2CppGenericContext {
    pub class_inst: Option<Il2CppGenericInst>,
    pub method_inst: Option<Il2CppGenericInst>,
}

/// A list of type arguments: a count, and the addresses of the types.
#[derive(Clone)]
pub struct Il2CppGenericInst {
    pub type_argc: u32,
    pub type_argv: Vec<usize>,
}

impl Il2CppGenericInst {
    /// The type arguments, as many as the count says.
    pub fn get_types(&self) -> (res: &[usize])
        requires
            self.type_argc <= self.type_argv@.len(),
        ensures
            res@ == self.type_argv@.take(self.type_argc as int),
    {
        vstd::slice::slice_subrange(self.type_argv.as_slice(), 0, self.type_argc as usize)
    }
}

/// The generic parameters that a generic type or method declares.
#[derive(Clone, Copy)]
pub struct Il2CppGenericContainer {
    pub owner: i32,
    pub type_argc: i32,
    pub is_method: i32,
    pub generic_parameter_start: i32,
}

/// The class type arguments that an instantiation of `method_info` carries:
/// none unless bit 1 of its bit flags is set; then those of the context of
/// its class's generic record, where there is one.
pub open spec fn spec_generic_class_inst(method_info: MethodInfo) -> Option<Il2CppGenericInst> {
    if method_info.bitflags & 2 == 0 {
        None
    } else {
        match method_info.class {
            Some(klass) => match klass.generic_class {
                Some(generic_class) => generic_class.context.class_inst,
                None => None,
            },
            None => None,
        }
    }
}

/// The class instance that a method record yields, read off its fields: the
/// context's class instance of its class's generic record when bit 1 (value
/// 2) of its bit flags is set, whatever its other bits; none otherwise.
pub open spec fn class_inst_by_fields(m: MethodInfo) -> Option<Il2CppGenericInst> {
    if m.bitflags & 2 != 0 && m.class is Some && m.class->0.generic_class is Some {
        m.class->0.generic_class->0.context.class_inst
    } else {
        None
    }
}

/// Law: bit 1 of the bit flags alone decides whether the class instance is
/// passed: with it set (any other bits set or not) and a generic class
/// record present, the instance is that record's context class instance;
/// with it clear, or without a class or generic record, there is none.
pub proof fn law_class_inst_follows_bit_one(m: MethodInfo)
    ensures
        m.bitflags & 2 == 0 ==> spec_generic_class_inst(m) is None,
        m.class is None ==> spec_generic_class_inst(m) is None,
        (m.class is Some && m.class->0.generic_class is None) ==> spec_generic_class_inst(m) is None,
        (m.bitflags & 2 != 0 && m.class is Some && m.class->0.generic_class is Some)
            ==> spec_generic_class_inst(m) == m.class->0.generic_class->0.context.class_inst,
        (m.bitflags == 2 || m.bitflags == 3 || m.bitflags == 6 || m.bitflags == 0xFF) && m.class is Some
            && m.class->0.generic_class is Some ==> spec_generic_class_inst(m)
            == m.class->0.generic_class->0.context.class_inst,
{
    assert(2u8 & 2 != 0 && 3u8 & 2 != 0 && 6u8 & 2 != 0 && 0xFFu8 & 2 != 0) by (bit_vector);
}

/// The class type arguments with which a generic instantiation of
/// `method_info` is created.
pub fn generic_class_inst(method_info: &MethodInfo) -> (res: Option<&Il2CppGenericInst>)
    ensures
        res is Some <==> spec_generic_class_inst(*method_info) is Some,
        res matches Some(inst) ==> *inst == spec_generic_class_inst(*method_info).unwrap(),
        res is Some <==> class_inst_by_fields(*method_info) is Some,
        res matches Some(inst) ==> *inst == class_inst_by_fields(*method_info).unwrap(),
        method_info.bitflags & 2 == 0 ==> res is None,
        (method_info.bitflags & 2 != 0 && method_info.class is Some
            && method_info.class->0.generic_class is Some
            && method_info.class->0.generic_class->0.context.class_inst is Some) ==> res is Some
            && *res->0 == method_info.class->0.generic_class->0.context.class_inst->0,
{
    if method_info.bitflags & 2 == 0 {
        None
    } else {
        match &method_info.class {
            Some(klass) => match &klass.generic_class {
                Some(generic_class) => match &generic_class.context.class_inst {
                    Some(inst) => Some(inst),
                    None => None,
                },
                None => None,
            },
            None => None,
        }
    }
}

/// An instantiation of a generic method to create in the runtime: a generic
/// instance is made of `method_types`, a generic method of the definition
/// with the class and method instances, and from it a method record with
/// the creation flags `flags`.
pub struct GenericMethodRequest<'a> {
    pub method_definition: &'a MethodInfo,
    pub class_inst: Option<&'a Il2CppGenericInst>,
    pub method_types: &'a [usize],
    pub flags: i32,
}

/// What instantiating the generic method `method_info` with the type
/// arguments `types` asks of the runtime.
pub fn create_generic_method_info<'a>(method_info: &'a MethodInfo, types: &'a [usize]) -> (res:
    GenericMethodRequest<'a>)
    ensures
        *res.method_definition == *method_info,
        res.class_inst is Some <==> spec_generic_class_inst(*method_info) is Some,
        res.class_inst matches Some(inst) ==> *inst == spec_generic_class_inst(*method_info).unwrap(),
        method_info.bitflags & 2 == 0 ==> res.class_inst is None,
        (method_info.bitflags & 2 != 0 && method_info.class is Some
            && method_info.class->0.generic_class is Some) ==> (res.class_inst is Some
            <==> method_info.class->0.generic_class->0.context.class_inst is Some),
        (method_info.bitflags & 2 != 0 && method_info.class is Some
            && method_info.class->0.generic_class is Some
            && method_info.class->0.generic_class->0.context.class_inst is Some) ==> res.class_inst
            is Some && *res.class_inst->0 == method_info.class->0.generic_class->0.context.class_inst->0,
        res.method_types@ == types@,
        res.flags == 0,
{
    GenericMethodRequest {
        method_definition: method_info,
        class_inst: generic_class_inst(method_info),
        method_types: types,
        flags: 0,
    }
}

} // verus!
