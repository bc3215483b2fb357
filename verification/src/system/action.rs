//! Delegates of the runtime. Bringing one into being takes two runtime
//! operations, an instantiation of its class and a run of its constructor;
//! the functions here decide what those operations are given.
use std::marker::PhantomData;
use vstd::prelude::*;

use crate::il2cpp::method::{is_bare_method, MethodInfo};

verus! {

/// `System.Delegate`.
pub struct Delegate<T> {
    pub method_ptr: usize,
    pub invoke_impl: usize,
    pub target: Option<usize>,
    pub method: usize,
    pub target_type: PhantomData<T>,
}

/// `System.MulticastDelegate`: a delegate and the delegates it chains.
pub struct MulticastDelegate<T> {
    pub parent: Delegate<T>,
    pub delegates: Vec<Delegate<T>>,
}

/// `System.Action`: calls a method on a target object, with no argument.
pub struct Action {
    pub method_ptr: usize,
    pub invoke_impl: usize,
    pub target_obj: usize,
    pub method: Option<MethodInfo>,
}

/// `System.Action`1`: calls a method on a target object with one argument.
pub struct Action1<A> {
    pub method_ptr: usize,
    pub invoke_impl: usize,
    pub target_obj: usize,
    pub method: usize,
    pub phantom: PhantomData<A>,
}

/// `System.Func`1`: calls a method on a target object and returns its result.
pub struct Func<T, R> {
    pub method_ptr: usize,
    pub invoke_impl: usize,
    pub target: Option<usize>,
    pub method: usize,
    pub delegates: Vec<Delegate<T>>,
    pub phantom: PhantomData<R>,
}

/// `System.Func`2`: as [`Func`], with one argument.
pub struct Func1<T, A, R> {
    pub method_ptr: usize,
    pub invoke_impl: usize,
    pub target: Option<usize>,
    pub method: usize,
    pub delegates: Vec<Delegate<T>>,
    pub phantom1: PhantomData<A>,
    pub phantom2: PhantomData<R>,
}

/// The class of a delegate to create, with the class that instantiates its
/// generic parameter.
pub enum DelegateClass {
    /// `System.Action`.
    Action,
    /// `System.Action`1` over the argument class.
    Action1(usize),
    /// `System.Func`1` over the result class.
    Func(usize),
}

impl DelegateClass {
    /// The namespace of the class.
    pub fn namespace(&self) -> (res: &'static str)
        ensures
            res@ == "System"@,
    {
        "System"
    }

    /// The name of the class (of its generic definition, for a generic one).
    pub fn name(&self) -> (res: &'static str)
        ensures
            res@ == (match self {
                DelegateClass::Action => "Action"@,
                DelegateClass::Action1(_) => "Action`1"@,
                DelegateClass::Func(_) => "Func`1"@,
            }),
    {
        match self {
            DelegateClass::Action => "Action",
            DelegateClass::Action1(_) => "Action`1",
            DelegateClass::Func(_) => "Func`1",
        }
    }

    /// The class that instantiates the generic parameter, if the class is
    /// generic.
    pub fn generic_argument(&self) -> (res: Option<usize>)
        ensures
            res == (match self {
                DelegateClass::Action => None,
                DelegateClass::Action1(a) => Some(*a),
                DelegateClass::Func(r) => Some(*r),
            }),
    {
        match self {
            DelegateClass::Action => None,
            DelegateClass::Action1(a) => Some(*a),
            DelegateClass::Func(r) => Some(*r),
        }
    }
}

/// A delegate to create: an instance of `class`, whose constructor is run
/// with the target object and the method record.
pub struct DelegateInit {
    pub class: DelegateClass,
    pub target: Option<usize>,
    pub method_info: MethodInfo,
}

impl Action {
    /// An action that calls the function at `method` on `target`: its
    /// method record holds that pointer and no parameter.
    pub fn new(target: Option<usize>, method: usize) -> (res: DelegateInit)
        ensures
            res.class == DelegateClass::Action,
            res.target == target,
            is_bare_method(res.method_info, method, 0),
    {
        let mut method_info = MethodInfo::new();
        method_info.method_ptr = method;
        method_info.parameters_count = 0;
        DelegateInit { class: DelegateClass::Action, target, method_info }
    }

    /// An action that calls the method of `method_info` on `target`.
    pub fn new_from_method_info(target: Option<usize>, method_info: MethodInfo) -> (res: DelegateInit)
        ensures
            res.class == DelegateClass::Action,
            res.target == target,
            res.method_info == method_info,
    {
        DelegateInit { class: DelegateClass::Action, target, method_info }
    }

    /// The method that invoking the action calls: entry 1 of the methods of
    /// its class. It is called with the action and this record.
    pub fn invoke<'a>(&self, class_methods: &'a [MethodInfo]) -> (res: &'a MethodInfo)
        requires
            class_methods@.len() > 1,
        ensures
            *res == class_methods@[1],
    {
        &class_methods[1]
    }
}

impl<A> Action1<A> {
    /// An action over `A` (whose class is `arg_class`) that calls the
    /// function at `method` on `object`: its method record holds that
    /// pointer and one parameter.
    pub fn new_with_method(object: Option<usize>, method: usize, arg_class: usize) -> (res: DelegateInit)
        ensures
            res.class == DelegateClass::Action1(arg_class),
            res.target == object,
            is_bare_method(res.method_info, method, 1),
    {
        let mut method_info = MethodInfo::new();
        method_info.method_ptr = method;
        method_info.parameters_count = 1;
        DelegateInit { class: DelegateClass::Action1(arg_class), target: object, method_info }
    }

    /// An action over `A` (whose class is `arg_class`) that calls the method
    /// of `method_info` on `object`.
    pub fn new(object: Option<usize>, method_info: MethodInfo, arg_class: usize) -> (res: DelegateInit)
        ensures
            res.class == DelegateClass::Action1(arg_class),
            res.target == object,
            res.method_info == method_info,
    {
        DelegateInit { class: DelegateClass::Action1(arg_class), target: object, method_info }
    }

    /// The code that invoking the action runs: the method pointer of entry 1
    /// of the methods of its class, called with the action, the argument and
    /// no method record.
    pub fn invoke(&self, class_methods: &[MethodInfo]) -> (res: usize)
        requires
            class_methods@.len() > 1,
        ensures
            res == class_methods@[1].method_ptr,
    {
        class_methods[1].method_ptr
    }
}

impl<T, R> Func<T, R> {
    /// A function delegate returning `R` (whose class is `ret_class`) that
    /// calls the method of `method_info` on `object`.
    pub fn new(object: Option<usize>, method_info: MethodInfo, ret_class: usize) -> (res: DelegateInit)
        ensures
            res.class == DelegateClass::Func(ret_class),
            res.target == object,
            res.method_info == method_info,
    {
        DelegateInit { class: DelegateClass::Func(ret_class), target: object, method_info }
    }

    /// The code that invoking the delegate runs: the method pointer of entry
    /// 1 of the methods of its class, called with the delegate and no method
    /// record.
    pub fn invoke(&self, class_methods: &[MethodInfo]) -> (res: usize)
        requires
            class_methods@.len() > 1,
        ensures
            res == class_methods@[1].method_ptr,
    {
        class_methods[1].method_ptr
    }
}

} // verus!
