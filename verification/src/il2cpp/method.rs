use vstd::prelude::*;
use vstd::utf8::*;

use crate::il2cpp::class::Il2CppClass;

verus! {

/// An optional reference to a method record, as hooked methods receive it.
pub type OptionalMethod = Option<&'static MethodInfo>;

/// A method record that holds nothing but a method pointer and a parameter
/// count: every other address null, every other number zero, no name, class
/// or parameter records.
pub open spec fn is_bare_method(m: MethodInfo, method_ptr: usize, parameters_count: u8) -> bool {
    &&& m.method_ptr == method_ptr
    &&& m.parameters_count == parameters_count
    &&& m.invoker_method == 0
    &&& m.name is None
    &&& m.class is None
    &&& m.return_type == 0
    &&& m.parameters@.len() == 0
    &&& m.info_or_definition == 0
    &&& m.generic_method_or_container == 0
    &&& m.token == 0
    &&& m.flags == 0
    &&& m.iflags == 0
    &&& m.slot == 0
    &&& m.bitflags == 0
}

/// A name as a C string gives it: absent, or bytes none of which is NUL.
pub open spec fn is_c_string_name(name: Option<Vec<u8>>) -> bool {
    name matches Some(bytes) ==> forall|i: int| 0 <= i < bytes@.len() ==> #[trigger] bytes@[i] != 0
}

/// Reflection information of a method. Addresses are kept as integers; the
/// name is held as the bytes of its C string before the terminating NUL
/// (`None` for a null name; a name read from the runtime holds no NUL, see
/// `is_c_string_name`), and the parameters as the records the parameter pointer
/// designates.
#[derive(Clone)]
pub struct MethodInfo {
    pub method_ptr: usize,
    pub invoker_method: usize,
    pub name: Option<Vec<u8>>,
    pub class: Option<Il2CppClass>,
    pub return_type: usize,
    pub parameters: Vec<ParameterInfo>,
    pub info_or_definition: usize,
    pub generic_method_or_container: usize,
    pub token: u32,
    pub flags: u16,
    pub iflags: u16,
    pub slot: u16,
    pub parameters_count: u8,
    pub bitflags: u8,
}

/// Reflection information of a method parameter; the name as in
/// [`MethodInfo`] (see `is_c_string_name`), the type by its address.
#[derive(Clone)]
pub struct ParameterInfo {
    pub name: Option<Vec<u8>>,
    pub position: i32,
    pub token: u32,
    pub parameter_type: usize,
}

/// The text that `String::from_utf8_lossy` makes of `bytes`.
pub uninterp spec fn utf8_lossy(bytes: Seq<u8>) -> Seq<char>;

/// Calls `String::from_utf8_lossy` and turns the result into a `String`.
/// Stated: the result is `utf8_lossy` of the bytes, and valid UTF-8 comes
/// back decoded unchanged. Not stated: which replacement characters stand
/// for invalid sequences.
#[verifier::external_body]
fn string_from_utf8_lossy(bytes: &[u8]) -> (res: String)
    ensures
        res@ == utf8_lossy(bytes@),
        valid_utf8(bytes@) ==> res@ == decode_utf8(bytes@),
{
    String::from_utf8_lossy(bytes).to_string()
}

/// A name read from its C string bytes.
fn name_of(name: &Option<Vec<u8>>) -> (res: Option<String>)
    ensures
        res is Some <==> name is Some,
        res matches Some(s) ==> s@ == utf8_lossy(name->0@),
        res matches Some(s) ==> valid_utf8(name->0@) ==> s@ == decode_utf8(name->0@),
{
    match name {
        Some(bytes) => Some(string_from_utf8_lossy(bytes.as_slice())),
        None => None,
    }
}

impl MethodInfo {
    /// `base` with its invoker cleared and its token, flags, slot and bit
    /// flags zeroed.
    pub open spec fn spec_new_from(base: MethodInfo) -> MethodInfo {
        MethodInfo { invoker_method: 0, bitflags: 0, flags: 0, iflags: 0, slot: 0, token: 0, ..base }
    }

    /// A method record with every address null, every number zero, no
    /// name, no class and no parameters.
    pub fn new() -> (res: Self)
        ensures
            is_bare_method(res, 0, 0),
    {
        Self {
            method_ptr: 0,
            invoker_method: 0,
            name: None,
            class: None,
            return_type: 0,
            parameters: Vec::new(),
            info_or_definition: 0,
            generic_method_or_container: 0,
            bitflags: 0,
            flags: 0,
            iflags: 0,
            parameters_count: 0,
            slot: 0,
            token: 0,
        }
    }

    /// A copy of `base` with its invoker cleared and its token, flags, slot
    /// and bit flags zeroed.
    pub fn new_from(base: Self) -> (res: Self)
        ensures
            res == Self::spec_new_from(base),
            res.method_ptr == base.method_ptr,
            res.name == base.name,
            res.class == base.class,
            res.return_type == base.return_type,
            res.parameters == base.parameters,
            res.info_or_definition == base.info_or_definition,
            res.generic_method_or_container == base.generic_method_or_container,
            res.parameters_count == base.parameters_count,
            res.invoker_method == 0,
            res.token == 0,
            res.flags == 0,
            res.iflags == 0,
            res.slot == 0,
            res.bitflags == 0,
    {
        Self { invoker_method: 0, bitflags: 0, flags: 0, iflags: 0, slot: 0, token: 0, ..base }
    }

    /// The name of the method, if set.
    pub fn get_name(&self) -> (res: Option<String>)
        ensures
            res is Some <==> self.name is Some,
            res matches Some(s) ==> s@ == utf8_lossy(self.name->0@),
            res matches Some(s) ==> valid_utf8(self.name->0@) ==> s@ == decode_utf8(self.name->0@),
    {
        name_of(&self.name)
    }

    /// The parameters the method expects.
    pub fn get_parameters(&self) -> (res: &[ParameterInfo])
        requires
            self.parameters_count <= self.parameters@.len(),
        ensures
            res@ == self.parameters@.take(self.parameters_count as int),
    {
        vstd::slice::slice_subrange(self.parameters.as_slice(), 0, self.parameters_count as usize)
    }
}

/// Law: `new_from` keeps every field of the base but the invoker, the
/// token, the flags, the slot and the bit flags, which it zeroes.
pub proof fn law_new_from_keeps_identity(base: MethodInfo)
    ensures
        ({
            let r = MethodInfo::spec_new_from(base);
            &&& r.method_ptr == base.method_ptr
            &&& r.name == base.name
            &&& r.class == base.class
            &&& r.return_type == base.return_type
            &&& r.parameters == base.parameters
            &&& r.info_or_definition == base.info_or_definition
            &&& r.generic_method_or_container == base.generic_method_or_container
            &&& r.parameters_count == base.parameters_count
            &&& r.invoker_method == 0
            &&& r.token == 0
            &&& r.flags == 0
            &&& r.iflags == 0
            &&& r.slot == 0
            &&& r.bitflags == 0
        }),
{
}

/// Law: clearing a record twice is clearing it once.
pub proof fn law_new_from_idempotent(base: MethodInfo)
    ensures
        MethodInfo::spec_new_from(MethodInfo::spec_new_from(base)) == MethodInfo::spec_new_from(base),
{
}

impl ParameterInfo {
    /// The name of the parameter, if set.
    pub fn get_name(&self) -> (res: Option<String>)
        ensures
            res is Some <==> self.name is Some,
            res matches Some(s) ==> s@ == utf8_lossy(self.name->0@),
            res matches Some(s) ==> valid_utf8(self.name->0@) ==> s@ == decode_utf8(self.name->0@),
    {
        name_of(&self.name)
    }
}

} // verus!
