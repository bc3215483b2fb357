use unity::il2cpp::class::{Il2CppClass, Il2CppGenericClass};
use unity::il2cpp::generic::{create_generic_method_info, generic_class_inst, Il2CppGenericContext, Il2CppGenericInst};
use unity::il2cpp::method::{MethodInfo, ParameterInfo};

fn param(name: &[u8], position: i32) -> ParameterInfo {
    ParameterInfo { name: Some(name.to_vec()), position, token: 7, parameter_type: 0x1000 }
}

#[test]
fn new_is_blank() {
    let m = MethodInfo::new();
    assert_eq!(m.method_ptr, 0);
    assert_eq!(m.invoker_method, 0);
    assert!(m.name.is_none());
    assert!(m.class.is_none());
    assert_eq!(m.return_type, 0);
    assert!(m.parameters.is_empty());
    assert_eq!(m.info_or_definition, 0);
    assert_eq!(m.generic_method_or_container, 0);
    assert_eq!((m.token, m.flags, m.iflags, m.slot, m.parameters_count, m.bitflags), (0, 0, 0, 0, 0, 0));
}

#[test]
fn new_from_keeps_identity_and_clears_flags() {
    let mut base = MethodInfo::new();
    base.method_ptr = 0x7100_0000;
    base.invoker_method = 0x7100_0010;
    base.name = Some(b"Invoke".to_vec());
    base.return_type = 0x2000;
    base.parameters = vec![param(b"x", 0)];
    base.parameters_count = 1;
    base.token = 0x0600_0001;
    base.flags = 0x86;
    base.iflags = 3;
    base.slot = 9;
    base.bitflags = 0xFF;
    let m = MethodInfo::new_from(base);
    assert_eq!(m.method_ptr, 0x7100_0000);
    assert_eq!(m.invoker_method, 0);
    assert_eq!(m.name, Some(b"Invoke".to_vec()));
    assert_eq!(m.return_type, 0x2000);
    assert_eq!(m.parameters.len(), 1);
    assert_eq!(m.parameters_count, 1);
    assert_eq!((m.token, m.flags, m.iflags, m.slot, m.bitflags), (0, 0, 0, 0, 0));
}

#[test]
fn get_name_reads_the_c_string() {
    let mut m = MethodInfo::new();
    assert_eq!(m.get_name(), None);
    m.name = Some(b"get_Item".to_vec());
    assert_eq!(m.get_name(), Some(String::from("get_Item")));
    m.name = Some(vec![0x41, 0xFF, 0x42]);
    assert_eq!(m.get_name(), Some(String::from("A\u{FFFD}B")));
    assert_eq!(param("名前".as_bytes(), 0).get_name(), Some(String::from("名前")));
    let unnamed = ParameterInfo { name: None, position: 0, token: 0, parameter_type: 0 };
    assert_eq!(unnamed.get_name(), None);
}

#[test]
fn get_parameters_takes_the_count() {
    let mut m = MethodInfo::new();
    m.parameters = vec![param(b"a", 0), param(b"b", 1), param(b"c", 2)];
    m.parameters_count = 2;
    let ps = m.get_parameters();
    assert_eq!(ps.len(), 2);
    assert_eq!(ps[1].position, 1);
    m.parameters_count = 0;
    assert!(m.get_parameters().is_empty());
}

fn inst(types: &[usize]) -> Il2CppGenericInst {
    Il2CppGenericInst { type_argc: types.len() as u32, type_argv: types.to_vec() }
}

#[test]
fn get_types_takes_the_count() {
    let i = Il2CppGenericInst { type_argc: 2, type_argv: vec![10, 20, 30] };
    assert_eq!(i.get_types(), &[10, 20]);
    assert!(inst(&[]).get_types().is_empty());
}

fn generic_method(bitflags: u8) -> MethodInfo {
    let mut m = MethodInfo::new();
    m.bitflags = bitflags;
    m.class = Some(Il2CppClass {
        address: 0x5000,
        generic_class: Some(Il2CppGenericClass {
            context: Il2CppGenericContext { class_inst: Some(inst(&[0xA, 0xB])), method_inst: None },
        }),
    });
    m
}

#[test]
fn class_inst_needs_bit_one() {
    let m = generic_method(2);
    assert_eq!(generic_class_inst(&m).map(|i| i.type_argv.clone()), Some(vec![0xA, 0xB]));
    let m = generic_method(0xFD);
    assert!(generic_class_inst(&m).is_none());
}

#[test]
fn class_inst_needs_a_generic_class() {
    let mut m = MethodInfo::new();
    m.bitflags = 2;
    assert!(generic_class_inst(&m).is_none());
    m.class = Some(Il2CppClass { address: 1, generic_class: None });
    assert!(generic_class_inst(&m).is_none());
}

#[test]
fn new_from_twice_is_new_from_once() {
    let mut base = MethodInfo::new();
    base.method_ptr = 0x10;
    base.token = 3;
    base.slot = 4;
    base.bitflags = 2;
    let once = MethodInfo::new_from(base.clone());
    let twice = MethodInfo::new_from(MethodInfo::new_from(base));
    assert_eq!((once.method_ptr, once.token, once.slot, once.bitflags), (twice.method_ptr, twice.token, twice.slot, twice.bitflags));
    assert_eq!((twice.method_ptr, twice.token, twice.slot, twice.bitflags), (0x10, 0, 0, 0));
}

#[test]
fn generic_method_request() {
    let m = generic_method(2);
    let types = [0x111usize, 0x222];
    let req = create_generic_method_info(&m, &types);
    assert_eq!(req.method_types, &[0x111, 0x222]);
    assert_eq!(req.class_inst.map(|i| i.type_argv.clone()), Some(vec![0xA, 0xB]));
    assert_eq!(req.method_definition.bitflags, 2);
    assert_eq!(req.flags, 0);
    let plain = MethodInfo::new();
    assert!(create_generic_method_info(&plain, &types).class_inst.is_none());
}
