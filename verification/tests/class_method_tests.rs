use unity::class_method::{
    class_method, get_arg_pats, into_bare_args, AttrError, AttrToken, BareArg, CallArg, ClassMethodAttrs,
    ClassMethodSearchType, ClassSelect, FnArg, MethodLookup,
};

fn ident(s: &str) -> AttrToken {
    AttrToken::Ident(String::from(s))
}

fn name(s: &str) -> AttrToken {
    AttrToken::Str(String::from(s))
}

fn parse(tokens: &[AttrToken]) -> Result<(ClassMethodAttrs, usize), AttrError> {
    ClassMethodAttrs::parse(tokens)
}

#[test]
fn index_alone() {
    let (attrs, consumed) = parse(&[AttrToken::Int(Some(1))]).unwrap();
    assert!(matches!(attrs.0, ClassMethodSearchType::Index(1)));
    assert!(!attrs.1 && !attrs.2 && attrs.3.is_none());
    assert_eq!(consumed, 1);
}

#[test]
fn name_with_flags_and_class() {
    let tokens = [
        name("GetItem"),
        AttrToken::Comma,
        ident("generic"),
        AttrToken::Comma,
        ident("vtable"),
        AttrToken::Comma,
        ident("ListBase"),
        ident("Other"),
    ];
    let (attrs, consumed) = parse(&tokens).unwrap();
    assert!(matches!(attrs.0, ClassMethodSearchType::Name(ref n) if n == "GetItem"));
    assert!(attrs.1);
    assert!(attrs.2);
    assert_eq!(attrs.3, Some(String::from("ListBase")));
    assert_eq!(consumed, tokens.len());
}

#[test]
fn parse_stops_at_other_tokens() {
    let tokens = [AttrToken::Int(Some(4)), AttrToken::Comma, AttrToken::Int(Some(2)), ident("generic")];
    let (attrs, consumed) = parse(&tokens).unwrap();
    assert!(!attrs.1);
    assert_eq!(consumed, 2);
}

#[test]
fn parse_errors() {
    assert_eq!(parse(&[]).err(), Some(AttrError::ExpectedIndexOrName));
    assert_eq!(parse(&[ident("generic")]).err(), Some(AttrError::ExpectedIndexOrName));
    assert_eq!(parse(&[AttrToken::Comma, AttrToken::Int(Some(1))]).err(), Some(AttrError::ExpectedIndexOrName));
    assert_eq!(parse(&[AttrToken::Int(None)]).err(), Some(AttrError::InvalidIndex));
}

fn sig() -> Vec<FnArg<u8, u8>> {
    vec![FnArg::Receiver(0), FnArg::Typed(1, 11), FnArg::Typed(2, 12)]
}

#[test]
fn bare_args_and_patterns() {
    let (types, count) = into_bare_args(&sig());
    assert_eq!(types, vec![0, 11, 12]);
    assert_eq!(count, 2);
    let pats = get_arg_pats(&sig());
    assert!(matches!(pats[..], [CallArg::SelfValue, CallArg::Pat(1), CallArg::Pat(2)]));
    let (types, count) = into_bare_args::<u8, u8>(&[]);
    assert!(types.is_empty());
    assert_eq!(count, 0);
}

#[test]
fn plan_by_index() {
    let plan = class_method(&[AttrToken::Int(Some(1))], &sig()).ok().unwrap();
    assert!(matches!(plan.class, ClassSelect::SelfClass));
    assert!(matches!(plan.lookup, MethodLookup::MethodAt(1)));
    assert!(!plan.generic);
    assert!(matches!(
        plan.fn_inputs[..],
        [BareArg::Arg(0), BareArg::Arg(11), BareArg::Arg(12), BareArg::MethodInfoRef]
    ));
    assert!(matches!(
        plan.call_args[..],
        [CallArg::SelfValue, CallArg::Pat(1), CallArg::Pat(2), CallArg::Method]
    ));
}

#[test]
fn plan_by_vtable_index() {
    let plan = class_method(&[AttrToken::Int(Some(5)), AttrToken::Comma, ident("vtable")], &sig()).ok().unwrap();
    assert!(matches!(plan.lookup, MethodLookup::VtableSlot(5)));
}

#[test]
fn plan_by_name_counts_typed_args() {
    let plan = class_method(&[name("Add"), AttrToken::Comma, ident("generic")], &sig()).ok().unwrap();
    assert!(matches!(plan.lookup, MethodLookup::Named(ref n, 2) if n == "Add"));
    assert!(plan.generic);
}

#[test]
fn plan_by_virtual_name_in_parent_class() {
    let plan = class_method(&[name("Update"), AttrToken::Comma, ident("vtable"), AttrToken::Comma, ident("Base")], &sig())
        .ok()
        .unwrap();
    assert!(matches!(plan.lookup, MethodLookup::VirtualNamed(ref n) if n == "Update"));
    assert!(matches!(plan.class, ClassSelect::InHierarchy(ref c) if c == "Base"));
}

#[test]
fn leftover_tokens_are_refused() {
    let res = class_method(&[AttrToken::Int(Some(1)), AttrToken::Comma, AttrToken::Int(Some(2))], &sig());
    assert_eq!(res.err(), Some(AttrError::UnexpectedToken(2)));
}

#[test]
fn call_matches_fn_type() {
    let plan = class_method(&[name("Run")], &sig()).ok().unwrap();
    assert_eq!(plan.fn_inputs.len(), plan.call_args.len());
    let pats = plan.call_args.iter().filter(|a| matches!(a, CallArg::Pat(_))).count();
    assert!(matches!(plan.lookup, MethodLookup::Named(_, n) if n == pats));
}
