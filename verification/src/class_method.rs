//! The decisions of the class-method generator: the grammar of its
//! attribute, and the plan of the function body it emits (which class to
//! search, how to find the method, and how to call it).
use vstd::prelude::*;
use vstd::string::StrSliceExecFns;

verus! {

/// A token of the generator's attribute, as the lexer classifies it.
pub enum AttrToken {
    /// An integer literal, with its value when it fits a `usize`.
    Int(Option<usize>),
    /// A string literal, with its value.
    Str(String),
    /// The punctuation `,`.
    Comma,
    /// An identifier that is not a keyword.
    Ident(String),
    /// Any other token.
    Other,
}

/// How the method is found: by its index, or by its name.
pub enum ClassMethodSearchType {
    Index(usize),
    Name(String),
}

/// The parsed attribute: the search, whether the method is generic, whether
/// it is looked up in the vtable, and the class that holds it, if not the
/// class itself.
pub struct ClassMethodAttrs(pub ClassMethodSearchType, pub bool, pub bool, pub Option<String>);

/// Why an attribute is refused.
#[derive(Debug, PartialEq, Eq)]
pub enum AttrError {
    /// The attribute does not start with an integer or a string literal.
    ExpectedIndexOrName,
    /// The index does not fit a `usize`.
    InvalidIndex,
    /// A token that the grammar does not take stands at this position.
    UnexpectedToken(usize),
}

pub open spec fn is_word(t: AttrToken, word: Seq<char>) -> bool {
    t matches AttrToken::Ident(s) && s@ == word
}

/// An identifier that names the class, not one of the two flags.
pub open spec fn is_class_ident(t: AttrToken) -> bool {
    t matches AttrToken::Ident(s) && s@ != "generic"@ && s@ != "vtable"@
}

/// The tail of the attribute goes on at this token.
pub open spec fn continues(t: AttrToken) -> bool {
    t is Comma || t is Ident
}

/// The first position at or after `j` where the tail of the attribute ends:
/// the first token that is neither a comma nor an identifier, or the end.
pub open spec fn stop_from(tokens: Seq<AttrToken>, j: int) -> int
    decreases tokens.len() - j,
{
    if j >= tokens.len() {
        tokens.len() as int
    } else if !continues(tokens[j]) {
        j
    } else {
        stop_from(tokens, j + 1)
    }
}

/// Where the parsed part of the attribute ends.
pub open spec fn attr_stop(tokens: Seq<AttrToken>) -> int {
    stop_from(tokens, 1)
}

/// The word appears as an identifier among the tokens from 1 up to `hi`.
pub open spec fn has_word(tokens: Seq<AttrToken>, hi: int, word: Seq<char>) -> bool {
    exists|k: int| 1 <= k < hi && #[trigger] is_word(tokens[k], word)
}

/// The first class identifier among the tokens from 1 up to `hi`.
pub open spec fn class_in(tokens: Seq<AttrToken>, hi: int) -> Option<String>
    decreases hi,
{
    if hi <= 1 {
        None
    } else {
        match class_in(tokens, hi - 1) {
            Some(s) => Some(s),
            None => match tokens[hi - 1] {
                AttrToken::Ident(s) => if is_class_ident(tokens[hi - 1]) {
                    Some(s)
                } else {
                    None
                },
                _ => None,
            },
        }
    }
}

/// Law: a flag word sets its flag wherever it stands before the stop,
/// whatever identifiers come before or after it; and only an occurrence of
/// the word sets it.
pub proof fn law_flag_set_by_any_occurrence(tokens: Seq<AttrToken>, word: Seq<char>)
    ensures
        forall|k: int|
            1 <= k < attr_stop(tokens) && (#[trigger] tokens[k] matches AttrToken::Ident(w) && w@ == word)
                ==> has_word(tokens, attr_stop(tokens), word),
        has_word(tokens, attr_stop(tokens), word) ==> exists|k: int|
            1 <= k < attr_stop(tokens) && (#[trigger] tokens[k] matches AttrToken::Ident(w) && w@ == word),
{
    assert forall|k: int|
        1 <= k < attr_stop(tokens) && (#[trigger] tokens[k] matches AttrToken::Ident(w) && w@ == word)
        implies has_word(tokens, attr_stop(tokens), word) by {
        assert(is_word(tokens[k], word));
    }
    if has_word(tokens, attr_stop(tokens), word) {
        let k = choose|k: int| 1 <= k < attr_stop(tokens) && #[trigger] is_word(tokens[k], word);
        assert(tokens[k] matches AttrToken::Ident(w) && w@ == word);
    }
}

/// Law: the class found among the tokens from 1 up to `hi` is the first
/// identifier there other than `generic` and `vtable`, and there is none
/// exactly when no such identifier stands there.
pub proof fn law_class_is_first_class_identifier(tokens: Seq<AttrToken>, hi: int)
    requires
        hi <= tokens.len(),
    ensures
        class_in(tokens, hi) is None <==> forall|k: int|
            1 <= k < hi ==> !(#[trigger] tokens[k] matches AttrToken::Ident(w) && w@ != "generic"@ && w@
                != "vtable"@),
        class_in(tokens, hi) matches Some(c) ==> exists|k: int|
            1 <= k < hi && #[trigger] tokens[k] == AttrToken::Ident(c) && c@ != "generic"@ && c@ != "vtable"@
                && forall|j: int|
                1 <= j < k ==> !(#[trigger] tokens[j] matches AttrToken::Ident(w) && w@ != "generic"@ && w@
                    != "vtable"@),
    decreases hi,
{
    if hi > 1 {
        law_class_is_first_class_identifier(tokens, hi - 1);
        match class_in(tokens, hi - 1) {
            Some(c) => {
                let k = choose|k: int|
                    1 <= k < hi - 1 && #[trigger] tokens[k] == AttrToken::Ident(c) && c@ != "generic"@ && c@
                        != "vtable"@ && forall|j: int|
                        1 <= j < k ==> !(#[trigger] tokens[j] matches AttrToken::Ident(w) && w@ != "generic"@
                            && w@ != "vtable"@);
                assert(tokens[k] matches AttrToken::Ident(w) && w@ != "generic"@ && w@ != "vtable"@);
            },
            None => {
                let t = tokens[hi - 1];
                if t matches AttrToken::Ident(w) && w@ != "generic"@ && w@ != "vtable"@ {
                    assert(is_class_ident(t));
                }
            },
        }
    }
}

/// Compares two strings character by character.
fn str_eq(a: &str, b: &str) -> (res: bool)
    ensures
        res == (a@ == b@),
{
    let n = a.unicode_len();
    if n != b.unicode_len() {
        return false;
    }
    let mut i: usize = 0;
    while i < n
        invariant
            n == a@.len(),
            n == b@.len(),
            i <= n,
            forall|k: int| 0 <= k < i ==> a@[k] == b@[k],
        decreases n - i,
    {
        if a.get_char(i) != b.get_char(i) {
            return false;
        }
        i += 1;
    }
    assert(a@ =~= b@);
    true
}

proof fn lemma_stop_from(tokens: Seq<AttrToken>, j: int)
    requires
        0 <= j,
    ensures
        j <= stop_from(tokens, j) <= tokens.len() || (j > tokens.len() && stop_from(tokens, j)
            == tokens.len()),
        forall|k: int| j <= k < stop_from(tokens, j) ==> continues(#[trigger] tokens[k]),
        stop_from(tokens, j) < tokens.len() ==> !continues(tokens[stop_from(tokens, j)]),
    decreases tokens.len() - j,
{
    if j < tokens.len() && continues(tokens[j]) {
        lemma_stop_from(tokens, j + 1);
    }
}

impl ClassMethodAttrs {
    /// Parses an attribute: an index or a name, then any mix of commas and
    /// identifiers; `generic` and `vtable` set their flags, and the first
    /// other identifier names the class. Parsing stops at the first other
    /// token; the result holds how many tokens were read.
    pub fn parse(tokens: &[AttrToken]) -> (res: Result<(ClassMethodAttrs, usize), AttrError>)
        ensures
            (tokens@.len() == 0 || tokens@[0] is Comma || tokens@[0] is Ident || tokens@[0] is Other)
                <==> res == Err::<(ClassMethodAttrs, usize), AttrError>(AttrError::ExpectedIndexOrName),
            tokens@.len() > 0 && tokens@[0] == AttrToken::Int(None) <==> res == Err::<
                (ClassMethodAttrs, usize),
                AttrError,
            >(AttrError::InvalidIndex),
            res matches Err(e) ==> e !is UnexpectedToken,
            res matches Ok((attrs, consumed)) ==> {
                &&& consumed == attr_stop(tokens@)
                &&& 1 <= consumed <= tokens@.len()
                &&& (tokens@[0] matches AttrToken::Int(Some(i)) ==> attrs.0 == ClassMethodSearchType::Index(i))
                &&& (tokens@[0] matches AttrToken::Str(s) ==> attrs.0 == ClassMethodSearchType::Name(s))
                &&& attrs.1 == has_word(tokens@, attr_stop(tokens@), "generic"@)
                &&& attrs.2 == has_word(tokens@, attr_stop(tokens@), "vtable"@)
                &&& attrs.3 == class_in(tokens@, attr_stop(tokens@))
                &&& forall|k: int| 1 <= k < consumed ==> (#[trigger] tokens@[k] is Comma || tokens@[k] is Ident)
                &&& (consumed < tokens@.len() ==> !(tokens@[consumed as int] is Comma
                    || tokens@[consumed as int] is Ident))
                &&& (attrs.1 <==> exists|k: int| 1 <= k < consumed && (#[trigger] tokens@[k] matches AttrToken::Ident(w)
                    && w@ == "generic"@))
                &&& (attrs.2 <==> exists|k: int| 1 <= k < consumed && (#[trigger] tokens@[k] matches AttrToken::Ident(w)
                    && w@ == "vtable"@))
                &&& (attrs.3 is None <==> forall|k: int| 1 <= k < consumed ==> !(#[trigger] tokens@[k] matches AttrToken::Ident(w)
                    && w@ != "generic"@ && w@ != "vtable"@))
                &&& (attrs.3 matches Some(c) ==> exists|k: int| 1 <= k < consumed && #[trigger] tokens@[k] == AttrToken::Ident(c)
                    && c@ != "generic"@ && c@ != "vtable"@ && forall|j: int| 1 <= j < k ==> !(#[trigger] tokens@[j] matches AttrToken::Ident(w)
                    && w@ != "generic"@ && w@ != "vtable"@))
            },
    {
        if tokens.len() == 0 {
            return Err(AttrError::ExpectedIndexOrName);
        }
        let search = match &tokens[0] {
            AttrToken::Int(Some(i)) => ClassMethodSearchType::Index(*i),
            AttrToken::Int(None) => {
                return Err(AttrError::InvalidIndex);
            },
            AttrToken::Str(s) => ClassMethodSearchType::Name(s.clone()),
            _ => {
                return Err(AttrError::ExpectedIndexOrName);
            },
        };
        let mut generic = false;
        let mut vtable = false;
        let mut class: Option<String> = None;
        let mut i: usize = 1;
        proof {
            lemma_stop_from(tokens@, 1);
        }
        while i < tokens.len()
            invariant_except_break
                1 <= i <= tokens@.len(),
                stop_from(tokens@, i as int) == attr_stop(tokens@),
                generic == has_word(tokens@, i as int, "generic"@),
                vtable == has_word(tokens@, i as int, "vtable"@),
                class == class_in(tokens@, i as int),
            ensures
                1 <= i <= tokens@.len(),
                i == attr_stop(tokens@),
                generic == has_word(tokens@, i as int, "generic"@),
                vtable == has_word(tokens@, i as int, "vtable"@),
                class == class_in(tokens@, i as int),
            decreases tokens@.len() - i,
        {
            match &tokens[i] {
                AttrToken::Comma => {},
                AttrToken::Ident(s) => {
                    let is_generic = str_eq(s.as_str(), "generic");
                    let is_vtable = str_eq(s.as_str(), "vtable");
                    if is_generic {
                        generic = true;
                    } else if is_vtable {
                        vtable = true;
                    } else if class.is_none() {
                        class = Some(s.clone());
                    }
                },
                _ => {
                    break;
                },
            }
            proof {
                reveal_strlit("generic");
                reveal_strlit("vtable");
                assert("generic"@.len() != "vtable"@.len());
                let t = tokens@[i as int];
                let k = i as int;
                if is_word(t, "generic"@) {
                    assert(has_word(tokens@, k + 1, "generic"@));
                } else {
                    assert(has_word(tokens@, k + 1, "generic"@) == has_word(tokens@, k, "generic"@))
                        by {
                        if has_word(tokens@, k + 1, "generic"@) {
                            let w = choose|w: int| 1 <= w < k + 1 && #[trigger] is_word(tokens@[w], "generic"@);
                            assert(w < k);
                        }
                    }
                }
                if is_word(t, "vtable"@) {
                    assert(has_word(tokens@, k + 1, "vtable"@));
                } else {
                    assert(has_word(tokens@, k + 1, "vtable"@) == has_word(tokens@, k, "vtable"@))
                        by {
                        if has_word(tokens@, k + 1, "vtable"@) {
                            let w = choose|w: int| 1 <= w < k + 1 && #[trigger] is_word(tokens@[w], "vtable"@);
                            assert(w < k);
                        }
                    }
                }
            }
            i += 1;
        }
        proof {
            lemma_stop_from(tokens@, 1);
            law_flag_set_by_any_occurrence(tokens@, "generic"@);
            law_flag_set_by_any_occurrence(tokens@, "vtable"@);
            law_class_is_first_class_identifier(tokens@, i as int);
        }
        Ok((ClassMethodAttrs(search, generic, vtable, class), i))
    }
}


/// An argument of the generated function's signature: the receiver, with
/// its type, or a typed argument, with its pattern and its type.
#[derive(Clone, Copy)]
pub enum FnArg<P, T> {
    Receiver(T),
    Typed(P, T),
}

/// An argument of the bare function type through which the method is called.
#[derive(Clone, Copy)]
pub enum BareArg<T> {
    /// The type of an argument of the signature.
    Arg(T),
    /// The reference to the method's reflection record, passed last.
    MethodInfoRef,
}

/// An argument of the generated call.
#[derive(Clone, Copy)]
pub enum CallArg<P> {
    /// `self`.
    SelfValue,
    /// The pattern of a typed argument.
    Pat(P),
    /// The method's reflection record, passed last.
    Method,
}

/// Where the method is looked up.
pub enum ClassSelect {
    /// In the class of `Self`.
    SelfClass,
    /// In the named class, as found in the hierarchy of `Self` (or the named
    /// class itself when it is not there).
    InHierarchy(String),
}

/// How the method is found in the class.
pub enum MethodLookup {
    /// Entry `i` of the method table.
    MethodAt(usize),
    /// Slot `i` of the vtable.
    VtableSlot(usize),
    /// The method of that name taking that many arguments.
    Named(String, usize),
    /// The virtual method of that name.
    VirtualNamed(String),
}

/// The body that the generator emits for a method declaration.
pub struct ClassMethodPlan<P, T> {
    pub class: ClassSelect,
    pub lookup: MethodLookup,
    /// The method found is instantiated with the function's type parameters.
    pub generic: bool,
    /// The arguments of the bare function type the method pointer is cast to.
    pub fn_inputs: Vec<BareArg<T>>,
    /// The arguments of the call.
    pub call_args: Vec<CallArg<P>>,
}

pub open spec fn arg_type<P, T>(a: FnArg<P, T>) -> T {
    match a {
        FnArg::Receiver(t) => t,
        FnArg::Typed(_, t) => t,
    }
}

pub open spec fn arg_pat<P, T>(a: FnArg<P, T>) -> CallArg<P> {
    match a {
        FnArg::Receiver(_) => CallArg::SelfValue,
        FnArg::Typed(p, _) => CallArg::Pat(p),
    }
}

/// The number of typed (non-receiver) arguments.
pub open spec fn count_typed<P, T>(args: Seq<FnArg<P, T>>) -> nat
    decreases args.len(),
{
    if args.len() == 0 {
        0
    } else {
        count_typed(args.drop_last()) + if args.last() is Typed {
            1nat
        } else {
            0nat
        }
    }
}

proof fn lemma_count_typed_bound<P, T>(args: Seq<FnArg<P, T>>)
    ensures
        count_typed(args) <= args.len(),
    decreases args.len(),
{
    if args.len() > 0 {
        lemma_count_typed_bound(args.drop_last());
    }
}

/// The types of the arguments, in order, and the number of typed ones.
pub fn into_bare_args<P: Copy, T: Copy>(args: &[FnArg<P, T>]) -> (res: (Vec<T>, usize))
    ensures
        res.0@ == args@.map_values(|a: FnArg<P, T>| arg_type(a)),
        res.1 == count_typed(args@),
{
    let mut types: Vec<T> = Vec::new();
    let mut count: usize = 0;
    let mut i: usize = 0;
    while i < args.len()
        invariant
            i <= args@.len(),
            types@ == args@.take(i as int).map_values(|a: FnArg<P, T>| arg_type(a)),
            count == count_typed(args@.take(i as int)),
        decreases args@.len() - i,
    {
        proof {
            lemma_count_typed_bound(args@.take(i as int));
            assert(args@.take(i as int + 1).drop_last() =~= args@.take(i as int));
        }
        match args[i] {
            FnArg::Typed(_, t) => {
                count += 1;
                types.push(t);
            },
            FnArg::Receiver(t) => {
                types.push(t);
            },
        }
        i += 1;
        assert(types@ =~= args@.take(i as int).map_values(|a: FnArg<P, T>| arg_type(a)));
    }
    assert(args@.take(i as int) =~= args@);
    (types, count)
}

/// The patterns of the arguments, in order, with `self` for the receiver.
pub fn get_arg_pats<P: Copy, T: Copy>(args: &[FnArg<P, T>]) -> (res: Vec<CallArg<P>>)
    ensures
        res@ == args@.map_values(|a: FnArg<P, T>| arg_pat(a)),
{
    let mut pats: Vec<CallArg<P>> = Vec::new();
    let mut i: usize = 0;
    while i < args.len()
        invariant
            i <= args@.len(),
            pats@ == args@.take(i as int).map_values(|a: FnArg<P, T>| arg_pat(a)),
        decreases args@.len() - i,
    {
        match args[i] {
            FnArg::Typed(p, _) => pats.push(CallArg::Pat(p)),
            FnArg::Receiver(_) => pats.push(CallArg::SelfValue),
        }
        i += 1;
        assert(pats@ =~= args@.take(i as int).map_values(|a: FnArg<P, T>| arg_pat(a)));
    }
    assert(args@.take(i as int) =~= args@);
    pats
}

/// The number of typed arguments a call passes.
pub open spec fn count_pats<P>(calls: Seq<CallArg<P>>) -> nat
    decreases calls.len(),
{
    if calls.len() == 0 {
        0
    } else {
        count_pats(calls.drop_last()) + if calls.last() is Pat {
            1nat
        } else {
            0nat
        }
    }
}

/// Law: the function type through which the method is called and the call
/// agree position by position: same length, the method record last in both,
/// and `self` passed exactly where the signature has its receiver.
pub proof fn law_call_matches_fn_type<P, T>(args: Seq<FnArg<P, T>>)
    ensures
        ({
            let inputs = args.map_values(|a: FnArg<P, T>| BareArg::Arg(arg_type(a))).push(
                BareArg::<T>::MethodInfoRef,
            );
            let calls = args.map_values(|a: FnArg<P, T>| arg_pat(a)).push(CallArg::<P>::Method);
            &&& inputs.len() == calls.len() == args.len() + 1
            &&& forall|i: int|
                0 <= i < inputs.len() ==> (#[trigger] inputs[i] is MethodInfoRef <==> #[trigger] calls[i] is Method)
            &&& forall|i: int|
                0 <= i < args.len() ==> (#[trigger] calls[i] is SelfValue <==> #[trigger] args[i] is Receiver)
        }),
{
    let inputs = args.map_values(|a: FnArg<P, T>| BareArg::Arg(arg_type(a))).push(
        BareArg::<T>::MethodInfoRef,
    );
    let calls = args.map_values(|a: FnArg<P, T>| arg_pat(a)).push(CallArg::<P>::Method);
    assert forall|i: int| 0 <= i < inputs.len() implies (#[trigger] inputs[i] is MethodInfoRef
        <==> #[trigger] calls[i] is Method) by {
        if i < args.len() {
            assert(inputs[i] == BareArg::<T>::Arg(arg_type(args[i])));
            assert(calls[i] == arg_pat(args[i]));
        }
    }
    assert forall|i: int| 0 <= i < args.len() implies (#[trigger] calls[i] is SelfValue
        <==> #[trigger] args[i] is Receiver) by {
        assert(calls[i] == arg_pat(args[i]));
    }
}

/// Law: a method looked up by name is asked for as many arguments as the
/// generated call passes patterns for (the typed arguments).
pub proof fn law_named_lookup_counts_call_patterns<P, T>(args: Seq<FnArg<P, T>>)
    ensures
        count_pats(args.map_values(|a: FnArg<P, T>| arg_pat(a)).push(CallArg::<P>::Method))
            == count_typed(args),
{
    let calls = args.map_values(|a: FnArg<P, T>| arg_pat(a));
    let with_method = calls.push(CallArg::<P>::Method);
    assert(with_method.drop_last() =~= calls);
    lemma_count_pats_of_args(args);
}

proof fn lemma_count_pats_of_args<P, T>(args: Seq<FnArg<P, T>>)
    ensures
        count_pats(args.map_values(|a: FnArg<P, T>| arg_pat(a))) == count_typed(args),
    decreases args.len(),
{
    if args.len() > 0 {
        let front = args.drop_last();
        lemma_count_pats_of_args(front);
        let calls = args.map_values(|a: FnArg<P, T>| arg_pat(a));
        assert(calls.drop_last() =~= front.map_values(|a: FnArg<P, T>| arg_pat(a)));
        assert(calls.last() == arg_pat(args.last()));
    }
}

/// The class in which the parsed attribute looks the method up.
pub open spec fn spec_class_select(class: Option<String>) -> ClassSelect {
    match class {
        Some(c) => ClassSelect::InHierarchy(c),
        None => ClassSelect::SelfClass,
    }
}

/// How the parsed attribute finds the method, for a signature with
/// `arg_count` typed arguments.
pub open spec fn spec_lookup(search: ClassMethodSearchType, vtable: bool, arg_count: nat) -> MethodLookup {
    match search {
        ClassMethodSearchType::Index(i) => if vtable {
            MethodLookup::VtableSlot(i)
        } else {
            MethodLookup::MethodAt(i)
        },
        ClassMethodSearchType::Name(n) => if vtable {
            MethodLookup::VirtualNamed(n)
        } else {
            MethodLookup::Named(n, arg_count as usize)
        },
    }
}

/// The plan of the body for a declaration with the given arguments, under
/// the parsed attribute.
pub fn plan_class_method<P: Copy, T: Copy>(attrs: ClassMethodAttrs, args: &[FnArg<P, T>]) -> (res:
    ClassMethodPlan<P, T>)
    ensures
        res.class == spec_class_select(attrs.3),
        res.lookup == spec_lookup(attrs.0, attrs.2, count_typed(args@)),
        res.generic == attrs.1,
        res.fn_inputs@ == args@.map_values(|a: FnArg<P, T>| BareArg::Arg(arg_type(a))).push(
            BareArg::MethodInfoRef,
        ),
        res.call_args@ == args@.map_values(|a: FnArg<P, T>| arg_pat(a)).push(CallArg::Method),
{
    let (types, arg_count) = into_bare_args(args);
    let mut fn_inputs: Vec<BareArg<T>> = Vec::new();
    let mut i: usize = 0;
    while i < types.len()
        invariant
            i <= types@.len(),
            types@ == args@.map_values(|a: FnArg<P, T>| arg_type(a)),
            fn_inputs@ == types@.take(i as int).map_values(|t: T| BareArg::Arg(t)),
        decreases types@.len() - i,
    {
        fn_inputs.push(BareArg::Arg(types[i]));
        i += 1;
        assert(fn_inputs@ =~= types@.take(i as int).map_values(|t: T| BareArg::Arg(t)));
    }
    assert(fn_inputs@ =~= args@.map_values(|a: FnArg<P, T>| BareArg::Arg(arg_type(a)))) by {
        assert(types@.take(i as int) =~= types@);
    }
    fn_inputs.push(BareArg::MethodInfoRef);
    let mut call_args = get_arg_pats(args);
    call_args.push(CallArg::Method);
    let ClassMethodAttrs(search, generic, vtable, class) = attrs;
    let class = match class {
        Some(c) => ClassSelect::InHierarchy(c),
        None => ClassSelect::SelfClass,
    };
    let lookup = match search {
        ClassMethodSearchType::Index(i) => if vtable {
            MethodLookup::VtableSlot(i)
        } else {
            MethodLookup::MethodAt(i)
        },
        ClassMethodSearchType::Name(n) => if vtable {
            MethodLookup::VirtualNamed(n)
        } else {
            MethodLookup::Named(n, arg_count)
        },
    };
    ClassMethodPlan { class, lookup, generic, fn_inputs, call_args }
}

/// The generator: parses the attribute, which must be read to its end, and
/// plans the body for a declaration with the given arguments.
pub fn class_method<P: Copy, T: Copy>(attr: &[AttrToken], args: &[FnArg<P, T>]) -> (res: Result<
    ClassMethodPlan<P, T>,
    AttrError,
>)
    ensures
        (attr@.len() == 0 || attr@[0] is Comma || attr@[0] is Ident || attr@[0] is Other) <==> res
            matches Err(AttrError::ExpectedIndexOrName),
        (attr@.len() > 0 && attr@[0] == AttrToken::Int(None)) <==> res matches Err(
            AttrError::InvalidIndex,
        ),
        res matches Err(AttrError::UnexpectedToken(pos)) ==> pos == attr_stop(attr@),
        (attr@.len() > 0 && (attr@[0] is Str || attr@[0] matches AttrToken::Int(Some(_)))
            && attr_stop(attr@) < attr@.len()) <==> res is Err && res->Err_0 is UnexpectedToken,
        res is Ok <==> (attr@.len() > 0 && (attr@[0] is Str || attr@[0] matches AttrToken::Int(Some(_)))
            && attr_stop(attr@) == attr@.len()),
        res matches Ok(plan) ==> {
            &&& plan.class == spec_class_select(class_in(attr@, attr@.len() as int))
            &&& plan.generic == has_word(attr@, attr@.len() as int, "generic"@)
            &&& (attr@[0] matches AttrToken::Int(Some(i)) ==> plan.lookup == spec_lookup(
                ClassMethodSearchType::Index(i),
                has_word(attr@, attr@.len() as int, "vtable"@),
                count_typed(args@),
            ))
            &&& (attr@[0] matches AttrToken::Str(n) ==> plan.lookup == spec_lookup(
                ClassMethodSearchType::Name(n),
                has_word(attr@, attr@.len() as int, "vtable"@),
                count_typed(args@),
            ))
            &&& plan.fn_inputs@ == args@.map_values(|a: FnArg<P, T>| BareArg::Arg(arg_type(a))).push(
                BareArg::MethodInfoRef,
            )
            &&& plan.call_args@ == args@.map_values(|a: FnArg<P, T>| arg_pat(a)).push(CallArg::Method)
        },
{
    match ClassMethodAttrs::parse(attr) {
        Err(e) => Err(e),
        Ok((attrs, consumed)) => {
            if consumed < attr.len() {
                Err(AttrError::UnexpectedToken(consumed))
            } else {
                Ok(plan_class_method(attrs, args))
            }
        },
    }
}

} // verus!
