//! Boundary functions: their arguments and signatures, their base names and
//! the captions that tell overloads apart.
use vstd::prelude::*;
use crate::caption_strategy::{
    ArgumentCaptionStrategy, MethodCaptionStrategy, TypeCaptionStrategy, method_strategies,
};
use crate::cpp_ffi_type::CppFfiType;
use crate::cpp_method::{CppMethod, CppOperator, ReturnValueAllocationPlace, operator_c_name};
use crate::cpp_type::{
    CppTypeBase, base_caption, base_captionable, captionable, fn_ptr_placeholder, type_caption,
    type_code,
};
use crate::text::{
    first_error, join, join_results, join_strings, lemma_first_error_prefix, owned,
    replace_scope_separators, replace_separators, result_view, unwrap_oks, views,
};

verus! {

/// What a boundary function's argument stands for.
#[derive(Clone, Copy, Debug, PartialEq, Eq, Structural)]
pub enum CppFfiArgumentMeaning {
    /// The object that a member function is called on.
    This,
    /// The original function's argument of this index, counted from 0.
    Argument(i8),
    /// The storage that the return value is constructed in.
    ReturnValue,
}

impl CppFfiArgumentMeaning {
    /// This argument is one of the original function's arguments.
    pub fn is_argument(&self) -> (r: bool)
        ensures
            r == (*self is Argument),
    {
        match self {
            CppFfiArgumentMeaning::Argument(..) => true,
            _ => false,
        }
    }
}

/// An argument of a boundary function.
#[derive(Debug)]
pub struct CppFfiFunctionArgument {
    pub name: String,
    pub argument_type: CppFfiType,
    pub meaning: CppFfiArgumentMeaning,
}

/// The arguments and return type of a boundary function, without its name.
#[derive(Debug)]
pub struct CppFfiFunctionSignature {
    pub arguments: Vec<CppFfiFunctionArgument>,
    pub return_type: CppFfiType,
}

/// A native method with the signature of its boundary function.
#[derive(Debug)]
pub struct CppMethodWithFfiSignature {
    pub cpp_method: CppMethod,
    /// Where the boundary function puts a returned class value.
    pub allocation_place: ReturnValueAllocationPlace,
    pub c_signature: CppFfiFunctionSignature,
}

/// A native method with its boundary function, named.
#[derive(Debug)]
pub struct CppAndFfiMethod {
    pub cpp_method: CppMethod,
    pub allocation_place: ReturnValueAllocationPlace,
    pub c_signature: CppFfiFunctionSignature,
    /// The boundary function's name.
    pub c_name: String,
}

/// The caption of an argument.
pub open spec fn argument_caption(a: CppFfiFunctionArgument, s: ArgumentCaptionStrategy) -> Seq<char> {
    match s {
        ArgumentCaptionStrategy::NameOnly => a.name@,
        ArgumentCaptionStrategy::TypeOnly(t) => type_caption(a.argument_type.original_type.view(), t),
        ArgumentCaptionStrategy::TypeAndName(t) => type_caption(
            a.argument_type.original_type.view(),
            t,
        ) + "_"@ + a.name@,
    }
}

/// An argument has a caption under `s`.
pub open spec fn argument_captionable(a: CppFfiFunctionArgument, s: ArgumentCaptionStrategy) -> bool {
    s is NameOnly || captionable(a.argument_type.original_type.view())
}

/// The captions of the arguments that stand for the original function's
/// arguments, in order.
pub open spec fn real_argument_captions(
    args: Seq<CppFfiFunctionArgument>,
    s: ArgumentCaptionStrategy,
) -> Seq<Seq<char>>
    decreases args.len(),
{
    if args.len() == 0 {
        Seq::empty()
    } else {
        let prev = real_argument_captions(args.drop_last(), s);
        if args.last().meaning is Argument {
            prev.push(argument_caption(args.last(), s))
        } else {
            prev
        }
    }
}

/// Every argument that stands for an original argument has a caption.
pub open spec fn signature_captionable(args: Seq<CppFfiFunctionArgument>, s: ArgumentCaptionStrategy) -> bool {
    forall|i: int|
        0 <= i < args.len() && (#[trigger] args[i]).meaning is Argument ==> argument_captionable(
            args[i],
            s,
        )
}

/// The caption of a signature: the captions of its real arguments joined by
/// `_`, or `no_args` when that is empty.
pub open spec fn signature_caption(args: Seq<CppFfiFunctionArgument>, s: ArgumentCaptionStrategy) -> Seq<char> {
    let j = join(real_argument_captions(args, s), "_"@);
    if j.len() == 0 {
        "no_args"@
    } else {
        j
    }
}

/// The code of an argument in a boundary function's signature.
/// A function pointer carries the argument's name inside its rendering;
/// another type is followed by the name. A failure of the rendering is the
/// argument's failure.
pub open spec fn argument_code(a: CppFfiFunctionArgument) -> Result<Seq<char>, Seq<char>> {
    if a.argument_type.ffi_type.view().base is FunctionPointer {
        type_code(a.argument_type.ffi_type.view(), a.name@)
    } else {
        match type_code(a.argument_type.ffi_type.view(), fn_ptr_placeholder()) {
            Ok(c) => Ok(c + " "@ + a.name@),
            Err(e) => Err(e),
        }
    }
}

/// The code of each argument of a list.
pub open spec fn argument_codes(args: Seq<CppFfiFunctionArgument>) -> Seq<Result<Seq<char>, Seq<char>>> {
    Seq::new(args.len(), |i: int| argument_code(args[i]))
}

/// `name` followed by the note on where a returned value is put.
pub open spec fn with_place_note(name: Seq<char>, place: ReturnValueAllocationPlace) -> Seq<char> {
    match place {
        ReturnValueAllocationPlace::Stack => name + "_to_output"@,
        ReturnValueAllocationPlace::Heap => name + "_as_ptr"@,
        ReturnValueAllocationPlace::NotApplicable => name,
    }
}

/// The prefix of the scope of a method: its class's caption, or the include
/// file of a free function.
pub open spec fn scope_prefix(m: CppMethod, include_file: Seq<char>) -> Seq<char> {
    match m.class_membership {
        Some(info) => base_caption(info.class_type.view()) + "_"@,
        None => include_file + "_G_"@,
    }
}

/// The base name of a boundary function, before captions. There is none
/// for a method of a class without a caption, for a constructor or
/// destructor without an allocation place, and for a conversion operator
/// whose target has no caption.
pub open spec fn base_name(
    m: CppMethod,
    place: ReturnValueAllocationPlace,
    include_file: Seq<char>,
) -> Option<Seq<char>> {
    let prefix = scope_prefix(m, include_file);
    if m.class_membership matches Some(info) && !base_captionable(info.class_type.view()) {
        None
    } else if m.spec_is_constructor() {
        match place {
            ReturnValueAllocationPlace::Stack => Some(prefix + "constructor"@),
            ReturnValueAllocationPlace::Heap => Some(prefix + "new"@),
            ReturnValueAllocationPlace::NotApplicable => None,
        }
    } else if m.spec_is_destructor() {
        match place {
            ReturnValueAllocationPlace::Stack => Some(prefix + "destructor"@),
            ReturnValueAllocationPlace::Heap => Some(prefix + "delete"@),
            ReturnValueAllocationPlace::NotApplicable => None,
        }
    } else {
        match m.operator {
            Some(CppOperator::Conversion(t)) => if captionable(t.view()) {
                Some(
                    prefix + with_place_note(
                        "convert_to_"@ + type_caption(t.view(), TypeCaptionStrategy::Full),
                        place,
                    ),
                )
            } else {
                None
            },
            Some(op) => Some(prefix + with_place_note("operator_"@ + operator_c_name(op), place)),
            None => Some(prefix + with_place_note(replace_scope_separators(m.name@), place)),
        }
    }
}

/// The caption of a method under a strategy.
pub open spec fn method_caption(m: CppMethodWithFfiSignature, s: MethodCaptionStrategy) -> Seq<char> {
    match s {
        MethodCaptionStrategy::ArgumentsOnly(a) => signature_caption(m.c_signature.arguments@, a),
        MethodCaptionStrategy::ConstOnly => if m.cpp_method.spec_is_const() {
            "const"@
        } else {
            ""@
        },
        MethodCaptionStrategy::ConstAndArguments(a) => (if m.cpp_method.spec_is_const() {
            "const_"@
        } else {
            ""@
        }) + signature_caption(m.c_signature.arguments@, a),
    }
}

/// A method has a caption under a strategy.
pub open spec fn method_captionable(m: CppMethodWithFfiSignature, s: MethodCaptionStrategy) -> bool {
    match s {
        MethodCaptionStrategy::ArgumentsOnly(a) => signature_captionable(m.c_signature.arguments@, a),
        MethodCaptionStrategy::ConstOnly => true,
        MethodCaptionStrategy::ConstAndArguments(a) => signature_captionable(
            m.c_signature.arguments@,
            a,
        ),
    }
}

/// Every method of a group has a caption under a strategy.
pub open spec fn group_captionable(ms: Seq<CppMethodWithFfiSignature>, s: MethodCaptionStrategy) -> bool {
    forall|i: int| 0 <= i < ms.len() ==> method_captionable(#[trigger] ms[i], s)
}

impl CppFfiFunctionArgument {
    /// The caption of this argument under `strategy`; none when the strategy
    /// needs the type's caption and the type has none.
    pub fn caption(&self, strategy: ArgumentCaptionStrategy) -> (r: Option<String>)
        ensures
            match r {
                Some(c) => argument_captionable(*self, strategy) && c@ == argument_caption(
                    *self,
                    strategy,
                ),
                None => !argument_captionable(*self, strategy),
            },
    {
        match strategy {
            ArgumentCaptionStrategy::NameOnly => Some(self.name.clone()),
            ArgumentCaptionStrategy::TypeOnly(t) => self.argument_type.original_type.caption(t),
            ArgumentCaptionStrategy::TypeAndName(t) => match self.argument_type.original_type.caption(t) {
                Some(c) => {
                    let mut r = c;
                    r.append("_");
                    r.append(self.name.as_str());
                    Some(r)
                },
                None => None,
            },
        }
    }

    /// The code of this argument in a boundary function's signature, or the
    /// rendering's failure.
    pub fn to_cpp_code(&self) -> (r: Result<String, String>)
        ensures
            result_view(r) == argument_code(*self),
    {
        match self.argument_type.ffi_type.base {
            CppTypeBase::FunctionPointer { .. } => {
                self.argument_type.ffi_type.to_cpp_code_named(self.name.as_str())
            },
            _ => match self.argument_type.ffi_type.to_cpp_code() {
                Ok(c) => {
                    let mut r = c;
                    r.append(" ");
                    r.append(self.name.as_str());
                    Ok(r)
                },
                Err(e) => Err(e),
            },
        }
    }
}

impl CppFfiFunctionSignature {
    /// The caption of the arguments that stand for the original function's
    /// arguments; none when one of them has no caption.
    pub fn caption(&self, strategy: ArgumentCaptionStrategy) -> (r: Option<String>)
        ensures
            match r {
                Some(c) => signature_captionable(self.arguments@, strategy) && c@ == signature_caption(
                    self.arguments@,
                    strategy,
                ),
                None => !signature_captionable(self.arguments@, strategy),
            },
    {
        let mut parts: Vec<String> = Vec::new();
        let mut i: usize = 0;
        while i < self.arguments.len()
            invariant
                i <= self.arguments@.len(),
                forall|j: int|
                    0 <= j < i && (#[trigger] self.arguments@[j]).meaning is Argument
                        ==> argument_captionable(self.arguments@[j], strategy),
                views(parts@) == real_argument_captions(
                    self.arguments@.subrange(0, i as int),
                    strategy,
                ),
            decreases self.arguments@.len() - i,
        {
            let arg = &self.arguments[i];
            proof {
                assert(self.arguments@.subrange(0, i + 1).drop_last() =~= self.arguments@.subrange(
                    0,
                    i as int,
                ));
            }
            if arg.meaning.is_argument() {
                match arg.caption(strategy) {
                    Some(c) => {
                        let ghost before = parts@;
                        parts.push(c);
                        proof {
                            assert(views(parts@) =~= views(before).push(c@));
                        }
                    },
                    None => {
                        return None;
                    },
                }
            }
            i = i + 1;
        }
        proof {
            assert(self.arguments@.subrange(0, self.arguments@.len() as int) =~= self.arguments@);
        }
        let r = join_strings(&parts, "_");
        if r.as_str().unicode_len() == 0 {
            Some(owned("no_args"))
        } else {
            Some(r)
        }
    }

    /// The code of the argument list, joined by `, `; or the failure of the
    /// first argument that has no code.
    pub fn arguments_to_cpp_code(&self) -> (r: Result<String, String>)
        ensures
            result_view(r) == join_results(argument_codes(self.arguments@), ", "@),
    {
        let ghost codes = argument_codes(self.arguments@);
        let mut parts: Vec<String> = Vec::new();
        let mut i: usize = 0;
        while i < self.arguments.len()
            invariant
                i <= self.arguments@.len(),
                parts@.len() == i,
                codes == argument_codes(self.arguments@),
                first_error(codes.subrange(0, i as int)) is None,
                forall|j: int|
                    0 <= j < i ==> codes[j] == Ok::<Seq<char>, Seq<char>>((#[trigger] parts@[j])@),
            decreases self.arguments@.len() - i,
        {
            proof {
                assert(codes.subrange(0, i + 1).drop_last() =~= codes.subrange(0, i as int));
            }
            match self.arguments[i].to_cpp_code() {
                Ok(c) => parts.push(c),
                Err(msg) => {
                    proof {
                        assert(codes[i as int] == Err::<Seq<char>, Seq<char>>(msg@));
                        lemma_first_error_prefix(codes, i + 1);
                    }
                    return Err(msg);
                },
            }
            i = i + 1;
        }
        proof {
            assert(codes.subrange(0, codes.len() as int) =~= codes);
            assert(unwrap_oks(codes) =~= views(parts@));
        }
        Ok(join_strings(&parts, ", "))
    }
}

/// The base name of the boundary function of `cpp_method`, before captions.
pub fn c_base_name(
    cpp_method: &CppMethod,
    allocation_place: &ReturnValueAllocationPlace,
    include_file: &String,
) -> (r: Result<String, String>)
    ensures
        match r {
            Ok(s) => base_name(*cpp_method, *allocation_place, include_file@) == Some(s@),
            Err(_) => base_name(*cpp_method, *allocation_place, include_file@) is None,
        },
{
    let mut scope_prefix = match &cpp_method.class_membership {
        Some(info) => match info.class_type.caption() {
            Some(c) => c,
            None => {
                return Err(owned("the class has no caption"));
            },
        },
        None => {
            let mut p = include_file.clone();
            p.append("_G");
            p
        },
    };
    scope_prefix.append("_");
    proof {
        reveal_strlit("_G");
        reveal_strlit("_");
        reveal_strlit("_G_");
        assert("_G"@ + "_"@ =~= "_G_"@);
    }
    let method_name = if cpp_method.is_constructor() {
        match *allocation_place {
            ReturnValueAllocationPlace::Stack => owned("constructor"),
            ReturnValueAllocationPlace::Heap => owned("new"),
            ReturnValueAllocationPlace::NotApplicable => {
                return Err(owned("NotApplicable is not allowed for constructor"));
            },
        }
    } else if cpp_method.is_destructor() {
        match *allocation_place {
            ReturnValueAllocationPlace::Stack => owned("destructor"),
            ReturnValueAllocationPlace::Heap => owned("delete"),
            ReturnValueAllocationPlace::NotApplicable => {
                return Err(owned("NotApplicable is not allowed for destructor"));
            },
        }
    } else {
        let mut name = match &cpp_method.operator {
            Some(operator) => match operator {
                CppOperator::Conversion(cpp_type) => {
                    let mut n = owned("convert_to_");
                    let c = match cpp_type.caption(TypeCaptionStrategy::Full) {
                        Some(c) => c,
                        None => {
                            return Err(owned("the conversion's target type has no caption"));
                        },
                    };
                    n.append(c.as_str());
                    n
                },
                _ => {
                    let mut n = owned("operator_");
                    n.append(operator.c_name());
                    n
                },
            },
            None => replace_separators(cpp_method.name.as_str()),
        };
        match *allocation_place {
            ReturnValueAllocationPlace::Stack => name.append("_to_output"),
            ReturnValueAllocationPlace::Heap => name.append("_as_ptr"),
            ReturnValueAllocationPlace::NotApplicable => {},
        }
        name
    };
    let mut r = scope_prefix;
    r.append(method_name.as_str());
    Ok(r)
}

impl CppMethodWithFfiSignature {
    /// The caption of this method under `strategy`; none when the strategy
    /// needs an argument's caption and the argument has none.
    pub fn caption(&self, strategy: MethodCaptionStrategy) -> (r: Option<String>)
        ensures
            match r {
                Some(c) => method_captionable(*self, strategy) && c@ == method_caption(
                    *self,
                    strategy,
                ),
                None => !method_captionable(*self, strategy),
            },
    {
        match strategy {
            MethodCaptionStrategy::ArgumentsOnly(s) => self.c_signature.caption(s),
            MethodCaptionStrategy::ConstOnly => {
                if self.cpp_method.is_const() {
                    Some(owned("const"))
                } else {
                    Some(owned(""))
                }
            },
            MethodCaptionStrategy::ConstAndArguments(s) => {
                let mut r = if self.cpp_method.is_const() {
                    owned("const_")
                } else {
                    owned("")
                };
                match self.c_signature.caption(s) {
                    Some(c) => {
                        r.append(c.as_str());
                        Some(r)
                    },
                    None => None,
                }
            },
        }
    }
}

impl CppAndFfiMethod {
    /// Gives a method with a boundary signature its boundary function's name.
    pub fn new(data: CppMethodWithFfiSignature, c_name: String) -> (r: CppAndFfiMethod)
        ensures
            r.cpp_method == data.cpp_method,
            r.allocation_place == data.allocation_place,
            r.c_signature == data.c_signature,
            r.c_name == c_name,
    {
        CppAndFfiMethod {
            cpp_method: data.cpp_method,
            allocation_place: data.allocation_place,
            c_signature: data.c_signature,
            c_name,
        }
    }
}

/// No two strings of the list are equal.
pub open spec fn pairwise_distinct(cs: Seq<Seq<char>>) -> bool {
    forall|i: int, j: int| 0 <= i < cs.len() && 0 <= j < cs.len() && i != j ==> cs[i] != cs[j]
}

/// The captions of the methods of a group under a strategy.
pub open spec fn group_captions(ms: Seq<CppMethodWithFfiSignature>, s: MethodCaptionStrategy) -> Seq<Seq<char>> {
    Seq::new(ms.len(), |i: int| method_caption(ms[i], s))
}

/// A boundary function's name: the base name, and the caption after `_`
/// unless it is empty.
pub open spec fn name_with_caption(base: Seq<char>, caption: Seq<char>) -> Seq<char> {
    if caption.len() == 0 {
        base
    } else {
        base + "_"@ + caption
    }
}

/// The first strategy, from the `k`-th on, under which every method of a
/// group has a caption and the captions are pairwise distinct.
pub open spec fn first_distinct_strategy(ms: Seq<CppMethodWithFfiSignature>, k: nat) -> Option<MethodCaptionStrategy>
    decreases method_strategies().len() - k,
{
    if k >= method_strategies().len() {
        None
    } else if group_captionable(ms, method_strategies()[k as int]) && pairwise_distinct(
        group_captions(ms, method_strategies()[k as int]),
    ) {
        Some(method_strategies()[k as int])
    } else {
        first_distinct_strategy(ms, k + 1)
    }
}

/// The names of a group of overloads that share `base`, in the group's
/// order: the base name alone for a single method; otherwise the base name
/// with the captions of the first strategy that tells them all apart. None
/// when no strategy does.
pub open spec fn disambiguated(ms: Seq<CppMethodWithFfiSignature>, base: Seq<char>) -> Option<Seq<Seq<char>>> {
    if ms.len() <= 1 {
        Some(Seq::new(ms.len(), |i: int| base))
    } else {
        match first_distinct_strategy(ms, 0) {
            Some(s) => Some(Seq::new(ms.len(), |i: int| name_with_caption(base, method_caption(ms[i], s)))),
            None => None,
        }
    }
}

/// No two strings of the list are equal.
fn all_distinct(cs: &Vec<String>) -> (r: bool)
    ensures
        r == pairwise_distinct(views(cs@)),
{
    let n = cs.len();
    let mut i: usize = 0;
    while i < n
        invariant
            n == cs@.len(),
            i <= n,
            forall|a: int, b: int| 0 <= a < i && 0 <= b < n && a != b ==> cs@[a]@ != cs@[b]@,
        decreases n - i,
    {
        let mut j: usize = 0;
        while j < n
            invariant
                n == cs@.len(),
                i < n,
                j <= n,
                forall|a: int, b: int| 0 <= a < i && 0 <= b < n && a != b ==> cs@[a]@ != cs@[b]@,
                forall|b: int| 0 <= b < j && b != i ==> cs@[i as int]@ != cs@[b]@,
            decreases n - j,
        {
            if j != i && cs[i] == cs[j] {
                proof {
                    assert(views(cs@)[i as int] == views(cs@)[j as int]);
                }
                return false;
            }
            j = j + 1;
        }
        i = i + 1;
    }
    proof {
        assert forall|a: int, b: int|
            0 <= a < views(cs@).len() && 0 <= b < views(cs@).len() && a != b implies views(
            cs@,
        )[a] != views(cs@)[b] by {
            assert(cs@[a]@ != cs@[b]@);
        }
    }
    true
}

/// The methods at the given positions, in the order of the positions.
pub open spec fn select(ms: Seq<CppMethodWithFfiSignature>, members: Seq<usize>) -> Seq<CppMethodWithFfiSignature> {
    Seq::new(members.len(), |j: int| ms[members[j] as int])
}

/// The captions of the methods at the positions `members` under
/// `strategy`; none when one of them has no caption under it.
fn group_captions_under(
    methods: &Vec<CppMethodWithFfiSignature>,
    members: &Vec<usize>,
    strategy: MethodCaptionStrategy,
) -> (r: Option<Vec<String>>)
    requires
        forall|j: int| 0 <= j < members@.len() ==> (#[trigger] members@[j]) < methods@.len(),
    ensures
        match r {
            Some(cs) => group_captionable(select(methods@, members@), strategy) && views(cs@)
                == group_captions(select(methods@, members@), strategy),
            None => !group_captionable(select(methods@, members@), strategy),
        },
{
    let ghost group = select(methods@, members@);
    let n = members.len();
    let mut captions: Vec<String> = Vec::new();
    let mut i: usize = 0;
    while i < n
        invariant
            n == members@.len(),
            i <= n,
            group == select(methods@, members@),
            captions@.len() == i,
            forall|j: int| 0 <= j < members@.len() ==> (#[trigger] members@[j]) < methods@.len(),
            forall|j: int| 0 <= j < i ==> method_captionable(#[trigger] group[j], strategy),
            forall|j: int|
                0 <= j < i ==> (#[trigger] captions@[j])@ == method_caption(group[j], strategy),
        decreases n - i,
    {
        match methods[members[i]].caption(strategy) {
            Some(c) => captions.push(c),
            None => {
                proof {
                    assert(!method_captionable(group[i as int], strategy));
                }
                return None;
            },
        }
        i = i + 1;
    }
    proof {
        assert(views(captions@) =~= group_captions(group, strategy));
    }
    Some(captions)
}

/// The names of the boundary functions of the methods at the positions
/// `members`, which share the base name `base_name`, in the order of
/// `members`. Fails when no caption strategy tells them apart.
fn member_names(
    methods: &Vec<CppMethodWithFfiSignature>,
    members: &Vec<usize>,
    base_name: &String,
) -> (r: Result<Vec<String>, String>)
    requires
        forall|j: int| 0 <= j < members@.len() ==> (#[trigger] members@[j]) < methods@.len(),
    ensures
        match r {
            Ok(names) => disambiguated(select(methods@, members@), base_name@) == Some(views(names@)),
            Err(_) => disambiguated(select(methods@, members@), base_name@) is None,
        },
{
    let ghost group = select(methods@, members@);
    let n = members.len();
    if n <= 1 {
        let mut names: Vec<String> = Vec::new();
        if n == 1 {
            names.push(base_name.clone());
        }
        proof {
            assert(views(names@) =~= Seq::new(n as nat, |i: int| base_name@));
        }
        return Ok(names);
    }
    let strategies = MethodCaptionStrategy::all();
    let mut k: usize = 0;
    while k < strategies.len()
        invariant
            n == members@.len(),
            n > 1,
            group == select(methods@, members@),
            strategies@ == method_strategies(),
            k <= strategies@.len(),
            first_distinct_strategy(group, 0) == first_distinct_strategy(group, k as nat),
            forall|j: int| 0 <= j < members@.len() ==> (#[trigger] members@[j]) < methods@.len(),
        decreases strategies@.len() - k,
    {
        let strategy = strategies[k];
        let captions = match group_captions_under(methods, members, strategy) {
            Some(c) => c,
            None => {
                k = k + 1;
                continue;
            },
        };
        proof {
            assert(views(captions@).len() == n);
            assert forall|j: int| 0 <= j < n implies (#[trigger] captions@[j])@ == method_caption(
                group[j],
                strategy,
            ) by {
                assert(views(captions@)[j] == captions@[j]@);
            }
        }
        if all_distinct(&captions) {
            let mut names: Vec<String> = Vec::new();
            let mut i: usize = 0;
            while i < n
                invariant
                    n == members@.len(),
                    n == captions@.len(),
                    i <= n,
                    names@.len() == i,
                    forall|j: int|
                        0 <= j < n ==> (#[trigger] captions@[j])@ == method_caption(group[j], strategy),
                    forall|j: int|
                        0 <= j < i ==> (#[trigger] names@[j])@ == name_with_caption(
                            base_name@,
                            method_caption(group[j], strategy),
                        ),
                decreases n - i,
            {
                let c = &captions[i];
                if c.as_str().unicode_len() == 0 {
                    names.push(base_name.clone());
                } else {
                    let mut name = base_name.clone();
                    name.append("_");
                    name.append(c.as_str());
                    names.push(name);
                }
                i = i + 1;
            }
            proof {
                assert(views(names@) =~= disambiguated(group, base_name@)->Some_0);
            }
            return Ok(names);
        }
        k = k + 1;
    }
    Err(owned("all type caption strategies have failed"))
}

/// The names of the boundary functions of a group of overloads that share
/// the base name `base_name`, in the group's order. Fails when no caption
/// strategy tells the overloads apart.
pub fn disambiguated_names(methods: &Vec<CppMethodWithFfiSignature>, base_name: &String) -> (r: Result<
    Vec<String>,
    String,
>)
    ensures
        match r {
            Ok(names) => disambiguated(methods@, base_name@) == Some(views(names@)),
            Err(_) => disambiguated(methods@, base_name@) is None,
        },
{
    let mut members: Vec<usize> = Vec::new();
    let mut i: usize = 0;
    while i < methods.len()
        invariant
            i <= methods@.len(),
            members@.len() == i,
            forall|j: int| 0 <= j < i ==> (#[trigger] members@[j]) == j,
        decreases methods@.len() - i,
    {
        members.push(i);
        i = i + 1;
    }
    proof {
        assert(select(methods@, members@) =~= methods@);
    }
    member_names(methods, &members, base_name)
}

/// The positions of the members of a scope whose base name is `base`, in
/// discovery order.
pub open spec fn group_positions(bases: Seq<Seq<char>>, base: Seq<char>) -> Seq<usize>
    decreases bases.len(),
{
    if bases.len() == 0 {
        Seq::empty()
    } else {
        let prev = group_positions(bases.drop_last(), base);
        if bases.last() == base {
            prev.push((bases.len() - 1) as usize)
        } else {
            prev
        }
    }
}

/// The place of the `i`-th member of a scope within its group.
pub open spec fn place_in_group(bases: Seq<Seq<char>>, i: int) -> int {
    group_positions(bases.subrange(0, i), bases[i]).len() as int
}

/// The name of the `i`-th member of a scope whose base names are `bases`:
/// its name within the group of members that share its base name.
pub open spec fn member_name(ms: Seq<CppMethodWithFfiSignature>, bases: Seq<Seq<char>>, i: int) -> Option<Seq<char>> {
    match disambiguated(select(ms, group_positions(bases, bases[i])), bases[i]) {
        Some(names) => Some(names[place_in_group(bases, i)]),
        None => None,
    }
}

/// The names of the members of a scope, or none when some group cannot be
/// told apart.
pub open spec fn scope_names_spec(ms: Seq<CppMethodWithFfiSignature>, bases: Seq<Seq<char>>) -> Option<Seq<Seq<char>>> {
    if forall|i: int| 0 <= i < ms.len() ==> (#[trigger] member_name(ms, bases, i)) is Some {
        Some(Seq::new(ms.len(), |i: int| member_name(ms, bases, i)->Some_0))
    } else {
        None
    }
}

/// The names of the boundary functions of all methods of a scope, given
/// the base name of each: each method is named within the group of methods
/// that share its base name, in discovery order.
pub fn scope_names(methods: &Vec<CppMethodWithFfiSignature>, base_names: &Vec<String>) -> (r: Result<
    Vec<String>,
    String,
>)
    requires
        base_names@.len() == methods@.len(),
    ensures
        match r {
            Ok(names) => scope_names_spec(methods@, views(base_names@)) == Some(views(names@)),
            Err(_) => scope_names_spec(methods@, views(base_names@)) is None,
        },
{
    let ghost bases = views(base_names@);
    let n = methods.len();
    let mut result: Vec<String> = Vec::new();
    let mut i: usize = 0;
    while i < n
        invariant
            n == methods@.len(),
            n == base_names@.len(),
            bases == views(base_names@),
            i <= n,
            result@.len() == i,
            forall|j: int|
                0 <= j < i ==> member_name(methods@, bases, j) == Some((#[trigger] result@[j])@),
        decreases n - i,
    {
        let base = &base_names[i];
        let mut members: Vec<usize> = Vec::new();
        let mut place: usize = 0;
        let mut j: usize = 0;
        while j < n
            invariant
                n == methods@.len(),
                n == base_names@.len(),
                bases == views(base_names@),
                i < n,
                j <= n,
                base@ == bases[i as int],
                members@ == group_positions(bases.subrange(0, j as int), bases[i as int]),
                forall|k: int| 0 <= k < members@.len() ==> (#[trigger] members@[k]) < j,
                j > i ==> place == place_in_group(bases, i as int) && place < members@.len()
                    && members@[place as int] == i,
            decreases n - j,
        {
            proof {
                assert(bases.subrange(0, j + 1).drop_last() =~= bases.subrange(0, j as int));
                assert(bases[j as int] == base_names@[j as int]@);
            }
            if j == i {
                place = members.len();
            }
            if base_names[j] == *base {
                members.push(j);
            }
            j = j + 1;
        }
        proof {
            assert(bases.subrange(0, n as int) =~= bases);
        }
        proof {
            assert(members@ == group_positions(bases, bases[i as int]));
        }
        let names = match member_names(methods, &members, base) {
            Ok(names) => names,
            Err(e) => {
                proof {
                    assert(member_name(methods@, bases, i as int) is None);
                }
                return Err(e);
            },
        };
        proof {
            let group = select(methods@, members@);
            assert(group.len() == members@.len());
            assert(disambiguated(group, base@)->Some_0.len() == group.len());
            assert(views(names@).len() == names@.len());
            assert(views(names@)[place as int] == names@[place as int]@);
        }
        result.push(names[place].clone());
        i = i + 1;
    }
    proof {
        assert forall|i: int| 0 <= i < methods@.len() implies (#[trigger] member_name(
            methods@,
            bases,
            i,
        )) is Some by {
            assert(member_name(methods@, bases, i) == Some(result@[i]@));
        }
        assert(views(result@) =~= Seq::new(n as nat, |i: int| member_name(methods@, bases, i)->Some_0));
    }
    Ok(result)
}

/// A method's name depends only on the methods that share its base name and
/// on its place among them: reordering or changing the other members of the
/// scope leaves it as it is.
pub proof fn lemma_member_name_stable(
    ms1: Seq<CppMethodWithFfiSignature>,
    bases1: Seq<Seq<char>>,
    i1: int,
    ms2: Seq<CppMethodWithFfiSignature>,
    bases2: Seq<Seq<char>>,
    i2: int,
)
    requires
        0 <= i1 < bases1.len(),
        0 <= i2 < bases2.len(),
        bases1[i1] == bases2[i2],
        select(ms1, group_positions(bases1, bases1[i1])) == select(
            ms2,
            group_positions(bases2, bases2[i2]),
        ),
        place_in_group(bases1, i1) == place_in_group(bases2, i2),
    ensures
        member_name(ms1, bases1, i1) == member_name(ms2, bases2, i2),
{
}

/// Appending a separator and a suffix to a common base keeps distinct
/// suffixes distinct, and tells any suffix from the base alone.
proof fn lemma_name_with_caption_injective(base: Seq<char>, c1: Seq<char>, c2: Seq<char>)
    requires
        c1 != c2,
    ensures
        name_with_caption(base, c1) != name_with_caption(base, c2),
{
    let n1 = name_with_caption(base, c1);
    let n2 = name_with_caption(base, c2);
    reveal_strlit("_");
    if c1.len() == 0 && c2.len() == 0 {
        assert(c1 =~= c2);
    } else if c1.len() != 0 && c2.len() != 0 {
        if n1 == n2 {
            assert(c1 =~= n1.subrange(base.len() as int + 1, n1.len() as int));
            assert(c2 =~= n2.subrange(base.len() as int + 1, n2.len() as int));
        }
    } else {
        assert(n1.len() != n2.len());
    }
}

/// The names given to a group of overloads are pairwise distinct.
pub proof fn lemma_disambiguated_names_distinct(ms: Seq<CppMethodWithFfiSignature>, base: Seq<char>)
    requires
        disambiguated(ms, base) is Some,
    ensures
        pairwise_distinct(disambiguated(ms, base)->Some_0),
{
    let names = disambiguated(ms, base)->Some_0;
    if ms.len() > 1 {
        let s = first_distinct_strategy(ms, 0)->Some_0;
        lemma_first_distinct_strategy(ms, 0);
        assert forall|i: int, j: int|
            0 <= i < names.len() && 0 <= j < names.len() && i != j implies names[i] != names[j] by {
            assert(group_captions(ms, s)[i] != group_captions(ms, s)[j]);
            lemma_name_with_caption_injective(
                base,
                method_caption(ms[i], s),
                method_caption(ms[j], s),
            );
        }
    }
}

/// The strategy that is found tells the captions of the group apart.
proof fn lemma_first_distinct_strategy(ms: Seq<CppMethodWithFfiSignature>, k: nat)
    requires
        first_distinct_strategy(ms, k) is Some,
    ensures
        pairwise_distinct(group_captions(ms, first_distinct_strategy(ms, k)->Some_0)),
    decreases method_strategies().len() - k,
{
    if k < method_strategies().len() && !(group_captionable(ms, method_strategies()[k as int])
        && pairwise_distinct(group_captions(ms, method_strategies()[k as int]))) {
        lemma_first_distinct_strategy(ms, k + 1);
    }
}

/// A method with no overload that shares its base name keeps the base name
/// as its boundary function's name.
pub proof fn lemma_single_overload_keeps_base_name(m: CppMethodWithFfiSignature, base: Seq<char>)
    ensures
        disambiguated(seq![m], base) == Some(seq![base]),
{
    assert(Seq::new(1, |i: int| base) =~= seq![base]);
}

/// The base name of a free function that is no operator: its include file,
/// `_G_`, its name with `_` for each `::`, and the note on the allocation
/// place.
pub proof fn lemma_free_function_base_name(
    m: CppMethod,
    place: ReturnValueAllocationPlace,
    include_file: Seq<char>,
)
    requires
        m.class_membership is None,
        m.operator is None,
    ensures
        base_name(m, place, include_file) == Some(
            include_file + "_G_"@ + with_place_note(replace_scope_separators(m.name@), place),
        ),
{
}

} // verus!
