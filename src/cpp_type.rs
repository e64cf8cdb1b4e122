//! The closed model of native types: rendering as source code, captions and
//! classification.
use vstd::prelude::*;
use crate::caption_strategy::TypeCaptionStrategy;
use crate::text::{
    first_error, join, join_results, join_strings, lemma_first_error_prefix,
    owned, replace_scope_separators, replace_separators, result_view, unwrap_oks, views,
};

verus! {

/// The built-in numeric types of the native language.
#[derive(Clone, Copy, Debug, PartialEq, Eq, Structural)]
pub enum CppBuiltInNumericType {
    Bool,
    CharS,
    CharU,
    SChar,
    UChar,
    WChar,
    Char16,
    Char32,
    Short,
    UShort,
    Int,
    UInt,
    Long,
    ULong,
    LongLong,
    ULongLong,
    Int128,
    UInt128,
    Float,
    Double,
    LongDouble,
}

/// Whether a platform-sized numeric typedef is an integer or a float.
#[derive(Clone, Copy, Debug, PartialEq, Eq, Structural)]
pub enum CppSpecificNumericTypeKind {
    Integer { is_signed: bool },
    FloatingPoint,
}

/// The pointer or reference decoration of a type.
#[derive(Clone, Copy, Debug, PartialEq, Eq, Structural)]
pub enum CppTypeIndirection {
    Direct,
    Ptr,
    Ref,
    PtrRef,
    PtrPtr,
    RValueRef,
}

/// The base of a native type, without constness and indirection.
#[derive(Debug)]
pub enum CppTypeBase {
    Void,
    BuiltInNumeric(CppBuiltInNumericType),
    Enum { name: String },
    SpecificNumeric { name: String, bits: i32, kind: CppSpecificNumericTypeKind },
    PointerSizedInteger { name: String, is_signed: bool },
    Class { name: String, template_arguments: Option<Vec<CppType>> },
    TemplateParameter { nested_level: i32, index: i32 },
    FunctionPointer {
        return_type: Box<CppType>,
        arguments: Vec<CppType>,
        allows_variable_arguments: bool,
    },
}

/// A native type.
#[derive(Debug)]
pub struct CppType {
    pub is_const: bool,
    pub indirection: CppTypeIndirection,
    pub base: CppTypeBase,
}

/// The mathematical value of a `CppTypeBase`.
pub enum TypeBaseModel {
    Void,
    BuiltInNumeric(CppBuiltInNumericType),
    Enum { name: Seq<char> },
    SpecificNumeric { name: Seq<char>, bits: i32, kind: CppSpecificNumericTypeKind },
    PointerSizedInteger { name: Seq<char>, is_signed: bool },
    Class { name: Seq<char>, template_arguments: Option<Seq<TypeModel>> },
    TemplateParameter { nested_level: i32, index: i32 },
    FunctionPointer {
        return_type: Box<TypeModel>,
        arguments: Seq<TypeModel>,
        allows_variable_arguments: bool,
    },
}

/// The mathematical value of a `CppType`.
pub struct TypeModel {
    pub is_const: bool,
    pub indirection: CppTypeIndirection,
    pub base: TypeBaseModel,
}

/// The models of a sequence of types.
pub open spec fn types_view(ts: Seq<CppType>) -> Seq<TypeModel>
    decreases ts,
{
    Seq::new(
        ts.len(),
        |i: int|
            if 0 <= i < ts.len() {
                ts[i].view()
            } else {
                TypeModel { is_const: false, indirection: CppTypeIndirection::Direct, base: TypeBaseModel::Void }
            },
    )
}

impl CppTypeBase {
    pub open spec fn view(self) -> TypeBaseModel
        decreases self,
    {
        match self {
            CppTypeBase::Void => TypeBaseModel::Void,
            CppTypeBase::BuiltInNumeric(k) => TypeBaseModel::BuiltInNumeric(k),
            CppTypeBase::Enum { name } => TypeBaseModel::Enum { name: name@ },
            CppTypeBase::SpecificNumeric { name, bits, kind } => TypeBaseModel::SpecificNumeric {
                name: name@,
                bits,
                kind,
            },
            CppTypeBase::PointerSizedInteger { name, is_signed } =>
                TypeBaseModel::PointerSizedInteger { name: name@, is_signed },
            CppTypeBase::Class { name, template_arguments } => TypeBaseModel::Class {
                name: name@,
                template_arguments: match template_arguments {
                    Some(args) => Some(
                        Seq::new(
                            args@.len(),
                            |i: int|
                                if 0 <= i < args.len() {
                                    args[i].view()
                                } else {
                                    TypeModel {
                                        is_const: false,
                                        indirection: CppTypeIndirection::Direct,
                                        base: TypeBaseModel::Void,
                                    }
                                },
                        ),
                    ),
                    None => None,
                },
            },
            CppTypeBase::TemplateParameter { nested_level, index } =>
                TypeBaseModel::TemplateParameter { nested_level, index },
            CppTypeBase::FunctionPointer { return_type, arguments, allows_variable_arguments } =>
                TypeBaseModel::FunctionPointer {
                return_type: Box::new((*return_type).view()),
                arguments: Seq::new(
                    arguments@.len(),
                    |i: int|
                        if 0 <= i < arguments.len() {
                            arguments[i].view()
                        } else {
                            TypeModel {
                                is_const: false,
                                indirection: CppTypeIndirection::Direct,
                                base: TypeBaseModel::Void,
                            }
                        },
                ),
                allows_variable_arguments,
            },
        }
    }
}

impl CppType {
    pub open spec fn view(self) -> TypeModel
        decreases self,
    {
        TypeModel { is_const: self.is_const, indirection: self.indirection, base: self.base.view() }
    }
}

/// The source spelling of "the function pointer's own name" in a rendered
/// function pointer type.
pub open spec fn fn_ptr_placeholder() -> Seq<char> {
    "FN_PTR"@
}

/// The source spelling of a built-in numeric type.
pub open spec fn numeric_code(k: CppBuiltInNumericType) -> Seq<char> {
    match k {
        CppBuiltInNumericType::Bool => "bool"@,
        CppBuiltInNumericType::CharS => "char"@,
        CppBuiltInNumericType::CharU => "char"@,
        CppBuiltInNumericType::SChar => "signed char"@,
        CppBuiltInNumericType::UChar => "unsigned char"@,
        CppBuiltInNumericType::WChar => "wchar_t"@,
        CppBuiltInNumericType::Char16 => "char16_t"@,
        CppBuiltInNumericType::Char32 => "char32_t"@,
        CppBuiltInNumericType::Short => "short"@,
        CppBuiltInNumericType::UShort => "unsigned short"@,
        CppBuiltInNumericType::Int => "int"@,
        CppBuiltInNumericType::UInt => "unsigned int"@,
        CppBuiltInNumericType::Long => "long"@,
        CppBuiltInNumericType::ULong => "unsigned long"@,
        CppBuiltInNumericType::LongLong => "long long"@,
        CppBuiltInNumericType::ULongLong => "unsigned long long"@,
        CppBuiltInNumericType::Int128 => "__int128_t"@,
        CppBuiltInNumericType::UInt128 => "__uint128_t"@,
        CppBuiltInNumericType::Float => "float"@,
        CppBuiltInNumericType::Double => "double"@,
        CppBuiltInNumericType::LongDouble => "long double"@,
    }
}

/// The caption of a built-in numeric type: its spelling with `_` for spaces.
pub open spec fn numeric_caption(k: CppBuiltInNumericType) -> Seq<char> {
    match k {
        CppBuiltInNumericType::SChar => "signed_char"@,
        CppBuiltInNumericType::UChar => "unsigned_char"@,
        CppBuiltInNumericType::UShort => "unsigned_short"@,
        CppBuiltInNumericType::UInt => "unsigned_int"@,
        CppBuiltInNumericType::ULong => "unsigned_long"@,
        CppBuiltInNumericType::LongLong => "long_long"@,
        CppBuiltInNumericType::ULongLong => "unsigned_long_long"@,
        CppBuiltInNumericType::LongDouble => "long_double"@,
        _ => numeric_code(k),
    }
}

/// The source suffix of an indirection.
pub open spec fn indirection_code(i: CppTypeIndirection) -> Seq<char> {
    match i {
        CppTypeIndirection::Direct => ""@,
        CppTypeIndirection::Ptr => "*"@,
        CppTypeIndirection::Ref => "&"@,
        CppTypeIndirection::PtrRef => "*&"@,
        CppTypeIndirection::PtrPtr => "**"@,
        CppTypeIndirection::RValueRef => "&&"@,
    }
}

/// The caption suffix of an indirection.
pub open spec fn indirection_caption(i: CppTypeIndirection) -> Seq<char> {
    match i {
        CppTypeIndirection::Direct => ""@,
        CppTypeIndirection::Ptr => "_ptr"@,
        CppTypeIndirection::Ref => "_ref"@,
        CppTypeIndirection::PtrRef => "_ptr_ref"@,
        CppTypeIndirection::PtrPtr => "_ptr_ptr"@,
        CppTypeIndirection::RValueRef => "_rvalue_ref"@,
    }
}

/// The message for rendering a template parameter.
pub open spec fn template_parameter_message() -> Seq<char> {
    "template parameters are not supported here yet"@
}

/// The message for rendering a variadic function pointer.
pub open spec fn variadic_message() -> Seq<char> {
    "Function pointers with variadic arguments are not supported"@
}

/// The rendering of each type of a list.
pub open spec fn codes_of(ts: Seq<TypeModel>) -> Seq<Result<Seq<char>, Seq<char>>>
    decreases ts,
{
    Seq::new(
        ts.len(),
        |i: int|
            if 0 <= i < ts.len() {
                type_code(ts[i], fn_ptr_placeholder())
            } else {
                Err(Seq::empty())
            },
    )
}

/// The source code of a base type; a function pointer is named `fn_ptr_name`.
/// A template parameter and a variadic function pointer fail; a type made
/// of others fails with the first failure among them, arguments before the
/// return type.
pub open spec fn base_code(b: TypeBaseModel, fn_ptr_name: Seq<char>) -> Result<Seq<char>, Seq<char>>
    decreases b,
{
    match b {
        TypeBaseModel::Void => Ok("void"@),
        TypeBaseModel::BuiltInNumeric(k) => Ok(numeric_code(k)),
        TypeBaseModel::Enum { name } => Ok(name),
        TypeBaseModel::SpecificNumeric { name, .. } => Ok(name),
        TypeBaseModel::PointerSizedInteger { name, .. } => Ok(name),
        TypeBaseModel::Class { name, template_arguments } => match template_arguments {
            None => Ok(name),
            Some(args) => match join_results(codes_of(args), ", "@) {
                Ok(j) => Ok(name + "< "@ + j + " >"@),
                Err(e) => Err(e),
            },
        },
        TypeBaseModel::TemplateParameter { .. } => Err(template_parameter_message()),
        TypeBaseModel::FunctionPointer { return_type, arguments, allows_variable_arguments } => {
            if allows_variable_arguments {
                Err(variadic_message())
            } else {
                match join_results(codes_of(arguments), ", "@) {
                    Err(e) => Err(e),
                    Ok(j) => match type_code(*return_type, fn_ptr_placeholder()) {
                        Err(e) => Err(e),
                        Ok(r) => Ok(r + " (*"@ + fn_ptr_name + ")("@ + j + ")"@),
                    },
                }
            }
        },
    }
}

/// The source code of a type: `const ` when it is const, its base, and the
/// suffix of its indirection; or the base's failure.
pub open spec fn type_code(t: TypeModel, fn_ptr_name: Seq<char>) -> Result<Seq<char>, Seq<char>>
    decreases t,
{
    match base_code(t.base, fn_ptr_name) {
        Ok(b) => Ok(
            (if t.is_const {
                "const "@
            } else {
                ""@
            }) + b + indirection_code(t.indirection),
        ),
        Err(e) => Err(e),
    }
}

/// A type has a caption: neither it nor any of its template arguments is a
/// template parameter or a function pointer.
pub open spec fn captionable(t: TypeModel) -> bool
    decreases t,
{
    base_captionable(t.base)
}

/// A base type has a caption.
pub open spec fn base_captionable(b: TypeBaseModel) -> bool
    decreases b,
{
    match b {
        TypeBaseModel::TemplateParameter { .. } => false,
        TypeBaseModel::FunctionPointer { .. } => false,
        TypeBaseModel::Class { template_arguments, .. } => match template_arguments {
            Some(args) => !captionable_flags(args).contains(false),
            None => true,
        },
        _ => true,
    }
}

/// Whether each type of a list has a caption.
pub open spec fn captionable_flags(ts: Seq<TypeModel>) -> Seq<bool>
    decreases ts,
{
    Seq::new(ts.len(), |i: int| if 0 <= i < ts.len() { captionable(ts[i]) } else { true })
}

/// The full caption of each type of a list.
pub open spec fn captions_of(ts: Seq<TypeModel>) -> Seq<Seq<char>>
    decreases ts,
{
    Seq::new(
        ts.len(),
        |i: int|
            if 0 <= i < ts.len() {
                type_caption(ts[i], TypeCaptionStrategy::Full)
            } else {
                Seq::empty()
            },
    )
}

/// The caption of a base type.
pub open spec fn base_caption(b: TypeBaseModel) -> Seq<char>
    decreases b,
{
    match b {
        TypeBaseModel::Void => "void"@,
        TypeBaseModel::BuiltInNumeric(k) => numeric_caption(k),
        TypeBaseModel::SpecificNumeric { name, .. } => name,
        TypeBaseModel::PointerSizedInteger { name, .. } => name,
        TypeBaseModel::Enum { name } => replace_scope_separators(name),
        TypeBaseModel::Class { name, template_arguments } => match template_arguments {
            Some(args) => replace_scope_separators(name) + "_"@ + join(captions_of(args), "_"@),
            None => replace_scope_separators(name),
        },
        _ => Seq::empty(),
    }
}

/// The caption of a type: the base caption alone, or with `_ptr`-like
/// suffixes and a `const_` prefix.
pub open spec fn type_caption(t: TypeModel, strategy: TypeCaptionStrategy) -> Seq<char>
    decreases t,
{
    match strategy {
        TypeCaptionStrategy::Short => base_caption(t.base),
        TypeCaptionStrategy::Full => (if t.is_const {
            "const_"@
        } else {
            ""@
        }) + base_caption(t.base) + indirection_caption(t.indirection),
    }
}

/// The models of the void type.
pub open spec fn void_model() -> TypeModel {
    TypeModel { is_const: false, indirection: CppTypeIndirection::Direct, base: TypeBaseModel::Void }
}

impl CppBuiltInNumericType {
    /// The source spelling of this type.
    pub fn to_cpp_code(&self) -> (r: &'static str)
        ensures
            r@ == numeric_code(*self),
    {
        match *self {
            CppBuiltInNumericType::Bool => "bool",
            CppBuiltInNumericType::CharS => "char",
            CppBuiltInNumericType::CharU => "char",
            CppBuiltInNumericType::SChar => "signed char",
            CppBuiltInNumericType::UChar => "unsigned char",
            CppBuiltInNumericType::WChar => "wchar_t",
            CppBuiltInNumericType::Char16 => "char16_t",
            CppBuiltInNumericType::Char32 => "char32_t",
            CppBuiltInNumericType::Short => "short",
            CppBuiltInNumericType::UShort => "unsigned short",
            CppBuiltInNumericType::Int => "int",
            CppBuiltInNumericType::UInt => "unsigned int",
            CppBuiltInNumericType::Long => "long",
            CppBuiltInNumericType::ULong => "unsigned long",
            CppBuiltInNumericType::LongLong => "long long",
            CppBuiltInNumericType::ULongLong => "unsigned long long",
            CppBuiltInNumericType::Int128 => "__int128_t",
            CppBuiltInNumericType::UInt128 => "__uint128_t",
            CppBuiltInNumericType::Float => "float",
            CppBuiltInNumericType::Double => "double",
            CppBuiltInNumericType::LongDouble => "long double",
        }
    }

    /// The caption of this type.
    pub fn caption(&self) -> (r: &'static str)
        ensures
            r@ == numeric_caption(*self),
    {
        match *self {
            CppBuiltInNumericType::SChar => "signed_char",
            CppBuiltInNumericType::UChar => "unsigned_char",
            CppBuiltInNumericType::UShort => "unsigned_short",
            CppBuiltInNumericType::UInt => "unsigned_int",
            CppBuiltInNumericType::ULong => "unsigned_long",
            CppBuiltInNumericType::LongLong => "long_long",
            CppBuiltInNumericType::ULongLong => "unsigned_long_long",
            CppBuiltInNumericType::LongDouble => "long_double",
            _ => self.to_cpp_code(),
        }
    }

    /// Every built-in numeric type, each once, in declaration order.
    pub fn all() -> (r: [CppBuiltInNumericType; 21])
        ensures
            r@ == seq![
                CppBuiltInNumericType::Bool,
                CppBuiltInNumericType::CharS,
                CppBuiltInNumericType::CharU,
                CppBuiltInNumericType::SChar,
                CppBuiltInNumericType::UChar,
                CppBuiltInNumericType::WChar,
                CppBuiltInNumericType::Char16,
                CppBuiltInNumericType::Char32,
                CppBuiltInNumericType::Short,
                CppBuiltInNumericType::UShort,
                CppBuiltInNumericType::Int,
                CppBuiltInNumericType::UInt,
                CppBuiltInNumericType::Long,
                CppBuiltInNumericType::ULong,
                CppBuiltInNumericType::LongLong,
                CppBuiltInNumericType::ULongLong,
                CppBuiltInNumericType::Int128,
                CppBuiltInNumericType::UInt128,
                CppBuiltInNumericType::Float,
                CppBuiltInNumericType::Double,
                CppBuiltInNumericType::LongDouble,
            ],
            forall|k: CppBuiltInNumericType| #[trigger] r@.contains(k),
            forall|i: int, j: int| 0 <= i < j < 21 ==> r@[i] != r@[j],
    {
        let r = [
            CppBuiltInNumericType::Bool,
            CppBuiltInNumericType::CharS,
            CppBuiltInNumericType::CharU,
            CppBuiltInNumericType::SChar,
            CppBuiltInNumericType::UChar,
            CppBuiltInNumericType::WChar,
            CppBuiltInNumericType::Char16,
            CppBuiltInNumericType::Char32,
            CppBuiltInNumericType::Short,
            CppBuiltInNumericType::UShort,
            CppBuiltInNumericType::Int,
            CppBuiltInNumericType::UInt,
            CppBuiltInNumericType::Long,
            CppBuiltInNumericType::ULong,
            CppBuiltInNumericType::LongLong,
            CppBuiltInNumericType::ULongLong,
            CppBuiltInNumericType::Int128,
            CppBuiltInNumericType::UInt128,
            CppBuiltInNumericType::Float,
            CppBuiltInNumericType::Double,
            CppBuiltInNumericType::LongDouble,
        ];
        proof {
            assert(r@ =~= seq![
                    CppBuiltInNumericType::Bool,
                    CppBuiltInNumericType::CharS,
                    CppBuiltInNumericType::CharU,
                    CppBuiltInNumericType::SChar,
                    CppBuiltInNumericType::UChar,
                    CppBuiltInNumericType::WChar,
                    CppBuiltInNumericType::Char16,
                    CppBuiltInNumericType::Char32,
                    CppBuiltInNumericType::Short,
                    CppBuiltInNumericType::UShort,
                    CppBuiltInNumericType::Int,
                    CppBuiltInNumericType::UInt,
                    CppBuiltInNumericType::Long,
                    CppBuiltInNumericType::ULong,
                    CppBuiltInNumericType::LongLong,
                    CppBuiltInNumericType::ULongLong,
                    CppBuiltInNumericType::Int128,
                    CppBuiltInNumericType::UInt128,
                    CppBuiltInNumericType::Float,
                    CppBuiltInNumericType::Double,
                    CppBuiltInNumericType::LongDouble,
                ]);
            assert forall|k: CppBuiltInNumericType| #[trigger] r@.contains(k) by {
                let i: int = match k {
                    CppBuiltInNumericType::Bool => 0,
                    CppBuiltInNumericType::CharS => 1,
                    CppBuiltInNumericType::CharU => 2,
                    CppBuiltInNumericType::SChar => 3,
                    CppBuiltInNumericType::UChar => 4,
                    CppBuiltInNumericType::WChar => 5,
                    CppBuiltInNumericType::Char16 => 6,
                    CppBuiltInNumericType::Char32 => 7,
                    CppBuiltInNumericType::Short => 8,
                    CppBuiltInNumericType::UShort => 9,
                    CppBuiltInNumericType::Int => 10,
                    CppBuiltInNumericType::UInt => 11,
                    CppBuiltInNumericType::Long => 12,
                    CppBuiltInNumericType::ULong => 13,
                    CppBuiltInNumericType::LongLong => 14,
                    CppBuiltInNumericType::ULongLong => 15,
                    CppBuiltInNumericType::Int128 => 16,
                    CppBuiltInNumericType::UInt128 => 17,
                    CppBuiltInNumericType::Float => 18,
                    CppBuiltInNumericType::Double => 19,
                    CppBuiltInNumericType::LongDouble => 20,
                };
                assert(r@[i] == k);
            }
        }
        r
    }
}

/// The source suffix of an indirection.
fn indirection_suffix(i: CppTypeIndirection) -> (r: &'static str)
    ensures
        r@ == indirection_code(i),
{
    match i {
        CppTypeIndirection::Direct => "",
        CppTypeIndirection::Ptr => "*",
        CppTypeIndirection::Ref => "&",
        CppTypeIndirection::PtrRef => "*&",
        CppTypeIndirection::PtrPtr => "**",
        CppTypeIndirection::RValueRef => "&&",
    }
}

/// The caption suffix of an indirection.
fn indirection_caption_suffix(i: CppTypeIndirection) -> (r: &'static str)
    ensures
        r@ == indirection_caption(i),
{
    match i {
        CppTypeIndirection::Direct => "",
        CppTypeIndirection::Ptr => "_ptr",
        CppTypeIndirection::Ref => "_ref",
        CppTypeIndirection::PtrRef => "_ptr_ref",
        CppTypeIndirection::PtrPtr => "_ptr_ptr",
        CppTypeIndirection::RValueRef => "_rvalue_ref",
    }
}

/// The source code of the types of a list, joined by `, `; or the failure
/// of the first type that has none.
fn codes_joined(ts: &Vec<CppType>) -> (r: Result<String, String>)
    ensures
        result_view(r) == join_results(codes_of(types_view(ts@)), ", "@),
    decreases ts,
{
    let ghost models = types_view(ts@);
    let ghost codes = codes_of(models);
    let mut parts: Vec<String> = Vec::new();
    let mut i: usize = 0;
    while i < ts.len()
        invariant
            i <= ts@.len(),
            parts@.len() == i,
            models == types_view(ts@),
            codes == codes_of(models),
            first_error(codes.subrange(0, i as int)) is None,
            forall|j: int| 0 <= j < i ==> codes[j] == Ok::<Seq<char>, Seq<char>>((#[trigger] parts@[j])@),
        decreases ts@.len() - i,
    {
        proof {
            assert(codes.subrange(0, i + 1).drop_last() =~= codes.subrange(0, i as int));
        }
        match ts[i].to_cpp_code_named("FN_PTR") {
            Ok(c) => {
                parts.push(c);
            },
            Err(e) => {
                proof {
                    assert(codes[i as int] == Err::<Seq<char>, Seq<char>>(e@));
                    lemma_first_error_prefix(codes, i + 1);
                }
                return Err(e);
            },
        }
        i = i + 1;
    }
    let joined = join_strings(&parts, ", ");
    proof {
        assert(codes.subrange(0, codes.len() as int) =~= codes);
        assert(unwrap_oks(codes) =~= views(parts@));
    }
    Ok(joined)
}

/// The full captions of the types of a list, joined by `_`; none when one
/// of them has no caption.
fn captions_joined(ts: &Vec<CppType>) -> (r: Option<String>)
    ensures
        match r {
            Some(s) => !captionable_flags(types_view(ts@)).contains(false) && s@ == join(
                captions_of(types_view(ts@)),
                "_"@,
            ),
            None => captionable_flags(types_view(ts@)).contains(false),
        },
    decreases ts,
{
    let ghost models = types_view(ts@);
    let ghost flags = captionable_flags(models);
    let mut parts: Vec<String> = Vec::new();
    let mut i: usize = 0;
    while i < ts.len()
        invariant
            i <= ts@.len(),
            parts@.len() == i,
            models == types_view(ts@),
            flags == captionable_flags(models),
            forall|j: int| 0 <= j < i ==> #[trigger] flags[j],
            forall|j: int|
                0 <= j < i ==> type_caption(models[j], TypeCaptionStrategy::Full) == (#[trigger] parts@[j])@,
        decreases ts@.len() - i,
    {
        match ts[i].caption(TypeCaptionStrategy::Full) {
            Some(c) => parts.push(c),
            None => {
                proof {
                    assert(!flags[i as int]);
                }
                return None;
            },
        }
        i = i + 1;
    }
    let joined = join_strings(&parts, "_");
    proof {
        assert(captions_of(models) =~= views(parts@));
        assert(!flags.contains(false)) by {
            if flags.contains(false) {
                let k = choose|k: int| 0 <= k < flags.len() && flags[k] == false;
                assert(flags[k]);
            }
        }
    }
    Some(joined)
}

impl CppTypeBase {
    /// This is the void type.
    pub fn is_void(&self) -> (r: bool)
        ensures
            r == (self.view() is Void),
    {
        match self {
            CppTypeBase::Void => true,
            _ => false,
        }
    }

    /// This is a class type.
    pub fn is_class(&self) -> (r: bool)
        ensures
            r == (self.view() is Class),
    {
        match self {
            CppTypeBase::Class { .. } => true,
            _ => false,
        }
    }

    /// This is an unresolved template parameter.
    pub fn is_template_parameter(&self) -> (r: bool)
        ensures
            r == (self.view() is TemplateParameter),
    {
        match self {
            CppTypeBase::TemplateParameter { .. } => true,
            _ => false,
        }
    }

    /// The source code of this base type; a function pointer is named
    /// `fn_ptr_name`.
    fn code_named(&self, fn_ptr_name: &str) -> (r: Result<String, String>)
        ensures
            result_view(r) == base_code(self.view(), fn_ptr_name@),
        decreases self,
    {
        match self {
            CppTypeBase::Void => Ok(owned("void")),
            CppTypeBase::BuiltInNumeric(k) => Ok(owned(k.to_cpp_code())),
            CppTypeBase::Enum { name } => Ok(name.clone()),
            CppTypeBase::SpecificNumeric { name, .. } => Ok(name.clone()),
            CppTypeBase::PointerSizedInteger { name, .. } => Ok(name.clone()),
            CppTypeBase::Class { name, template_arguments } => match template_arguments {
                Some(args) => {
                    proof {
                        assert(self.view()->Class_template_arguments->Some_0 =~= types_view(args@));
                    }
                    match codes_joined(args) {
                        Ok(joined) => {
                            let mut r = name.clone();
                            r.append("< ");
                            r.append(joined.as_str());
                            r.append(" >");
                            Ok(r)
                        },
                        Err(e) => Err(e),
                    }
                },
                None => Ok(name.clone()),
            },
            CppTypeBase::TemplateParameter { .. } => Err(
                owned("template parameters are not supported here yet"),
            ),
            CppTypeBase::FunctionPointer { return_type, arguments, allows_variable_arguments } => {
                if *allows_variable_arguments {
                    return Err(owned("Function pointers with variadic arguments are not supported"));
                }
                proof {
                    assert(self.view()->FunctionPointer_arguments =~= types_view(arguments@));
                }
                let joined = match codes_joined(arguments) {
                    Ok(j) => j,
                    Err(e) => {
                        return Err(e);
                    },
                };
                let ret = match return_type.to_cpp_code_named("FN_PTR") {
                    Ok(t) => t,
                    Err(e) => {
                        return Err(e);
                    },
                };
                let mut r = ret;
                r.append(" (*");
                r.append(fn_ptr_name);
                r.append(")(");
                r.append(joined.as_str());
                r.append(")");
                Ok(r)
            },
        }
    }

    /// The source code of this base type, or why it has none.
    pub fn to_cpp_code(&self) -> (r: Result<String, String>)
        ensures
            result_view(r) == base_code(self.view(), fn_ptr_placeholder()),
    {
        self.code_named("FN_PTR")
    }

    /// The caption of this base type; none for a template parameter, a
    /// function pointer, or a class with such a template argument.
    pub fn caption(&self) -> (r: Option<String>)
        ensures
            match r {
                Some(s) => base_captionable(self.view()) && s@ == base_caption(self.view()),
                None => !base_captionable(self.view()),
            },
        decreases self,
    {
        match self {
            CppTypeBase::Void => Some(owned("void")),
            CppTypeBase::BuiltInNumeric(k) => Some(owned(k.caption())),
            CppTypeBase::SpecificNumeric { name, .. } => Some(name.clone()),
            CppTypeBase::PointerSizedInteger { name, .. } => Some(name.clone()),
            CppTypeBase::Enum { name } => Some(replace_separators(name.as_str())),
            CppTypeBase::Class { name, template_arguments } => {
                let name_caption = replace_separators(name.as_str());
                match template_arguments {
                    Some(args) => {
                        proof {
                            assert(self.view()->Class_template_arguments->Some_0 =~= types_view(
                                args@,
                            ));
                        }
                        match captions_joined(args) {
                            Some(joined) => {
                                let mut r = name_caption;
                                r.append("_");
                                r.append(joined.as_str());
                                Some(r)
                            },
                            None => None,
                        }
                    },
                    None => Some(name_caption),
                }
            },
            CppTypeBase::TemplateParameter { .. } => None,
            CppTypeBase::FunctionPointer { .. } => None,
        }
    }
}

impl CppType {
    /// The void type.
    pub fn void() -> (r: CppType)
        ensures
            r.view() == void_model(),
    {
        CppType { is_const: false, indirection: CppTypeIndirection::Direct, base: CppTypeBase::Void }
    }

    /// This is the plain void type: not const, without indirection.
    pub fn is_void(&self) -> (r: bool)
        ensures
            r == (self.view() == void_model()),
    {
        !self.is_const && self.indirection == CppTypeIndirection::Direct && self.base.is_void()
    }

    /// The source code of this type, where a function pointer is named
    /// `fn_ptr_name`; or why it has none.
    pub fn to_cpp_code_named(&self, fn_ptr_name: &str) -> (r: Result<String, String>)
        ensures
            result_view(r) == type_code(self.view(), fn_ptr_name@),
        decreases self,
    {
        let name = match self.base.code_named(fn_ptr_name) {
            Ok(n) => n,
            Err(e) => {
                return Err(e);
            },
        };
        let mut r = owned(
            if self.is_const {
                "const "
            } else {
                ""
            },
        );
        r.append(name.as_str());
        r.append(indirection_suffix(self.indirection));
        Ok(r)
    }

    /// The source code of this type, or why it has none.
    pub fn to_cpp_code(&self) -> (r: Result<String, String>)
        ensures
            result_view(r) == type_code(self.view(), fn_ptr_placeholder()),
    {
        self.to_cpp_code_named("FN_PTR")
    }

    /// The caption of this type under `strategy`; none when its base has
    /// none.
    pub fn caption(&self, strategy: TypeCaptionStrategy) -> (r: Option<String>)
        ensures
            match r {
                Some(s) => captionable(self.view()) && s@ == type_caption(self.view(), strategy),
                None => !captionable(self.view()),
            },
        decreases self,
    {
        let b = match self.base.caption() {
            Some(b) => b,
            None => {
                return None;
            },
        };
        match strategy {
            TypeCaptionStrategy::Short => Some(b),
            TypeCaptionStrategy::Full => {
                let mut r = owned(
                    if self.is_const {
                        "const_"
                    } else {
                        ""
                    },
                );
                r.append(b.as_str());
                r.append(indirection_caption_suffix(self.indirection));
                Some(r)
            },
        }
    }
}

/// A copy of a list of types.
pub fn clone_types(ts: &Vec<CppType>) -> (r: Vec<CppType>)
    ensures
        types_view(r@) == types_view(ts@),
    decreases ts,
{
    let mut r: Vec<CppType> = Vec::new();
    let mut i: usize = 0;
    while i < ts.len()
        invariant
            i <= ts@.len(),
            r@.len() == i,
            forall|j: int| 0 <= j < i ==> (#[trigger] r@[j]).view() == ts@[j].view(),
        decreases ts@.len() - i,
    {
        r.push(ts[i].clone());
        i = i + 1;
    }
    proof {
        assert(types_view(r@) =~= types_view(ts@));
    }
    r
}

impl Clone for CppTypeBase {
    fn clone(&self) -> (r: Self)
        ensures
            r.view() == self.view(),
        decreases self,
    {
        match self {
            CppTypeBase::Void => CppTypeBase::Void,
            CppTypeBase::BuiltInNumeric(k) => CppTypeBase::BuiltInNumeric(*k),
            CppTypeBase::Enum { name } => CppTypeBase::Enum { name: name.clone() },
            CppTypeBase::SpecificNumeric { name, bits, kind } => CppTypeBase::SpecificNumeric {
                name: name.clone(),
                bits: *bits,
                kind: *kind,
            },
            CppTypeBase::PointerSizedInteger { name, is_signed } =>
                CppTypeBase::PointerSizedInteger { name: name.clone(), is_signed: *is_signed },
            CppTypeBase::Class { name, template_arguments } => {
                let args = match template_arguments {
                    Some(a) => Some(clone_types(a)),
                    None => None,
                };
                let r = CppTypeBase::Class { name: name.clone(), template_arguments: args };
                proof {
                    if let Some(a) = template_arguments {
                        assert(types_view(args->Some_0@) == types_view(a@));
                        assert(r.view()->Class_template_arguments->Some_0 =~= types_view(
                            args->Some_0@,
                        ));
                        assert(self.view()->Class_template_arguments->Some_0 =~= types_view(a@));
                    }
                }
                r
            },
            CppTypeBase::TemplateParameter { nested_level, index } =>
                CppTypeBase::TemplateParameter { nested_level: *nested_level, index: *index },
            CppTypeBase::FunctionPointer { return_type, arguments, allows_variable_arguments } => {
                let ret = (**return_type).clone();
                let args = clone_types(arguments);
                let r = CppTypeBase::FunctionPointer {
                    return_type: Box::new(ret),
                    arguments: args,
                    allows_variable_arguments: *allows_variable_arguments,
                };
                proof {
                    assert(r.view()->FunctionPointer_arguments =~= types_view(args@));
                    assert(self.view()->FunctionPointer_arguments =~= types_view(arguments@));
                }
                r
            },
        }
    }
}

impl Clone for CppType {
    fn clone(&self) -> (r: Self)
        ensures
            r.view() == self.view(),
        decreases self,
    {
        CppType { is_const: self.is_const, indirection: self.indirection, base: self.base.clone() }
    }
}

} // verus!
