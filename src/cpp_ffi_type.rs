//! How a native type crosses the boundary: the boundary type and the
//! conversion between it and the original type.
use vstd::prelude::*;
use crate::cpp_type::{
    CppBuiltInNumericType, CppType, CppTypeBase, CppTypeIndirection, TypeBaseModel, TypeModel,
    void_model,
};
use crate::text::owned;

verus! {

/// Relation between an original type's value and its boundary value.
#[derive(Clone, Copy, Debug, PartialEq, Eq, Structural)]
pub enum IndirectionChange {
    /// The types are identical.
    NoChange,
    /// A class value is passed as a pointer to it.
    ValueToPointer,
    /// A reference is passed as a pointer.
    ReferenceToPointer,
    /// A flags value is passed as an unsigned integer.
    QFlagsToUInt,
}

/// Why a type cannot cross the boundary.
#[derive(Clone, Copy, Debug, PartialEq, Eq, Structural)]
pub enum FfiTypeError {
    /// An unresolved template parameter.
    UnsupportedType,
    /// A function pointer with variadic arguments.
    VariadicFunctionPointer,
    /// A function pointer whose argument or return type is a template parameter.
    TemplateParameterInFunctionPointer,
    /// A function pointer whose argument or return type is a function pointer.
    NestedFunctionPointer,
    /// A function pointer whose argument or return type is a reference.
    ReferenceInFunctionPointer,
    /// A function pointer whose argument or return type is a class value.
    ClassValueInFunctionPointer,
    /// A pointer to a reference or an rvalue reference.
    UnsupportedIndirection,
    /// A flags type that is not passed by value.
    FlagsIndirection,
}

/// A boundary type with the original type it stands for.
#[derive(Debug)]
pub struct CppFfiType {
    /// The original type.
    pub original_type: CppType,
    /// The type at the boundary.
    pub ffi_type: CppType,
    /// How a value of one becomes a value of the other.
    pub conversion: IndirectionChange,
}

/// The mathematical value of a `CppFfiType`.
pub struct FfiTypeModel {
    pub original_type: TypeModel,
    pub ffi_type: TypeModel,
    pub conversion: IndirectionChange,
}

impl CppFfiType {
    pub open spec fn view(self) -> FfiTypeModel {
        FfiTypeModel {
            original_type: self.original_type.view(),
            ffi_type: self.ffi_type.view(),
            conversion: self.conversion,
        }
    }

    /// The void type on both sides.
    pub fn void() -> (r: CppFfiType)
        ensures
            r.view() == (FfiTypeModel {
                original_type: void_model(),
                ffi_type: void_model(),
                conversion: IndirectionChange::NoChange,
            }),
    {
        CppFfiType {
            original_type: CppType::void(),
            ffi_type: CppType::void(),
            conversion: IndirectionChange::NoChange,
        }
    }
}

impl Clone for CppFfiType {
    fn clone(&self) -> (r: Self)
        ensures
            r.view() == self.view(),
    {
        CppFfiType {
            original_type: self.original_type.clone(),
            ffi_type: self.ffi_type.clone(),
            conversion: self.conversion,
        }
    }
}

/// The sentence that says what an error does not support.
pub open spec fn error_message(e: FfiTypeError) -> Seq<char> {
    match e {
        FfiTypeError::UnsupportedType => "Unsupported type"@,
        FfiTypeError::VariadicFunctionPointer =>
            "Function pointers with variadic arguments are not supported"@,
        FfiTypeError::TemplateParameterInFunctionPointer =>
            "Function pointers containing template parameters are not supported"@,
        FfiTypeError::NestedFunctionPointer =>
            "Function pointers containing nested function pointers are not supported"@,
        FfiTypeError::ReferenceInFunctionPointer =>
            "Function pointers containing references are not supported"@,
        FfiTypeError::ClassValueInFunctionPointer =>
            "Function pointers containing classes by value are not supported"@,
        FfiTypeError::UnsupportedIndirection => "Unsupported level of indirection"@,
        FfiTypeError::FlagsIndirection => "QFlags type can only be passed by value"@,
    }
}

impl FfiTypeError {
    /// A sentence that says what is not supported.
    pub fn message(&self) -> (r: String)
        ensures
            r@ == error_message(*self),
    {
        match self {
            FfiTypeError::UnsupportedType => owned("Unsupported type"),
            FfiTypeError::VariadicFunctionPointer => owned(
                "Function pointers with variadic arguments are not supported",
            ),
            FfiTypeError::TemplateParameterInFunctionPointer => owned(
                "Function pointers containing template parameters are not supported",
            ),
            FfiTypeError::NestedFunctionPointer => owned(
                "Function pointers containing nested function pointers are not supported",
            ),
            FfiTypeError::ReferenceInFunctionPointer => owned(
                "Function pointers containing references are not supported",
            ),
            FfiTypeError::ClassValueInFunctionPointer => owned(
                "Function pointers containing classes by value are not supported",
            ),
            FfiTypeError::UnsupportedIndirection => owned("Unsupported level of indirection"),
            FfiTypeError::FlagsIndirection => owned("QFlags type can only be passed by value"),
        }
    }
}

/// The name of the library's bitmask flags class.
pub open spec fn flags_class_name() -> Seq<char> {
    "QFlags"@
}

/// Why an argument or the return type of a function pointer cannot cross
/// the boundary, if it cannot.
pub open spec fn fn_ptr_part_error(t: TypeModel) -> Option<FfiTypeError> {
    if t.base is TemplateParameter {
        Some(FfiTypeError::TemplateParameterInFunctionPointer)
    } else if t.base is FunctionPointer {
        Some(FfiTypeError::NestedFunctionPointer)
    } else if t.indirection is Ref || t.indirection is PtrRef || t.indirection is RValueRef {
        Some(FfiTypeError::ReferenceInFunctionPointer)
    } else if t.indirection is Direct && t.base is Class {
        Some(FfiTypeError::ClassValueInFunctionPointer)
    } else {
        None
    }
}

/// The first error among the parts of a function pointer, in order.
pub open spec fn first_part_error(parts: Seq<TypeModel>) -> Option<FfiTypeError>
    decreases parts.len(),
{
    if parts.len() == 0 {
        None
    } else {
        match fn_ptr_part_error(parts[0]) {
            Some(e) => Some(e),
            None => first_part_error(parts.subrange(1, parts.len() as int)),
        }
    }
}

/// How a type crosses the boundary as an argument (`is_return_type` false)
/// or as a return type.
pub open spec fn ffi_mapping(t: TypeModel, is_return_type: bool) -> Result<
    FfiTypeModel,
    FfiTypeError,
> {
    let unchanged = FfiTypeModel { original_type: t, ffi_type: t, conversion: IndirectionChange::NoChange };
    match t.base {
        TypeBaseModel::TemplateParameter { .. } => Err(FfiTypeError::UnsupportedType),
        TypeBaseModel::FunctionPointer { return_type, arguments, allows_variable_arguments } => {
            if allows_variable_arguments {
                Err(FfiTypeError::VariadicFunctionPointer)
            } else {
                match first_part_error(arguments.push(*return_type)) {
                    Some(e) => Err(e),
                    None => Ok(unchanged),
                }
            }
        },
        _ => {
            if t.indirection is PtrRef || t.indirection is RValueRef {
                Err(FfiTypeError::UnsupportedIndirection)
            } else if t.base is Class && t.base->Class_name == flags_class_name() {
                if t.indirection is Direct {
                    Ok(
                        FfiTypeModel {
                            original_type: t,
                            ffi_type: TypeModel {
                                base: TypeBaseModel::BuiltInNumeric(CppBuiltInNumericType::UInt),
                                ..t
                            },
                            conversion: IndirectionChange::QFlagsToUInt,
                        },
                    )
                } else {
                    Err(FfiTypeError::FlagsIndirection)
                }
            } else if t.base is Class && t.indirection is Direct {
                Ok(
                    FfiTypeModel {
                        original_type: t,
                        ffi_type: TypeModel {
                            is_const: !is_return_type,
                            indirection: CppTypeIndirection::Ptr,
                            base: t.base,
                        },
                        conversion: IndirectionChange::ValueToPointer,
                    },
                )
            } else if t.indirection is Ref {
                Ok(
                    FfiTypeModel {
                        original_type: t,
                        ffi_type: TypeModel { indirection: CppTypeIndirection::Ptr, ..t },
                        conversion: IndirectionChange::ReferenceToPointer,
                    },
                )
            } else {
                Ok(unchanged)
            }
        },
    }
}

/// The result of a mapping, seen through the models.
pub open spec fn ffi_result_view(r: Result<CppFfiType, FfiTypeError>) -> Result<
    FfiTypeModel,
    FfiTypeError,
> {
    match r {
        Ok(v) => Ok(v.view()),
        Err(e) => Err(e),
    }
}

/// Why an argument or the return type of a function pointer cannot cross
/// the boundary, if it cannot.
fn function_pointer_part_error(t: &CppType) -> (r: Option<FfiTypeError>)
    ensures
        r == fn_ptr_part_error(t.view()),
{
    match t.base {
        CppTypeBase::TemplateParameter { .. } => {
            return Some(FfiTypeError::TemplateParameterInFunctionPointer);
        },
        CppTypeBase::FunctionPointer { .. } => {
            return Some(FfiTypeError::NestedFunctionPointer);
        },
        _ => {},
    }
    match t.indirection {
        CppTypeIndirection::Ref | CppTypeIndirection::PtrRef | CppTypeIndirection::RValueRef => {
            Some(FfiTypeError::ReferenceInFunctionPointer)
        },
        CppTypeIndirection::Ptr | CppTypeIndirection::PtrPtr => None,
        CppTypeIndirection::Direct => match t.base {
            CppTypeBase::Class { .. } => Some(FfiTypeError::ClassValueInFunctionPointer),
            _ => None,
        },
    }
}

impl CppType {
    /// How this type crosses the boundary, as a return type when
    /// `is_return_type` holds and as an argument otherwise.
    pub fn to_cpp_ffi_type(&self, is_return_type: bool) -> (r: Result<CppFfiType, FfiTypeError>)
        ensures
            ffi_result_view(r) == ffi_mapping(self.view(), is_return_type),
    {
        match &self.base {
            CppTypeBase::TemplateParameter { .. } => {
                return Err(FfiTypeError::UnsupportedType);
            },
            CppTypeBase::FunctionPointer { return_type, arguments, allows_variable_arguments } => {
                if *allows_variable_arguments {
                    return Err(FfiTypeError::VariadicFunctionPointer);
                }
                let ghost parts = self.view().base->FunctionPointer_arguments.push(
                    *self.view().base->FunctionPointer_return_type,
                );
                let n = arguments.len();
                let mut i: usize = 0;
                proof {
                    assert(parts.subrange(0, parts.len() as int) =~= parts);
                }
                while i < n
                    invariant
                        n == arguments@.len(),
                        i <= n,
                        parts == self.view().base->FunctionPointer_arguments.push(
                            *self.view().base->FunctionPointer_return_type,
                        ),
                        parts.len() == n + 1,
                        ffi_mapping(self.view(), is_return_type) == match first_part_error(parts) {
                            Some(e) => Err(e),
                            None => Ok(
                                FfiTypeModel {
                                    original_type: self.view(),
                                    ffi_type: self.view(),
                                    conversion: IndirectionChange::NoChange,
                                },
                            ),
                        },
                        forall|j: int| 0 <= j < n ==> parts[j] == (#[trigger] arguments@[j]).view(),
                        parts[n as int] == (**return_type).view(),
                        first_part_error(parts) == first_part_error(
                            parts.subrange(i as int, parts.len() as int),
                        ),
                    decreases n - i,
                {
                    let rest = Ghost(parts.subrange(i as int, parts.len() as int));
                    proof {
                        assert(rest@[0] == arguments@[i as int].view());
                        assert(rest@.subrange(1, rest@.len() as int) =~= parts.subrange(
                            i + 1,
                            parts.len() as int,
                        ));
                    }
                    if let Some(e) = function_pointer_part_error(&arguments[i]) {
                        proof {
                            assert(first_part_error(rest@) == Some(e));
                        }
                        return Err(e);
                    }
                    i = i + 1;
                }
                let rest = Ghost(parts.subrange(n as int, parts.len() as int));
                proof {
                    assert(rest@[0] == (**return_type).view());
                    assert(rest@.subrange(1, rest@.len() as int) =~= Seq::<TypeModel>::empty());
                    assert(first_part_error(Seq::<TypeModel>::empty()) is None);
                }
                if let Some(e) = function_pointer_part_error(&**return_type) {
                    proof {
                        assert(first_part_error(rest@) == Some(e));
                    }
                    return Err(e);
                }
                proof {
                    assert(first_part_error(rest@) is None);
                }
                return Ok(
                    CppFfiType {
                        ffi_type: self.clone(),
                        conversion: IndirectionChange::NoChange,
                        original_type: self.clone(),
                    },
                );
            },
            _ => {},
        }
        let mut result = self.clone();
        let mut conversion = IndirectionChange::NoChange;
        match self.indirection {
            CppTypeIndirection::Direct | CppTypeIndirection::Ptr | CppTypeIndirection::PtrPtr => {},
            CppTypeIndirection::Ref => {
                result.indirection = CppTypeIndirection::Ptr;
                conversion = IndirectionChange::ReferenceToPointer;
            },
            _ => {
                return Err(FfiTypeError::UnsupportedIndirection);
            },
        }
        if let CppTypeBase::Class { name, .. } = &self.base {
            let flags_name = owned("QFlags");
            if *name == flags_name {
                if self.indirection != CppTypeIndirection::Direct {
                    return Err(FfiTypeError::FlagsIndirection);
                }
                conversion = IndirectionChange::QFlagsToUInt;
                result.base = CppTypeBase::BuiltInNumeric(CppBuiltInNumericType::UInt);
            } else if self.indirection == CppTypeIndirection::Direct {
                // a class value cannot cross the boundary: it goes by pointer
                result.indirection = CppTypeIndirection::Ptr;
                conversion = IndirectionChange::ValueToPointer;
                // a return value is constructed in place through the pointer,
                // so the pointer to a returned value is never const
                result.is_const = !is_return_type;
            }
        }
        Ok(CppFfiType { ffi_type: result, conversion, original_type: self.clone() })
    }
}

/// Mapping is a function of the type and the position alone: two results
/// for types of the same model in the same position are the same.
pub proof fn lemma_mapping_deterministic(
    a: CppType,
    b: CppType,
    is_return_type: bool,
    ra: Result<CppFfiType, FfiTypeError>,
    rb: Result<CppFfiType, FfiTypeError>,
)
    requires
        a.view() == b.view(),
        ffi_result_view(ra) == ffi_mapping(a.view(), is_return_type),
        ffi_result_view(rb) == ffi_mapping(b.view(), is_return_type),
    ensures
        ffi_result_view(ra) == ffi_result_view(rb),
{
}

/// A built-in numeric type passed by value crosses the boundary unchanged,
/// in either position.
pub proof fn lemma_numeric_value_unchanged(t: TypeModel, is_return_type: bool)
    requires
        t.base is BuiltInNumeric,
        t.indirection is Direct,
    ensures
        ffi_mapping(t, is_return_type) == Ok::<FfiTypeModel, FfiTypeError>(
            FfiTypeModel { original_type: t, ffi_type: t, conversion: IndirectionChange::NoChange },
        ),
{
}

} // verus!
