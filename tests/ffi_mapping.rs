use cpp_to_rust_generator::cpp_ffi_type::{CppFfiType, FfiTypeError, IndirectionChange};
use cpp_to_rust_generator::cpp_type::{
    CppBuiltInNumericType, CppType, CppTypeBase, CppTypeIndirection,
};

fn class_type(name: &str, is_const: bool, indirection: CppTypeIndirection) -> CppType {
    CppType {
        is_const,
        indirection,
        base: CppTypeBase::Class { name: name.to_string(), template_arguments: None },
    }
}

fn int_type() -> CppType {
    CppType {
        is_const: false,
        indirection: CppTypeIndirection::Direct,
        base: CppTypeBase::BuiltInNumeric(CppBuiltInNumericType::Int),
    }
}

fn function_pointer(arguments: Vec<CppType>, return_type: CppType, variadic: bool) -> CppType {
    CppType {
        is_const: false,
        indirection: CppTypeIndirection::Direct,
        base: CppTypeBase::FunctionPointer {
            return_type: Box::new(return_type),
            arguments,
            allows_variable_arguments: variadic,
        },
    }
}

#[test]
fn reference_to_class_becomes_pointer() {
    let t = class_type("Widget", false, CppTypeIndirection::Ref);
    let r = t.to_cpp_ffi_type(false).unwrap();
    assert_eq!(r.conversion, IndirectionChange::ReferenceToPointer);
    assert_eq!(r.ffi_type.indirection, CppTypeIndirection::Ptr);
    assert!(!r.ffi_type.is_const);
    assert_eq!(r.ffi_type.to_cpp_code().unwrap(), "Widget*");
    assert_eq!(r.original_type.to_cpp_code().unwrap(), "Widget&");
}

#[test]
fn flags_become_unsigned_int() {
    let t = CppType {
        is_const: false,
        indirection: CppTypeIndirection::Direct,
        base: CppTypeBase::Class {
            name: "QFlags".to_string(),
            template_arguments: Some(vec![CppType {
                is_const: false,
                indirection: CppTypeIndirection::Direct,
                base: CppTypeBase::Enum { name: "Qt::AlignmentFlag".to_string() },
            }]),
        },
    };
    let r = t.to_cpp_ffi_type(false).unwrap();
    assert_eq!(r.conversion, IndirectionChange::QFlagsToUInt);
    assert_eq!(r.ffi_type.indirection, CppTypeIndirection::Direct);
    match r.ffi_type.base {
        CppTypeBase::BuiltInNumeric(k) => assert_eq!(k, CppBuiltInNumericType::UInt),
        _ => panic!("flags must map to an unsigned integer"),
    }
    assert_eq!(r.original_type.to_cpp_code().unwrap(), "QFlags< Qt::AlignmentFlag >");
}

#[test]
fn flags_by_reference_are_rejected() {
    let t = class_type("QFlags", false, CppTypeIndirection::Ref);
    assert_eq!(t.to_cpp_ffi_type(false).unwrap_err(), FfiTypeError::FlagsIndirection);
    let p = class_type("QFlags", false, CppTypeIndirection::Ptr);
    assert_eq!(p.to_cpp_ffi_type(true).unwrap_err(), FfiTypeError::FlagsIndirection);
}

#[test]
fn class_value_constness_depends_on_position() {
    let t = class_type("Rect", true, CppTypeIndirection::Direct);
    let ret = t.to_cpp_ffi_type(true).unwrap();
    assert_eq!(ret.conversion, IndirectionChange::ValueToPointer);
    assert_eq!(ret.ffi_type.indirection, CppTypeIndirection::Ptr);
    assert!(!ret.ffi_type.is_const);
    let arg = t.to_cpp_ffi_type(false).unwrap();
    assert_eq!(arg.conversion, IndirectionChange::ValueToPointer);
    assert!(arg.ffi_type.is_const);
    assert_eq!(arg.ffi_type.to_cpp_code().unwrap(), "const Rect*");
    let non_const = class_type("Rect", false, CppTypeIndirection::Direct);
    assert!(non_const.to_cpp_ffi_type(false).unwrap().ffi_type.is_const);
    assert!(!non_const.to_cpp_ffi_type(true).unwrap().ffi_type.is_const);
}

#[test]
fn template_parameter_is_unsupported() {
    let t = CppType {
        is_const: false,
        indirection: CppTypeIndirection::Direct,
        base: CppTypeBase::TemplateParameter { nested_level: 0, index: 0 },
    };
    assert_eq!(t.to_cpp_ffi_type(false).unwrap_err(), FfiTypeError::UnsupportedType);
    assert_eq!(t.to_cpp_ffi_type(true).unwrap_err(), FfiTypeError::UnsupportedType);
}

#[test]
fn variadic_function_pointer_is_rejected() {
    let t = function_pointer(vec![int_type()], int_type(), true);
    assert_eq!(t.to_cpp_ffi_type(false).unwrap_err(), FfiTypeError::VariadicFunctionPointer);
}

#[test]
fn function_pointer_parts_are_checked_in_order() {
    let nested = function_pointer(vec![function_pointer(vec![], int_type(), false)], int_type(), false);
    assert_eq!(nested.to_cpp_ffi_type(false).unwrap_err(), FfiTypeError::NestedFunctionPointer);
    let by_ref = function_pointer(vec![int_type()], class_type("A", false, CppTypeIndirection::Ref), false);
    assert_eq!(by_ref.to_cpp_ffi_type(false).unwrap_err(), FfiTypeError::ReferenceInFunctionPointer);
    let by_value = function_pointer(
        vec![class_type("A", false, CppTypeIndirection::Direct), class_type("B", false, CppTypeIndirection::Ref)],
        int_type(),
        false,
    );
    assert_eq!(by_value.to_cpp_ffi_type(false).unwrap_err(), FfiTypeError::ClassValueInFunctionPointer);
    let templated = function_pointer(
        vec![CppType {
            is_const: false,
            indirection: CppTypeIndirection::Ptr,
            base: CppTypeBase::TemplateParameter { nested_level: 0, index: 1 },
        }],
        int_type(),
        false,
    );
    assert_eq!(
        templated.to_cpp_ffi_type(false).unwrap_err(),
        FfiTypeError::TemplateParameterInFunctionPointer
    );
}

#[test]
fn plain_function_pointer_is_unchanged() {
    let t = function_pointer(vec![int_type(), class_type("A", true, CppTypeIndirection::Ptr)], int_type(), false);
    let r = t.to_cpp_ffi_type(false).unwrap();
    assert_eq!(r.conversion, IndirectionChange::NoChange);
    assert_eq!(format!("{:?}", r.ffi_type), format!("{:?}", t));
    assert_eq!(format!("{:?}", r.original_type), format!("{:?}", t));
}

#[test]
fn unsupported_indirection_levels() {
    let a = CppType {
        is_const: false,
        indirection: CppTypeIndirection::PtrRef,
        base: CppTypeBase::BuiltInNumeric(CppBuiltInNumericType::Int),
    };
    assert_eq!(a.to_cpp_ffi_type(false).unwrap_err(), FfiTypeError::UnsupportedIndirection);
    let b = class_type("QFlags", false, CppTypeIndirection::RValueRef);
    assert_eq!(b.to_cpp_ffi_type(false).unwrap_err(), FfiTypeError::UnsupportedIndirection);
}

#[test]
fn primitives_and_pointers_are_unchanged() {
    let r = int_type().to_cpp_ffi_type(false).unwrap();
    assert_eq!(r.conversion, IndirectionChange::NoChange);
    assert_eq!(r.ffi_type.to_cpp_code().unwrap(), "int");
    let p = class_type("A", true, CppTypeIndirection::PtrPtr);
    let rp = p.to_cpp_ffi_type(true).unwrap();
    assert_eq!(rp.conversion, IndirectionChange::NoChange);
    assert_eq!(rp.ffi_type.to_cpp_code().unwrap(), "const A**");
}

#[test]
fn mapping_twice_gives_the_same_result() {
    let types = vec![
        class_type("Rect", true, CppTypeIndirection::Direct),
        class_type("Widget", false, CppTypeIndirection::Ref),
        int_type(),
        function_pointer(vec![int_type()], int_type(), false),
    ];
    for t in &types {
        for pos in [false, true] {
            let a = t.to_cpp_ffi_type(pos);
            let b = t.to_cpp_ffi_type(pos);
            assert_eq!(format!("{:?}", a), format!("{:?}", b));
        }
    }
}

#[test]
fn void_maps_to_void() {
    let v = CppFfiType::void();
    assert_eq!(v.conversion, IndirectionChange::NoChange);
    assert!(v.ffi_type.is_void());
    assert!(v.original_type.is_void());
}

#[test]
fn error_messages_are_not_empty() {
    let all = [
        FfiTypeError::UnsupportedType,
        FfiTypeError::VariadicFunctionPointer,
        FfiTypeError::TemplateParameterInFunctionPointer,
        FfiTypeError::NestedFunctionPointer,
        FfiTypeError::ReferenceInFunctionPointer,
        FfiTypeError::ClassValueInFunctionPointer,
        FfiTypeError::UnsupportedIndirection,
        FfiTypeError::FlagsIndirection,
    ];
    for e in all {
        assert!(!e.message().is_empty());
    }
    assert_eq!(FfiTypeError::UnsupportedType.message(), "Unsupported type");
}
