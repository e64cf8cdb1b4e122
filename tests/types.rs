use cpp_to_rust_generator::caption_strategy::TypeCaptionStrategy;
use cpp_to_rust_generator::cpp_type::{
    CppBuiltInNumericType, CppSpecificNumericTypeKind, CppType, CppTypeBase, CppTypeIndirection,
};

fn plain(base: CppTypeBase) -> CppType {
    CppType { is_const: false, indirection: CppTypeIndirection::Direct, base }
}

fn numeric(kind: CppBuiltInNumericType) -> CppType {
    plain(CppTypeBase::BuiltInNumeric(kind))
}

fn class(name: &str, args: Option<Vec<CppType>>) -> CppTypeBase {
    CppTypeBase::Class { name: name.to_string(), template_arguments: args }
}

#[test]
fn renders_const_pointer_to_template_instantiation() {
    let t = CppType {
        is_const: true,
        indirection: CppTypeIndirection::Ptr,
        base: class(
            "QVector",
            Some(vec![numeric(CppBuiltInNumericType::Int), numeric(CppBuiltInNumericType::UInt)]),
        ),
    };
    assert_eq!(t.to_cpp_code().unwrap(), "const QVector< int, unsigned int >*");
}

#[test]
fn renders_each_indirection_suffix() {
    let cases = [
        (CppTypeIndirection::Direct, "int"),
        (CppTypeIndirection::Ptr, "int*"),
        (CppTypeIndirection::Ref, "int&"),
        (CppTypeIndirection::PtrRef, "int*&"),
        (CppTypeIndirection::PtrPtr, "int**"),
        (CppTypeIndirection::RValueRef, "int&&"),
    ];
    for (indirection, expected) in cases {
        let t = CppType {
            is_const: false,
            indirection,
            base: CppTypeBase::BuiltInNumeric(CppBuiltInNumericType::Int),
        };
        assert_eq!(t.to_cpp_code().unwrap(), expected);
    }
}

#[test]
fn renders_function_pointer() {
    let t = plain(CppTypeBase::FunctionPointer {
        return_type: Box::new(numeric(CppBuiltInNumericType::Bool)),
        arguments: vec![
            numeric(CppBuiltInNumericType::Int),
            CppType {
                is_const: true,
                indirection: CppTypeIndirection::Ptr,
                base: CppTypeBase::BuiltInNumeric(CppBuiltInNumericType::CharS),
            },
        ],
        allows_variable_arguments: false,
    });
    assert_eq!(t.to_cpp_code().unwrap(), "bool (*FN_PTR)(int, const char*)");
    assert_eq!(t.to_cpp_code_named("callback").unwrap(), "bool (*callback)(int, const char*)");
}

#[test]
fn rendering_template_parameter_fails() {
    let t = plain(CppTypeBase::TemplateParameter { nested_level: 0, index: 0 });
    assert!(t.to_cpp_code().is_err());
    let nested = plain(class("QList", Some(vec![t])));
    assert!(nested.to_cpp_code().is_err());
}

#[test]
fn rendering_variadic_function_pointer_fails() {
    let t = plain(CppTypeBase::FunctionPointer {
        return_type: Box::new(CppType::void()),
        arguments: vec![],
        allows_variable_arguments: true,
    });
    assert!(t.to_cpp_code().is_err());
}

#[test]
fn renders_named_types_and_void() {
    assert_eq!(CppType::void().to_cpp_code().unwrap(), "void");
    let e = plain(CppTypeBase::Enum { name: "Qt::Alignment".to_string() });
    assert_eq!(e.to_cpp_code().unwrap(), "Qt::Alignment");
    let s = plain(CppTypeBase::SpecificNumeric {
        name: "qint64".to_string(),
        bits: 64,
        kind: CppSpecificNumericTypeKind::Integer { is_signed: true },
    });
    assert_eq!(s.to_cpp_code().unwrap(), "qint64");
    let p = plain(CppTypeBase::PointerSizedInteger { name: "quintptr".to_string(), is_signed: false });
    assert_eq!(p.to_cpp_code().unwrap(), "quintptr");
}

#[test]
fn captions_short_and_full() {
    let t = CppType {
        is_const: true,
        indirection: CppTypeIndirection::Ref,
        base: class("Qt::Point", None),
    };
    assert_eq!(t.caption(TypeCaptionStrategy::Short).unwrap(), "Qt_Point");
    assert_eq!(t.caption(TypeCaptionStrategy::Full).unwrap(), "const_Qt_Point_ref");
    let u = CppType {
        is_const: false,
        indirection: CppTypeIndirection::PtrPtr,
        base: CppTypeBase::BuiltInNumeric(CppBuiltInNumericType::ULongLong),
    };
    assert_eq!(u.caption(TypeCaptionStrategy::Full).unwrap(), "unsigned_long_long_ptr_ptr");
    assert_eq!(u.caption(TypeCaptionStrategy::Short).unwrap(), "unsigned_long_long");
}

#[test]
fn captions_template_arguments_in_full() {
    let arg = CppType {
        is_const: false,
        indirection: CppTypeIndirection::Ptr,
        base: class("QObject", None),
    };
    let t = plain(class("QList", Some(vec![arg, numeric(CppBuiltInNumericType::Int)])));
    assert_eq!(t.caption(TypeCaptionStrategy::Short).unwrap(), "QList_QObject_ptr_int");
}

#[test]
fn caption_replaces_each_scope_separator_from_the_left() {
    let t = plain(CppTypeBase::Enum { name: "a:::b::c".to_string() });
    assert_eq!(t.caption(TypeCaptionStrategy::Short).unwrap(), "a_:b_c");
}

#[test]
fn classification_predicates() {
    assert!(CppTypeBase::Void.is_void());
    assert!(!CppTypeBase::Void.is_class());
    assert!(class("A", None).is_class());
    assert!(CppTypeBase::TemplateParameter { nested_level: 1, index: 2 }.is_template_parameter());
    assert!(CppType::void().is_void());
    let const_void = CppType { is_const: true, indirection: CppTypeIndirection::Direct, base: CppTypeBase::Void };
    assert!(!const_void.is_void());
}

#[test]
fn all_numeric_types_once_each() {
    let all = CppBuiltInNumericType::all();
    assert_eq!(all.len(), 21);
    for (i, a) in all.iter().enumerate() {
        for b in all.iter().skip(i + 1) {
            assert_ne!(a, b);
        }
    }
    assert_eq!(CppBuiltInNumericType::LongDouble.to_cpp_code(), "long double");
    assert_eq!(CppBuiltInNumericType::Int128.to_cpp_code(), "__int128_t");
    assert_eq!(CppBuiltInNumericType::CharU.to_cpp_code(), "char");
}

#[test]
fn clone_keeps_the_type() {
    let t = CppType {
        is_const: true,
        indirection: CppTypeIndirection::Ptr,
        base: class("QMap", Some(vec![numeric(CppBuiltInNumericType::Int), plain(class("QString", None))])),
    };
    let c = t.clone();
    assert_eq!(format!("{:?}", c), format!("{:?}", t));
    assert_eq!(c.to_cpp_code().unwrap(), "const QMap< int, QString >*");
}

#[test]
fn types_without_captions() {
    let param = plain(CppTypeBase::TemplateParameter { nested_level: 0, index: 0 });
    assert!(param.caption(TypeCaptionStrategy::Short).is_none());
    assert!(param.caption(TypeCaptionStrategy::Full).is_none());
    let fn_ptr = plain(CppTypeBase::FunctionPointer {
        return_type: Box::new(CppType::void()),
        arguments: vec![],
        allows_variable_arguments: false,
    });
    assert!(fn_ptr.caption(TypeCaptionStrategy::Full).is_none());
    let list_of_t = plain(class("QList", Some(vec![param])));
    assert!(list_of_t.caption(TypeCaptionStrategy::Short).is_none());
    assert!(list_of_t.base.caption().is_none());
}

#[test]
fn numeric_types_in_declaration_order() {
    let all = CppBuiltInNumericType::all();
    assert_eq!(all[0], CppBuiltInNumericType::Bool);
    assert_eq!(all[1], CppBuiltInNumericType::CharS);
    assert_eq!(all[10], CppBuiltInNumericType::Int);
    assert_eq!(all[20], CppBuiltInNumericType::LongDouble);
}

#[test]
fn rendering_reports_the_first_failure() {
    let param = plain(CppTypeBase::TemplateParameter { nested_level: 0, index: 0 });
    assert_eq!(param.to_cpp_code().unwrap_err(), "template parameters are not supported here yet");
    let variadic = plain(CppTypeBase::FunctionPointer {
        return_type: Box::new(CppType::void()),
        arguments: vec![],
        allows_variable_arguments: true,
    });
    let mixed = plain(class("QPair", Some(vec![variadic, param])));
    assert_eq!(
        mixed.to_cpp_code().unwrap_err(),
        "Function pointers with variadic arguments are not supported"
    );
}
