use cpp_to_rust_generator::caption_strategy::{
    ArgumentCaptionStrategy, MethodCaptionStrategy, TypeCaptionStrategy,
};
use cpp_to_rust_generator::cpp_ffi_data::{
    c_base_name, disambiguated_names, scope_names, CppAndFfiMethod, CppFfiArgumentMeaning,
    CppFfiFunctionArgument, CppFfiFunctionSignature, CppMethodWithFfiSignature,
};
use cpp_to_rust_generator::cpp_ffi_type::CppFfiType;
use cpp_to_rust_generator::cpp_method::{
    CppFunctionArgument, CppMethod, CppMethodClassMembership, CppMethodKind, CppOperator,
    CppVisibility, ReturnValueAllocationPlace,
};
use cpp_to_rust_generator::cpp_type::{
    CppBuiltInNumericType, CppType, CppTypeBase, CppTypeIndirection,
};

fn numeric(kind: CppBuiltInNumericType) -> CppType {
    CppType { is_const: false, indirection: CppTypeIndirection::Direct, base: CppTypeBase::BuiltInNumeric(kind) }
}

fn class_base(name: &str) -> CppTypeBase {
    CppTypeBase::Class { name: name.to_string(), template_arguments: None }
}

fn membership(class: &str, kind: CppMethodKind, is_const: bool) -> Option<CppMethodClassMembership> {
    Some(CppMethodClassMembership {
        class_type: class_base(class),
        kind,
        is_virtual: false,
        is_const,
        is_static: false,
        visibility: CppVisibility::Public,
    })
}

fn method(name: &str, member: Option<CppMethodClassMembership>, operator: Option<CppOperator>, args: Vec<CppType>) -> CppMethod {
    CppMethod {
        name: name.to_string(),
        class_membership: member,
        operator,
        return_type: CppType::void(),
        arguments: args
            .into_iter()
            .enumerate()
            .map(|(i, t)| CppFunctionArgument { name: format!("arg{}", i), argument_type: t, has_default_value: false })
            .collect(),
        allows_variadic_arguments: false,
    }
}

fn ffi_argument(name: &str, t: CppType, meaning: CppFfiArgumentMeaning) -> CppFfiFunctionArgument {
    CppFfiFunctionArgument { name: name.to_string(), argument_type: t.to_cpp_ffi_type(false).unwrap(), meaning }
}

fn with_signature(m: CppMethod, args: Vec<CppFfiFunctionArgument>) -> CppMethodWithFfiSignature {
    CppMethodWithFfiSignature {
        cpp_method: m,
        allocation_place: ReturnValueAllocationPlace::NotApplicable,
        c_signature: CppFfiFunctionSignature { arguments: args, return_type: CppFfiType::void() },
    }
}

#[test]
fn free_function_base_name() {
    let m = method("add", None, None, vec![numeric(CppBuiltInNumericType::Int)]);
    let name = c_base_name(&m, &ReturnValueAllocationPlace::NotApplicable, &"math".to_string()).unwrap();
    assert_eq!(name, "math_G_add");
}

#[test]
fn member_base_names_with_place_notes() {
    let m = method("ns::size", membership("QVector", CppMethodKind::Regular, true), None, vec![]);
    let file = "qvector".to_string();
    assert_eq!(c_base_name(&m, &ReturnValueAllocationPlace::Stack, &file).unwrap(), "QVector_ns_size_to_output");
    assert_eq!(c_base_name(&m, &ReturnValueAllocationPlace::Heap, &file).unwrap(), "QVector_ns_size_as_ptr");
    assert_eq!(c_base_name(&m, &ReturnValueAllocationPlace::NotApplicable, &file).unwrap(), "QVector_ns_size");
}

#[test]
fn constructor_and_destructor_base_names() {
    let file = "qpoint".to_string();
    let c = method("QPoint", membership("QPoint", CppMethodKind::Constructor, false), None, vec![]);
    assert_eq!(c_base_name(&c, &ReturnValueAllocationPlace::Stack, &file).unwrap(), "QPoint_constructor");
    assert_eq!(c_base_name(&c, &ReturnValueAllocationPlace::Heap, &file).unwrap(), "QPoint_new");
    assert!(c_base_name(&c, &ReturnValueAllocationPlace::NotApplicable, &file).is_err());
    let d = method("~QPoint", membership("QPoint", CppMethodKind::Destructor, false), None, vec![]);
    assert_eq!(c_base_name(&d, &ReturnValueAllocationPlace::Stack, &file).unwrap(), "QPoint_destructor");
    assert_eq!(c_base_name(&d, &ReturnValueAllocationPlace::Heap, &file).unwrap(), "QPoint_delete");
    assert!(c_base_name(&d, &ReturnValueAllocationPlace::NotApplicable, &file).is_err());
}

#[test]
fn operator_base_names() {
    let file = "qpoint".to_string();
    let plus = method("operator+", membership("QPoint", CppMethodKind::Regular, true), Some(CppOperator::Addition), vec![]);
    assert_eq!(c_base_name(&plus, &ReturnValueAllocationPlace::Stack, &file).unwrap(), "QPoint_operator_add_to_output");
    let conv = method(
        "operator int",
        membership("QPoint", CppMethodKind::Regular, true),
        Some(CppOperator::Conversion(CppType {
            is_const: true,
            indirection: CppTypeIndirection::Ptr,
            base: CppTypeBase::BuiltInNumeric(CppBuiltInNumericType::UInt),
        })),
        vec![],
    );
    assert_eq!(
        c_base_name(&conv, &ReturnValueAllocationPlace::NotApplicable, &file).unwrap(),
        "QPoint_convert_to_const_unsigned_int_ptr"
    );
}

#[test]
fn argument_and_signature_captions() {
    let this = ffi_argument("this_ptr", CppType { is_const: false, indirection: CppTypeIndirection::Ptr, base: class_base("A") }, CppFfiArgumentMeaning::This);
    let x = ffi_argument("x", numeric(CppBuiltInNumericType::Int), CppFfiArgumentMeaning::Argument(0));
    let y = ffi_argument(
        "y",
        CppType { is_const: true, indirection: CppTypeIndirection::Ref, base: class_base("QString") },
        CppFfiArgumentMeaning::Argument(1),
    );
    assert_eq!(y.caption(ArgumentCaptionStrategy::NameOnly).unwrap(), "y");
    assert_eq!(y.caption(ArgumentCaptionStrategy::TypeOnly(TypeCaptionStrategy::Full)).unwrap(), "const_QString_ref");
    assert_eq!(y.caption(ArgumentCaptionStrategy::TypeAndName(TypeCaptionStrategy::Short)).unwrap(), "QString_y");
    let sig = CppFfiFunctionSignature { arguments: vec![this, x, y], return_type: CppFfiType::void() };
    assert_eq!(sig.caption(ArgumentCaptionStrategy::TypeOnly(TypeCaptionStrategy::Short)).unwrap(), "int_QString");
    assert_eq!(sig.caption(ArgumentCaptionStrategy::NameOnly).unwrap(), "x_y");
    let empty = CppFfiFunctionSignature { arguments: vec![], return_type: CppFfiType::void() };
    assert_eq!(empty.caption(ArgumentCaptionStrategy::NameOnly).unwrap(), "no_args");
}

#[test]
fn argument_code() {
    let x = ffi_argument("x", numeric(CppBuiltInNumericType::Int), CppFfiArgumentMeaning::Argument(0));
    assert_eq!(x.to_cpp_code().unwrap(), "int x");
    let r = ffi_argument(
        "s",
        CppType { is_const: true, indirection: CppTypeIndirection::Ref, base: class_base("QString") },
        CppFfiArgumentMeaning::Argument(1),
    );
    assert_eq!(r.to_cpp_code().unwrap(), "const QString* s");
    let f = ffi_argument(
        "cb",
        CppType {
            is_const: false,
            indirection: CppTypeIndirection::Direct,
            base: CppTypeBase::FunctionPointer {
                return_type: Box::new(CppType::void()),
                arguments: vec![numeric(CppBuiltInNumericType::Int)],
                allows_variable_arguments: false,
            },
        },
        CppFfiArgumentMeaning::Argument(2),
    );
    assert_eq!(f.to_cpp_code().unwrap(), "void (*cb)(int)");
    let sig = CppFfiFunctionSignature { arguments: vec![x, r, f], return_type: CppFfiType::void() };
    assert_eq!(sig.arguments_to_cpp_code().unwrap(), "int x, const QString* s, void (*cb)(int)");
    let none = CppFfiFunctionSignature { arguments: vec![], return_type: CppFfiType::void() };
    assert_eq!(none.arguments_to_cpp_code().unwrap(), "");
}

#[test]
fn method_captions() {
    let m = with_signature(
        method("f", membership("A", CppMethodKind::Regular, true), None, vec![]),
        vec![ffi_argument("x", numeric(CppBuiltInNumericType::Double), CppFfiArgumentMeaning::Argument(0))],
    );
    assert_eq!(m.caption(MethodCaptionStrategy::ConstOnly).unwrap(), "const");
    assert_eq!(
        m.caption(MethodCaptionStrategy::ConstAndArguments(ArgumentCaptionStrategy::NameOnly)).unwrap(),
        "const_x"
    );
    assert_eq!(
        m.caption(MethodCaptionStrategy::ArgumentsOnly(ArgumentCaptionStrategy::TypeOnly(TypeCaptionStrategy::Short))).unwrap(),
        "double"
    );
}

#[test]
fn single_method_keeps_its_base_name() {
    let group = vec![with_signature(method("f", None, None, vec![]), vec![])];
    let names = disambiguated_names(&group, &"m_G_f".to_string()).unwrap();
    assert_eq!(names, vec!["m_G_f".to_string()]);
    let none: Vec<CppMethodWithFfiSignature> = vec![];
    assert!(disambiguated_names(&none, &"x".to_string()).unwrap().is_empty());
}

#[test]
fn const_overloads_use_the_const_marker() {
    let group = vec![
        with_signature(method("data", membership("A", CppMethodKind::Regular, false), None, vec![]), vec![]),
        with_signature(method("data", membership("A", CppMethodKind::Regular, true), None, vec![]), vec![]),
    ];
    let names = disambiguated_names(&group, &"A_data".to_string()).unwrap();
    assert_eq!(names, vec!["A_data".to_string(), "A_data_const".to_string()]);
}

#[test]
fn argument_overloads_use_argument_types() {
    let int_arg = ffi_argument("x", numeric(CppBuiltInNumericType::Int), CppFfiArgumentMeaning::Argument(0));
    let double_arg = ffi_argument("x", numeric(CppBuiltInNumericType::Double), CppFfiArgumentMeaning::Argument(0));
    let group = vec![
        with_signature(method("set", None, None, vec![]), vec![int_arg]),
        with_signature(method("set", None, None, vec![]), vec![double_arg]),
        with_signature(method("set", None, None, vec![]), vec![]),
    ];
    let names = disambiguated_names(&group, &"m_G_set".to_string()).unwrap();
    assert_eq!(names, vec!["m_G_set_int".to_string(), "m_G_set_double".to_string(), "m_G_set_no_args".to_string()]);
    for i in 0..names.len() {
        for j in 0..names.len() {
            if i != j {
                assert_ne!(names[i], names[j]);
            }
        }
    }
}

#[test]
fn full_captions_when_short_ones_collide() {
    let by_value = ffi_argument("p", CppType { is_const: false, indirection: CppTypeIndirection::Ptr, base: class_base("P") }, CppFfiArgumentMeaning::Argument(0));
    let by_const = ffi_argument("p", CppType { is_const: true, indirection: CppTypeIndirection::Ptr, base: class_base("P") }, CppFfiArgumentMeaning::Argument(0));
    let group = vec![
        with_signature(method("g", None, None, vec![]), vec![by_value]),
        with_signature(method("g", None, None, vec![]), vec![by_const]),
    ];
    let names = disambiguated_names(&group, &"h_G_g".to_string()).unwrap();
    assert_eq!(names, vec!["h_G_g_P_ptr".to_string(), "h_G_g_const_P_ptr".to_string()]);
}

#[test]
fn identical_overloads_cannot_be_told_apart() {
    let a = ffi_argument("x", numeric(CppBuiltInNumericType::Int), CppFfiArgumentMeaning::Argument(0));
    let b = ffi_argument("x", numeric(CppBuiltInNumericType::Int), CppFfiArgumentMeaning::Argument(0));
    let group = vec![
        with_signature(method("k", None, None, vec![]), vec![a]),
        with_signature(method("k", None, None, vec![]), vec![b]),
    ];
    assert!(disambiguated_names(&group, &"k".to_string()).is_err());
}

#[test]
fn naming_a_method() {
    let m = with_signature(method("f", None, None, vec![]), vec![]);
    let named = CppAndFfiMethod::new(m, "m_G_f".to_string());
    assert_eq!(named.c_name, "m_G_f");
    assert_eq!(named.cpp_method.name, "f");
    assert_eq!(named.allocation_place, ReturnValueAllocationPlace::NotApplicable);
}

#[test]
fn argument_meaning() {
    assert!(CppFfiArgumentMeaning::Argument(3).is_argument());
    assert!(!CppFfiArgumentMeaning::This.is_argument());
    assert!(!CppFfiArgumentMeaning::ReturnValue.is_argument());
}

#[test]
fn operator_names() {
    assert_eq!(CppOperator::Subscript.c_name(), "index");
    assert_eq!(CppOperator::BitwiseLeftShiftAssignment.c_name(), "shl_assign");
    let m = method("operator=", None, Some(CppOperator::Assignment), vec![]);
    assert!(!m.is_constructor() && !m.is_destructor() && !m.is_const());
}

fn setter(kind: CppBuiltInNumericType) -> CppMethodWithFfiSignature {
    with_signature(
        method("set", membership("A", CppMethodKind::Regular, false), None, vec![]),
        vec![ffi_argument("v", numeric(kind), CppFfiArgumentMeaning::Argument(0))],
    )
}

fn getter() -> CppMethodWithFfiSignature {
    with_signature(method("get", membership("A", CppMethodKind::Regular, true), None, vec![]), vec![])
}

#[test]
fn scope_names_each_group_separately() {
    let scope = vec![setter(CppBuiltInNumericType::Int), getter(), setter(CppBuiltInNumericType::Double)];
    let bases = vec!["A_set".to_string(), "A_get".to_string(), "A_set".to_string()];
    let names = scope_names(&scope, &bases).unwrap();
    assert_eq!(names, vec!["A_set_int".to_string(), "A_get".to_string(), "A_set_double".to_string()]);
}

#[test]
fn scope_names_are_stable_when_unrelated_members_move() {
    let scope = vec![getter(), setter(CppBuiltInNumericType::Int), setter(CppBuiltInNumericType::Double)];
    let bases = vec!["A_get".to_string(), "A_set".to_string(), "A_set".to_string()];
    let names = scope_names(&scope, &bases).unwrap();
    assert_eq!(names, vec!["A_get".to_string(), "A_set_int".to_string(), "A_set_double".to_string()]);
}

#[test]
fn scope_names_fail_on_identical_overloads() {
    let scope = vec![setter(CppBuiltInNumericType::Int), setter(CppBuiltInNumericType::Int), getter()];
    let bases = vec!["A_set".to_string(), "A_set".to_string(), "A_get".to_string()];
    assert!(scope_names(&scope, &bases).is_err());
}

fn template_class_method() -> CppMethod {
    let param = CppType {
        is_const: false,
        indirection: CppTypeIndirection::Direct,
        base: CppTypeBase::TemplateParameter { nested_level: 0, index: 0 },
    };
    let mut m = method("size", membership("QList", CppMethodKind::Regular, true), None, vec![]);
    if let Some(info) = m.class_membership.as_mut() {
        info.class_type = CppTypeBase::Class { name: "QList".to_string(), template_arguments: Some(vec![param]) };
    }
    m
}

#[test]
fn base_name_fails_without_captions() {
    let file = "qlist".to_string();
    assert!(c_base_name(&template_class_method(), &ReturnValueAllocationPlace::NotApplicable, &file).is_err());
    let conv = method(
        "operator T",
        membership("QVariant", CppMethodKind::Regular, true),
        Some(CppOperator::Conversion(CppType {
            is_const: false,
            indirection: CppTypeIndirection::Direct,
            base: CppTypeBase::TemplateParameter { nested_level: 0, index: 0 },
        })),
        vec![],
    );
    assert!(c_base_name(&conv, &ReturnValueAllocationPlace::NotApplicable, &file).is_err());
}

fn callback_argument() -> CppFfiFunctionArgument {
    ffi_argument(
        "cb",
        CppType {
            is_const: false,
            indirection: CppTypeIndirection::Direct,
            base: CppTypeBase::FunctionPointer {
                return_type: Box::new(CppType::void()),
                arguments: vec![],
                allows_variable_arguments: false,
            },
        },
        CppFfiArgumentMeaning::Argument(0),
    )
}

#[test]
fn function_pointer_arguments_have_no_type_caption() {
    let a = callback_argument();
    assert_eq!(a.caption(ArgumentCaptionStrategy::NameOnly).unwrap(), "cb");
    assert!(a.caption(ArgumentCaptionStrategy::TypeOnly(TypeCaptionStrategy::Short)).is_none());
    let m = with_signature(method("on", None, None, vec![]), vec![callback_argument()]);
    assert!(m
        .caption(MethodCaptionStrategy::ArgumentsOnly(ArgumentCaptionStrategy::TypeOnly(TypeCaptionStrategy::Full)))
        .is_none());
    assert_eq!(m.caption(MethodCaptionStrategy::ConstOnly).unwrap(), "");
}

#[test]
fn const_marker_names_overloads_with_function_pointer_arguments() {
    let group = vec![
        with_signature(method("visit", membership("A", CppMethodKind::Regular, false), None, vec![]), vec![callback_argument()]),
        with_signature(method("visit", membership("A", CppMethodKind::Regular, true), None, vec![]), vec![callback_argument()]),
    ];
    let names = disambiguated_names(&group, &"A_visit".to_string()).unwrap();
    assert_eq!(names, vec!["A_visit".to_string(), "A_visit_const".to_string()]);
}

#[test]
fn strategies_without_captions_do_not_separate() {
    let group = vec![
        with_signature(method("run", None, None, vec![]), vec![callback_argument()]),
        with_signature(method("run", None, None, vec![]), vec![ffi_argument("n", numeric(CppBuiltInNumericType::Int), CppFfiArgumentMeaning::Argument(0))]),
    ];
    // every argument strategy needs the callback's type caption, and the
    // const marker does not separate two free functions
    assert!(disambiguated_names(&group, &"m_G_run".to_string()).is_err());
    let scope = vec![
        with_signature(method("run", None, None, vec![]), vec![callback_argument()]),
        getter(),
    ];
    let bases = vec!["m_G_run".to_string(), "A_get".to_string()];
    assert_eq!(scope_names(&scope, &bases).unwrap(), vec!["m_G_run".to_string(), "A_get".to_string()]);
}

#[test]
fn argument_code_failure_is_the_first_failing_argument() {
    let bad = |name: &str, variadic: bool| CppFfiFunctionArgument {
        name: name.to_string(),
        argument_type: CppFfiType {
            original_type: CppType::void(),
            ffi_type: CppType {
                is_const: false,
                indirection: CppTypeIndirection::Ptr,
                base: if variadic {
                    CppTypeBase::FunctionPointer { return_type: Box::new(CppType::void()), arguments: vec![], allows_variable_arguments: true }
                } else {
                    CppTypeBase::TemplateParameter { nested_level: 0, index: 0 }
                },
            },
            conversion: cpp_to_rust_generator::cpp_ffi_type::IndirectionChange::NoChange,
        },
        meaning: CppFfiArgumentMeaning::Argument(0),
    };
    assert_eq!(bad("t", false).to_cpp_code().unwrap_err(), "template parameters are not supported here yet");
    let sig = CppFfiFunctionSignature {
        arguments: vec![ffi_argument("x", numeric(CppBuiltInNumericType::Int), CppFfiArgumentMeaning::Argument(0)), bad("f", true), bad("t", false)],
        return_type: CppFfiType::void(),
    };
    assert_eq!(
        sig.arguments_to_cpp_code().unwrap_err(),
        "Function pointers with variadic arguments are not supported"
    );
}
