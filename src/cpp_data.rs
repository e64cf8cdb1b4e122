//! Declarations discovered in a native library, and their structural
//! identity.
use vstd::prelude::*;
use crate::cpp_method::{
    CppFunctionArgument, CppMethod, CppMethodKind, CppOperator, CppVisibility, argument_types,
};
use crate::cpp_type::{
    CppType, CppTypeBase, CppTypeIndirection, TypeBaseModel, TypeModel, clone_types, types_view,
};

verus! {

/// The name of a namespace.
#[derive(Debug)]
pub struct CppName {
    pub name: String,
}

/// A class type: its name and template arguments.
#[derive(Debug)]
pub struct CppClassType {
    pub name: String,
    pub template_arguments: Option<Vec<CppType>>,
}

/// Whether a declared type is an enum or a class.
#[derive(Debug)]
pub enum CppTypeDataKind {
    Enum,
    Class { type_base: CppClassType },
}

/// A declared type.
#[derive(Debug)]
pub struct CppTypeData {
    pub name: String,
    pub kind: CppTypeDataKind,
}

/// A value of an enum.
#[derive(Debug)]
pub struct CppEnumValue {
    pub name: String,
    pub value: i64,
    pub enum_name: String,
}

/// A data member of a class.
#[derive(Debug)]
pub struct CppClassField {
    pub name: String,
    pub field_type: CppType,
    pub visibility: CppVisibility,
    pub class_type: CppClassType,
    pub is_static: bool,
}

/// An inheritance edge between two classes.
#[derive(Debug)]
pub struct CppBaseSpecifier {
    pub base_class_type: CppClassType,
    pub derived_class_type: CppClassType,
    /// The position of the base among the derived class's bases.
    pub base_index: usize,
    pub is_virtual: bool,
    pub visibility: CppVisibility,
}

/// A class template with the arguments it is instantiated with.
#[derive(Debug)]
pub struct CppTemplateInstantiation {
    pub class_name: String,
    pub template_arguments: Vec<CppType>,
}

/// A declaration of the native library.
#[derive(Debug)]
pub enum CppItemData {
    Namespace(CppName),
    Type(CppTypeData),
    EnumValue(CppEnumValue),
    Function(CppMethod),
    ClassField(CppClassField),
    ClassBase(CppBaseSpecifier),
    TemplateInstantiation(CppTemplateInstantiation),
    QtSignalArguments(Vec<CppType>),
}

impl CppClassType {
    /// The class as a type passed by value.
    pub open spec fn view(self) -> TypeModel {
        TypeModel {
            is_const: false,
            indirection: CppTypeIndirection::Direct,
            base: TypeBaseModel::Class {
                name: self.name@,
                template_arguments: match self.template_arguments {
                    Some(args) => Some(types_view(args@)),
                    None => None,
                },
            },
        }
    }

    /// The class as a type passed by value.
    pub fn to_type(&self) -> (r: CppType)
        ensures
            r.view() == self.view(),
    {
        let args = match &self.template_arguments {
            Some(a) => Some(clone_types(a)),
            None => None,
        };
        let r = CppType {
            is_const: false,
            indirection: CppTypeIndirection::Direct,
            base: CppTypeBase::Class { name: self.name.clone(), template_arguments: args },
        };
        proof {
            if r.base->Class_template_arguments is Some {
                assert(r.view().base->Class_template_arguments->Some_0 =~= types_view(
                    r.base->Class_template_arguments->Some_0@,
                ));
            }
        }
        r
    }
}

/// The parts of a function's class membership that its identity depends on.
pub open spec fn membership_identity(m: CppMethod) -> Option<(TypeBaseModel, CppMethodKind, bool, bool)> {
    match m.class_membership {
        Some(info) => Some((info.class_type.view(), info.kind, info.is_const, info.is_static)),
        None => None,
    }
}

/// Two functions are the same declaration: same name, class membership and
/// signature.
pub open spec fn same_function(a: CppMethod, b: CppMethod) -> bool {
    &&& a.name@ == b.name@
    &&& membership_identity(a) == membership_identity(b)
    &&& argument_types(a.arguments@) == argument_types(b.arguments@)
    &&& a.return_type.view() == b.return_type.view()
    &&& a.allows_variadic_arguments == b.allows_variadic_arguments
}

/// The model of a declared type's kind.
pub open spec fn type_kind_view(k: CppTypeDataKind) -> Option<TypeModel> {
    match k {
        CppTypeDataKind::Enum => None,
        CppTypeDataKind::Class { type_base } => Some(type_base.view()),
    }
}

/// Two declarations are the same declaration. Identity looks at the
/// structure of a declaration only, never at where it was found.
pub open spec fn same_declaration(a: CppItemData, b: CppItemData) -> bool {
    match (a, b) {
        (CppItemData::Namespace(x), CppItemData::Namespace(y)) => x.name@ == y.name@,
        (CppItemData::Type(x), CppItemData::Type(y)) => x.name@ == y.name@ && type_kind_view(x.kind)
            == type_kind_view(y.kind),
        (CppItemData::EnumValue(x), CppItemData::EnumValue(y)) => x.enum_name@ == y.enum_name@
            && x.name@ == y.name@ && x.value == y.value,
        (CppItemData::Function(x), CppItemData::Function(y)) => same_function(x, y),
        (CppItemData::ClassField(x), CppItemData::ClassField(y)) => x.class_type.view()
            == y.class_type.view() && x.name@ == y.name@,
        (CppItemData::ClassBase(x), CppItemData::ClassBase(y)) => x.base_class_type.view()
            == y.base_class_type.view() && x.derived_class_type.view()
            == y.derived_class_type.view() && x.base_index == y.base_index && x.is_virtual
            == y.is_virtual && x.visibility == y.visibility,
        (CppItemData::TemplateInstantiation(x), CppItemData::TemplateInstantiation(y)) =>
            x.class_name@ == y.class_name@ && types_view(x.template_arguments@) == types_view(
            y.template_arguments@,
        ),
        (CppItemData::QtSignalArguments(x), CppItemData::QtSignalArguments(y)) => types_view(x@)
            == types_view(y@),
        _ => false,
    }
}

/// The types that a declaration involves.
pub open spec fn involved_types(d: CppItemData) -> Seq<TypeModel> {
    match d {
        CppItemData::Type(t) => match t.kind {
            CppTypeDataKind::Enum => seq![
                TypeModel {
                    is_const: false,
                    indirection: CppTypeIndirection::Direct,
                    base: TypeBaseModel::Enum { name: t.name@ },
                },
            ],
            CppTypeDataKind::Class { type_base } => seq![type_base.view()],
        },
        CppItemData::EnumValue(_) => Seq::empty(),
        CppItemData::Namespace(_) => Seq::empty(),
        CppItemData::Function(m) => function_involved_types(m),
        CppItemData::ClassField(f) => seq![f.class_type.view(), f.field_type.view()],
        CppItemData::ClassBase(b) => seq![b.base_class_type.view(), b.derived_class_type.view()],
        CppItemData::QtSignalArguments(args) => types_view(args@),
        CppItemData::TemplateInstantiation(t) => types_view(t.template_arguments@),
    }
}

/// The types that a function involves: its class, its argument types, its
/// return type and the target of a conversion operator.
pub open spec fn function_involved_types(m: CppMethod) -> Seq<TypeModel> {
    let class_part = match m.class_membership {
        Some(info) => seq![
            TypeModel {
                is_const: false,
                indirection: CppTypeIndirection::Direct,
                base: info.class_type.view(),
            },
        ],
        None => Seq::empty(),
    };
    let conversion_part = match m.operator {
        Some(CppOperator::Conversion(t)) => seq![t.view()],
        _ => Seq::empty(),
    };
    class_part + argument_types(m.arguments@) + seq![m.return_type.view()] + conversion_part
}

/// The two base types are equal.
pub fn base_types_equal(a: &CppTypeBase, b: &CppTypeBase) -> (r: bool)
    ensures
        r == (a.view() == b.view()),
    decreases a,
{
    match (a, b) {
        (CppTypeBase::Void, CppTypeBase::Void) => true,
        (CppTypeBase::BuiltInNumeric(x), CppTypeBase::BuiltInNumeric(y)) => *x == *y,
        (CppTypeBase::Enum { name: x }, CppTypeBase::Enum { name: y }) => *x == *y,
        (
            CppTypeBase::SpecificNumeric { name: n1, bits: b1, kind: k1 },
            CppTypeBase::SpecificNumeric { name: n2, bits: b2, kind: k2 },
        ) => *n1 == *n2 && *b1 == *b2 && *k1 == *k2,
        (
            CppTypeBase::PointerSizedInteger { name: n1, is_signed: s1 },
            CppTypeBase::PointerSizedInteger { name: n2, is_signed: s2 },
        ) => *n1 == *n2 && *s1 == *s2,
        (
            CppTypeBase::Class { name: n1, template_arguments: t1 },
            CppTypeBase::Class { name: n2, template_arguments: t2 },
        ) => {
            if *n1 != *n2 {
                return false;
            }
            match (t1, t2) {
                (Some(x), Some(y)) => {
                    let r = type_lists_equal(x, y);
                    proof {
                        assert(a.view()->Class_template_arguments->Some_0 =~= types_view(x@));
                        assert(b.view()->Class_template_arguments->Some_0 =~= types_view(y@));
                    }
                    r
                },
                (None, None) => true,
                _ => false,
            }
        },
        (
            CppTypeBase::TemplateParameter { nested_level: l1, index: i1 },
            CppTypeBase::TemplateParameter { nested_level: l2, index: i2 },
        ) => *l1 == *l2 && *i1 == *i2,
        (
            CppTypeBase::FunctionPointer {
                return_type: r1,
                arguments: a1,
                allows_variable_arguments: v1,
            },
            CppTypeBase::FunctionPointer {
                return_type: r2,
                arguments: a2,
                allows_variable_arguments: v2,
            },
        ) => {
            proof {
                assert(a.view()->FunctionPointer_arguments =~= types_view(a1@));
                assert(b.view()->FunctionPointer_arguments =~= types_view(a2@));
            }
            *v1 == *v2 && types_equal(r1, r2) && type_lists_equal(a1, a2)
        },
        _ => false,
    }
}

/// The two types are equal.
pub fn types_equal(a: &CppType, b: &CppType) -> (r: bool)
    ensures
        r == (a.view() == b.view()),
    decreases a,
{
    a.is_const == b.is_const && a.indirection == b.indirection && base_types_equal(
        &a.base,
        &b.base,
    )
}

/// The two lists of types are equal.
pub fn type_lists_equal(a: &Vec<CppType>, b: &Vec<CppType>) -> (r: bool)
    ensures
        r == (types_view(a@) == types_view(b@)),
    decreases a,
{
    if a.len() != b.len() {
        proof {
            assert(types_view(a@).len() != types_view(b@).len());
        }
        return false;
    }
    let mut i: usize = 0;
    while i < a.len()
        invariant
            a@.len() == b@.len(),
            i <= a@.len(),
            forall|j: int| 0 <= j < i ==> (#[trigger] a@[j]).view() == b@[j].view(),
        decreases a@.len() - i,
    {
        if !types_equal(&a[i], &b[i]) {
            proof {
                assert(types_view(a@)[i as int] != types_view(b@)[i as int]);
            }
            return false;
        }
        i = i + 1;
    }
    proof {
        assert(types_view(a@) =~= types_view(b@));
    }
    true
}

/// The two class types are equal.
pub fn class_types_equal(a: &CppClassType, b: &CppClassType) -> (r: bool)
    ensures
        r == (a.view() == b.view()),
{
    if a.name != b.name {
        return false;
    }
    match (&a.template_arguments, &b.template_arguments) {
        (Some(x), Some(y)) => type_lists_equal(x, y),
        (None, None) => true,
        _ => false,
    }
}

/// The argument types of two argument lists are equal.
fn argument_types_equal(
    a: &Vec<CppFunctionArgument>,
    b: &Vec<CppFunctionArgument>,
) -> (r: bool)
    ensures
        r == (argument_types(a@) == argument_types(b@)),
{
    if a.len() != b.len() {
        proof {
            assert(argument_types(a@).len() != argument_types(b@).len());
        }
        return false;
    }
    let mut i: usize = 0;
    while i < a.len()
        invariant
            a@.len() == b@.len(),
            i <= a@.len(),
            forall|j: int|
                0 <= j < i ==> (#[trigger] a@[j]).argument_type.view() == b@[j].argument_type.view(),
        decreases a@.len() - i,
    {
        if !types_equal(&a[i].argument_type, &b[i].argument_type) {
            proof {
                assert(argument_types(a@)[i as int] != argument_types(b@)[i as int]);
            }
            return false;
        }
        i = i + 1;
    }
    proof {
        assert(argument_types(a@) =~= argument_types(b@));
    }
    true
}

/// The two functions are the same declaration.
fn functions_same(a: &CppMethod, b: &CppMethod) -> (r: bool)
    ensures
        r == same_function(*a, *b),
{
    if a.name != b.name || a.allows_variadic_arguments != b.allows_variadic_arguments {
        return false;
    }
    let same_membership = match (&a.class_membership, &b.class_membership) {
        (Some(x), Some(y)) => x.kind == y.kind && x.is_const == y.is_const && x.is_static
            == y.is_static && base_types_equal(&x.class_type, &y.class_type),
        (None, None) => true,
        _ => false,
    };
    same_membership && types_equal(&a.return_type, &b.return_type) && argument_types_equal(
        &a.arguments,
        &b.arguments,
    )
}

impl CppItemData {
    /// This is the same declaration as `other`, wherever each was found.
    pub fn is_same(&self, other: &CppItemData) -> (r: bool)
        ensures
            r == same_declaration(*self, *other),
    {
        match (self, other) {
            (CppItemData::Namespace(x), CppItemData::Namespace(y)) => x.name == y.name,
            (CppItemData::Type(x), CppItemData::Type(y)) => {
                x.name == y.name && match (&x.kind, &y.kind) {
                    (CppTypeDataKind::Enum, CppTypeDataKind::Enum) => true,
                    (
                        CppTypeDataKind::Class { type_base: t1 },
                        CppTypeDataKind::Class { type_base: t2 },
                    ) => class_types_equal(t1, t2),
                    _ => false,
                }
            },
            (CppItemData::EnumValue(x), CppItemData::EnumValue(y)) => x.enum_name == y.enum_name
                && x.name == y.name && x.value == y.value,
            (CppItemData::Function(x), CppItemData::Function(y)) => functions_same(x, y),
            (CppItemData::ClassField(x), CppItemData::ClassField(y)) => class_types_equal(
                &x.class_type,
                &y.class_type,
            ) && x.name == y.name,
            (CppItemData::ClassBase(x), CppItemData::ClassBase(y)) => class_types_equal(
                &x.base_class_type,
                &y.base_class_type,
            ) && class_types_equal(&x.derived_class_type, &y.derived_class_type) && x.base_index
                == y.base_index && x.is_virtual == y.is_virtual && x.visibility == y.visibility,
            (CppItemData::TemplateInstantiation(x), CppItemData::TemplateInstantiation(y)) =>
                x.class_name == y.class_name && type_lists_equal(
                &x.template_arguments,
                &y.template_arguments,
            ),
            (CppItemData::QtSignalArguments(x), CppItemData::QtSignalArguments(y)) =>
                type_lists_equal(x, y),
            _ => false,
        }
    }
}

/// Pushes a copy of each type of `ts` onto `r`.
fn extend_with_types(r: &mut Vec<CppType>, ts: &Vec<CppType>)
    ensures
        types_view(final(r)@) == types_view(old(r)@) + types_view(ts@),
{
    let ghost start = types_view(r@);
    let mut i: usize = 0;
    while i < ts.len()
        invariant
            i <= ts@.len(),
            types_view(r@) == start + types_view(ts@.subrange(0, i as int)),
        decreases ts@.len() - i,
    {
        let ghost prev = r@;
        r.push(ts[i].clone());
        proof {
            assert(types_view(r@) =~= types_view(prev).push(ts@[i as int].view()));
            assert(types_view(ts@.subrange(0, i + 1)) =~= types_view(ts@.subrange(0, i as int)).push(
                ts@[i as int].view(),
            ));
        }
        i = i + 1;
    }
    proof {
        assert(ts@.subrange(0, ts@.len() as int) =~= ts@);
    }
}

/// Pushes a copy of a type onto `r`.
fn push_type(r: &mut Vec<CppType>, t: CppType)
    ensures
        types_view(final(r)@) == types_view(old(r)@).push(t.view()),
{
    let ghost prev = r@;
    r.push(t);
    proof {
        assert(types_view(r@) =~= types_view(prev).push(t.view()));
    }
}

impl CppItemData {
    /// The types that this declaration involves.
    pub fn all_involved_types(&self) -> (r: Vec<CppType>)
        ensures
            types_view(r@) == involved_types(*self),
    {
        let mut r: Vec<CppType> = Vec::new();
        proof {
            assert(types_view(r@) =~= Seq::<TypeModel>::empty());
        }
        match self {
            CppItemData::Type(t) => match &t.kind {
                CppTypeDataKind::Enum => {
                    push_type(
                        &mut r,
                        CppType {
                            is_const: false,
                            indirection: CppTypeIndirection::Direct,
                            base: CppTypeBase::Enum { name: t.name.clone() },
                        },
                    );
                    proof {
                        assert(types_view(r@) =~= involved_types(*self));
                    }
                },
                CppTypeDataKind::Class { type_base } => {
                    push_type(&mut r, type_base.to_type());
                    proof {
                        assert(types_view(r@) =~= involved_types(*self));
                    }
                },
            },
            CppItemData::EnumValue(_) | CppItemData::Namespace(_) => {},
            CppItemData::Function(m) => {
                let ghost class_part = types_view(r@);
                match &m.class_membership {
                    Some(info) => {
                        push_type(
                            &mut r,
                            CppType {
                                is_const: false,
                                indirection: CppTypeIndirection::Direct,
                                base: info.class_type.clone(),
                            },
                        );
                    },
                    None => {},
                }
                let ghost with_class = types_view(r@);
                let mut i: usize = 0;
                while i < m.arguments.len()
                    invariant
                        i <= m.arguments@.len(),
                        types_view(r@) == with_class + argument_types(
                            m.arguments@.subrange(0, i as int),
                        ),
                    decreases m.arguments@.len() - i,
                {
                    push_type(&mut r, m.arguments[i].argument_type.clone());
                    proof {
                        assert(argument_types(m.arguments@.subrange(0, i + 1)) =~= argument_types(
                            m.arguments@.subrange(0, i as int),
                        ).push(m.arguments@[i as int].argument_type.view()));
                    }
                    i = i + 1;
                }
                proof {
                    assert(m.arguments@.subrange(0, m.arguments@.len() as int) =~= m.arguments@);
                }
                push_type(&mut r, m.return_type.clone());
                let ghost before_conversion = types_view(r@);
                match &m.operator {
                    Some(CppOperator::Conversion(t)) => {
                        push_type(&mut r, t.clone());
                    },
                    _ => {},
                }
                proof {
                    assert(types_view(r@) =~= involved_types(*self));
                }
            },
            CppItemData::ClassField(f) => {
                push_type(&mut r, f.class_type.to_type());
                push_type(&mut r, f.field_type.clone());
                proof {
                    assert(types_view(r@) =~= involved_types(*self));
                }
            },
            CppItemData::ClassBase(b) => {
                push_type(&mut r, b.base_class_type.to_type());
                push_type(&mut r, b.derived_class_type.to_type());
                proof {
                    assert(types_view(r@) =~= involved_types(*self));
                }
            },
            CppItemData::QtSignalArguments(args) => {
                extend_with_types(&mut r, args);
                proof {
                    assert(types_view(r@) =~= involved_types(*self));
                }
            },
            CppItemData::TemplateInstantiation(data) => {
                extend_with_types(&mut r, &data.template_arguments);
                proof {
                    assert(types_view(r@) =~= involved_types(*self));
                }
            },
        }
        r
    }

    /// The namespace, if this declares one.
    pub fn as_namespace_ref(&self) -> (r: Option<&CppName>)
        ensures
            r == match self {
                CppItemData::Namespace(d) => Some(d),
                _ => None,
            },
    {
        if let CppItemData::Namespace(data) = self {
            Some(data)
        } else {
            None
        }
    }

    /// The function, if this declares one.
    pub fn as_function_ref(&self) -> (r: Option<&CppMethod>)
        ensures
            r == match self {
                CppItemData::Function(d) => Some(d),
                _ => None,
            },
    {
        if let CppItemData::Function(data) = self {
            Some(data)
        } else {
            None
        }
    }

    /// The class field, if this declares one.
    pub fn as_field_ref(&self) -> (r: Option<&CppClassField>)
        ensures
            r == match self {
                CppItemData::ClassField(d) => Some(d),
                _ => None,
            },
    {
        if let CppItemData::ClassField(data) = self {
            Some(data)
        } else {
            None
        }
    }

    /// The enum value, if this declares one.
    pub fn as_enum_value_ref(&self) -> (r: Option<&CppEnumValue>)
        ensures
            r == match self {
                CppItemData::EnumValue(d) => Some(d),
                _ => None,
            },
    {
        if let CppItemData::EnumValue(data) = self {
            Some(data)
        } else {
            None
        }
    }

    /// The inheritance edge, if this declares one.
    pub fn as_base_ref(&self) -> (r: Option<&CppBaseSpecifier>)
        ensures
            r == match self {
                CppItemData::ClassBase(d) => Some(d),
                _ => None,
            },
    {
        if let CppItemData::ClassBase(data) = self {
            Some(data)
        } else {
            None
        }
    }

    /// The type, if this declares one.
    pub fn as_type_ref(&self) -> (r: Option<&CppTypeData>)
        ensures
            r == match self {
                CppItemData::Type(d) => Some(d),
                _ => None,
            },
    {
        if let CppItemData::Type(data) = self {
            Some(data)
        } else {
            None
        }
    }

    /// The template instantiation, if this declares one.
    pub fn as_template_instantiation_ref(&self) -> (r: Option<&CppTemplateInstantiation>)
        ensures
            r == match self {
                CppItemData::TemplateInstantiation(d) => Some(d),
                _ => None,
            },
    {
        if let CppItemData::TemplateInstantiation(data) = self {
            Some(data)
        } else {
            None
        }
    }

    /// The signal's argument types, if this declares a signal's arguments.
    pub fn as_signal_arguments_ref(&self) -> (r: Option<&[CppType]>)
        ensures
            match self {
                CppItemData::QtSignalArguments(d) => r matches Some(s) && s@ == d@,
                _ => r is None,
            },
    {
        if let CppItemData::QtSignalArguments(data) = self {
            Some(data.as_slice())
        } else {
            None
        }
    }
}

} // verus!
