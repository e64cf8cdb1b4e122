//! Native functions and methods, as far as naming their boundary functions
//! needs them.
use vstd::prelude::*;
use crate::cpp_type::{CppType, CppTypeBase, TypeModel};

verus! {

/// Member access of a class member.
#[derive(Clone, Copy, Debug, PartialEq, Eq, Structural)]
pub enum CppVisibility {
    Public,
    Protected,
    Private,
}

/// The kind of a method.
#[derive(Clone, Copy, Debug, PartialEq, Eq, Structural)]
pub enum CppMethodKind {
    Regular,
    Constructor,
    Destructor,
}

/// Where a value returned by a boundary function is put.
#[derive(Clone, Copy, Debug, PartialEq, Eq, Structural)]
pub enum ReturnValueAllocationPlace {
    /// Into storage that the caller passes in.
    Stack,
    /// Onto the heap, returned by pointer.
    Heap,
    /// The function returns no class value.
    NotApplicable,
}

/// The operators of the native language.
#[derive(Debug)]
pub enum CppOperator {
    /// A conversion operator to the given type.
    Conversion(CppType),
    Assignment,
    Addition,
    Subtraction,
    UnaryPlus,
    UnaryMinus,
    Multiplication,
    Division,
    Modulo,
    PrefixIncrement,
    PostfixIncrement,
    PrefixDecrement,
    PostfixDecrement,
    EqualTo,
    NotEqualTo,
    GreaterThan,
    LessThan,
    GreaterThanOrEqualTo,
    LessThanOrEqualTo,
    LogicalNot,
    LogicalAnd,
    LogicalOr,
    BitwiseNot,
    BitwiseAnd,
    BitwiseOr,
    BitwiseXor,
    BitwiseLeftShift,
    BitwiseRightShift,
    AdditionAssignment,
    SubtractionAssignment,
    MultiplicationAssignment,
    DivisionAssignment,
    ModuloAssignment,
    BitwiseAndAssignment,
    BitwiseOrAssignment,
    BitwiseXorAssignment,
    BitwiseLeftShiftAssignment,
    BitwiseRightShiftAssignment,
    Subscript,
    Indirection,
    AddressOf,
    StructureDereference,
    PointerToMember,
    FunctionCall,
    Comma,
    New,
    NewArray,
    Delete,
    DeleteArray,
}

/// What a method has as a member of its class.
#[derive(Debug)]
pub struct CppMethodClassMembership {
    pub class_type: CppTypeBase,
    pub kind: CppMethodKind,
    pub is_virtual: bool,
    pub is_const: bool,
    pub is_static: bool,
    pub visibility: CppVisibility,
}

/// An argument of a native function.
#[derive(Debug)]
pub struct CppFunctionArgument {
    pub name: String,
    pub argument_type: CppType,
    pub has_default_value: bool,
}

/// A native free function or method.
#[derive(Debug)]
pub struct CppMethod {
    pub name: String,
    pub class_membership: Option<CppMethodClassMembership>,
    pub operator: Option<CppOperator>,
    pub return_type: CppType,
    pub arguments: Vec<CppFunctionArgument>,
    pub allows_variadic_arguments: bool,
}

/// The name part of an operator in a boundary function's name.
pub open spec fn operator_c_name(op: CppOperator) -> Seq<char> {
    match op {
        CppOperator::Conversion(_) => "convert"@,
        CppOperator::Assignment => "assign"@,
        CppOperator::Addition => "add"@,
        CppOperator::Subtraction => "sub"@,
        CppOperator::UnaryPlus => "unary_plus"@,
        CppOperator::UnaryMinus => "neg"@,
        CppOperator::Multiplication => "mul"@,
        CppOperator::Division => "div"@,
        CppOperator::Modulo => "rem"@,
        CppOperator::PrefixIncrement => "inc"@,
        CppOperator::PostfixIncrement => "inc_postfix"@,
        CppOperator::PrefixDecrement => "dec"@,
        CppOperator::PostfixDecrement => "dec_postfix"@,
        CppOperator::EqualTo => "eq"@,
        CppOperator::NotEqualTo => "neq"@,
        CppOperator::GreaterThan => "gt"@,
        CppOperator::LessThan => "lt"@,
        CppOperator::GreaterThanOrEqualTo => "ge"@,
        CppOperator::LessThanOrEqualTo => "le"@,
        CppOperator::LogicalNot => "not"@,
        CppOperator::LogicalAnd => "and"@,
        CppOperator::LogicalOr => "or"@,
        CppOperator::BitwiseNot => "bit_not"@,
        CppOperator::BitwiseAnd => "bit_and"@,
        CppOperator::BitwiseOr => "bit_or"@,
        CppOperator::BitwiseXor => "bit_xor"@,
        CppOperator::BitwiseLeftShift => "shl"@,
        CppOperator::BitwiseRightShift => "shr"@,
        CppOperator::AdditionAssignment => "add_assign"@,
        CppOperator::SubtractionAssignment => "sub_assign"@,
        CppOperator::MultiplicationAssignment => "mul_assign"@,
        CppOperator::DivisionAssignment => "div_assign"@,
        CppOperator::ModuloAssignment => "rem_assign"@,
        CppOperator::BitwiseAndAssignment => "bit_and_assign"@,
        CppOperator::BitwiseOrAssignment => "bit_or_assign"@,
        CppOperator::BitwiseXorAssignment => "bit_xor_assign"@,
        CppOperator::BitwiseLeftShiftAssignment => "shl_assign"@,
        CppOperator::BitwiseRightShiftAssignment => "shr_assign"@,
        CppOperator::Subscript => "index"@,
        CppOperator::Indirection => "indirection"@,
        CppOperator::AddressOf => "address_of"@,
        CppOperator::StructureDereference => "struct_deref"@,
        CppOperator::PointerToMember => "ptr_to_member"@,
        CppOperator::FunctionCall => "call"@,
        CppOperator::Comma => "comma"@,
        CppOperator::New => "new"@,
        CppOperator::NewArray => "new_array"@,
        CppOperator::Delete => "delete"@,
        CppOperator::DeleteArray => "delete_array"@,
    }
}

impl CppOperator {
    /// The name part of this operator in a boundary function's name.
    pub fn c_name(&self) -> (r: &'static str)
        ensures
            r@ == operator_c_name(*self),
    {
        match self {
            CppOperator::Conversion(_) => "convert",
            CppOperator::Assignment => "assign",
            CppOperator::Addition => "add",
            CppOperator::Subtraction => "sub",
            CppOperator::UnaryPlus => "unary_plus",
            CppOperator::UnaryMinus => "neg",
            CppOperator::Multiplication => "mul",
            CppOperator::Division => "div",
            CppOperator::Modulo => "rem",
            CppOperator::PrefixIncrement => "inc",
            CppOperator::PostfixIncrement => "inc_postfix",
            CppOperator::PrefixDecrement => "dec",
            CppOperator::PostfixDecrement => "dec_postfix",
            CppOperator::EqualTo => "eq",
            CppOperator::NotEqualTo => "neq",
            CppOperator::GreaterThan => "gt",
            CppOperator::LessThan => "lt",
            CppOperator::GreaterThanOrEqualTo => "ge",
            CppOperator::LessThanOrEqualTo => "le",
            CppOperator::LogicalNot => "not",
            CppOperator::LogicalAnd => "and",
            CppOperator::LogicalOr => "or",
            CppOperator::BitwiseNot => "bit_not",
            CppOperator::BitwiseAnd => "bit_and",
            CppOperator::BitwiseOr => "bit_or",
            CppOperator::BitwiseXor => "bit_xor",
            CppOperator::BitwiseLeftShift => "shl",
            CppOperator::BitwiseRightShift => "shr",
            CppOperator::AdditionAssignment => "add_assign",
            CppOperator::SubtractionAssignment => "sub_assign",
            CppOperator::MultiplicationAssignment => "mul_assign",
            CppOperator::DivisionAssignment => "div_assign",
            CppOperator::ModuloAssignment => "rem_assign",
            CppOperator::BitwiseAndAssignment => "bit_and_assign",
            CppOperator::BitwiseOrAssignment => "bit_or_assign",
            CppOperator::BitwiseXorAssignment => "bit_xor_assign",
            CppOperator::BitwiseLeftShiftAssignment => "shl_assign",
            CppOperator::BitwiseRightShiftAssignment => "shr_assign",
            CppOperator::Subscript => "index",
            CppOperator::Indirection => "indirection",
            CppOperator::AddressOf => "address_of",
            CppOperator::StructureDereference => "struct_deref",
            CppOperator::PointerToMember => "ptr_to_member",
            CppOperator::FunctionCall => "call",
            CppOperator::Comma => "comma",
            CppOperator::New => "new",
            CppOperator::NewArray => "new_array",
            CppOperator::Delete => "delete",
            CppOperator::DeleteArray => "delete_array",
        }
    }
}

/// The types of a list of arguments.
pub open spec fn argument_types(args: Seq<CppFunctionArgument>) -> Seq<TypeModel> {
    Seq::new(args.len(), |i: int| args[i].argument_type.view())
}

impl CppMethod {
    /// This method is a constructor.
    pub open spec fn spec_is_constructor(&self) -> bool {
        self.class_membership matches Some(m) && m.kind is Constructor
    }

    /// This method is a destructor.
    pub open spec fn spec_is_destructor(&self) -> bool {
        self.class_membership matches Some(m) && m.kind is Destructor
    }

    /// This method is a const member function.
    pub open spec fn spec_is_const(&self) -> bool {
        self.class_membership matches Some(m) && m.is_const
    }

    /// This method is a constructor.
    #[verifier::when_used_as_spec(spec_is_constructor)]
    pub fn is_constructor(&self) -> (r: bool)
        ensures
            r == self.spec_is_constructor(),
    {
        match &self.class_membership {
            Some(m) => m.kind == CppMethodKind::Constructor,
            None => false,
        }
    }

    /// This method is a destructor.
    #[verifier::when_used_as_spec(spec_is_destructor)]
    pub fn is_destructor(&self) -> (r: bool)
        ensures
            r == self.spec_is_destructor(),
    {
        match &self.class_membership {
            Some(m) => m.kind == CppMethodKind::Destructor,
            None => false,
        }
    }

    /// This method is a const member function.
    #[verifier::when_used_as_spec(spec_is_const)]
    pub fn is_const(&self) -> (r: bool)
        ensures
            r == self.spec_is_const(),
    {
        match &self.class_membership {
            Some(m) => m.is_const,
            None => false,
        }
    }
}

} // verus!
