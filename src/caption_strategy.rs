//! Strategies for the captions that tell overloaded boundary functions apart.
use vstd::prelude::*;

verus! {

/// How much of a type goes into its caption.
#[derive(Clone, Copy, Debug, PartialEq, Eq, Structural)]
pub enum TypeCaptionStrategy {
    /// The base type only.
    Short,
    /// The base type with constness and indirection.
    Full,
}

/// What of an argument goes into its caption.
#[derive(Clone, Copy, Debug, PartialEq, Eq, Structural)]
pub enum ArgumentCaptionStrategy {
    NameOnly,
    TypeOnly(TypeCaptionStrategy),
    TypeAndName(TypeCaptionStrategy),
}

/// What of a method goes into its caption.
#[derive(Clone, Copy, Debug, PartialEq, Eq, Structural)]
pub enum MethodCaptionStrategy {
    ArgumentsOnly(ArgumentCaptionStrategy),
    ConstOnly,
    ConstAndArguments(ArgumentCaptionStrategy),
}

/// The strategies in the order in which they are tried: the const marker
/// first, then captions of the arguments, from the shortest to the longest.
pub open spec fn method_strategies() -> Seq<MethodCaptionStrategy> {
    seq![
        MethodCaptionStrategy::ConstOnly,
        MethodCaptionStrategy::ArgumentsOnly(ArgumentCaptionStrategy::TypeOnly(TypeCaptionStrategy::Short)),
        MethodCaptionStrategy::ArgumentsOnly(ArgumentCaptionStrategy::TypeOnly(TypeCaptionStrategy::Full)),
        MethodCaptionStrategy::ConstAndArguments(ArgumentCaptionStrategy::TypeOnly(TypeCaptionStrategy::Full)),
        MethodCaptionStrategy::ArgumentsOnly(ArgumentCaptionStrategy::TypeAndName(TypeCaptionStrategy::Full)),
        MethodCaptionStrategy::ConstAndArguments(ArgumentCaptionStrategy::TypeAndName(TypeCaptionStrategy::Full)),
    ]
}

impl MethodCaptionStrategy {
    /// The strategies in the order in which they are tried.
    pub fn all() -> (r: Vec<MethodCaptionStrategy>)
        ensures
            r@ == method_strategies(),
    {
        let r = vec![
            MethodCaptionStrategy::ConstOnly,
            MethodCaptionStrategy::ArgumentsOnly(ArgumentCaptionStrategy::TypeOnly(TypeCaptionStrategy::Short)),
            MethodCaptionStrategy::ArgumentsOnly(ArgumentCaptionStrategy::TypeOnly(TypeCaptionStrategy::Full)),
            MethodCaptionStrategy::ConstAndArguments(ArgumentCaptionStrategy::TypeOnly(TypeCaptionStrategy::Full)),
            MethodCaptionStrategy::ArgumentsOnly(ArgumentCaptionStrategy::TypeAndName(TypeCaptionStrategy::Full)),
            MethodCaptionStrategy::ConstAndArguments(ArgumentCaptionStrategy::TypeAndName(TypeCaptionStrategy::Full)),
        ];
        proof {
            assert(r@ =~= method_strategies());
        }
        r
    }
}

} // verus!
