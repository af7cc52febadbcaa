//! Binary operators of the engine and the builder symbols they map to.

use vstd::prelude::*;

verus! {

/// A binary operator as it appears in a logical expression of the engine.
#[derive(Clone, Copy, Debug, PartialEq, Eq, Structural)]
pub enum Operator {
    Eq,
    NotEq,
    Lt,
    LtEq,
    Gt,
    GtEq,
    Plus,
    Minus,
    Multiply,
    Divide,
    Modulo,
    And,
    Or,
    IsDistinctFrom,
    IsNotDistinctFrom,
    RegexMatch,
    RegexIMatch,
    RegexNotMatch,
    RegexNotIMatch,
    LikeMatch,
    ILikeMatch,
    NotLikeMatch,
    NotILikeMatch,
    BitwiseAnd,
    BitwiseOr,
    BitwiseXor,
    BitwiseShiftRight,
    BitwiseShiftLeft,
    StringConcat,
    AtArrow,
    ArrowAt,
    Arrow,
    LongArrow,
    HashArrow,
    HashLongArrow,
    AtAt,
    IntegerDivide,
    HashMinus,
    AtQuestion,
    Question,
    QuestionAnd,
    QuestionPipe,
}

/// A binary builder of the scan's expression algebra.
#[derive(Clone, Copy, Debug, PartialEq, Eq, Structural)]
pub enum BuilderOp {
    Eq,
    Ne,
    Lt,
    Le,
    Gt,
    Ge,
    And,
    Or,
}

impl Operator {
    /// The builder that stands for this operator on the scan's side, if there is one.
    pub open spec fn builder(self) -> Option<BuilderOp> {
        match self {
            Operator::Eq => Some(BuilderOp::Eq),
            Operator::NotEq => Some(BuilderOp::Ne),
            Operator::Lt => Some(BuilderOp::Lt),
            Operator::LtEq => Some(BuilderOp::Le),
            Operator::Gt => Some(BuilderOp::Gt),
            Operator::GtEq => Some(BuilderOp::Ge),
            Operator::And => Some(BuilderOp::And),
            Operator::Or => Some(BuilderOp::Or),
            _ => None,
        }
    }

    /// Whether the operator can be pushed down at all.
    pub open spec fn is_supported(self) -> bool {
        self.builder() is Some
    }
}

impl BuilderOp {
    /// The name under which the scan's builder module offers this operation.
    pub open spec fn symbol_text(self) -> Seq<char> {
        match self {
            BuilderOp::Eq => "eq"@,
            BuilderOp::Ne => "ne"@,
            BuilderOp::Lt => "lt"@,
            BuilderOp::Le => "le"@,
            BuilderOp::Gt => "gt"@,
            BuilderOp::Ge => "ge"@,
            BuilderOp::And => "and_"@,
            BuilderOp::Or => "or_"@,
        }
    }

    /// The name under which the scan's builder module offers this operation.
    pub fn symbol(&self) -> (name: &'static str)
        ensures
            name@ == self.symbol_text(),
    {
        match self {
            BuilderOp::Eq => "eq",
            BuilderOp::Ne => "ne",
            BuilderOp::Lt => "lt",
            BuilderOp::Le => "le",
            BuilderOp::Gt => "gt",
            BuilderOp::Ge => "ge",
            BuilderOp::And => "and_",
            BuilderOp::Or => "or_",
        }
    }
}

} // verus!
