//! Filter expressions in the algebra of the scan.

use vstd::prelude::*;
use crate::operator::BuilderOp;
use crate::scalar::{ScalarModel, ScalarValue};

verus! {

/// A filter expression as the scan takes it: one node for each builder
/// operation that produced it.
#[derive(Debug, PartialEq, Eq)]
pub enum TargetExpr {
    /// `field(name)`: the value of a column.
    Field(String),
    /// A constant as an expression of its own. It may be of any kind but is
    /// never a null in a translated filter; whether the scan has a value for
    /// its kind is for the materializer of the scan to say.
    Scalar(ScalarValue),
    /// One of the binary builders applied to two expressions.
    Call { op: BuilderOp, left: Box<TargetExpr>, right: Box<TargetExpr> },
    /// `invert(expr)`: logical negation.
    Invert(Box<TargetExpr>),
    /// `expr.is_valid()`: the value is not null.
    IsValid(Box<TargetExpr>),
    /// `expr.is_null(nan_is_null)`: the value is null, or a NaN where the flag asks for it.
    IsNull { expr: Box<TargetExpr>, nan_is_null: bool },
    /// `expr.isin(values)`: the value is one of the listed constants. The
    /// scan takes the members of the list as plain values, not as expressions.
    IsIn { expr: Box<TargetExpr>, values: Vec<ScalarValue> },
}

/// The mathematical content of a [`TargetExpr`].
pub enum TargetModel {
    Field(Seq<char>),
    Scalar(ScalarModel),
    Call { op: BuilderOp, left: Box<TargetModel>, right: Box<TargetModel> },
    Invert(Box<TargetModel>),
    IsValid(Box<TargetModel>),
    IsNull { expr: Box<TargetModel>, nan_is_null: bool },
    IsIn { expr: Box<TargetModel>, values: Seq<ScalarModel> },
}

/// The contents of a list of constants.
pub open spec fn scalar_models(values: Seq<ScalarValue>) -> Seq<ScalarModel> {
    values.map_values(|value: ScalarValue| value@)
}

impl TargetExpr {
    /// The mathematical content of the expression.
    pub open spec fn model(self) -> TargetModel
        decreases self,
    {
        match self {
            TargetExpr::Field(name) => TargetModel::Field(name@),
            TargetExpr::Scalar(value) => TargetModel::Scalar(value@),
            TargetExpr::Call { op, left, right } => TargetModel::Call {
                op,
                left: Box::new((*left).model()),
                right: Box::new((*right).model()),
            },
            TargetExpr::Invert(inner) => TargetModel::Invert(Box::new((*inner).model())),
            TargetExpr::IsValid(inner) => TargetModel::IsValid(Box::new((*inner).model())),
            TargetExpr::IsNull { expr, nan_is_null } => TargetModel::IsNull {
                expr: Box::new((*expr).model()),
                nan_is_null,
            },
            TargetExpr::IsIn { expr, values } => TargetModel::IsIn {
                expr: Box::new((*expr).model()),
                values: scalar_models(values@),
            },
        }
    }
}

impl View for TargetExpr {
    type V = TargetModel;

    open spec fn view(&self) -> TargetModel {
        self.model()
    }
}

/// A copy of a list of constants.
fn clone_scalars(values: &Vec<ScalarValue>) -> (copy: Vec<ScalarValue>)
    ensures
        scalar_models(copy@) == scalar_models(values@),
{
    let mut copy: Vec<ScalarValue> = Vec::new();
    let mut i: usize = 0;
    while i < values.len()
        invariant
            i <= values.len(),
            copy.len() == i,
            forall|j: int| 0 <= j < i ==> copy@[j]@ == values@[j]@,
        decreases values.len() - i,
    {
        copy.push(values[i].clone());
        i += 1;
    }
    assert(scalar_models(copy@) =~= scalar_models(values@));
    copy
}

impl Clone for TargetExpr {
    fn clone(&self) -> (copy: Self)
        ensures
            copy@ == self@,
        decreases self,
    {
        match self {
            TargetExpr::Field(name) => TargetExpr::Field(name.clone()),
            TargetExpr::Scalar(value) => TargetExpr::Scalar(value.clone()),
            TargetExpr::Call { op, left, right } => TargetExpr::Call {
                op: *op,
                left: Box::new((&**left).clone()),
                right: Box::new((&**right).clone()),
            },
            TargetExpr::Invert(inner) => TargetExpr::Invert(Box::new((&**inner).clone())),
            TargetExpr::IsValid(inner) => TargetExpr::IsValid(Box::new((&**inner).clone())),
            TargetExpr::IsNull { expr, nan_is_null } => TargetExpr::IsNull {
                expr: Box::new((&**expr).clone()),
                nan_is_null: *nan_is_null,
            },
            TargetExpr::IsIn { expr, values } => TargetExpr::IsIn {
                expr: Box::new((&**expr).clone()),
                values: clone_scalars(values),
            },
        }
    }
}

} // verus!
