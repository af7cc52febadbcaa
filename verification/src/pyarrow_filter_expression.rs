//! The translation of a logical filter expression into the algebra of the scan.

use vstd::prelude::*;
use crate::error::{ErrorKind, ErrorModel, KindModel, Step, StepModel, TranslationError};
use crate::expr::{Expr, ExprModel};
use crate::operator::{BuilderOp, Operator};
use crate::scalar::{ScalarModel, ScalarValue};
use crate::target::{scalar_models, TargetExpr, TargetModel};

verus! {

/// The builder that an operator maps to, or the refusal of the operator.
pub open spec fn operator_builder(op: Operator) -> Result<BuilderOp, ErrorModel> {
    match op.builder() {
        Some(builder) => Ok(builder),
        None => Err(ErrorModel::here(KindModel::UnsupportedOperator(op))),
    }
}

/// What the member at position `index` of an `IN` list contributes: its
/// constant, where it is a constant that the scan takes as a plain value,
/// and its refusal otherwise.
pub open spec fn list_member(member: ExprModel, index: int) -> Result<ScalarModel, ErrorModel> {
    match member {
        ExprModel::Literal(value) => if value.is_host_value() {
            Ok(value)
        } else {
            Err(ErrorModel::here(KindModel::UnsupportedScalar(value)).under(StepModel::Member(index)))
        },
        _ => Err(ErrorModel::here(KindModel::NonLiteralListElement).under(StepModel::Member(index))),
    }
}

/// Whether `index` is the position of the first member of `list` that is refused.
pub open spec fn is_first_refused(list: Seq<ExprModel>, index: int) -> bool {
    &&& 0 <= index < list.len()
    &&& list_member(list[index], index) is Err
    &&& forall|j: int| 0 <= j < index ==> list_member(#[trigger] list[j], j) is Ok
}

/// The constants of an `IN` list. The list is taken as a whole: it yields
/// its constants, in order, when every member is a constant that the scan
/// takes as a plain value, and the refusal of its first other member when
/// there is one.
pub open spec fn scalar_list(list: Seq<ExprModel>) -> Result<Seq<ScalarModel>, ErrorModel> {
    if exists|index: int| is_first_refused(list, index) {
        let index = choose|index: int| is_first_refused(list, index);
        Err(list_member(list[index], index)->Err_0)
    } else {
        Ok(Seq::new(list.len(), |i: int| list_member(list[i], i)->Ok_0))
    }
}

/// `invert(filter)` where `negated` asks for it, and `filter` itself otherwise.
pub open spec fn negate_if(negated: bool, filter: TargetModel) -> TargetModel {
    if negated {
        TargetModel::Invert(Box::new(filter))
    } else {
        filter
    }
}

/// `low <= value and value <= high`, in the builders of the scan.
pub open spec fn between_bounds(value: TargetModel, low: TargetModel, high: TargetModel)
    -> TargetModel {
    TargetModel::Call {
        op: BuilderOp::And,
        left: Box::new(
            TargetModel::Call { op: BuilderOp::Le, left: Box::new(low), right: Box::new(value) },
        ),
        right: Box::new(
            TargetModel::Call { op: BuilderOp::Le, left: Box::new(value), right: Box::new(high) },
        ),
    }
}

/// The translation of a filter expression, node by node.
///
/// A constant that stands alone becomes a constant of the scan, whatever its
/// kind, unless it is a null; only the members of a list have to be plain
/// values. The operator of a binary expression is looked at first, then the
/// operands in the order in which they are written; the first refusal is
/// the outcome of the whole, with the path that leads to it.
pub open spec fn translate(expr: ExprModel) -> Result<TargetModel, ErrorModel>
    decreases expr,
{
    match expr {
        ExprModel::Column(name) => Ok(TargetModel::Field(name)),
        ExprModel::Literal(value) => if value.is_null() {
            Err(ErrorModel::here(KindModel::UnsupportedScalar(value)))
        } else {
            Ok(TargetModel::Scalar(value))
        },
        ExprModel::BinaryExpr { left, op, right } => match operator_builder(op) {
            Err(refusal) => Err(refusal),
            Ok(builder) => match translate(*left) {
                Err(refusal) => Err(refusal.under(StepModel::Left)),
                Ok(l) => match translate(*right) {
                    Err(refusal) => Err(refusal.under(StepModel::Right)),
                    Ok(r) => Ok(
                        TargetModel::Call { op: builder, left: Box::new(l), right: Box::new(r) },
                    ),
                },
            },
        },
        ExprModel::Not(inner) => match translate(*inner) {
            Err(refusal) => Err(refusal.under(StepModel::Inner)),
            Ok(t) => Ok(TargetModel::Invert(Box::new(t))),
        },
        ExprModel::IsNotNull(inner) => match translate(*inner) {
            Err(refusal) => Err(refusal.under(StepModel::Inner)),
            Ok(t) => Ok(TargetModel::IsValid(Box::new(t))),
        },
        ExprModel::IsNull(inner) => match translate(*inner) {
            Err(refusal) => Err(refusal.under(StepModel::Inner)),
            Ok(t) => Ok(TargetModel::IsNull { expr: Box::new(t), nan_is_null: false }),
        },
        ExprModel::Between { expr, negated, low, high } => match translate(*expr) {
            Err(refusal) => Err(refusal.under(StepModel::Value)),
            Ok(value) => match translate(*low) {
                Err(refusal) => Err(refusal.under(StepModel::Low)),
                Ok(l) => match translate(*high) {
                    Err(refusal) => Err(refusal.under(StepModel::High)),
                    Ok(h) => Ok(negate_if(negated, between_bounds(value, l, h))),
                },
            },
        },
        ExprModel::InList { expr, list, negated } => match translate(*expr) {
            Err(refusal) => Err(refusal.under(StepModel::Value)),
            Ok(value) => match scalar_list(list) {
                Err(refusal) => Err(refusal),
                Ok(values) => Ok(
                    negate_if(negated, TargetModel::IsIn { expr: Box::new(value), values }),
                ),
            },
        },
        ExprModel::Other(text) => Err(ErrorModel::here(KindModel::UnsupportedExpression(text))),
    }
}

/// The builder of the scan that stands for a binary operator of the engine.
///
/// The eight comparison and logical operators have one; every other
/// operator is refused.
pub fn operator_to_py(operator: &Operator) -> (outcome: Result<BuilderOp, TranslationError>)
    ensures
        match outcome {
            Ok(builder) => operator_builder(*operator) == Ok::<BuilderOp, ErrorModel>(builder),
            Err(refusal) => operator_builder(*operator) == Err::<BuilderOp, ErrorModel>(refusal@),
        },
{
    match operator {
        Operator::Eq => Ok(BuilderOp::Eq),
        Operator::NotEq => Ok(BuilderOp::Ne),
        Operator::Lt => Ok(BuilderOp::Lt),
        Operator::LtEq => Ok(BuilderOp::Le),
        Operator::Gt => Ok(BuilderOp::Gt),
        Operator::GtEq => Ok(BuilderOp::Ge),
        Operator::And => Ok(BuilderOp::And),
        Operator::Or => Ok(BuilderOp::Or),
        _ => Err(TranslationError::here(ErrorKind::UnsupportedOperator(*operator))),
    }
}

/// The contents of a list of expressions.
pub open spec fn expr_models(exprs: Seq<Expr>) -> Seq<ExprModel> {
    exprs.map_values(|expr: Expr| expr@)
}

/// The constants of an `IN` list, in the order of the list.
///
/// Every member has to be a constant that the scan takes as a plain value.
/// Where one is not, the list as a whole is refused with the refusal of its
/// first such member, and none of the constants before it is returned.
pub fn extract_scalar_list(exprs: &[Expr]) -> (outcome: Result<Vec<ScalarValue>, TranslationError>)
    ensures
        match outcome {
            Ok(values) => scalar_list(expr_models(exprs@)) == Ok::<
                Seq<ScalarModel>,
                ErrorModel,
            >(scalar_models(values@)),
            Err(refusal) => scalar_list(expr_models(exprs@)) == Err::<
                Seq<ScalarModel>,
                ErrorModel,
            >(refusal@),
        },
{
    let ghost list = expr_models(exprs@);
    let mut values: Vec<ScalarValue> = Vec::new();
    let mut i: usize = 0;
    while i < exprs.len()
        invariant
            i <= exprs.len(),
            list == expr_models(exprs@),
            values.len() == i,
            forall|j: int| 0 <= j < i ==> list_member(#[trigger] list[j], j) == Ok::<
                ScalarModel,
                ErrorModel,
            >(values@[j]@),
        decreases exprs.len() - i,
    {
        assert(list[i as int] == exprs@[i as int]@);
        match &exprs[i] {
            Expr::Literal(value) => {
                if !value.is_host_value() {
                    proof {
                        lemma_refused_at(list, i as int);
                    }
                    let unsupported = ErrorKind::UnsupportedScalar(value.clone());
                    return Err(TranslationError::here(unsupported).under(Step::Member(i)));
                }
                values.push(value.clone());
            },
            _ => {
                proof {
                    lemma_refused_at(list, i as int);
                }
                let not_a_constant = ErrorKind::NonLiteralListElement;
                return Err(TranslationError::here(not_a_constant).under(Step::Member(i)));
            },
        }
        i += 1;
    }
    proof {
        lemma_none_refused(list);
        assert(scalar_models(values@) =~= scalar_list(list)->Ok_0);
    }
    Ok(values)
}

/// The first refused member decides the outcome of the list.
proof fn lemma_refused_at(list: Seq<ExprModel>, index: int)
    requires
        is_first_refused(list, index),
    ensures
        scalar_list(list) == Err::<Seq<ScalarModel>, ErrorModel>(
            list_member(list[index], index)->Err_0,
        ),
{
    let first = choose|first: int| is_first_refused(list, first);
    assert(first == index);
}

/// A list without a refused member yields the constants of its members.
proof fn lemma_none_refused(list: Seq<ExprModel>)
    requires
        forall|j: int| 0 <= j < list.len() ==> list_member(#[trigger] list[j], j) is Ok,
    ensures
        scalar_list(list) is Ok,
        scalar_list(list)->Ok_0.len() == list.len(),
        forall|j: int|
            0 <= j < list.len() ==> list_member(list[j], j) == Ok::<ScalarModel, ErrorModel>(
                #[trigger] scalar_list(list)->Ok_0[j],
            ),
{
    assert forall|index: int| !is_first_refused(list, index) by {}
}

/// A filter that the scan can take: the outcome of a successful translation.
#[derive(Debug, PartialEq, Eq)]
pub struct PyArrowFilterExpression(TargetExpr);

impl View for PyArrowFilterExpression {
    type V = TargetModel;

    closed spec fn view(&self) -> TargetModel {
        self.0@
    }
}

impl Clone for PyArrowFilterExpression {
    fn clone(&self) -> (copy: Self)
        ensures
            copy@ == self@,
    {
        PyArrowFilterExpression(self.0.clone())
    }
}

/// `invert(filter)` where `negated` asks for it, and `filter` itself otherwise.
fn negated_if(negated: bool, filter: TargetExpr) -> (outcome: TargetExpr)
    ensures
        outcome@ == negate_if(negated, filter@),
{
    if negated {
        TargetExpr::Invert(Box::new(filter))
    } else {
        filter
    }
}

/// `low <= value and value <= high`. The scan has no builder for a range:
/// two inclusive comparisons, joined, stand for it.
fn within_bounds(value: TargetExpr, low: TargetExpr, high: TargetExpr) -> (outcome: TargetExpr)
    ensures
        outcome@ == between_bounds(value@, low@, high@),
{
    let above = TargetExpr::Call {
        op: BuilderOp::Le,
        left: Box::new(low),
        right: Box::new(value.clone()),
    };
    let below = TargetExpr::Call { op: BuilderOp::Le, left: Box::new(value), right: Box::new(high) };
    assert(above@ == TargetModel::Call {
        op: BuilderOp::Le,
        left: Box::new(low@),
        right: Box::new(value@),
    });
    assert(below@ == TargetModel::Call {
        op: BuilderOp::Le,
        left: Box::new(value@),
        right: Box::new(high@),
    });
    TargetExpr::Call { op: BuilderOp::And, left: Box::new(above), right: Box::new(below) }
}

impl PyArrowFilterExpression {
    /// The expression to hand to the scan.
    pub fn inner(&self) -> (expr: &TargetExpr)
        ensures
            expr@ == self@,
    {
        &self.0
    }

    /// Translates a logical filter expression of the engine into the algebra
    /// of the scan.
    ///
    /// The outcome is a function of the expression alone. An expression is
    /// translated as a whole or not at all: the first construct that the scan
    /// cannot express, in the order of [`translate`], is the error returned,
    /// with the path that leads to it.
    pub fn try_from(expr: &Expr) -> (outcome: Result<PyArrowFilterExpression, TranslationError>)
        ensures
            match outcome {
                Ok(filter) => translate(expr@) == Ok::<TargetModel, ErrorModel>(filter@),
                Err(refusal) => translate(expr@) == Err::<TargetModel, ErrorModel>(refusal@),
            },
        decreases expr,
    {
        let filter = match expr {
            Expr::Column(name) => TargetExpr::Field(name.clone()),
            Expr::Literal(value) => {
                if value.is_null() {
                    let unsupported = ErrorKind::UnsupportedScalar(value.clone());
                    return Err(TranslationError::here(unsupported));
                }
                TargetExpr::Scalar(value.clone())
            },
            Expr::BinaryExpr { left, op, right } => {
                let builder = match operator_to_py(op) {
                    Ok(builder) => builder,
                    Err(refusal) => {
                        return Err(refusal);
                    },
                };
                let left = match PyArrowFilterExpression::try_from(&**left) {
                    Ok(filter) => filter.0,
                    Err(refusal) => {
                        return Err(refusal.under(Step::Left));
                    },
                };
                let right = match PyArrowFilterExpression::try_from(&**right) {
                    Ok(filter) => filter.0,
                    Err(refusal) => {
                        return Err(refusal.under(Step::Right));
                    },
                };
                TargetExpr::Call { op: builder, left: Box::new(left), right: Box::new(right) }
            },
            Expr::Not(inner) => {
                let inner = match PyArrowFilterExpression::try_from(&**inner) {
                    Ok(filter) => filter.0,
                    Err(refusal) => {
                        return Err(refusal.under(Step::Inner));
                    },
                };
                TargetExpr::Invert(Box::new(inner))
            },
            Expr::IsNotNull(inner) => {
                let inner = match PyArrowFilterExpression::try_from(&**inner) {
                    Ok(filter) => filter.0,
                    Err(refusal) => {
                        return Err(refusal.under(Step::Inner));
                    },
                };
                TargetExpr::IsValid(Box::new(inner))
            },
            Expr::IsNull(inner) => {
                let inner = match PyArrowFilterExpression::try_from(&**inner) {
                    Ok(filter) => filter.0,
                    Err(refusal) => {
                        return Err(refusal.under(Step::Inner));
                    },
                };
                // A NaN is a value, never a null.
                let nan_is_null = false;
                TargetExpr::IsNull { expr: Box::new(inner), nan_is_null }
            },
            Expr::Between { expr: value, negated, low, high } => {
                let value = match PyArrowFilterExpression::try_from(&**value) {
                    Ok(filter) => filter.0,
                    Err(refusal) => {
                        return Err(refusal.under(Step::Value));
                    },
                };
                let low = match PyArrowFilterExpression::try_from(&**low) {
                    Ok(filter) => filter.0,
                    Err(refusal) => {
                        return Err(refusal.under(Step::Low));
                    },
                };
                let high = match PyArrowFilterExpression::try_from(&**high) {
                    Ok(filter) => filter.0,
                    Err(refusal) => {
                        return Err(refusal.under(Step::High));
                    },
                };
                negated_if(*negated, within_bounds(value, low, high))
            },
            Expr::InList { expr: value, list, negated } => {
                let value = match PyArrowFilterExpression::try_from(&**value) {
                    Ok(filter) => filter.0,
                    Err(refusal) => {
                        return Err(refusal.under(Step::Value));
                    },
                };
                assert(expr@->InList_list =~= expr_models(list@));
                let values = match extract_scalar_list(list.as_slice()) {
                    Ok(values) => values,
                    Err(refusal) => {
                        return Err(refusal);
                    },
                };
                let member = TargetExpr::IsIn { expr: Box::new(value), values };
                negated_if(*negated, member)
            },
            Expr::Other(text) => {
                return Err(TranslationError::here(ErrorKind::UnsupportedExpression(text.clone())));
            },
        };
        Ok(PyArrowFilterExpression(filter))
    }
}

} // verus!
