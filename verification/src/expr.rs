//! Logical filter expressions of the engine.

use vstd::prelude::*;
use crate::error::{step_models, Step, StepModel};
use crate::operator::Operator;
use crate::scalar::{ScalarModel, ScalarValue};

verus! {

/// A node of a logical filter expression.
///
/// `Other` stands for every construct of the engine that has no place in a
/// pushed down filter (casts, function calls, subqueries, ...); it carries a
/// rendering of the construct for diagnostics.
#[derive(Debug, PartialEq, Eq)]
pub enum Expr {
    /// A reference to a column by name.
    Column(String),
    /// A constant.
    Literal(ScalarValue),
    /// `left op right`.
    BinaryExpr { left: Box<Expr>, op: Operator, right: Box<Expr> },
    /// Logical negation.
    Not(Box<Expr>),
    /// `expr IS NOT NULL`.
    IsNotNull(Box<Expr>),
    /// `expr IS NULL`.
    IsNull(Box<Expr>),
    /// `expr [NOT] BETWEEN low AND high`.
    Between { expr: Box<Expr>, negated: bool, low: Box<Expr>, high: Box<Expr> },
    /// `expr [NOT] IN (list)`.
    InList { expr: Box<Expr>, list: Vec<Expr>, negated: bool },
    /// Any other construct.
    Other(String),
}

/// The mathematical content of an [`Expr`].
pub enum ExprModel {
    Column(Seq<char>),
    Literal(ScalarModel),
    BinaryExpr { left: Box<ExprModel>, op: Operator, right: Box<ExprModel> },
    Not(Box<ExprModel>),
    IsNotNull(Box<ExprModel>),
    IsNull(Box<ExprModel>),
    Between { expr: Box<ExprModel>, negated: bool, low: Box<ExprModel>, high: Box<ExprModel> },
    InList { expr: Box<ExprModel>, list: Seq<ExprModel>, negated: bool },
    Other(Seq<char>),
}

impl Expr {
    /// The mathematical content of the expression.
    pub open spec fn model(self) -> ExprModel
        decreases self,
    {
        match self {
            Expr::Column(name) => ExprModel::Column(name@),
            Expr::Literal(value) => ExprModel::Literal(value@),
            Expr::BinaryExpr { left, op, right } => ExprModel::BinaryExpr {
                left: Box::new((*left).model()),
                op,
                right: Box::new((*right).model()),
            },
            Expr::Not(inner) => ExprModel::Not(Box::new((*inner).model())),
            Expr::IsNotNull(inner) => ExprModel::IsNotNull(Box::new((*inner).model())),
            Expr::IsNull(inner) => ExprModel::IsNull(Box::new((*inner).model())),
            Expr::Between { expr, negated, low, high } => ExprModel::Between {
                expr: Box::new((*expr).model()),
                negated,
                low: Box::new((*low).model()),
                high: Box::new((*high).model()),
            },
            Expr::InList { expr, list, negated } => ExprModel::InList {
                expr: Box::new((*expr).model()),
                list: Seq::new(
                    list@.len(),
                    |i: int|
                        if 0 <= i < list@.len() {
                            list@[i].model()
                        } else {
                            arbitrary()
                        },
                ),
                negated,
            },
            Expr::Other(description) => ExprModel::Other(description@),
        }
    }
}

impl View for Expr {
    type V = ExprModel;

    open spec fn view(&self) -> ExprModel {
        self.model()
    }
}

/// A copy of a list of expressions.
fn clone_members(parent: &Expr, list: &Vec<Expr>) -> (copy: Vec<Expr>)
    requires
        parent matches Expr::InList { list: members, .. } && members == list,
    ensures
        copy.len() == list.len(),
        forall|i: int| 0 <= i < list.len() ==> copy@[i]@ == list@[i]@,
    decreases parent, 0nat,
{
    let mut copy: Vec<Expr> = Vec::new();
    let mut i: usize = 0;
    while i < list.len()
        invariant
            parent matches Expr::InList { list: members, .. } && members == list,
            i <= list.len(),
            copy.len() == i,
            forall|j: int| 0 <= j < i ==> copy@[j]@ == list@[j]@,
        decreases list.len() - i,
    {
        copy.push(list[i].clone());
        i += 1;
    }
    copy
}

impl Clone for Expr {
    fn clone(&self) -> (copy: Self)
        ensures
            copy@ == self@,
        decreases self, 1nat,
    {
        match self {
            Expr::Column(name) => Expr::Column(name.clone()),
            Expr::Literal(value) => Expr::Literal(value.clone()),
            Expr::BinaryExpr { left, op, right } => Expr::BinaryExpr {
                left: Box::new((&**left).clone()),
                op: *op,
                right: Box::new((&**right).clone()),
            },
            Expr::Not(inner) => Expr::Not(Box::new((&**inner).clone())),
            Expr::IsNotNull(inner) => Expr::IsNotNull(Box::new((&**inner).clone())),
            Expr::IsNull(inner) => Expr::IsNull(Box::new((&**inner).clone())),
            Expr::Between { expr, negated, low, high } => Expr::Between {
                expr: Box::new((&**expr).clone()),
                negated: *negated,
                low: Box::new((&**low).clone()),
                high: Box::new((&**high).clone()),
            },
            Expr::InList { expr, list, negated } => {
                let members = clone_members(self, list);
                let copy = Expr::InList {
                    expr: Box::new((&**expr).clone()),
                    list: members,
                    negated: *negated,
                };
                assert(copy@->InList_list =~= self@->InList_list);
                copy
            },
            Expr::Other(description) => Expr::Other(description.clone()),
        }
    }
}

impl ExprModel {
    /// The operand that a step leads to, where the node has such an operand.
    pub open spec fn operand(self, step: StepModel) -> Option<ExprModel> {
        match (self, step) {
            (ExprModel::BinaryExpr { left, .. }, StepModel::Left) => Some(*left),
            (ExprModel::BinaryExpr { right, .. }, StepModel::Right) => Some(*right),
            (ExprModel::Not(inner), StepModel::Inner) => Some(*inner),
            (ExprModel::IsNotNull(inner), StepModel::Inner) => Some(*inner),
            (ExprModel::IsNull(inner), StepModel::Inner) => Some(*inner),
            (ExprModel::Between { expr, .. }, StepModel::Value) => Some(*expr),
            (ExprModel::Between { low, .. }, StepModel::Low) => Some(*low),
            (ExprModel::Between { high, .. }, StepModel::High) => Some(*high),
            (ExprModel::InList { expr, .. }, StepModel::Value) => Some(*expr),
            (ExprModel::InList { list, .. }, StepModel::Member(index)) => if 0 <= index
                < list.len() {
                Some(list[index])
            } else {
                None
            },
            _ => None,
        }
    }

    /// The node that a path leads to, where every step of it can be taken.
    pub open spec fn node_at(self, path: Seq<StepModel>) -> Option<ExprModel>
        decreases path.len(),
    {
        if path.len() == 0 {
            Some(self)
        } else {
            match self.operand(path[0]) {
                Some(operand) => operand.node_at(path.drop_first()),
                None => None,
            }
        }
    }
}

impl Expr {
    /// The operand that a step leads to, where the node has such an operand.
    pub fn operand(&self, step: Step) -> (found: Option<&Expr>)
        ensures
            match found {
                Some(operand) => self@.operand(step@) == Some(operand@),
                None => self@.operand(step@) is None,
            },
    {
        match (self, step) {
            (Expr::BinaryExpr { left, .. }, Step::Left) => Some(&**left),
            (Expr::BinaryExpr { right, .. }, Step::Right) => Some(&**right),
            (Expr::Not(inner), Step::Inner) => Some(&**inner),
            (Expr::IsNotNull(inner), Step::Inner) => Some(&**inner),
            (Expr::IsNull(inner), Step::Inner) => Some(&**inner),
            (Expr::Between { expr, .. }, Step::Value) => Some(&**expr),
            (Expr::Between { low, .. }, Step::Low) => Some(&**low),
            (Expr::Between { high, .. }, Step::High) => Some(&**high),
            (Expr::InList { expr, .. }, Step::Value) => Some(&**expr),
            (Expr::InList { list, .. }, Step::Member(index)) => {
                if index < list.len() {
                    Some(&list[index])
                } else {
                    None
                }
            },
            _ => None,
        }
    }

    /// The node that a path leads to, where every step of it can be taken.
    pub fn node_at(&self, path: &[Step]) -> (found: Option<&Expr>)
        ensures
            match found {
                Some(node) => self@.node_at(step_models(path@)) == Some(node@),
                None => self@.node_at(step_models(path@)) is None,
            },
    {
        let ghost steps = step_models(path@);
        let mut node: &Expr = self;
        let mut i: usize = 0;
        assert(steps.subrange(0, steps.len() as int) =~= steps);
        while i < path.len()
            invariant
                i <= path.len(),
                steps == step_models(path@),
                self@.node_at(steps) == node@.node_at(steps.subrange(i as int, steps.len() as int)),
            decreases path.len() - i,
        {
            let ghost rest = steps.subrange(i as int, steps.len() as int);
            assert(rest[0] == path@[i as int]@);
            assert(rest.drop_first() =~= steps.subrange(i + 1, steps.len() as int));
            match node.operand(path[i]) {
                Some(operand) => {
                    node = operand;
                },
                None => {
                    return None;
                },
            }
            i += 1;
        }
        assert(steps.subrange(i as int, steps.len() as int).len() == 0);
        Some(node)
    }
}

} // verus!
