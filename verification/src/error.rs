//! Why a filter could not be pushed down, and where in the filter.

use vstd::prelude::*;
use crate::operator::Operator;
use crate::scalar::{ScalarModel, ScalarValue};

verus! {

/// One step down an expression: from a node to one of its operands.
#[derive(Clone, Copy, Debug, PartialEq, Eq, Structural)]
pub enum Step {
    /// The left operand of a binary expression.
    Left,
    /// The right operand of a binary expression.
    Right,
    /// The operand of a negation or of a null test.
    Inner,
    /// The tested expression of a range test or of a list test.
    Value,
    /// The lower bound of a range test.
    Low,
    /// The upper bound of a range test.
    High,
    /// The member of a list at this position.
    Member(usize),
}

/// The mathematical content of a [`Step`].
pub enum StepModel {
    Left,
    Right,
    Inner,
    Value,
    Low,
    High,
    Member(int),
}

impl View for Step {
    type V = StepModel;

    open spec fn view(&self) -> StepModel {
        match self {
            Step::Left => StepModel::Left,
            Step::Right => StepModel::Right,
            Step::Inner => StepModel::Inner,
            Step::Value => StepModel::Value,
            Step::Low => StepModel::Low,
            Step::High => StepModel::High,
            Step::Member(index) => StepModel::Member(*index as int),
        }
    }
}

/// The contents of a path.
pub open spec fn step_models(path: Seq<Step>) -> Seq<StepModel> {
    path.map_values(|step: Step| step@)
}

/// What the scan cannot express.
#[derive(Debug, PartialEq, Eq)]
pub enum ErrorKind {
    /// A binary operator that the scan has no builder for.
    UnsupportedOperator(Operator),
    /// A construct of the engine that the scan cannot express; the text is
    /// the rendering that the construct came with.
    UnsupportedExpression(String),
    /// A constant that the scan cannot take where it stands: a null, or a
    /// member of a list that is no plain value of the host language.
    UnsupportedScalar(ScalarValue),
    /// A member of an `IN` list that is not a constant.
    NonLiteralListElement,
}

/// The construct on which a translation stopped.
///
/// A failure anywhere in an expression fails the translation of the whole
/// expression; nothing is returned for the parts that could be translated.
/// `path` leads to the construct: its steps, taken in order and starting at
/// the expression that was to be translated, end at the node that was
/// refused.
#[derive(Debug, PartialEq, Eq)]
pub struct TranslationError {
    pub kind: ErrorKind,
    pub path: Vec<Step>,
}

/// The mathematical content of an [`ErrorKind`].
pub enum KindModel {
    UnsupportedOperator(Operator),
    UnsupportedExpression(Seq<char>),
    UnsupportedScalar(ScalarModel),
    NonLiteralListElement,
}

/// The mathematical content of a [`TranslationError`].
pub struct ErrorModel {
    pub kind: KindModel,
    pub path: Seq<StepModel>,
}

impl ErrorModel {
    /// The refusal of the expression at hand.
    pub open spec fn here(kind: KindModel) -> ErrorModel {
        ErrorModel { kind, path: Seq::empty() }
    }

    /// The same refusal, seen from one node further up: `step` leads from
    /// that node to the one that the path started at.
    pub open spec fn under(self, step: StepModel) -> ErrorModel {
        ErrorModel { kind: self.kind, path: seq![step] + self.path }
    }
}

impl View for ErrorKind {
    type V = KindModel;

    open spec fn view(&self) -> KindModel {
        match self {
            ErrorKind::UnsupportedOperator(op) => KindModel::UnsupportedOperator(*op),
            ErrorKind::UnsupportedExpression(text) => KindModel::UnsupportedExpression(text@),
            ErrorKind::UnsupportedScalar(value) => KindModel::UnsupportedScalar(value@),
            ErrorKind::NonLiteralListElement => KindModel::NonLiteralListElement,
        }
    }
}

impl View for TranslationError {
    type V = ErrorModel;

    open spec fn view(&self) -> ErrorModel {
        ErrorModel { kind: self.kind@, path: step_models(self.path@) }
    }
}

impl Clone for ErrorKind {
    fn clone(&self) -> (copy: Self)
        ensures
            copy@ == self@,
    {
        match self {
            ErrorKind::UnsupportedOperator(op) => ErrorKind::UnsupportedOperator(*op),
            ErrorKind::UnsupportedExpression(text) => ErrorKind::UnsupportedExpression(
                text.clone(),
            ),
            ErrorKind::UnsupportedScalar(value) => ErrorKind::UnsupportedScalar(value.clone()),
            ErrorKind::NonLiteralListElement => ErrorKind::NonLiteralListElement,
        }
    }
}

impl Clone for TranslationError {
    fn clone(&self) -> (copy: Self)
        ensures
            copy@ == self@,
    {
        let mut path: Vec<Step> = Vec::new();
        let mut i: usize = 0;
        while i < self.path.len()
            invariant
                i <= self.path.len(),
                path@ == self.path@.subrange(0, i as int),
            decreases self.path.len() - i,
        {
            path.push(self.path[i]);
            assert(path@ =~= self.path@.subrange(0, i + 1));
            i += 1;
        }
        assert(path@ =~= self.path@);
        TranslationError { kind: self.kind.clone(), path }
    }
}

impl TranslationError {
    /// The refusal of the expression at hand.
    pub fn here(kind: ErrorKind) -> (refusal: Self)
        ensures
            refusal@ == ErrorModel::here(kind@),
    {
        let refusal = TranslationError { kind, path: Vec::new() };
        assert(step_models(refusal.path@) =~= Seq::empty());
        refusal
    }

    /// The same refusal, seen from one node further up.
    pub fn under(self, step: Step) -> (refusal: Self)
        ensures
            refusal@ == self@.under(step@),
    {
        let mut path = self.path;
        path.insert(0, step);
        assert(step_models(path@) =~= seq![step@] + step_models(self.path@));
        TranslationError { kind: self.kind, path }
    }
}

} // verus!
