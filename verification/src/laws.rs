//! What holds of every translation.

use vstd::prelude::*;
use crate::error::{ErrorModel, KindModel, StepModel};
use crate::expr::{Expr, ExprModel};
use crate::operator::Operator;
use crate::pyarrow_filter_expression::{
    between_bounds,
    is_first_refused,
    list_member,
    negate_if,
    operator_builder,
    scalar_list,
    translate,
};
use crate::scalar::ScalarModel;
use crate::semantics::{
    accepts,
    and3,
    any_equal,
    apply_builder,
    apply_operator,
    constant,
    constants,
    eq3,
    eval_expr,
    eval_list,
    eval_target,
    le3,
    not3,
    Domain,
    Row,
    Value,
};
use crate::target::TargetModel;

verus! {

/// Whether every member of an `IN` list is a constant that the scan takes
/// as a plain value.
pub open spec fn all_members_accepted(list: Seq<ExprModel>) -> bool {
    forall|i: int| 0 <= i < list.len() ==> list_member(#[trigger] list[i], i) is Ok
}

/// A list with a refused member has a first refused member.
proof fn lemma_first_refused_exists(list: Seq<ExprModel>, index: int)
    requires
        0 <= index < list.len(),
        list_member(list[index], index) is Err,
    ensures
        exists|first: int| is_first_refused(list, first),
    decreases index,
{
    if forall|j: int| 0 <= j < index ==> list_member(#[trigger] list[j], j) is Ok {
        assert(is_first_refused(list, index));
    } else {
        let j = choose|j: int| 0 <= j < index && !(list_member(#[trigger] list[j], j) is Ok);
        lemma_first_refused_exists(list, j);
    }
}

/// An `IN` list is taken as a whole: it yields constants exactly when every
/// member is a constant that the scan takes as a plain value, one constant
/// for each member and in the order of the list. A single member that is not makes the list
/// fail, and with it the translation of the list test, whatever stands
/// before that member.
pub proof fn law_list_is_atomic(list: Seq<ExprModel>)
    ensures
        scalar_list(list) is Ok <==> all_members_accepted(list),
        scalar_list(list) matches Ok(values) ==> {
            &&& values.len() == list.len()
            &&& forall|i: int|
                0 <= i < list.len() ==> #[trigger] list[i] == ExprModel::Literal(values[i])
        },
        scalar_list(list) matches Err(refusal) ==> exists|first: int|
            is_first_refused(list, first) && list_member(list[first], first) == Err::<
                ScalarModel,
                ErrorModel,
            >(refusal),
        forall|expr: ExprModel, negated: bool|
            !all_members_accepted(list) ==> #[trigger] translate(
                ExprModel::InList { expr: Box::new(expr), list, negated },
            ) is Err,
{
    if !all_members_accepted(list) {
        let i = choose|i: int| 0 <= i < list.len() && !(list_member(#[trigger] list[i], i) is Ok);
        lemma_first_refused_exists(list, i);
    }
    if exists|first: int| is_first_refused(list, first) {
        let first = choose|first: int| is_first_refused(list, first);
        assert(is_first_refused(list, first));
    }
}

/// Whether every construct of an expression is one that the scan can
/// express: columns, constants that are not null, the eight comparison and
/// logical operators, negation, the two null tests, range tests, and list
/// tests whose members are constants that the scan takes as plain values.
pub open spec fn is_translatable(expr: ExprModel) -> bool
    decreases expr,
{
    match expr {
        ExprModel::Column(_) => true,
        ExprModel::Literal(value) => !value.is_null(),
        ExprModel::BinaryExpr { left, op, right } => {
            &&& op.is_supported()
            &&& is_translatable(*left)
            &&& is_translatable(*right)
        },
        ExprModel::Not(inner) => is_translatable(*inner),
        ExprModel::IsNotNull(inner) => is_translatable(*inner),
        ExprModel::IsNull(inner) => is_translatable(*inner),
        ExprModel::Between { expr, negated, low, high } => {
            &&& is_translatable(*expr)
            &&& is_translatable(*low)
            &&& is_translatable(*high)
        },
        ExprModel::InList { expr, list, negated } => {
            &&& is_translatable(*expr)
            &&& forall|i: int|
                0 <= i < list.len() ==> (#[trigger] list[i]) is Literal
                    && list[i]->Literal_0.is_host_value()
        },
        ExprModel::Other(_) => false,
    }
}

/// A translation succeeds exactly when every construct of the expression is
/// one that the scan can express. A constant that stands alone is refused
/// when it is a null and for no other reason, whatever its kind.
pub proof fn law_translates_exactly_when_supported(expr: ExprModel)
    ensures
        translate(expr) is Ok <==> is_translatable(expr),
        forall|value: ScalarModel|
            #![trigger translate(ExprModel::Literal(value))]
            translate(ExprModel::Literal(value)) == if value.is_null() {
                Err::<TargetModel, ErrorModel>(
                    ErrorModel::here(KindModel::UnsupportedScalar(value)),
                )
            } else {
                Ok::<TargetModel, ErrorModel>(TargetModel::Scalar(value))
            },
    decreases expr,
{
    match expr {
        ExprModel::Column(_) => {},
        ExprModel::Literal(_) => {},
        ExprModel::BinaryExpr { left, op, right } => {
            law_translates_exactly_when_supported(*left);
            law_translates_exactly_when_supported(*right);
        },
        ExprModel::Not(inner) => {
            law_translates_exactly_when_supported(*inner);
        },
        ExprModel::IsNotNull(inner) => {
            law_translates_exactly_when_supported(*inner);
        },
        ExprModel::IsNull(inner) => {
            law_translates_exactly_when_supported(*inner);
        },
        ExprModel::Between { expr: inner, negated, low, high } => {
            law_translates_exactly_when_supported(*inner);
            law_translates_exactly_when_supported(*low);
            law_translates_exactly_when_supported(*high);
        },
        ExprModel::InList { expr: inner, list, negated } => {
            law_translates_exactly_when_supported(*inner);
            law_list_is_atomic(list);
            if all_members_accepted(list) {
                assert forall|i: int| 0 <= i < list.len() implies (#[trigger] list[i]) is Literal
                    && list[i]->Literal_0.is_host_value() by {
                    assert(list_member(list[i], i) is Ok);
                }
            }
        },
        ExprModel::Other(_) => {},
    }
}

/// Whether a node is a construct that a refusal of this kind speaks of.
pub open spec fn explains(kind: KindModel, node: ExprModel) -> bool {
    match kind {
        KindModel::UnsupportedOperator(op) => {
            &&& node is BinaryExpr
            &&& node->BinaryExpr_op == op
            &&& !op.is_supported()
        },
        KindModel::UnsupportedExpression(text) => node == ExprModel::Other(text),
        KindModel::UnsupportedScalar(value) => node == ExprModel::Literal(value),
        KindModel::NonLiteralListElement => !(node is Literal),
    }
}

/// A step further up leads to the same node.
proof fn lemma_node_under(expr: ExprModel, step: StepModel, operand: ExprModel, refusal: ErrorModel)
    requires
        expr.operand(step) == Some(operand),
    ensures
        expr.node_at(refusal.under(step).path) == operand.node_at(refusal.path),
{
    assert(refusal.under(step).path.drop_first() =~= refusal.path);
}

/// The path of a refusal leads to the construct that was refused: every
/// step of it can be taken, and the node at its end is the operator, the
/// construct, the constant or the member of a list that the refusal names.
pub proof fn law_path_leads_to_the_construct(expr: ExprModel)
    ensures
        translate(expr) matches Err(refusal) ==> {
            &&& expr.node_at(refusal.path) is Some
            &&& explains(refusal.kind, expr.node_at(refusal.path)->Some_0)
        },
    decreases expr,
{
    match expr {
        ExprModel::Column(_) => {},
        ExprModel::Literal(_) => {},
        ExprModel::BinaryExpr { left, op, right } => {
            if operator_builder(op) is Ok {
                law_path_leads_to_the_construct(*left);
                law_path_leads_to_the_construct(*right);
                if translate(*left) is Err {
                    lemma_node_under(expr, StepModel::Left, *left, translate(*left)->Err_0);
                } else if translate(*right) is Err {
                    lemma_node_under(expr, StepModel::Right, *right, translate(*right)->Err_0);
                }
            }
        },
        ExprModel::Not(inner) => {
            law_path_leads_to_the_construct(*inner);
            if translate(*inner) is Err {
                lemma_node_under(expr, StepModel::Inner, *inner, translate(*inner)->Err_0);
            }
        },
        ExprModel::IsNotNull(inner) => {
            law_path_leads_to_the_construct(*inner);
            if translate(*inner) is Err {
                lemma_node_under(expr, StepModel::Inner, *inner, translate(*inner)->Err_0);
            }
        },
        ExprModel::IsNull(inner) => {
            law_path_leads_to_the_construct(*inner);
            if translate(*inner) is Err {
                lemma_node_under(expr, StepModel::Inner, *inner, translate(*inner)->Err_0);
            }
        },
        ExprModel::Between { expr: inner, negated, low, high } => {
            law_path_leads_to_the_construct(*inner);
            law_path_leads_to_the_construct(*low);
            law_path_leads_to_the_construct(*high);
            if translate(*inner) is Err {
                lemma_node_under(expr, StepModel::Value, *inner, translate(*inner)->Err_0);
            } else if translate(*low) is Err {
                lemma_node_under(expr, StepModel::Low, *low, translate(*low)->Err_0);
            } else if translate(*high) is Err {
                lemma_node_under(expr, StepModel::High, *high, translate(*high)->Err_0);
            }
        },
        ExprModel::InList { expr: inner, list, negated } => {
            law_path_leads_to_the_construct(*inner);
            if translate(*inner) is Err {
                lemma_node_under(expr, StepModel::Value, *inner, translate(*inner)->Err_0);
            } else if scalar_list(list) is Err {
                let refusal = scalar_list(list)->Err_0;
                law_list_is_atomic(list);
                let first = choose|first: int|
                    is_first_refused(list, first) && list_member(list[first], first) == Err::<
                        ScalarModel,
                        ErrorModel,
                    >(refusal);
                let member = list[first];
                let kind = refusal.kind;
                lemma_node_under(expr, StepModel::Member(first), member, ErrorModel::here(kind));
                assert(ErrorModel::here(kind).under(StepModel::Member(first)) == refusal);
                assert(member.node_at(Seq::empty()) == Some(member));
            }
        },
        ExprModel::Other(_) => {},
    }
}

/// The scan's filter means what the engine's filter means: on every row,
/// and however the data compares its values, a translated expression
/// evaluates to the value of the expression it came from, true, false or
/// null. In particular a NaN is never reported as a null.
pub proof fn law_translation_preserves_meaning(domain: Domain, row: Row, expr: ExprModel)
    requires
        translate(expr) is Ok,
    ensures
        eval_target(domain, row, translate(expr)->Ok_0) == eval_expr(domain, row, expr),
    decreases expr,
{
    match expr {
        ExprModel::Column(_) => {},
        ExprModel::Literal(_) => {},
        ExprModel::BinaryExpr { left, op, right } => {
            law_translation_preserves_meaning(domain, row, *left);
            law_translation_preserves_meaning(domain, row, *right);
        },
        ExprModel::Not(inner) => {
            law_translation_preserves_meaning(domain, row, *inner);
        },
        ExprModel::IsNotNull(inner) => {
            law_translation_preserves_meaning(domain, row, *inner);
        },
        ExprModel::IsNull(inner) => {
            law_translation_preserves_meaning(domain, row, *inner);
        },
        ExprModel::Between { expr: inner, negated, low, high } => {
            law_translation_preserves_meaning(domain, row, *inner);
            law_translation_preserves_meaning(domain, row, *low);
            law_translation_preserves_meaning(domain, row, *high);
            reveal_with_fuel(eval_target, 3);
        },
        ExprModel::InList { expr: inner, list, negated } => {
            law_translation_preserves_meaning(domain, row, *inner);
            law_list_is_atomic(list);
            assert(constants(scalar_list(list)->Ok_0) =~= eval_list(domain, row, list));
            reveal_with_fuel(eval_target, 2);
        },
        ExprModel::Other(_) => {},
    }
}

/// A null test asks for nulls only: it is true on the rows where the tested
/// value is null and false on all others, whatever the data takes for a NaN.
/// Its negation says what `is_valid` says.
pub proof fn law_null_test_ignores_nan(domain: Domain, row: Row, expr: ExprModel)
    requires
        translate(expr) is Ok,
    ensures
        ({
            let tested = translate(expr)->Ok_0;
            let value = eval_target(domain, row, tested);
            let is_null = translate(ExprModel::IsNull(Box::new(expr)));
            let is_not_null = translate(ExprModel::IsNotNull(Box::new(expr)));
            let not_is_null = translate(
                ExprModel::Not(Box::new(ExprModel::IsNull(Box::new(expr)))),
            );
            &&& is_null == Ok::<TargetModel, ErrorModel>(
                TargetModel::IsNull { expr: Box::new(tested), nan_is_null: false },
            )
            &&& eval_target(domain, row, is_null->Ok_0) == Value::Bool(value is Null)
            &&& is_not_null == Ok::<TargetModel, ErrorModel>(
                TargetModel::IsValid(Box::new(tested)),
            )
            &&& not_is_null is Ok
            &&& eval_target(domain, row, not_is_null->Ok_0) == eval_target(
                domain,
                row,
                is_not_null->Ok_0,
            )
        }),
{
    reveal_with_fuel(translate, 2);
    reveal_with_fuel(eval_target, 3);
}

/// `a <= b` for two values that are not null.
pub open spec fn at_most(domain: Domain, a: Value, b: Value) -> bool {
    (domain.less)(a, b) || (domain.same)(a, b)
}

/// A range test becomes two inclusive comparisons, joined, and inverted
/// where the test is negated. On the rows where the tested value and the two
/// bounds are not null, the plain test keeps exactly the rows with
/// `low <= value <= high`, and the negated test exactly the others. A plain
/// test keeps no row on which one of the three is null.
pub proof fn law_between_decomposition(
    domain: Domain,
    row: Row,
    expr: ExprModel,
    negated: bool,
    low: ExprModel,
    high: ExprModel,
)
    requires
        translate(expr) is Ok,
        translate(low) is Ok,
        translate(high) is Ok,
    ensures
        ({
            let between = ExprModel::Between {
                expr: Box::new(expr),
                negated,
                low: Box::new(low),
                high: Box::new(high),
            };
            let value = eval_target(domain, row, translate(expr)->Ok_0);
            let lo = eval_target(domain, row, translate(low)->Ok_0);
            let hi = eval_target(domain, row, translate(high)->Ok_0);
            let within = and3(le3(domain, lo, value), le3(domain, value, hi));
            &&& translate(between) == Ok::<TargetModel, ErrorModel>(
                negate_if(
                    negated,
                    between_bounds(translate(expr)->Ok_0, translate(low)->Ok_0, translate(high)->Ok_0),
                ),
            )
            &&& eval_target(domain, row, translate(between)->Ok_0) == if negated {
                not3(within)
            } else {
                within
            }
            &&& !(value is Null) && !(lo is Null) && !(hi is Null) ==> (accepts(
                domain,
                row,
                translate(between)->Ok_0,
            ) <==> (at_most(domain, lo, value) && at_most(domain, value, hi)) != negated)
            &&& !negated ==> (accepts(domain, row, translate(between)->Ok_0) <==> {
                &&& !(value is Null) && !(lo is Null) && !(hi is Null)
                &&& at_most(domain, lo, value)
                &&& at_most(domain, value, hi)
            })
        }),
{
    reveal_with_fuel(eval_target, 3);
}

/// Whether a value is the same as one of the constants of a list.
pub open spec fn is_member(domain: Domain, value: Value, list: Seq<ExprModel>) -> bool {
    exists|i: int|
        0 <= i < list.len() && (#[trigger] list[i]) is Literal && (domain.same)(
            value,
            constant(list[i]->Literal_0),
        )
}

/// The constants of a translated list, as the values they stand for.
proof fn lemma_list_items(domain: Domain, value: Value, list: Seq<ExprModel>)
    requires
        scalar_list(list) is Ok,
    ensures
        ({
            let items = constants(scalar_list(list)->Ok_0);
            &&& items.len() == list.len()
            &&& forall|i: int|
                0 <= i < list.len() ==> {
                    &&& (#[trigger] list[i]) is Literal
                    &&& items[i] == constant(list[i]->Literal_0)
                    &&& !(items[i] is Null)
                }
            &&& !(value is Null) ==> (any_equal(domain, value, items) == Value::Bool(
                is_member(domain, value, list),
            ))
            &&& value is Null ==> (any_equal(domain, value, items) == if list.len() == 0 {
                Value::Bool(false)
            } else {
                Value::Null
            })
        }),
{
    law_list_is_atomic(list);
    let items = constants(scalar_list(list)->Ok_0);
    assert forall|i: int| 0 <= i < list.len() implies {
        &&& (#[trigger] list[i]) is Literal
        &&& items[i] == constant(list[i]->Literal_0)
        &&& !(items[i] is Null)
    } by {
        assert(list_member(list[i], i) is Ok);
    }
    if !(value is Null) {
        if is_member(domain, value, list) {
            let i = choose|i: int|
                0 <= i < list.len() && (#[trigger] list[i]) is Literal && (domain.same)(
                    value,
                    constant(list[i]->Literal_0),
                );
            assert(eq3(domain, value, items[i]) == Value::Bool(true));
        } else {
            assert forall|i: int| 0 <= i < items.len() implies eq3(
                domain,
                value,
                #[trigger] items[i],
            ) == Value::Bool(false) by {
                assert(list[i] is Literal);
            }
        }
    } else {
        if list.len() > 0 {
            assert(eq3(domain, value, items[0]) is Null);
        }
    }
}

/// A list test becomes a membership test, inverted where the list test is
/// negated. On the rows where the tested value is not null, the plain test
/// keeps exactly the rows whose value is the same as one of the constants,
/// and the negated test exactly the others. A row on which the tested value
/// is null is kept by neither, unless the list is empty: the negated test
/// keeps every row then.
pub proof fn law_in_list_membership(
    domain: Domain,
    row: Row,
    expr: ExprModel,
    list: Seq<ExprModel>,
    negated: bool,
)
    requires
        translate(ExprModel::InList { expr: Box::new(expr), list, negated }) is Ok,
    ensures
        ({
            let filter = translate(ExprModel::InList { expr: Box::new(expr), list, negated })->Ok_0;
            let value = eval_target(domain, row, translate(expr)->Ok_0);
            &&& filter == negate_if(
                negated,
                TargetModel::IsIn {
                    expr: Box::new(translate(expr)->Ok_0),
                    values: scalar_list(list)->Ok_0,
                },
            )
            &&& !(value is Null) ==> (accepts(domain, row, filter) <==> is_member(
                domain,
                value,
                list,
            ) != negated)
            &&& value is Null ==> (accepts(domain, row, filter) <==> negated && list.len() == 0)
        }),
{
    reveal_with_fuel(eval_target, 2);
    let value = eval_target(domain, row, translate(expr)->Ok_0);
    lemma_list_items(domain, value, list);
}

/// The order of the constants in a list does not matter: two list tests of
/// one expression whose lists hold the same members, each as often as in the
/// other, translate together or not at all, and their translations have the
/// same value on every row.
pub proof fn law_in_list_order(
    domain: Domain,
    row: Row,
    expr: ExprModel,
    first: Seq<ExprModel>,
    second: Seq<ExprModel>,
    negated: bool,
)
    requires
        first.to_multiset() == second.to_multiset(),
        translate(ExprModel::InList { expr: Box::new(expr), list: first, negated }) is Ok,
    ensures
        translate(ExprModel::InList { expr: Box::new(expr), list: second, negated }) is Ok,
        eval_target(
            domain,
            row,
            translate(ExprModel::InList { expr: Box::new(expr), list: second, negated })->Ok_0,
        ) == eval_target(
            domain,
            row,
            translate(ExprModel::InList { expr: Box::new(expr), list: first, negated })->Ok_0,
        ),
{
    reveal_with_fuel(eval_target, 2);
    first.to_multiset_ensures();
    second.to_multiset_ensures();
    law_list_is_atomic(first);
    law_list_is_atomic(second);
    assert forall|i: int| 0 <= i < second.len() implies list_member(
        #[trigger] second[i],
        i,
    ) is Ok by {
        assert(second.contains(second[i]));
        assert(first.to_multiset().count(second[i]) > 0);
        let j = choose|j: int| 0 <= j < first.len() && first[j] == second[i];
        assert(list_member(first[j], j) is Ok);
    }
    let value = eval_target(domain, row, translate(expr)->Ok_0);
    lemma_list_items(domain, value, first);
    lemma_list_items(domain, value, second);
    if !(value is Null) {
        if is_member(domain, value, first) {
            let i = choose|i: int|
                0 <= i < first.len() && (#[trigger] first[i]) is Literal && (domain.same)(
                    value,
                    constant(first[i]->Literal_0),
                );
            assert(first.contains(first[i]));
            assert(second.to_multiset().count(first[i]) > 0);
            let j = choose|j: int| 0 <= j < second.len() && second[j] == first[i];
            assert(second[j] is Literal);
            assert(is_member(domain, value, second));
        }
        if is_member(domain, value, second) {
            let i = choose|i: int|
                0 <= i < second.len() && (#[trigger] second[i]) is Literal && (domain.same)(
                    value,
                    constant(second[i]->Literal_0),
                );
            assert(second.contains(second[i]));
            assert(first.to_multiset().count(second[i]) > 0);
            let j = choose|j: int| 0 <= j < first.len() && first[j] == second[i];
            assert(first[j] is Literal);
            assert(is_member(domain, value, first));
        }
    }
}

/// The eight comparison and logical operators are the ones that translate:
/// a binary expression with one of them translates whenever its two operands
/// do, into the builder of the operator applied to the translated operands.
/// With any other operator it fails on the operator, whatever the operands
/// are, and nothing is built.
pub proof fn law_operator_totality(left: ExprModel, op: Operator, right: ExprModel)
    ensures
        op.is_supported() <==> (op == Operator::Eq || op == Operator::NotEq || op == Operator::Lt
            || op == Operator::LtEq || op == Operator::Gt || op == Operator::GtEq || op
            == Operator::And || op == Operator::Or),
        op.is_supported() && translate(left) is Ok && translate(right) is Ok ==> translate(
            ExprModel::BinaryExpr { left: Box::new(left), op, right: Box::new(right) },
        ) == Ok::<TargetModel, ErrorModel>(
            TargetModel::Call {
                op: op.builder()->Some_0,
                left: Box::new(translate(left)->Ok_0),
                right: Box::new(translate(right)->Ok_0),
            },
        ),
        !op.is_supported() ==> translate(
            ExprModel::BinaryExpr { left: Box::new(left), op, right: Box::new(right) },
        ) == Err::<TargetModel, ErrorModel>(ErrorModel::here(KindModel::UnsupportedOperator(op))),
{
}

/// A builder means on two values what the operator it stands for means on them.
pub proof fn law_builder_meaning(domain: Domain, op: Operator, a: Value, b: Value)
    requires
        op.is_supported(),
    ensures
        apply_builder(domain, op.builder()->Some_0, a, b) == apply_operator(domain, op, a, b),
{
}

/// A translation depends on the content of the expression alone: two
/// expressions with the same content have the same outcome, translated or
/// refused, and so two translations of one expression mean the same on
/// every row.
pub proof fn law_same_input_same_outcome(domain: Domain, row: Row, first: Expr, second: Expr)
    requires
        first@ == second@,
    ensures
        translate(first@) == translate(second@),
        translate(first@) is Ok ==> eval_target(domain, row, translate(first@)->Ok_0)
            == eval_target(domain, row, translate(second@)->Ok_0),
{
}

} // verus!
