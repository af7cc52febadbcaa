//! What a filter means on a row, in the engine and in the scan.
//!
//! Both sides work with three truth values: a condition is true, false or
//! unknown, and unknown is the null value. How two values that are not null
//! compare belongs to the data and not to the filter; a [`Domain`] stands for
//! it, and every statement about meaning holds for every domain.

use vstd::prelude::*;
use crate::expr::ExprModel;
use crate::operator::{BuilderOp, Operator};
use crate::scalar::ScalarModel;
use crate::target::TargetModel;

verus! {

/// What a column holds in a row, and what an expression evaluates to.
pub enum Value {
    Null,
    Bool(bool),
    Int(int),
    Float32(u32),
    Float64(u64),
    Text(Seq<char>),
    /// A value of a kind that is not looked into; the number tells one
    /// such value from another.
    Other(int),
}

/// The comparisons of the data: whether a value comes before another,
/// whether two values are the same, and whether a value is a NaN. They are
/// consulted for values that are not null only.
pub struct Domain {
    pub less: spec_fn(Value, Value) -> bool,
    pub same: spec_fn(Value, Value) -> bool,
    pub nan: spec_fn(Value) -> bool,
}

/// A row: the values of its columns, by name.
pub type Row = Map<Seq<char>, Value>;

/// The value of a column in a row; a column that the row lacks is null.
pub open spec fn column(row: Row, name: Seq<char>) -> Value {
    if row.dom().contains(name) {
        row[name]
    } else {
        Value::Null
    }
}

/// The value of a constant: null for a null of whatever kind, and a value
/// of its own for every other constant.
pub open spec fn constant(scalar: ScalarModel) -> Value {
    match scalar {
        ScalarModel::Boolean(Some(v)) => Value::Bool(v),
        ScalarModel::Int8(Some(v)) => Value::Int(v as int),
        ScalarModel::Int16(Some(v)) => Value::Int(v as int),
        ScalarModel::Int32(Some(v)) => Value::Int(v as int),
        ScalarModel::Int64(Some(v)) => Value::Int(v as int),
        ScalarModel::UInt8(Some(v)) => Value::Int(v as int),
        ScalarModel::UInt16(Some(v)) => Value::Int(v as int),
        ScalarModel::UInt32(Some(v)) => Value::Int(v as int),
        ScalarModel::UInt64(Some(v)) => Value::Int(v as int),
        ScalarModel::Float32(Some(bits)) => Value::Float32(bits),
        ScalarModel::Float64(Some(bits)) => Value::Float64(bits),
        ScalarModel::Utf8(Some(text)) => Value::Text(text),
        ScalarModel::Other { key, null, .. } => if null {
            Value::Null
        } else {
            Value::Other(key)
        },
        _ => Value::Null,
    }
}

/// Negation: unknown stays unknown.
pub open spec fn not3(a: Value) -> Value {
    match a {
        Value::Bool(b) => Value::Bool(!b),
        _ => Value::Null,
    }
}

/// Conjunction: false where one side is false, true where both are true,
/// unknown otherwise.
pub open spec fn and3(a: Value, b: Value) -> Value {
    if a == Value::Bool(false) || b == Value::Bool(false) {
        Value::Bool(false)
    } else if a == Value::Bool(true) && b == Value::Bool(true) {
        Value::Bool(true)
    } else {
        Value::Null
    }
}

/// Disjunction: true where one side is true, false where both are false,
/// unknown otherwise.
pub open spec fn or3(a: Value, b: Value) -> Value {
    if a == Value::Bool(true) || b == Value::Bool(true) {
        Value::Bool(true)
    } else if a == Value::Bool(false) && b == Value::Bool(false) {
        Value::Bool(false)
    } else {
        Value::Null
    }
}

/// `a = b`: unknown where a side is null.
pub open spec fn eq3(domain: Domain, a: Value, b: Value) -> Value {
    if a is Null || b is Null {
        Value::Null
    } else {
        Value::Bool((domain.same)(a, b))
    }
}

/// `a < b`: unknown where a side is null.
pub open spec fn lt3(domain: Domain, a: Value, b: Value) -> Value {
    if a is Null || b is Null {
        Value::Null
    } else {
        Value::Bool((domain.less)(a, b))
    }
}

/// `a <= b`: unknown where a side is null.
pub open spec fn le3(domain: Domain, a: Value, b: Value) -> Value {
    if a is Null || b is Null {
        Value::Null
    } else {
        Value::Bool((domain.less)(a, b) || (domain.same)(a, b))
    }
}

/// `value = item` for one of the items, as a disjunction of the single
/// comparisons: true where one of them is true, else unknown where one of
/// them is unknown, else false.
pub open spec fn any_equal(domain: Domain, value: Value, items: Seq<Value>) -> Value {
    if exists|i: int| 0 <= i < items.len() && eq3(domain, value, #[trigger] items[i]) == Value::Bool(true) {
        Value::Bool(true)
    } else if exists|i: int| 0 <= i < items.len() && eq3(domain, value, #[trigger] items[i]) is Null {
        Value::Null
    } else {
        Value::Bool(false)
    }
}

/// A binary operator of the engine applied to two values. An operator that
/// no filter of the scan can hold has no meaning here and yields null.
pub open spec fn apply_operator(domain: Domain, op: Operator, a: Value, b: Value) -> Value {
    match op {
        Operator::Eq => eq3(domain, a, b),
        Operator::NotEq => not3(eq3(domain, a, b)),
        Operator::Lt => lt3(domain, a, b),
        Operator::LtEq => le3(domain, a, b),
        Operator::Gt => lt3(domain, b, a),
        Operator::GtEq => le3(domain, b, a),
        Operator::And => and3(a, b),
        Operator::Or => or3(a, b),
        _ => Value::Null,
    }
}

/// A binary builder of the scan applied to two values.
pub open spec fn apply_builder(domain: Domain, op: BuilderOp, a: Value, b: Value) -> Value {
    match op {
        BuilderOp::Eq => eq3(domain, a, b),
        BuilderOp::Ne => not3(eq3(domain, a, b)),
        BuilderOp::Lt => lt3(domain, a, b),
        BuilderOp::Le => le3(domain, a, b),
        BuilderOp::Gt => lt3(domain, b, a),
        BuilderOp::Ge => le3(domain, b, a),
        BuilderOp::And => and3(a, b),
        BuilderOp::Or => or3(a, b),
    }
}

/// The value of a filter expression of the engine on a row.
///
/// A range test is the conjunction `expr >= low AND expr <= high`, a list
/// test the disjunction of `expr = member` over the members; `negated`
/// negates either. A construct that no filter of the scan can hold has no
/// meaning here and yields null.
pub open spec fn eval_expr(domain: Domain, row: Row, expr: ExprModel) -> Value
    decreases expr,
{
    match expr {
        ExprModel::Column(name) => column(row, name),
        ExprModel::Literal(value) => constant(value),
        ExprModel::BinaryExpr { left, op, right } => apply_operator(
            domain,
            op,
            eval_expr(domain, row, *left),
            eval_expr(domain, row, *right),
        ),
        ExprModel::Not(inner) => not3(eval_expr(domain, row, *inner)),
        ExprModel::IsNotNull(inner) => Value::Bool(!(eval_expr(domain, row, *inner) is Null)),
        ExprModel::IsNull(inner) => Value::Bool(eval_expr(domain, row, *inner) is Null),
        ExprModel::Between { expr, negated, low, high } => {
            let value = eval_expr(domain, row, *expr);
            let within = and3(
                apply_operator(domain, Operator::GtEq, value, eval_expr(domain, row, *low)),
                apply_operator(domain, Operator::LtEq, value, eval_expr(domain, row, *high)),
            );
            if negated {
                not3(within)
            } else {
                within
            }
        },
        ExprModel::InList { expr, list, negated } => {
            let value = eval_expr(domain, row, *expr);
            let member = any_equal(domain, value, eval_list(domain, row, list));
            if negated {
                not3(member)
            } else {
                member
            }
        },
        ExprModel::Other(_) => Value::Null,
    }
}

/// The values of the members of a list on a row, in the order of the list.
pub open spec fn eval_list(domain: Domain, row: Row, list: Seq<ExprModel>) -> Seq<Value>
    decreases list,
{
    Seq::new(
        list.len(),
        |i: int|
            if 0 <= i < list.len() {
                eval_expr(domain, row, list[i])
            } else {
                Value::Null
            },
    )
}

/// The values of a list of constants, in the order of the list.
pub open spec fn constants(values: Seq<ScalarModel>) -> Seq<Value> {
    values.map_values(|value: ScalarModel| constant(value))
}

/// The value of a filter expression of the scan on a row.
///
/// The binary builders and `invert` follow the three truth values. `is_valid`
/// and `is_null` always answer true or false; `is_null` takes a NaN for a
/// null only where its flag says so. `isin` is the disjunction of
/// `expr = constant` over the listed constants.
pub open spec fn eval_target(domain: Domain, row: Row, filter: TargetModel) -> Value
    decreases filter,
{
    match filter {
        TargetModel::Field(name) => column(row, name),
        TargetModel::Scalar(value) => constant(value),
        TargetModel::Call { op, left, right } => apply_builder(
            domain,
            op,
            eval_target(domain, row, *left),
            eval_target(domain, row, *right),
        ),
        TargetModel::Invert(inner) => not3(eval_target(domain, row, *inner)),
        TargetModel::IsValid(inner) => Value::Bool(!(eval_target(domain, row, *inner) is Null)),
        TargetModel::IsNull { expr, nan_is_null } => {
            let value = eval_target(domain, row, *expr);
            Value::Bool(value is Null || (nan_is_null && (domain.nan)(value)))
        },
        TargetModel::IsIn { expr, values } => any_equal(
            domain,
            eval_target(domain, row, *expr),
            constants(values),
        ),
    }
}

/// Whether the scan keeps the row: the filter is true on it.
pub open spec fn accepts(domain: Domain, row: Row, filter: TargetModel) -> bool {
    eval_target(domain, row, filter) == Value::Bool(true)
}

} // verus!
