//! The translation, held against a small interpreter of both algebras.

use filter_pushdown::expr::Expr;
use filter_pushdown::operator::{BuilderOp, Operator};
use filter_pushdown::pyarrow_filter_expression::PyArrowFilterExpression;
use filter_pushdown::scalar::ScalarValue;
use filter_pushdown::target::TargetExpr;

#[derive(Clone, Debug, PartialEq)]
enum Cell {
    Null,
    Bool(bool),
    Int(i128),
    Float(f64),
    Text(String),
    /// Days since the epoch: the kind that the rows of these tests use for
    /// the constants that the translation does not look into.
    Date(i64),
}

/// The constants that the tests keep by key.
const DATES: [i64; 3] = [19_000, 19_723, 20_000];

fn date(key: usize) -> Expr {
    Expr::Literal(ScalarValue::Other {
        key,
        null: false,
        rendering: format!("Date32({})", DATES[key]),
    })
}

type Row = Vec<(&'static str, Cell)>;

fn column(row: &Row, name: &str) -> Cell {
    for (key, cell) in row {
        if *key == name {
            return cell.clone();
        }
    }
    Cell::Null
}

fn constant(value: &ScalarValue) -> Cell {
    match value {
        ScalarValue::Boolean(Some(v)) => Cell::Bool(*v),
        ScalarValue::Int8(Some(v)) => Cell::Int(*v as i128),
        ScalarValue::Int16(Some(v)) => Cell::Int(*v as i128),
        ScalarValue::Int32(Some(v)) => Cell::Int(*v as i128),
        ScalarValue::Int64(Some(v)) => Cell::Int(*v as i128),
        ScalarValue::UInt8(Some(v)) => Cell::Int(*v as i128),
        ScalarValue::UInt16(Some(v)) => Cell::Int(*v as i128),
        ScalarValue::UInt32(Some(v)) => Cell::Int(*v as i128),
        ScalarValue::UInt64(Some(v)) => Cell::Int(*v as i128),
        ScalarValue::Float32(Some(bits)) => Cell::Float(f32::from_bits(*bits) as f64),
        ScalarValue::Float64(Some(bits)) => Cell::Float(f64::from_bits(*bits)),
        ScalarValue::Utf8(Some(text)) => Cell::Text(text.clone()),
        ScalarValue::Other { key, null: false, .. } => Cell::Date(DATES[*key]),
        _ => Cell::Null,
    }
}

fn less(a: &Cell, b: &Cell) -> bool {
    match (a, b) {
        (Cell::Bool(x), Cell::Bool(y)) => !*x && *y,
        (Cell::Int(x), Cell::Int(y)) => x < y,
        (Cell::Float(x), Cell::Float(y)) => x < y,
        (Cell::Int(x), Cell::Float(y)) => (*x as f64) < *y,
        (Cell::Float(x), Cell::Int(y)) => *x < (*y as f64),
        (Cell::Text(x), Cell::Text(y)) => x < y,
        (Cell::Date(x), Cell::Date(y)) => x < y,
        _ => false,
    }
}

fn same(a: &Cell, b: &Cell) -> bool {
    match (a, b) {
        (Cell::Bool(x), Cell::Bool(y)) => x == y,
        (Cell::Int(x), Cell::Int(y)) => x == y,
        (Cell::Float(x), Cell::Float(y)) => x == y,
        (Cell::Int(x), Cell::Float(y)) => (*x as f64) == *y,
        (Cell::Float(x), Cell::Int(y)) => *x == (*y as f64),
        (Cell::Text(x), Cell::Text(y)) => x == y,
        (Cell::Date(x), Cell::Date(y)) => x == y,
        _ => false,
    }
}

fn is_nan(a: &Cell) -> bool {
    matches!(a, Cell::Float(x) if x.is_nan())
}

fn not3(a: Cell) -> Cell {
    match a {
        Cell::Bool(b) => Cell::Bool(!b),
        _ => Cell::Null,
    }
}

fn and3(a: Cell, b: Cell) -> Cell {
    if a == Cell::Bool(false) || b == Cell::Bool(false) {
        Cell::Bool(false)
    } else if a == Cell::Bool(true) && b == Cell::Bool(true) {
        Cell::Bool(true)
    } else {
        Cell::Null
    }
}

fn or3(a: Cell, b: Cell) -> Cell {
    if a == Cell::Bool(true) || b == Cell::Bool(true) {
        Cell::Bool(true)
    } else if a == Cell::Bool(false) && b == Cell::Bool(false) {
        Cell::Bool(false)
    } else {
        Cell::Null
    }
}

fn eq3(a: &Cell, b: &Cell) -> Cell {
    if *a == Cell::Null || *b == Cell::Null {
        Cell::Null
    } else {
        Cell::Bool(same(a, b))
    }
}

fn lt3(a: &Cell, b: &Cell) -> Cell {
    if *a == Cell::Null || *b == Cell::Null {
        Cell::Null
    } else {
        Cell::Bool(less(a, b))
    }
}

fn le3(a: &Cell, b: &Cell) -> Cell {
    if *a == Cell::Null || *b == Cell::Null {
        Cell::Null
    } else {
        Cell::Bool(less(a, b) || same(a, b))
    }
}

fn any_equal(value: &Cell, items: &[Cell]) -> Cell {
    let mut found = Cell::Bool(false);
    for item in items {
        found = or3(found, eq3(value, item));
    }
    found
}

/// The engine's reading of an expression.
fn eval_expr(expr: &Expr, row: &Row) -> Cell {
    match expr {
        Expr::Column(name) => column(row, name),
        Expr::Literal(value) => constant(value),
        Expr::BinaryExpr { left, op, right } => {
            let a = eval_expr(left, row);
            let b = eval_expr(right, row);
            match op {
                Operator::Eq => eq3(&a, &b),
                Operator::NotEq => not3(eq3(&a, &b)),
                Operator::Lt => lt3(&a, &b),
                Operator::LtEq => le3(&a, &b),
                Operator::Gt => lt3(&b, &a),
                Operator::GtEq => le3(&b, &a),
                Operator::And => and3(a, b),
                Operator::Or => or3(a, b),
                _ => Cell::Null,
            }
        }
        Expr::Not(inner) => not3(eval_expr(inner, row)),
        Expr::IsNotNull(inner) => Cell::Bool(eval_expr(inner, row) != Cell::Null),
        Expr::IsNull(inner) => Cell::Bool(eval_expr(inner, row) == Cell::Null),
        Expr::Between { expr, negated, low, high } => {
            let value = eval_expr(expr, row);
            let within =
                and3(le3(&eval_expr(low, row), &value), le3(&value, &eval_expr(high, row)));
            if *negated {
                not3(within)
            } else {
                within
            }
        }
        Expr::InList { expr, list, negated } => {
            let value = eval_expr(expr, row);
            let items: Vec<Cell> = list.iter().map(|member| eval_expr(member, row)).collect();
            let member = any_equal(&value, &items);
            if *negated {
                not3(member)
            } else {
                member
            }
        }
        Expr::Other(_) => Cell::Null,
    }
}

/// The scan's reading of a filter.
fn eval_target(filter: &TargetExpr, row: &Row) -> Cell {
    match filter {
        TargetExpr::Field(name) => column(row, name),
        TargetExpr::Scalar(value) => constant(value),
        TargetExpr::Call { op, left, right } => {
            let a = eval_target(left, row);
            let b = eval_target(right, row);
            match op {
                BuilderOp::Eq => eq3(&a, &b),
                BuilderOp::Ne => not3(eq3(&a, &b)),
                BuilderOp::Lt => lt3(&a, &b),
                BuilderOp::Le => le3(&a, &b),
                BuilderOp::Gt => lt3(&b, &a),
                BuilderOp::Ge => le3(&b, &a),
                BuilderOp::And => and3(a, b),
                BuilderOp::Or => or3(a, b),
            }
        }
        TargetExpr::Invert(inner) => not3(eval_target(inner, row)),
        TargetExpr::IsValid(inner) => Cell::Bool(eval_target(inner, row) != Cell::Null),
        TargetExpr::IsNull { expr, nan_is_null } => {
            let value = eval_target(expr, row);
            Cell::Bool(value == Cell::Null || (*nan_is_null && is_nan(&value)))
        }
        TargetExpr::IsIn { expr, values } => {
            let value = eval_target(expr, row);
            let items: Vec<Cell> = values.iter().map(constant).collect();
            any_equal(&value, &items)
        }
    }
}

fn translated(expr: &Expr) -> TargetExpr {
    PyArrowFilterExpression::try_from(expr).unwrap().inner().clone()
}

fn on(expr: &Expr, row: &Row) -> Cell {
    eval_target(&translated(expr), row)
}

fn col(name: &str) -> Expr {
    Expr::Column(name.to_string())
}

fn int32(v: i32) -> Expr {
    Expr::Literal(ScalarValue::Int32(Some(v)))
}

fn text(v: &str) -> Expr {
    Expr::Literal(ScalarValue::Utf8(Some(v.to_string())))
}

fn binary(left: Expr, op: Operator, right: Expr) -> Expr {
    Expr::BinaryExpr { left: Box::new(left), op, right: Box::new(right) }
}

fn between(expr: Expr, negated: bool, low: Expr, high: Expr) -> Expr {
    Expr::Between { expr: Box::new(expr), negated, low: Box::new(low), high: Box::new(high) }
}

fn in_list(expr: Expr, list: Vec<Expr>, negated: bool) -> Expr {
    Expr::InList { expr: Box::new(expr), list, negated }
}

fn x_is(cell: Cell) -> Row {
    vec![("x", cell)]
}

const TRUE: Cell = Cell::Bool(true);
const FALSE: Cell = Cell::Bool(false);

#[test]
fn greater_than_on_rows() {
    let expr = binary(col("age"), Operator::Gt, int32(30));
    assert_eq!(on(&expr, &vec![("age", Cell::Int(31))]), TRUE);
    assert_eq!(on(&expr, &vec![("age", Cell::Int(30))]), FALSE);
    assert_eq!(on(&expr, &vec![("age", Cell::Null)]), Cell::Null);
}

#[test]
fn a_date_compares_on_rows() {
    let expr = binary(col("d"), Operator::Gt, date(1));
    assert_eq!(on(&expr, &vec![("d", Cell::Date(19_724))]), TRUE);
    assert_eq!(on(&expr, &vec![("d", Cell::Date(19_723))]), FALSE);
    assert_eq!(on(&expr, &vec![("d", Cell::Null)]), Cell::Null);
    let expr = between(col("d"), true, date(0), date(2));
    assert_eq!(on(&expr, &vec![("d", Cell::Date(19_500))]), FALSE);
    assert_eq!(on(&expr, &vec![("d", Cell::Date(20_001))]), TRUE);
    for d in [18_999, 19_000, 19_723, 20_000, 20_001] {
        let row = vec![("d", Cell::Date(d))];
        assert_eq!(on(&expr, &row), eval_expr(&expr, &row));
    }
}

#[test]
fn not_is_null_is_is_valid() {
    let expr = Expr::Not(Box::new(Expr::IsNull(Box::new(col("x")))));
    let is_valid = TargetExpr::IsValid(Box::new(TargetExpr::Field("x".to_string())));
    for cell in [Cell::Null, Cell::Int(5), Cell::Float(f64::NAN), Cell::Text(String::new())] {
        let row = x_is(cell);
        assert_eq!(on(&expr, &row), eval_target(&is_valid, &row));
    }
    assert_eq!(on(&expr, &x_is(Cell::Null)), FALSE);
    assert_eq!(on(&expr, &x_is(Cell::Int(5))), TRUE);
}

#[test]
fn between_on_rows() {
    let expr = between(col("x"), false, int32(1), int32(10));
    assert_eq!(on(&expr, &x_is(Cell::Int(5))), TRUE);
    assert_eq!(on(&expr, &x_is(Cell::Int(11))), FALSE);
    assert_eq!(on(&expr, &x_is(Cell::Int(1))), TRUE);
    assert_eq!(on(&expr, &x_is(Cell::Int(10))), TRUE);
    assert_eq!(on(&expr, &x_is(Cell::Int(0))), FALSE);
    assert_eq!(on(&expr, &x_is(Cell::Null)), Cell::Null);
}

#[test]
fn negated_between_keeps_the_other_rows() {
    let plain = between(col("x"), false, col("lo"), col("hi"));
    let negated = between(col("x"), true, col("lo"), col("hi"));
    for x in -3..=13 {
        for (lo, hi) in [(1, 10), (4, 4), (10, 1)] {
            let row = vec![("x", Cell::Int(x)), ("lo", Cell::Int(lo)), ("hi", Cell::Int(hi))];
            let inside = lo <= x && x <= hi;
            assert_eq!(on(&plain, &row), Cell::Bool(inside));
            assert_eq!(on(&negated, &row), Cell::Bool(!inside));
        }
    }
    let row = vec![("x", Cell::Null), ("lo", Cell::Int(1)), ("hi", Cell::Int(10))];
    assert_eq!(on(&plain, &row), Cell::Null);
    assert_eq!(on(&negated, &row), Cell::Null);
}

#[test]
fn negated_in_list_on_rows() {
    let expr = in_list(col("x"), vec![int32(1), int32(2)], true);
    assert_eq!(on(&expr, &x_is(Cell::Int(1))), FALSE);
    assert_eq!(on(&expr, &x_is(Cell::Int(3))), TRUE);
}

#[test]
fn in_list_is_membership() {
    let members = [2, 3, 5, 7];
    let list: Vec<Expr> = members.iter().map(|v| int32(*v)).collect();
    let plain = in_list(col("x"), list.clone(), false);
    let negated = in_list(col("x"), list, true);
    for x in 0..10 {
        let row = x_is(Cell::Int(x as i128));
        let member = members.contains(&x);
        assert_eq!(on(&plain, &row), Cell::Bool(member));
        assert_eq!(on(&negated, &row), Cell::Bool(!member));
    }
    assert_eq!(on(&plain, &x_is(Cell::Null)), Cell::Null);
    assert_eq!(on(&negated, &x_is(Cell::Null)), Cell::Null);
}

#[test]
fn empty_in_list_on_rows() {
    let plain = in_list(col("x"), vec![], false);
    let negated = in_list(col("x"), vec![], true);
    for cell in [Cell::Null, Cell::Int(1)] {
        assert_eq!(on(&plain, &x_is(cell.clone())), FALSE);
        assert_eq!(on(&negated, &x_is(cell)), TRUE);
    }
}

#[test]
fn order_of_the_list_does_not_matter() {
    let orders: [[&str; 3]; 6] = [
        ["a", "b", "c"],
        ["a", "c", "b"],
        ["b", "a", "c"],
        ["b", "c", "a"],
        ["c", "a", "b"],
        ["c", "b", "a"],
    ];
    for negated in [false, true] {
        for cell in [Cell::Text("a".into()), Cell::Text("c".into()), Cell::Text("d".into()), Cell::Null]
        {
            let row = x_is(cell);
            let first = in_list(col("x"), orders[0].iter().map(|v| text(v)).collect(), negated);
            for order in orders {
                let other = in_list(col("x"), order.iter().map(|v| text(v)).collect(), negated);
                assert_eq!(on(&other, &row), on(&first, &row));
            }
        }
    }
}

#[test]
fn a_nan_is_not_a_null() {
    let expr = Expr::IsNull(Box::new(col("x")));
    assert_eq!(on(&expr, &x_is(Cell::Float(f64::NAN))), FALSE);
    assert_eq!(on(&expr, &x_is(Cell::Null)), TRUE);
    let nan = Expr::Literal(ScalarValue::Float64(Some(f64::NAN.to_bits())));
    assert_eq!(on(&Expr::IsNull(Box::new(nan)), &vec![]), FALSE);
    let nan = Expr::Literal(ScalarValue::Float32(Some(f32::NAN.to_bits())));
    assert_eq!(on(&Expr::IsNotNull(Box::new(nan)), &vec![]), TRUE);
}

#[test]
fn translation_keeps_the_meaning() {
    let exprs = vec![
        col("x"),
        int32(4),
        binary(col("x"), Operator::Eq, col("y")),
        binary(col("x"), Operator::NotEq, col("y")),
        binary(col("x"), Operator::Lt, col("y")),
        binary(col("x"), Operator::LtEq, col("y")),
        binary(col("x"), Operator::Gt, col("y")),
        binary(col("x"), Operator::GtEq, col("y")),
        binary(col("p"), Operator::And, col("q")),
        binary(col("p"), Operator::Or, col("q")),
        Expr::Not(Box::new(col("p"))),
        Expr::IsNull(Box::new(col("y"))),
        Expr::IsNotNull(Box::new(col("y"))),
        between(col("x"), false, col("y"), int32(3)),
        between(col("x"), true, int32(0), col("y")),
        in_list(col("x"), vec![int32(0), int32(2)], false),
        in_list(col("y"), vec![int32(1)], true),
        binary(
            Expr::Not(Box::new(binary(col("x"), Operator::Lt, int32(2)))),
            Operator::Or,
            binary(
                col("q"),
                Operator::And,
                in_list(
                    col("f"),
                    vec![Expr::Literal(ScalarValue::Float64(Some(1.5f64.to_bits())))],
                    true,
                ),
            ),
        ),
    ];
    let numbers = [Cell::Null, Cell::Int(0), Cell::Int(1), Cell::Int(3)];
    let truths = [Cell::Null, Cell::Bool(false), Cell::Bool(true)];
    let floats = [Cell::Null, Cell::Float(1.5), Cell::Float(f64::NAN)];
    let mut rows = 0;
    for x in &numbers {
        for y in &numbers {
            for p in &truths {
                for q in &truths {
                    for f in &floats {
                        let row: Row = vec![
                            ("x", x.clone()),
                            ("y", y.clone()),
                            ("p", p.clone()),
                            ("q", q.clone()),
                            ("f", f.clone()),
                        ];
                        for expr in &exprs {
                            assert_eq!(on(expr, &row), eval_expr(expr, &row));
                        }
                        rows += 1;
                    }
                }
            }
        }
    }
    assert_eq!(rows, 432);
}
