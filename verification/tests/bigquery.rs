use sql_dialect::backend::BigQueryQueryBuilder;
use sql_dialect::expr::SimpleExpr;
use sql_dialect::extension::bigquery::{BqExpr, BqFunc, DateTimePart};
use sql_dialect::types::{Alias, Iden};
use sql_dialect::value::Value;
use sql_dialect::writer::SqlWriter;

fn render(expr: &SimpleExpr) -> (String, Vec<Value>) {
    let mut sql = SqlWriter::new("?", false);
    BigQueryQueryBuilder.prepare_simple_expr(expr, &mut sql);
    sql.into_parts()
}

fn column(name: &str) -> SimpleExpr {
    SimpleExpr::Column(Alias::new(name).into_iden())
}

#[test]
fn timestamp_millis_of_a_column() {
    let expr = SimpleExpr::from(BqFunc::timestamp_millis(column("ts")));
    let (text, values) = render(&expr);
    assert_eq!(text, "TIMESTAMP_MILLIS(`ts`)");
    assert_eq!(values, Vec::<Value>::new());
}

#[test]
fn timestamp_of_a_string_literal() {
    let expr = SimpleExpr::from(BqFunc::timestamp("2008-12-25 15:30:00+00", None::<&str>));
    let (text, values) = render(&expr);
    assert_eq!(text, "TIMESTAMP(?)");
    assert_eq!(values, vec![Value::String("2008-12-25 15:30:00+00".to_string())]);
}

#[test]
fn timestamp_with_a_time_zone() {
    let expr = SimpleExpr::from(
        BqFunc::timestamp("2008-12-25 15:30:00", Some("America/Los_Angeles")),
    );
    let (text, values) = render(&expr);
    assert_eq!(text, "TIMESTAMP(?, ?)");
    assert_eq!(
        values,
        vec![
            Value::String("2008-12-25 15:30:00".to_string()),
            Value::String("America/Los_Angeles".to_string()),
        ]
    );
}

#[test]
fn greatest_of_three_integers() {
    let expr = SimpleExpr::from(BqFunc::greatest(vec![
        SimpleExpr::Value(Value::Int(1)),
        SimpleExpr::Value(Value::Int(2)),
        SimpleExpr::Value(Value::Int(3)),
    ]));
    let (text, values) = render(&expr);
    assert_eq!(text, "GREATEST(?, ?, ?)");
    assert_eq!(values, vec![Value::Int(1), Value::Int(2), Value::Int(3)]);
}

#[test]
fn greatest_of_nothing() {
    let expr = SimpleExpr::from(BqFunc::greatest(Vec::new()));
    let (text, values) = render(&expr);
    assert_eq!(text, "GREATEST()");
    assert!(values.is_empty());
}

#[test]
fn interval_of_three_days() {
    let expr = <SimpleExpr as BqExpr>::interval(3, DateTimePart::Day);
    assert_eq!(expr, SimpleExpr::Custom("INTERVAL 3 DAY".to_string()));
    let (text, values) = render(&expr);
    assert_eq!(text, "INTERVAL 3 DAY");
    assert!(values.is_empty());
}

#[test]
fn interval_of_other_quantities() {
    let cases: Vec<(i64, DateTimePart, &str)> = vec![
        (0, DateTimePart::Second, "INTERVAL 0 SECOND"),
        (-1, DateTimePart::Hour, "INTERVAL -1 HOUR"),
        (10, DateTimePart::Minute, "INTERVAL 10 MINUTE"),
        (1000, DateTimePart::Microsecond, "INTERVAL 1000 MICROSECOND"),
        (i64::MAX, DateTimePart::Year, "INTERVAL 9223372036854775807 YEAR"),
        (i64::MIN, DateTimePart::IsoYear, "INTERVAL -9223372036854775808 ISOYEAR"),
    ];
    for (quantity, unit, expected) in cases {
        let (text, values) = render(&<SimpleExpr as BqExpr>::interval(quantity, unit));
        assert_eq!(text, expected);
        assert_eq!(text, format!("INTERVAL {} {}", quantity, unit.as_str()));
        assert!(values.is_empty());
    }
}

#[test]
fn json_extract_scalar_of_a_column() {
    let expr = SimpleExpr::from(BqFunc::json_extract_scalar(column("payload"), "$.id"));
    let (text, values) = render(&expr);
    assert_eq!(text, "JSON_EXTRACT_SCALAR(`payload`, ?)");
    assert_eq!(values, vec![Value::String("$.id".to_string())]);
}

#[test]
fn timestamp_add_of_an_interval() {
    let expr = SimpleExpr::from(BqFunc::timestamp_add(
        column("created_at"),
        <SimpleExpr as BqExpr>::interval(10, DateTimePart::Minute),
    ));
    let (text, values) = render(&expr);
    assert_eq!(text, "TIMESTAMP_ADD(`created_at`, INTERVAL 10 MINUTE)");
    assert!(values.is_empty());
}

#[test]
fn timestamp_sub_of_an_interval() {
    let expr = SimpleExpr::from(BqFunc::timestamp_sub(
        "2008-12-25 15:30:00+00",
        <SimpleExpr as BqExpr>::interval(-2, DateTimePart::Day),
    ));
    let (text, values) = render(&expr);
    assert_eq!(text, "TIMESTAMP_SUB(?, INTERVAL -2 DAY)");
    assert_eq!(values, vec![Value::String("2008-12-25 15:30:00+00".to_string())]);
}

#[test]
fn timestamp_trunc_to_a_unit() {
    let expr = SimpleExpr::from(BqFunc::timestamp_trunc(column("ts"), DateTimePart::IsoWeek));
    let (text, values) = render(&expr);
    assert_eq!(text, "TIMESTAMP_TRUNC(`ts`, ISOWEEK)");
    assert!(values.is_empty());
}
