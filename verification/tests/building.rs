use sql_dialect::text::{write_decimal, write_escaped, write_quoted, write_signed_decimal};
use sql_dialect::{
    Alias, BqFunc, BqFunction, DateTimePart, DynIden, Function, FunctionCall, Iden, Keyword,
    SimpleExpr, SqlWriter, SubQueryStatement, Value,
};

fn column(name: &str) -> SimpleExpr {
    SimpleExpr::Column(Alias::new(name).into_iden())
}

fn text(value: &str) -> SimpleExpr {
    SimpleExpr::Value(Value::String(value.to_string()))
}

#[test]
fn decimal_numerals() {
    let cases: [(u64, &str); 9] = [
        (0, "0"),
        (7, "7"),
        (9, "9"),
        (10, "10"),
        (99, "99"),
        (100, "100"),
        (1234567890, "1234567890"),
        (9007199254740993, "9007199254740993"),
        (u64::MAX, "18446744073709551615"),
    ];
    for (n, numeral) in cases {
        let mut out = String::from("n=");
        write_decimal(n, &mut out);
        assert_eq!(out, format!("n={}", numeral));
        assert_eq!(numeral, n.to_string());
    }
}

#[test]
fn signed_decimal_numerals() {
    let cases: [(i64, &str); 8] = [
        (0, "0"),
        (1, "1"),
        (-1, "-1"),
        (-10, "-10"),
        (42, "42"),
        (-9000, "-9000"),
        (i64::MAX, "9223372036854775807"),
        (i64::MIN, "-9223372036854775808"),
    ];
    for (i, numeral) in cases {
        let mut out = String::new();
        write_signed_decimal(i, &mut out);
        assert_eq!(out, numeral);
        assert_eq!(numeral, i.to_string());
    }
}

#[test]
fn escaping_doubles_the_quote_only() {
    let cases = [
        ("", '`', ""),
        ("plain", '`', "plain"),
        ("a`b", '`', "a``b"),
        ("a`b", '"', "a`b"),
        ("\"a\"", '"', "\"\"a\"\""),
        ("```", '`', "``````"),
        ("é`ü", '`', "é``ü"),
    ];
    for (name, quote, escaped) in cases {
        let mut out = String::from(">");
        write_escaped(name, quote, &mut out);
        assert_eq!(out, format!(">{}", escaped));

        let mut out = String::from(">");
        write_quoted(name, quote, &mut out);
        assert_eq!(out, format!(">{}{}{}", quote, escaped, quote));
    }
}

#[test]
fn writer_starts_empty_and_appends() {
    let mut sql = SqlWriter::new("?", false);
    assert_eq!(sql.sql(), "");
    assert!(sql.values().is_empty());
    sql.push_str("a = ");
    sql.push_param(Value::Int(1));
    sql.push_str(" AND b = ");
    sql.push_param(Value::Bool(true));
    sql.push_str("");
    assert_eq!(sql.sql(), "a = ? AND b = ?");
    assert_eq!(sql.values(), &vec![Value::Int(1), Value::Bool(true)]);
    let (text, values) = sql.into_parts();
    assert_eq!(text, "a = ? AND b = ?");
    assert_eq!(values, vec![Value::Int(1), Value::Bool(true)]);
}

#[test]
fn writer_numbers_placeholders_from_one() {
    let mut sql = SqlWriter::new("$", true);
    for i in 0..11 {
        sql.push_param(Value::Int(i));
        sql.push_str(",");
    }
    assert_eq!(sql.sql(), "$1,$2,$3,$4,$5,$6,$7,$8,$9,$10,$11,");
    assert_eq!(sql.values().len(), 11);
    assert_eq!(sql.values()[10], Value::Int(10));
}

#[test]
fn values_are_duplicated() {
    let values = vec![
        Value::Null,
        Value::Bool(true),
        Value::Int(-5),
        Value::String("text".to_string()),
        Value::Bytes(vec![1, 2, 3]),
        Value::Date(1),
        Value::Time(2),
        Value::Timestamp(3),
    ];
    for value in &values {
        assert_eq!(&value.clone(), value);
    }
    assert_eq!(values.clone(), values);
}

#[test]
fn identifiers_write_their_bare_text() {
    let alias = Alias::new("my`col");
    assert_eq!(alias, Alias("my`col".to_string()));
    assert_eq!(alias.clone(), alias);
    let mut out = String::from("[");
    alias.unquoted(&mut out);
    assert_eq!(out, "[my`col");

    let iden = alias.into_iden();
    assert_eq!(iden, DynIden { text: "my`col".to_string() });
    assert_eq!(iden.clone(), iden);
    iden.unquoted(&mut out);
    assert_eq!(out, "[my`colmy`col");
    assert_eq!(iden.into_iden(), iden);

    let keyword = Keyword::Custom(iden);
    assert_eq!(keyword.clone(), keyword);
    assert_eq!(Keyword::CurrentDate.clone(), Keyword::CurrentDate);
}

#[test]
fn conversions_into_expressions() {
    assert_eq!(SimpleExpr::from(Value::Null), SimpleExpr::Value(Value::Null));
    assert_eq!(SimpleExpr::from(-3i64), SimpleExpr::Value(Value::Int(-3)));
    assert_eq!(SimpleExpr::from(true), SimpleExpr::Value(Value::Bool(true)));
    assert_eq!(SimpleExpr::from("abc"), text("abc"));
    assert_eq!(
        SimpleExpr::from(DateTimePart::Week),
        SimpleExpr::Keyword(Keyword::Custom(DynIden { text: "WEEK".to_string() }))
    );
    let call = FunctionCall::new(Function::BqFunction(BqFunction::UnixMicros));
    assert_eq!(
        SimpleExpr::from(call),
        SimpleExpr::FunctionCall(FunctionCall {
            func: Function::BqFunction(BqFunction::UnixMicros),
            args: Vec::new(),
        })
    );
    let query = SubQueryStatement::new().expr(1i64);
    assert_eq!(
        SimpleExpr::from(query),
        SimpleExpr::SubQuery(Box::new(SubQueryStatement {
            exprs: vec![SimpleExpr::Value(Value::Int(1))],
            from: None,
        }))
    );
}

#[test]
fn a_call_collects_its_arguments() {
    let func = Function::BqFunction(BqFunction::FormatTimestamp);
    let call = FunctionCall::new(func);
    assert_eq!(call.get_func(), &func);
    assert!(call.get_args().is_empty());

    let call = call.arg("%c").arg(column("ts"));
    assert_eq!(call.get_args(), &vec![text("%c"), column("ts")]);

    let call = call.args(vec![column("other")]);
    assert_eq!(call.get_func(), &func);
    assert_eq!(call.get_args(), &vec![column("other")]);

    let call = call.arg(7i64);
    assert_eq!(call.get_args(), &vec![column("other"), SimpleExpr::Value(Value::Int(7))]);
}

#[test]
fn builders_tag_the_call_and_keep_the_arguments() {
    let bq = |function: BqFunction, args: Vec<SimpleExpr>| FunctionCall {
        func: Function::BqFunction(function),
        args,
    };
    assert_eq!(
        BqFunc::timestamp(column("d"), None::<SimpleExpr>),
        bq(BqFunction::Timestamp, vec![column("d")])
    );
    assert_eq!(
        BqFunc::timestamp(column("d"), Some("UTC")),
        bq(BqFunction::Timestamp, vec![column("d"), text("UTC")])
    );
    assert_eq!(
        BqFunc::timestamp_add(column("a"), column("b")),
        bq(BqFunction::TimestampAdd, vec![column("a"), column("b")])
    );
    assert_eq!(
        BqFunc::timestamp_sub(column("a"), column("b")),
        bq(BqFunction::TimestampSub, vec![column("a"), column("b")])
    );
    assert_eq!(
        BqFunc::timestamp_trunc(column("a"), DateTimePart::Month),
        bq(
            BqFunction::TimestampTrunc,
            vec![
                column("a"),
                SimpleExpr::Keyword(Keyword::Custom(DynIden { text: "MONTH".to_string() })),
            ]
        )
    );
    assert_eq!(
        BqFunc::timestamp_millis(1700000000000i64),
        bq(BqFunction::TimestampMillis, vec![SimpleExpr::Value(Value::Int(1700000000000))])
    );
    assert_eq!(
        BqFunc::greatest(vec![column("a"), column("b")]),
        bq(BqFunction::Greatest, vec![column("a"), column("b")])
    );
    assert_eq!(
        BqFunc::json_extract_scalar(column("doc"), "$.a.b"),
        bq(BqFunction::JsonExtractScalar, vec![column("doc"), text("$.a.b")])
    );
}

#[test]
fn a_statement_collects_its_expressions() {
    let query = SubQueryStatement::new();
    assert!(query.exprs.is_empty());
    assert_eq!(query.from, None);
    let query = query.expr(column("a")).from(Alias::new("t").into_iden()).expr("b");
    assert_eq!(query.exprs, vec![column("a"), text("b")]);
    assert_eq!(query.from, Some(DynIden { text: "t".to_string() }));
    assert_eq!(query.clone(), query);
}

#[test]
fn expressions_are_duplicated() {
    let query = SubQueryStatement::new()
        .expr(column("a"))
        .expr(BqFunc::timestamp_millis(5i64))
        .from(Alias::new("t").into_iden());
    let exprs = vec![
        SimpleExpr::Value(Value::String("v".to_string())),
        column("c"),
        SimpleExpr::from(BqFunc::greatest(vec![column("x"), SimpleExpr::from(query)])),
        SimpleExpr::Keyword(Keyword::CurrentTimestamp),
        SimpleExpr::Custom("1 + 1".to_string()),
    ];
    for expr in &exprs {
        assert_eq!(&expr.clone(), expr);
    }
    assert_eq!(exprs.clone(), exprs);
    let call = BqFunc::greatest(exprs);
    assert_eq!(call.clone(), call);
}
