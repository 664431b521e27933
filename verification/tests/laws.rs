//! What holds across the library, on chosen values.

use ordadb_sql::bind::bind;
use ordadb_sql::bound::{BoundExpr, BoundExprKind, BoundStatement};
use ordadb_sql::catalog::{Catalog, ColumnDefinition, SchemaDefinition, TableDefinition};
use ordadb_sql::numbers::{parse_signed, parse_unsigned};
use ordadb_sql::parser::{parse, parse_with_dialect};
use ordadb_sql::scanning::trim;
use ordadb_sql::solver::ParameterTypeSolver;
use ordadb_sql::source::location_position;
use ordadb_sql::syntax::SqlDialect;
use ordadb_sql::text::decimal_text;
use ordadb_sql::types::{ColumnId, Identifier, ScalarType, SchemaId, TableId, Value};
use ordadb_sql::typing::{common_type, common_type_with_literal, ensure_explicit_cast_supported};

fn catalog() -> Catalog {
    let column = |id: u64, name: &str, data_type: ScalarType| ColumnDefinition {
        id: ColumnId(id),
        name: Identifier::unquoted(name),
        data_type,
        declared_type: None,
        nullable: true,
        primary_key: false,
        unique: false,
        default: None,
    };
    Catalog {
        database: Identifier::unquoted("main"),
        schemas: vec![SchemaDefinition {
            id: SchemaId(1),
            name: Identifier::unquoted("public"),
            tables: vec![TableDefinition {
                id: TableId(2),
                schema_id: SchemaId(1),
                name: Identifier::unquoted("t"),
                columns: vec![column(3, "a", ScalarType::Int64), column(4, "b", ScalarType::Text), column(5, "c", ScalarType::Boolean)],
                constraints: Vec::new(),
                indexes: Vec::new(),
                triggers: Vec::new(),
            }],
            views: Vec::new(),
            sequences: Vec::new(),
            types: Vec::new(),
            routines: Vec::new(),
        }],
        next_id: 10,
    }
}

#[test]
fn types_meet_whichever_comes_first() {
    let pairs = [
        (ScalarType::Int16, ScalarType::Int64, Some(ScalarType::Int64)),
        (ScalarType::Int32, ScalarType::Float64, Some(ScalarType::Float64)),
        (ScalarType::Oid, ScalarType::Int32, Some(ScalarType::Oid)),
        (ScalarType::Varchar { length: Some(3) }, ScalarType::Char { length: Some(2) }, Some(ScalarType::Text)),
        (ScalarType::Text, ScalarType::Int32, None),
    ];
    for (left, right, met) in pairs {
        assert_eq!(common_type(&left, &right), met);
        assert_eq!(common_type(&right, &left), met);
        if let Some(met) = met {
            assert!(ensure_explicit_cast_supported(&left, &met, None).is_ok());
            assert!(ensure_explicit_cast_supported(&right, &met, None).is_ok());
        }
    }
    let narrow = ScalarType::Decimal { precision: Some(4), scale: Some(1) };
    let wide = ScalarType::Decimal { precision: Some(9), scale: Some(2) };
    assert_eq!(common_type(&narrow, &wide), Some(narrow.clone()));
    assert_eq!(common_type(&wide, &narrow), Some(wide));
    assert_eq!(common_type_with_literal(&ScalarType::Oid, &ScalarType::Text, false, true), Some(ScalarType::Oid));
    assert_eq!(common_type_with_literal(&ScalarType::Text, &ScalarType::Oid, true, false), Some(ScalarType::Oid));
    assert_eq!(common_type_with_literal(&ScalarType::Oid, &ScalarType::Text, true, false), None);
}

#[test]
fn numbers_read_back() {
    for n in [0u64, 7, 10, 4096, u64::MAX] {
        assert_eq!(parse_unsigned(&decimal_text(n)), Some(n));
    }
    assert_eq!(parse_unsigned("+12"), Some(12));
    assert_eq!(parse_unsigned(""), None);
    assert_eq!(parse_unsigned("18446744073709551616"), None);
    assert_eq!(parse_signed("-9223372036854775808"), Some(i64::MIN));
    assert_eq!(parse_signed("9223372036854775808"), None);
}

#[test]
fn trimming_twice_is_trimming_once() {
    for text in ["", "  ", " a b \n", "a", "\u{3000}x\u{a0}"] {
        let once = trim(text);
        assert_eq!(trim(&once), once);
        assert_eq!(once, text.trim());
    }
}

#[test]
fn places_lie_in_the_text() {
    let sql = "ab\ncd";
    assert_eq!(location_position(sql, 1, 1), Some(1));
    assert_eq!(location_position(sql, 2, 2), Some(5));
    assert_eq!(location_position(sql, 2, 99), Some(6));
    assert_eq!(location_position(sql, 3, 1), None);
    assert_eq!(location_position(sql, 0, 1), None);
}

#[test]
fn errors_keep_their_code_and_place_in_every_dialect() {
    let sql = "SELECT a FROM t WHERE a ~ 'x'";
    let plain = parse(sql).expect_err("operator");
    for dialect in [SqlDialect::MySql, SqlDialect::Sqlite] {
        if let Err(error) = parse_with_dialect(sql, dialect) {
            if error.sql_state == plain.sql_state {
                assert_eq!(error.position, plain.position);
                assert!(error.message.ends_with(plain.message.as_str()));
            }
        }
    }
}

fn well_bound(expr: &BoundExpr, columns: &[ScalarType]) -> bool {
    match &expr.kind {
        BoundExprKind::Column { index } => columns.get(*index) == Some(&expr.data_type),
        BoundExprKind::Literal(value) => expr.data_type.accepts(value) && expr.nullable == (*value == Value::Null),
        BoundExprKind::Binary { left, right, .. } => well_bound(left, columns) && well_bound(right, columns),
        BoundExprKind::Unary { expr, .. } | BoundExprKind::Cast { expr } => well_bound(expr, columns),
        BoundExprKind::Function { arguments, .. } => arguments.iter().all(|argument| well_bound(argument, columns)),
        BoundExprKind::InList { expr, list, .. } => well_bound(expr, columns) && list.iter().all(|item| well_bound(item, columns)),
        _ => true,
    }
}

#[test]
fn bound_expressions_read_columns_of_their_table() {
    let columns = [ScalarType::Int64, ScalarType::Text, ScalarType::Boolean];
    for filter in [
        "NOT c AND a + 1 > 2",
        "lower(b) = 'x' OR a IN (1, 2, $1)",
        "CAST(b AS integer) = -a",
        "coalesce(c, false)",
    ] {
        let statement = parse(&format!("SELECT a FROM t WHERE {filter}")).expect("parse filter");
        let BoundStatement::Select { filter: Some(bound), .. } = bind(statement, &catalog()).expect("bind filter") else {
            panic!("{filter} gave no select");
        };
        assert!(well_bound(&bound, &columns), "{filter}: {bound:?}");
        assert_eq!(bound.data_type, ScalarType::Boolean);
    }
}

#[test]
fn solved_types_are_settled() {
    let statement = parse("SELECT a FROM t WHERE a = $1 AND b = $2 AND $3 = $1").expect("parse parameters");
    let types = ParameterTypeSolver::solve(&statement, &catalog()).expect("solve parameters");
    assert_eq!(types.get(&1), Some(&ScalarType::Int64));
    assert_eq!(types.get(&2), Some(&ScalarType::Text));
    assert_eq!(types.get(&3), Some(&ScalarType::Int64));
    let mut solver = ParameterTypeSolver { types: types.clone(), changed: false };
    solver.collect_statement(&statement, &catalog(), &Vec::new(), None, 0).expect("look again");
    assert!(!solver.changed);
    assert_eq!(solver.types, types);
}
