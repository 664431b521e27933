//! What binding accepts, refuses and gives back.

use std::collections::BTreeMap;

use ordadb_sql::bind::{bind, bind_with_session};
use ordadb_sql::binding::bind_expr_with_parameter_types;
use ordadb_sql::bound::{
    BoundApplyKind, BoundConflictAction, BoundExpr, BoundExprKind, BoundJoinSource, BoundMergeAction, BoundStatement,
};
use ordadb_sql::catalog::{
    Catalog, CatalogExpression, CatalogObjectRef, ColumnDefinition, ConstraintDefinition, ConstraintKind, IndexDefinition, IndexMethod,
    IndexOptions, RoutineArgument,    RoutineArgumentMode, RoutineDefinition, RoutineKind, SchemaDefinition, SequenceDefinition, TableDefinition, TypeDefinition,
    UserDefinedTypeKind, ViewDefinition, ViewKind,
};
use ordadb_sql::dependencies::bound_statement_references;
use ordadb_sql::parser::parse;
use ordadb_sql::routines::bind_routine_candidate;
use ordadb_sql::settings::SessionSettings;
use ordadb_sql::stored::{
    bind_catalog_expression, bind_catalog_expression_with_catalog, bind_catalog_expression_with_parameter_types,
    bind_catalog_expression_with_parameter_types_and_catalog,
};
use ordadb_sql::subquery::bound_query_schema;
use ordadb_sql::syntax::{ParsedExpr, ParsedExprKind, ScalarFunction, SessionBindValues};
use ordadb_sql::types::{
    ColumnId, ConstraintId, DbError, Field, Identifier, IndexId, RoutineId, ScalarType, Schema, SchemaId, TableId, TypeId, Value, ViewId,
};
use ordadb_sql::typing::compare_scalar_types;

fn empty_catalog() -> Catalog {
    Catalog {
        database: Identifier::unquoted("ordadb"),
        schemas: vec![SchemaDefinition {
            id: SchemaId(1),
            name: Identifier::unquoted("public"),
            tables: Vec::new(),
            views: Vec::new(),
            sequences: Vec::new(),
            types: Vec::new(),
            routines: Vec::new(),
        }],
        next_id: 100,
    }
}

fn new_id(catalog: &mut Catalog) -> u64 {
    catalog.next_id += 1;
    catalog.next_id
}

fn add_table(catalog: &mut Catalog, name: &str, columns: Vec<(&str, ScalarType, bool)>) -> TableId {
    let id = TableId(new_id(catalog));
    let mut defined = Vec::new();
    for (column, data_type, nullable) in columns {
        defined.push(ColumnDefinition {
            id: ColumnId(new_id(catalog)),
            name: Identifier::unquoted(column),
            data_type,
            declared_type: None,
            nullable,
            primary_key: false,
            unique: false,
            default: None,
        });
    }
    catalog.schemas[0].tables.push(TableDefinition {
        id,
        schema_id: SchemaId(1),
        name: Identifier::unquoted(name),
        columns: defined,
        constraints: Vec::new(),
        indexes: Vec::new(),
        triggers: Vec::new(),
    });
    id
}

fn catalog_with_documents() -> Catalog {
    let mut catalog = empty_catalog();
    add_table(
        &mut catalog,
        "documents",
        vec![("id", ScalarType::Int64, false), ("title", ScalarType::Text, false)],
    );
    let constraint = ConstraintId(new_id(&mut catalog));
    let table = &mut catalog.schemas[0].tables[0];
    table.columns[0].primary_key = true;
    table.columns[0].unique = true;
    table.constraints.push(ConstraintDefinition {
        id: constraint,
        name: Identifier::unquoted("documents_pkey"),
        kind: ConstraintKind::PrimaryKey { columns: vec![table.columns[0].id] },
    });
    catalog
}

fn bound_in(catalog: &Catalog, sql: &str) -> BoundStatement {
    let parsed = match parse(sql) {
        Ok(statement) => statement,
        Err(error) => panic!("{sql}: {error:?}"),
    };
    match bind(parsed, catalog) {
        Ok(statement) => statement,
        Err(error) => panic!("{sql}: {error:?}"),
    }
}

fn bound(sql: &str) -> BoundStatement {
    bound_in(&catalog_with_documents(), sql)
}

fn refused_in(catalog: &Catalog, sql: &str) -> DbError {
    let parsed = match parse(sql) {
        Ok(statement) => statement,
        Err(error) => panic!("{sql}: {error:?}"),
    };
    match bind(parsed, catalog) {
        Ok(statement) => panic!("{sql}: {statement:?}"),
        Err(error) => error,
    }
}

fn refused(sql: &str) -> String {
    refused_in(&catalog_with_documents(), sql).sql_state
}

fn fields(sql: &str) -> Vec<(String, ScalarType, bool)> {
    let statement = bound(sql);
    let schema = match bound_query_schema(&statement) {
        Ok(schema) => schema,
        Err(error) => panic!("{sql}: {error:?}"),
    };
    schema.fields.into_iter().map(|field| (field.name, field.data_type, field.nullable)).collect()
}

fn field(name: &str, data_type: ScalarType, nullable: bool) -> (String, ScalarType, bool) {
    (name.to_owned(), data_type, nullable)
}

#[test]
fn binds_simple_selects() {
    let BoundStatement::Select { projection, filter: Some(filter), order_by, limit: Some(limit), .. } =
        bound("SELECT id, title AS name FROM documents WHERE id > $1 ORDER BY name DESC LIMIT $2")
    else {
        panic!("simple select expected");
    };
    assert_eq!(projection.len(), 2);
    assert_eq!(projection[1].field, Field::new("name", ScalarType::Text, false));
    let BoundExprKind::Binary { right, .. } = &filter.kind else {
        panic!("comparison expected");
    };
    assert_eq!(right.kind, BoundExprKind::Parameter { index: 1 });
    assert_eq!(right.data_type, ScalarType::Int64);
    assert_eq!((order_by[0].column_index, order_by[0].ascending), (1, false));
    assert_eq!(limit.data_type, ScalarType::Int64);
}

#[test]
fn output_columns_have_names_and_types() {
    assert_eq!(
        fields("SELECT * FROM documents"),
        vec![field("id", ScalarType::Int64, false), field("title", ScalarType::Text, false)]
    );
    assert_eq!(fields("SELECT count(*), max(title) FROM documents"), vec![field("?column?", ScalarType::Int64, false), field("?column?", ScalarType::Text, true)]);
    assert_eq!(fields("SELECT id + 1 AS next FROM documents"), vec![field("next", ScalarType::Int64, false)]);
    assert_eq!(fields("SELECT lower(title) FROM documents"), vec![field("?column?", ScalarType::Text, false)]);
    assert_eq!(fields("SELECT id = 1 AS first FROM documents"), vec![field("first", ScalarType::Boolean, false)]);
    assert_eq!(
        fields("SELECT a.id, b.title FROM documents a LEFT JOIN documents b ON a.id = b.id"),
        vec![field("id", ScalarType::Int64, false), field("title", ScalarType::Text, true)]
    );
}

#[test]
fn refuses_unknown_names() {
    assert_eq!(refused("SELECT missing FROM documents"), "42703");
    assert_eq!(refused("SELECT id FROM missing"), "42P01");
    assert_eq!(refused("SELECT other.id FROM documents"), "42703");
    assert_eq!(refused("SELECT id FROM nowhere.documents"), "3F000");
    assert_eq!(refused("SELECT id FROM documents a JOIN documents b ON a.id = b.id"), "42702");
    assert_eq!(refused("SELECT 1 AS one FROM documents a JOIN documents a ON true"), "42712");
    assert_eq!(refused("CALL missing()"), "42883");
    assert_eq!(refused("SELECT nextval('missing')"), "42P01");
    let error = refused_in(&catalog_with_documents(), "SELECT id, missing FROM documents");
    assert_eq!(error.message, "column missing does not exist");
    assert_eq!(error.position, Some(12));
}

#[test]
fn refuses_types_that_do_not_fit() {
    assert_eq!(refused("SELECT id FROM documents WHERE title"), "42804");
    assert_eq!(refused("SELECT id FROM documents WHERE id = title"), "42804");
    assert_eq!(refused("SELECT title + 1 FROM documents"), "42804");
    assert_eq!(refused("SELECT -title FROM documents"), "42804");
    assert_eq!(refused("SELECT NOT id FROM documents"), "42804");
    assert_eq!(refused("SELECT sum(title) FROM documents"), "42804");
    assert_eq!(refused("SELECT lower(id) FROM documents"), "42804");
    assert_eq!(refused("SELECT $1"), "42P18");
    assert_eq!(refused("SELECT id FROM documents WHERE id = $1 AND title = $1"), "42804");
    assert_eq!(refused("INSERT INTO documents VALUES ('one', 'two')"), "42804");
    assert_eq!(refused("SELECT id FROM documents UNION SELECT title FROM documents"), "42804");
    assert_eq!(refused("SELECT id FROM documents UNION SELECT id, title FROM documents"), "42601");
}

#[test]
fn aggregates_need_groups() {
    assert_eq!(refused("SELECT id, count(*) FROM documents"), "42803");
    assert_eq!(refused("SELECT id FROM documents WHERE count(*) > 1"), "0A000");
    assert_eq!(refused("SELECT title FROM documents WHERE count(*) > 1 GROUP BY title"), "42803");
    assert!(matches!(
        bound("SELECT title, count(*) FROM documents GROUP BY title HAVING count(*) > 1 ORDER BY title"),
        BoundStatement::AdvancedSelect { aggregate: true, group_by, having: Some(_), .. } if group_by.len() == 1
    ));
}

#[test]
fn parameters_get_the_type_of_their_place() {
    let BoundStatement::Insert { rows, column_indexes, .. } = bound("INSERT INTO documents (title, id) VALUES ($1, $2)") else {
        panic!("insert expected");
    };
    assert_eq!(column_indexes, vec![1, 0]);
    assert_eq!(rows[0][0].data_type, ScalarType::Text);
    assert_eq!(rows[0][1].data_type, ScalarType::Int64);
    let BoundStatement::Update { assignments, .. } = bound("UPDATE documents SET title = $1 WHERE id = $2") else {
        panic!("update expected");
    };
    assert_eq!(assignments[0].0, 1);
    assert_eq!(assignments[0].1.data_type, ScalarType::Text);
    let BoundStatement::ScalarSelect { schema, .. } = bound("SELECT $1::integer AS n, coalesce($2, 'a') AS t") else {
        panic!("scalar select expected");
    };
    assert_eq!(schema, Schema::new(vec![Field::new("n", ScalarType::Int32, true), Field::new("t", ScalarType::Text, false)]));
}

fn unique_index(id: IndexId, column: ColumnId) -> IndexDefinition {
    IndexDefinition {
        id,
        name: Identifier::unquoted("documents_pkey"),
        key_columns: vec![column],
        include_columns: Vec::new(),
        unique: true,
        method: IndexMethod::BTree,
        options: IndexOptions::BTree,
    }
}

#[test]
fn writes_check_their_columns() {
    assert_eq!(refused("INSERT INTO documents (id, id) VALUES (1, 2)"), "42701");
    assert_eq!(refused("INSERT INTO documents (id) VALUES (1, 2)"), "42601");
    assert_eq!(refused("UPDATE documents SET id = 1, id = 2"), "42701");
    assert_eq!(refused("UPDATE documents SET missing = 1"), "42703");
    let mut catalog = catalog_with_documents();
    let index = IndexId(new_id(&mut catalog));
    let key = catalog.schemas[0].tables[0].columns[0].id;
    catalog.schemas[0].tables[0].indexes.push(unique_index(index, key));
    let BoundStatement::Insert { on_conflict: Some(on_conflict), returning: Some(returning), .. } =
        bound_in(&catalog, "INSERT INTO documents VALUES (1, 'a') ON CONFLICT (id) DO UPDATE SET title = excluded.title RETURNING id")
    else {
        panic!("insert expected");
    };
    assert_eq!(on_conflict.target_columns, Some(vec![0]));
    assert!(matches!(&on_conflict.action, BoundConflictAction::DoUpdate { assignments, .. }
        if assignments[0].0 == 1 && assignments[0].1.kind == BoundExprKind::Column { index: 3 }));
    assert_eq!(returning.schema, Schema::new(vec![Field::new("id", ScalarType::Int64, false)]));
}

#[test]
fn merges_bind_both_relations() {
    let mut catalog = catalog_with_documents();
    add_table(&mut catalog, "incoming", vec![("id", ScalarType::Int64, true), ("title", ScalarType::Text, true)]);
    let BoundStatement::Merge(merge) = bound_in(
        &catalog,
        "MERGE INTO documents USING incoming ON documents.id = incoming.id WHEN MATCHED THEN UPDATE SET title = incoming.title WHEN NOT MATCHED THEN INSERT (id, title) VALUES (incoming.id, incoming.title)",
    ) else {
        panic!("merge expected");
    };
    assert_eq!((merge.target.offset, merge.source.offset), (0, 2));
    assert!(matches!(&merge.clauses[0].action, BoundMergeAction::Update { assignments } if assignments[0].1.kind == BoundExprKind::Column { index: 3 }));
    assert!(matches!(&merge.clauses[1].action, BoundMergeAction::Insert { column_indexes, .. } if *column_indexes == vec![0, 1]));
}

#[test]
fn queries_name_each_object_once_in_order() {
    let mut catalog = catalog_with_documents();
    let second = add_table(&mut catalog, "second", vec![("id", ScalarType::Int64, true)]);
    let first = catalog.schemas[0].tables[0].id;
    let statement = bound_in(
        &catalog,
        "SELECT s.id FROM second s JOIN documents d ON d.id = s.id WHERE EXISTS (SELECT 1 FROM second) UNION SELECT id FROM documents",
    );
    assert_eq!(bound_statement_references(&statement), vec![CatalogObjectRef::Table(first), CatalogObjectRef::Table(second)]);
}

#[test]
fn common_table_expressions_are_relations() {
    let BoundStatement::With { ctes, schema, .. } =
        bound("WITH RECURSIVE c (n) AS (SELECT id FROM documents UNION ALL SELECT n + 1 FROM c) SELECT n FROM c")
    else {
        panic!("with expected");
    };
    assert_eq!(ctes.len(), 1);
    assert!(ctes[0].recursive.is_some() && ctes[0].union_all);
    assert_eq!(schema, Schema::new(vec![Field::new("n", ScalarType::Int64, false)]));
    let BoundStatement::With { ctes, .. } = bound("WITH a AS (SELECT id FROM documents), b AS (SELECT id FROM a) SELECT a.id FROM a JOIN b ON a.id = b.id") else {
        panic!("with expected");
    };
    assert_eq!(ctes.len(), 2);
}

#[test]
fn derived_tables_may_look_sideways() {
    let BoundStatement::AdvancedSelect { joins, schema, .. } =
        bound("SELECT d.id, q.n FROM documents d JOIN LATERAL (SELECT d.id + 1 AS n FROM documents LIMIT 1) AS q ON true")
    else {
        panic!("query expected");
    };
    assert!(matches!(&joins[0].source, BoundJoinSource::Derived { lateral: true, width: 1, offset: 2, .. }));
    assert_eq!(schema.fields[1], Field::new("n", ScalarType::Int64, false));
    assert_eq!(
        refused("SELECT d.id FROM documents d JOIN (SELECT d.id + 1 AS n FROM documents LIMIT 1) AS q ON true"),
        "42703"
    );
}

#[test]
fn subqueries_become_applies() {
    let BoundStatement::AdvancedSelect { applies, filter: Some(filter), .. } =
        bound("SELECT id FROM documents WHERE id = (SELECT max(id) FROM documents) AND title NOT IN (SELECT title FROM documents)")
    else {
        panic!("query expected");
    };
    assert_eq!(applies.len(), 2);
    assert!(matches!(applies[0].kind, BoundApplyKind::Scalar));
    assert!(matches!(applies[1].kind, BoundApplyKind::In { negated: true, .. }));
    assert!(reads_apply(&filter));
}

fn reads_apply(expr: &BoundExpr) -> bool {
    match &expr.kind {
        BoundExprKind::ApplyValue { .. } => true,
        BoundExprKind::Binary { left, right, .. } => reads_apply(left) || reads_apply(right),
        _ => false,
    }
}

#[test]
fn windows_fill_slots_behind_the_inputs() {
    let BoundStatement::AdvancedSelect { windows, projection, .. } =
        bound("SELECT id, row_number() OVER w, sum(id) OVER (w ROWS UNBOUNDED PRECEDING) FROM documents WINDOW w AS (ORDER BY id)")
    else {
        panic!("query expected");
    };
    assert_eq!(windows.len(), 2);
    assert_eq!((windows[0].value_index, windows[1].value_index), (2, 3));
    assert!(windows[1].frame.is_some() && windows[1].order_by.len() == 1);
    assert_eq!(projection[1].expr.kind, BoundExprKind::ApplyValue { index: 2 });
    assert_eq!(refused("SELECT id FROM documents WHERE row_number() OVER () = 1"), "42P20");
    let error = parse("SELECT rank() OVER missing FROM documents").expect_err("unknown window");
    assert_eq!(error.sql_state, "42704");
}

#[test]
fn views_give_their_output() {
    let mut catalog = catalog_with_documents();
    let id = ViewId(new_id(&mut catalog));
    catalog.schemas[0].views.push(ViewDefinition {
        id,
        name: Identifier::unquoted("titles"),
        kind: ViewKind::Regular,
        query: "SELECT title FROM documents".to_owned(),
        output: Schema::new(vec![Field::new("title", ScalarType::Text, false)]),
        materialized_table_id: None,
        populated: true,
        triggers: Vec::new(),
    });
    let statement = bound_in(&catalog, "SELECT title FROM titles");
    assert!(matches!(&statement, BoundStatement::ViewSelect { view_id, projection, .. } if *view_id == id && *projection == vec![0]));
    assert_eq!(bound_statement_references(&statement), vec![CatalogObjectRef::View(id)]);
    assert_eq!(refused_in(&catalog, "DELETE FROM titles").sql_state, "55000");
}

#[test]
fn session_functions_become_constants() {
    let mut settings = SessionSettings::new();
    settings.insert("search_path".to_owned(), "other".to_owned());
    settings.insert("timezone".to_owned(), "UTC".to_owned());
    settings.insert("search_path".to_owned(), "public".to_owned());
    assert_eq!(settings.get("timezone").as_deref(), Some("UTC"));
    assert_eq!(settings.get("missing"), None);
    let session = SessionBindValues {
        version: "OrdaDB 1",
        current_database: "main",
        current_user: "ada",
        session_user: "root",
        settings: &settings,
    };
    let parsed = parse("SELECT version(), current_database(), current_user, session_user, current_setting('Search_Path'), current_setting('x', true)")
        .expect("parse session functions");
    let BoundStatement::ScalarSelect { projection, .. } = bind_with_session(parsed, &empty_catalog(), session).expect("bind session functions") else {
        panic!("scalar select expected");
    };
    let values: Vec<&BoundExprKind> = projection.iter().map(|item| &item.expr.kind).collect();
    for (value, expected) in values.iter().zip(["OrdaDB 1", "main", "ada", "root", "public"]) {
        assert_eq!(**value, BoundExprKind::Literal(Value::Text(expected.to_owned())));
    }
    assert_eq!(*values[5], BoundExprKind::Literal(Value::Null));
    let parsed = parse("SELECT current_setting('x')").expect("parse setting");
    let session = SessionBindValues { version: "", current_database: "", current_user: "", session_user: "", settings: &settings };
    assert_eq!(bind_with_session(parsed, &empty_catalog(), session).expect_err("unknown setting").sql_state, "42704");
    let parsed = parse("SELECT current_user").expect("parse user");
    assert!(matches!(
        bind(parsed, &empty_catalog()),
        Ok(BoundStatement::ScalarSelect { projection, .. }) if matches!(projection[0].expr.kind, BoundExprKind::Function { .. })
    ));
}

#[test]
fn stored_expressions_bind_against_their_table() {
    let mut catalog = catalog_with_documents();
    let type_id = TypeId(new_id(&mut catalog));
    catalog.schemas[0].types.push(TypeDefinition {
        id: type_id,
        name: Identifier::unquoted("mood"),
        definition: UserDefinedTypeKind::Enum { labels: vec!["ok".to_owned()] },
    });
    let table = &catalog.schemas[0].tables[0];
    let check = CatalogExpression { sql: "id > 0 AND POSITION('a' IN title) > 0".to_owned() };
    let bound = bind_catalog_expression(&check, Some(table), Some(&ScalarType::Boolean)).expect("bind check");
    assert_eq!(bound.data_type, ScalarType::Boolean);
    assert_eq!(bind_catalog_expression(&check, None, None).expect_err("no table").sql_state, "42703");
    let trailing = CatalogExpression { sql: "1 2".to_owned() };
    let error = bind_catalog_expression(&trailing, None, None).expect_err("trailing text");
    assert_eq!((error.sql_state.as_str(), error.message.as_str()), ("42601", "catalog expression contains trailing SQL"));
    let named = CatalogExpression { sql: "'ok'::mood".to_owned() };
    let mood = ScalarType::Enum { type_id, labels: vec!["ok".to_owned()] };
    assert_eq!(bind_catalog_expression_with_catalog(&named, None, None, &catalog).expect("bind enum").data_type, mood);
    let parameters = BTreeMap::from([(1usize, ScalarType::Int32)]);
    let sum = CatalogExpression { sql: "$1 + 1".to_owned() };
    let bound = bind_catalog_expression_with_parameter_types(&sum, None, None, &parameters).expect("bind parameter");
    assert_eq!(bound.data_type, ScalarType::Int32);
    assert!(bind_catalog_expression_with_parameter_types_and_catalog(&named, None, None, &parameters, Some(&catalog)).is_ok());
}

#[test]
fn sequences_and_routines_bind_by_name() {
    let mut catalog = catalog_with_documents();
    let routine_id = RoutineId(new_id(&mut catalog));
    catalog.schemas[0].routines.push(RoutineDefinition {
        id: routine_id,
        name: Identifier::unquoted("area"),
        kind: RoutineKind::Function,
        arguments: vec![RoutineArgument {
            name: Some(Identifier::unquoted("side")),
            data_type: ScalarType::Int64,
            declared_type: None,
            mode: RoutineArgumentMode::In,
        }],
        return_type: Some(ScalarType::Int64),
        return_declared_type: None,
        returns_set: false,
        language: "plpgsql".to_owned(),
        body: "BEGIN RETURN side * side; END".to_owned(),
    });
    assert!(matches!(
        bound_in(&catalog, "SELECT area(3)"),
        BoundStatement::RoutineSelect { routine_id: id, arguments, schema, returns_set: false } if id == routine_id && arguments.len() == 1
            && schema.fields[0].data_type == ScalarType::Int64
    ));
    assert_eq!(refused_in(&catalog, "SELECT area('x', 1)").sql_state, "42883");
    assert!(matches!(bound_in(&catalog, "DROP FUNCTION area(bigint)"), BoundStatement::DropRoutine { routine_id: id, .. } if id == routine_id));
    let sequences: &Vec<SequenceDefinition> = &catalog.schemas[0].sequences;
    assert!(sequences.is_empty());
}

#[test]
fn definitions_check_the_catalog() {
    assert_eq!(refused("CREATE TABLE t (a INT, a INT)"), "42701");
    assert_eq!(refused("CREATE TABLE t (a missing)"), "42704");
    assert_eq!(refused("CREATE INDEX i ON documents (missing)"), "42703");
    assert_eq!(refused("ALTER TABLE missing ADD COLUMN a INT"), "42P01");
    assert_eq!(refused("DROP TABLE missing"), "42P01");
    assert!(matches!(bound("DROP TABLE IF EXISTS missing"), BoundStatement::NoOp { tag } if tag == "DROP TABLE"));
    assert!(matches!(bound("ALTER TABLE IF EXISTS missing ADD COLUMN a INT"), BoundStatement::NoOp { .. }));
    let BoundStatement::CreateTable { constraints, columns, .. } =
        bound("CREATE TABLE orders (id BIGINT PRIMARY KEY, doc BIGINT REFERENCES documents(id) ON DELETE CASCADE, CHECK (id > 0))")
    else {
        panic!("table expected");
    };
    assert_eq!(columns.len(), 2);
    assert_eq!(constraints.len(), 2);
    assert!(columns[0].primary_key);
}

#[test]
fn numeric_types_have_ranks() {
    use_order(&ScalarType::Int16, &ScalarType::Int32);
    use_order(&ScalarType::Int32, &ScalarType::Int64);
    use_order(&ScalarType::Float32, &ScalarType::Float64);
    assert_eq!(compare_scalar_types(&ScalarType::Text, &ScalarType::Boolean), std::cmp::Ordering::Equal);
}

fn use_order(small: &ScalarType, large: &ScalarType) {
    assert_eq!(compare_scalar_types(small, large), std::cmp::Ordering::Less);
    assert_eq!(compare_scalar_types(large, small), std::cmp::Ordering::Greater);
}

fn call(function: ScalarFunction, arguments: Vec<ParsedExpr>) -> Result<BoundExpr, DbError> {
    let expr = ParsedExpr { kind: ParsedExprKind::Function { function, arguments }, position: None };
    bind_expr_with_parameter_types(&expr, None, None, &BTreeMap::new())
}

#[test]
fn calls_read_no_more_arguments_than_their_type_needs() {
    let array = ParsedExpr {
        kind: ParsedExprKind::Array {
            elements: vec![ParsedExpr { kind: ParsedExprKind::Literal(Value::Int32(1)), position: None }],
            dimensions: Vec::new(),
        },
        position: None,
    };
    assert_eq!(call(ScalarFunction::ArrayLength, vec![array]).expect("one argument").data_type, ScalarType::Int32);
    assert_eq!(call(ScalarFunction::Substring, Vec::new()).expect("no argument").data_type, ScalarType::Text);
    assert_eq!(call(ScalarFunction::Strpos, Vec::new()).expect("no argument").data_type, ScalarType::Int32);
    assert_eq!(call(ScalarFunction::Coalesce, Vec::new()).expect_err("no argument").sql_state, "42883");
    assert!(call(ScalarFunction::Lower, Vec::new()).is_err());
    assert!(call(ScalarFunction::Abs, Vec::new()).is_err());
}

#[test]
fn candidates_pair_arguments_up_to_the_shorter_list() {
    let argument = |position: usize| ParsedExpr { kind: ParsedExprKind::Literal(Value::Int32(1)), position: Some(position) };
    let expected = vec![RoutineArgument {
        name: None,
        data_type: ScalarType::Int64,
        declared_type: None,
        mode: RoutineArgumentMode::In,
    }];
    let found = bind_routine_candidate(&vec![argument(1), argument(2)], &expected, &empty_catalog()).expect("candidate");
    assert!(matches!(found, Some((bound, 0)) if bound.len() == 1 && bound[0].data_type == ScalarType::Int64));
    let found = bind_routine_candidate(&Vec::new(), &expected, &empty_catalog()).expect("candidate");
    assert!(matches!(found, Some((bound, 0)) if bound.is_empty()));
}
