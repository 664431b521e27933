//! CREATE INDEX.

use vstd::prelude::*;

use crate::bound::{BoundStatement, BoundStatementView};
use crate::catalog::{
    find_column, find_index_in, Catalog, CatalogView, FullTextAnalyzer, IndexMethod, IndexOptions, NewIndex, NewIndexView, TableDefinition,
    TableDefinitionView, VectorDistanceMetric, ViewKind,
};
use crate::dml::{conflict_ids, contains_id, find_column_ids};
use crate::grouping::check_result;
use crate::names::{no_object, no_schema, no_such_object, no_such_schema, split_name, split_table_name};
use crate::scope::{no_such_column, Checked};
use crate::syntax::{
    ParsedCreateIndex, ParsedCreateIndexView, ParsedIdentifier, ParsedIdentifierView, ParsedIndexOption, ParsedIndexOptionValue,
    ParsedIndexOptionValueView, ParsedIndexOptionView, ParsedObjectName, ParsedObjectNameView,
};
use crate::text::{characters, lower, same_ignoring_case, same_text, text, text2, text3, text4};
use crate::types::{
    error, error_at, internal_error, unsupported, unsupported_at, unsupported_error, ColumnId, DATATYPE_MISMATCH, DbError, Identifier,
    Result, SYNTAX_ERROR, ScalarType, ScalarTypeView, UNDEFINED_TABLE,
};
use crate::typing::{indexable_type, orderable, searchable, text_search_type};

verus! {

/// Whether a text stands before another in the order of its characters, from a
/// position on.
pub open spec fn before(a: Seq<char>, b: Seq<char>, i: int) -> bool
    decreases a.len() - i,
{
    if i < 0 || i >= b.len() {
        false
    } else if i >= a.len() {
        true
    } else if a[i] == b[i] {
        before(a, b, i + 1)
    } else {
        a[i] < b[i]
    }
}

fn is_before(a: &str, b: &str) -> (r: bool)
    ensures
        r == before(a@, b@, 0),
{
    let x = characters(a);
    let y = characters(b);
    let mut i: usize = 0;
    while i < x.len()
        invariant
            x@ == a@,
            y@ == b@,
            i <= x.len(),
            before(a@, b@, 0) == before(a@, b@, i as int),
        decreases x.len() - i,
    {
        if i >= y.len() {
            return false;
        }
        if x[i] != y[i] {
            return x[i] < y[i];
        }
        i += 1;
    }
    i < y.len()
}

/// The first setting of a name, from a position on.
pub open spec fn option_place(l: Seq<ParsedIndexOptionView>, name: Seq<char>, i: int) -> Option<usize>
    decreases l.len() - i,
{
    if i < 0 || i >= l.len() {
        None
    } else if l[i].name.name == name {
        Some(i as usize)
    } else {
        option_place(l, name, i + 1)
    }
}

/// Finds the first setting of a name.
fn find_option(l: &Vec<ParsedIndexOption>, name: &str, from: usize) -> (r: Option<usize>)
    ensures
        r == option_place(ParsedIndexOption::views(l@), name@, from as int),
        r matches Some(k) ==> from <= k < l.len(),
{
    let ghost v = ParsedIndexOption::views(l@);
    let mut i: usize = from;
    while i < l.len()
        invariant
            from <= i,
            v == ParsedIndexOption::views(l@),
            option_place(v, name@, from as int) == option_place(v, name@, i as int),
        decreases l.len() - i,
    {
        assert(v[i as int] == l@[i as int]@);
        if same_text(l[i].name.name.as_str(), name) {
            return Some(i);
        }
        i += 1;
    }
    None
}

/// Whether every setting from a position on is given once.
pub open spec fn options_distinct(l: Seq<ParsedIndexOptionView>, i: int) -> Checked<()>
    decreases l.len() - i,
{
    if i < 0 || i >= l.len() {
        Ok(())
    } else if option_place(l, l[i].name.name, 0) != Some(i as usize) {
        Err(error("42701"@, "index option "@ + l[i].name.name + " specified more than once"@))
    } else {
        options_distinct(l, i + 1)
    }
}

/// Checks that every setting is given once.
pub fn collect_index_options(l: &Vec<ParsedIndexOption>) -> (r: Result<()>)
    ensures
        check_result(r) == options_distinct(ParsedIndexOption::views(l@), 0),
{
    let ghost v = ParsedIndexOption::views(l@);
    for i in 0..l.len()
        invariant
            v == ParsedIndexOption::views(l@),
            options_distinct(v, 0) == options_distinct(v, i as int),
    {
        assert(v[i as int] == l@[i as int]@);
        let name = l[i].name.name.as_str();
        if find_option(l, name, 0) != Some(i) {
            return Err(DbError::new("42701", text3("index option ", name, " specified more than once")));
        }
    }
    Ok(())
}

/// The text of a setting.
pub open spec fn text_option(l: Seq<ParsedIndexOptionView>, name: Seq<char>) -> Checked<Option<(Seq<char>, Option<usize>)>> {
    match option_place(l, name, 0) {
        None => Ok(None),
        Some(k) => match l[k as int].value {
            ParsedIndexOptionValueView::Text(value) => Ok(Some((value, l[k as int].name.position))),
            ParsedIndexOptionValueView::Integer(_) => Err(
                error_at("22023"@, "index option "@ + name + " requires a string value"@, l[k as int].name.position),
            ),
        },
    }
}

fn take_text_index_option<'a>(l: &'a Vec<ParsedIndexOption>, name: &str) -> (r: Result<Option<(&'a str, Option<usize>)>>)
    ensures
        (match r {
            Ok(Some(p)) => Ok(Some((p.0@, p.1))),
            Ok(None) => Ok(None),
            Err(e) => Err(e@),
        }) == text_option(ParsedIndexOption::views(l@), name@),
{
    match find_option(l, name, 0) {
        None => Ok(None),
        Some(k) => {
            assert(ParsedIndexOption::views(l@)[k as int] == l@[k as int]@);
            match &l[k].value {
                ParsedIndexOptionValue::Text(value) => Ok(Some((value.as_str(), l[k].name.position))),
                ParsedIndexOptionValue::Integer(_) => Err(
                    DbError::at("22023", text3("index option ", name, " requires a string value"), l[k].name.position),
                ),
            }
        },
    }
}

/// The number of a setting.
pub open spec fn integer_option(l: Seq<ParsedIndexOptionView>, name: Seq<char>, default: usize) -> Checked<usize> {
    match option_place(l, name, 0) {
        None => Ok(default),
        Some(k) => match l[k as int].value {
            ParsedIndexOptionValueView::Integer(value) => Ok(value),
            ParsedIndexOptionValueView::Text(_) => Err(
                error_at("22023"@, "index option "@ + name + " requires a non-negative integer"@, l[k as int].name.position),
            ),
        },
    }
}

fn take_integer_index_option(l: &Vec<ParsedIndexOption>, name: &str, default: usize) -> (r: Result<usize>)
    ensures
        (match r {
            Ok(n) => Ok(n),
            Err(e) => Err(e@),
        }) == integer_option(ParsedIndexOption::views(l@), name@, default),
{
    match find_option(l, name, 0) {
        None => Ok(default),
        Some(k) => {
            assert(ParsedIndexOption::views(l@)[k as int] == l@[k as int]@);
            match &l[k].value {
                ParsedIndexOptionValue::Integer(value) => Ok(*value),
                ParsedIndexOptionValue::Text(_) => Err(
                    DbError::at("22023", text3("index option ", name, " requires a non-negative integer"), l[k].name.position),
                ),
            }
        },
    }
}

/// Whether an index method knows a setting.
pub open spec fn known_option(method: IndexMethod, name: Seq<char>) -> bool {
    match method {
        IndexMethod::BTree => false,
        IndexMethod::FullText => name == "analyzer"@,
        IndexMethod::Hnsw => name == "metric"@ || name == "m"@ || name == "ef_construction"@ || name == "ef_search"@,
    }
}

fn is_known_option(method: IndexMethod, name: &str) -> (r: bool)
    ensures
        r == known_option(method, name@),
{
    match method {
        IndexMethod::BTree => false,
        IndexMethod::FullText => same_text(name, "analyzer"),
        IndexMethod::Hnsw => same_text(name, "metric") || same_text(name, "m") || same_text(name, "ef_construction") || same_text(
            name,
            "ef_search",
        ),
    }
}

/// Of the settings from a position on that an index method does not know, and one
/// found before, the one whose name comes first.
pub open spec fn first_unknown(l: Seq<ParsedIndexOptionView>, method: IndexMethod, i: int, found: Option<usize>) -> Option<usize>
    decreases l.len() - i,
{
    if i < 0 || i >= l.len() {
        found
    } else if !known_option(method, l[i].name.name) && (found is None || before(l[i].name.name, l[found->0 as int].name.name, 0)) {
        first_unknown(l, method, i + 1, Some(i as usize))
    } else {
        first_unknown(l, method, i + 1, found)
    }
}

/// Whether an index method knows every setting.
pub open spec fn options_known(l: Seq<ParsedIndexOptionView>, method: IndexMethod, label: Seq<char>) -> Checked<()> {
    match first_unknown(l, method, 0, None) {
        None => Ok(()),
        Some(k) => Err(
            unsupported_error(label + " index option "@ + l[k as int].name.name + " is not supported"@, l[k as int].name.position),
        ),
    }
}

fn reject_remaining_index_options(l: &Vec<ParsedIndexOption>, method: IndexMethod, label: &str) -> (r: Result<()>)
    ensures
        check_result(r) == options_known(ParsedIndexOption::views(l@), method, label@),
{
    let ghost v = ParsedIndexOption::views(l@);
    let mut found: Option<usize> = None;
    for i in 0..l.len()
        invariant
            v == ParsedIndexOption::views(l@),
            found matches Some(k) ==> k < l.len(),
            first_unknown(v, method, 0, None) == first_unknown(v, method, i as int, found),
    {
        assert(v[i as int] == l@[i as int]@);
        let name = l[i].name.name.as_str();
        if !is_known_option(method, name) {
            let better = match found {
                None => true,
                Some(k) => {
                    assert(v[k as int] == l@[k as int]@);
                    is_before(name, l[k].name.name.as_str())
                },
            };
            if better {
                found = Some(i);
            }
        }
    }
    match found {
        None => Ok(()),
        Some(k) => {
            assert(v[k as int] == l@[k as int]@);
            let m = text4(label, " index option ", l[k].name.name.as_str(), " is not supported");
            Err(unsupported_at(m.as_str(), l[k].name.position))
        },
    }
}

/// Whether the key columns from a position on suit a B-tree or a text index.
pub open spec fn keys_suit(l: Seq<ParsedIdentifierView>, table: TableDefinitionView, tree: bool, i: int) -> Checked<()>
    decreases l.len() - i,
{
    if i < 0 || i >= l.len() {
        Ok(())
    } else {
        match find_column(table.columns, l[i].name, 0) {
            None => Err(internal_error("validated index column disappeared"@)),
            Some(c) => if tree && !orderable(c.data_type) {
                Err(error_at(DATATYPE_MISMATCH@, "column "@ + l[i].name + " has no B+Tree ordering"@, l[i].position))
            } else if !tree && !searchable(c.data_type) {
                Err(error_at(DATATYPE_MISMATCH@, "full-text index column "@ + l[i].name + " must be character or text"@, l[i].position))
            } else {
                keys_suit(l, table, tree, i + 1)
            },
        }
    }
}

fn check_keys(l: &Vec<ParsedIdentifier>, table: &TableDefinition, tree: bool) -> (r: Result<()>)
    ensures
        check_result(r) == keys_suit(ParsedIdentifier::views(l@), table@, tree, 0),
{
    let ghost v = ParsedIdentifier::views(l@);
    for i in 0..l.len()
        invariant
            v == ParsedIdentifier::views(l@),
            keys_suit(v, table@, tree, 0) == keys_suit(v, table@, tree, i as int),
    {
        assert(v[i as int] == l@[i as int]@);
        match table.column(&l[i].name) {
            None => {
                return Err(DbError::internal("validated index column disappeared"));
            },
            Some(c) => {
                if tree && !indexable_type(&c.data_type) {
                    return Err(
                        DbError::at(DATATYPE_MISMATCH, text3("column ", l[i].name.as_str(), " has no B+Tree ordering"), l[i].position),
                    );
                }
                if !tree && !text_search_type(&c.data_type) {
                    return Err(
                        DbError::at(
                            DATATYPE_MISMATCH,
                            text3("full-text index column ", l[i].name.as_str(), " must be character or text"),
                            l[i].position,
                        ),
                    );
                }
            },
        }
    }
    Ok(())
}

/// The analyzer of a text index.
pub open spec fn analyzer_of(l: Seq<ParsedIndexOptionView>) -> Checked<FullTextAnalyzer> {
    match text_option(l, "analyzer"@) {
        Err(x) => Err(x),
        Ok(None) => Ok(FullTextAnalyzer::Standard),
        Ok(Some((value, position))) => if lower(value) == lower("standard"@) {
            Ok(FullTextAnalyzer::Standard)
        } else if lower(value) == lower("whitespace"@) {
            Ok(FullTextAnalyzer::Whitespace)
        } else {
            Err(error_at("22023"@, "unsupported full-text analyzer "@ + value, position))
        },
    }
}

fn find_analyzer(l: &Vec<ParsedIndexOption>) -> (r: Result<FullTextAnalyzer>)
    ensures
        (match r {
            Ok(a) => Ok(a),
            Err(e) => Err(e@),
        }) == analyzer_of(ParsedIndexOption::views(l@)),
{
    match take_text_index_option(l, "analyzer")? {
        None => Ok(FullTextAnalyzer::Standard),
        Some((value, position)) => {
            if same_ignoring_case(value, "standard") {
                Ok(FullTextAnalyzer::Standard)
            } else if same_ignoring_case(value, "whitespace") {
                Ok(FullTextAnalyzer::Whitespace)
            } else {
                Err(DbError::at("22023", text2("unsupported full-text analyzer ", value), position))
            }
        },
    }
}

/// The distance metric of a vector index.
pub open spec fn metric_of(l: Seq<ParsedIndexOptionView>) -> Checked<VectorDistanceMetric> {
    match text_option(l, "metric"@) {
        Err(x) => Err(x),
        Ok(None) => Ok(VectorDistanceMetric::Cosine),
        Ok(Some((value, position))) => if lower(value) == lower("cosine"@) {
            Ok(VectorDistanceMetric::Cosine)
        } else if lower(value) == lower("l2"@) || lower(value) == lower("euclidean"@) {
            Ok(VectorDistanceMetric::L2)
        } else if lower(value) == lower("dot"@) {
            Ok(VectorDistanceMetric::Dot)
        } else {
            Err(error_at("22023"@, "unsupported HNSW distance metric "@ + value, position))
        },
    }
}

fn find_metric(l: &Vec<ParsedIndexOption>) -> (r: Result<VectorDistanceMetric>)
    ensures
        (match r {
            Ok(a) => Ok(a),
            Err(e) => Err(e@),
        }) == metric_of(ParsedIndexOption::views(l@)),
{
    match take_text_index_option(l, "metric")? {
        None => Ok(VectorDistanceMetric::Cosine),
        Some((value, position)) => {
            if same_ignoring_case(value, "cosine") {
                Ok(VectorDistanceMetric::Cosine)
            } else if same_ignoring_case(value, "l2") || same_ignoring_case(value, "euclidean") {
                Ok(VectorDistanceMetric::L2)
            } else if same_ignoring_case(value, "dot") {
                Ok(VectorDistanceMetric::Dot)
            } else {
                Err(DbError::at("22023", text2("unsupported HNSW distance metric ", value), position))
            }
        },
    }
}

/// The dimension of the column of a vector index.
pub open spec fn vector_dimensions(column: ParsedIdentifierView, table: TableDefinitionView) -> Checked<usize> {
    match find_column(table.columns, column.name, 0) {
        None => Err(internal_error("validated HNSW column disappeared"@)),
        Some(c) => match c.data_type {
            ScalarTypeView::Vector { dimensions } => match dimensions {
                Some(n) => if n > 0 {
                    Ok(n)
                } else {
                    Err(error_at(DATATYPE_MISMATCH@, "HNSW index column "@ + column.name + " must be VECTOR"@, column.position))
                },
                None => Err(
                    error_at(
                        DATATYPE_MISMATCH@,
                        "HNSW index column "@ + column.name + " requires a fixed VECTOR dimension"@,
                        column.position,
                    ),
                ),
            },
            _ => Err(error_at(DATATYPE_MISMATCH@, "HNSW index column "@ + column.name + " must be VECTOR"@, column.position)),
        },
    }
}

fn find_dimensions(column: &ParsedIdentifier, table: &TableDefinition) -> (r: Result<usize>)
    ensures
        (match r {
            Ok(n) => Ok(n),
            Err(e) => Err(e@),
        }) == vector_dimensions(column@, table@),
{
    let c = match table.column(&column.name) {
        None => {
            return Err(DbError::internal("validated HNSW column disappeared"));
        },
        Some(c) => c,
    };
    match &c.data_type {
        ScalarType::Vector { dimensions: Some(n) } => {
            if *n > 0 {
                return Ok(*n);
            }
        },
        ScalarType::Vector { dimensions: None } => {
            return Err(
                DbError::at(
                    DATATYPE_MISMATCH,
                    text3("HNSW index column ", column.name.as_str(), " requires a fixed VECTOR dimension"),
                    column.position,
                ),
            );
        },
        _ => {},
    }
    Err(DbError::at(DATATYPE_MISMATCH, text3("HNSW index column ", column.name.as_str(), " must be VECTOR"), column.position))
}

/// The settings of a vector index.
#[verifier::opaque]
pub open spec fn hnsw_options(
    table: TableDefinitionView,
    column: ParsedIdentifierView,
    l: Seq<ParsedIndexOptionView>,
) -> Checked<IndexOptions> {
    match vector_dimensions(column, table) {
        Err(x) => Err(x),
        Ok(dimensions) => match metric_of(l) {
            Err(x) => Err(x),
            Ok(metric) => match integer_option(l, "m"@, 16) {
                Err(x) => Err(x),
                Ok(m) => match integer_option(l, "ef_construction"@, 64) {
                    Err(x) => Err(x),
                    Ok(ef_construction) => match integer_option(l, "ef_search"@, 40) {
                        Err(x) => Err(x),
                        Ok(ef_search) => match options_known(l, IndexMethod::Hnsw, "HNSW"@) {
                            Err(x) => Err(x),
                            Ok(_) => if 2 <= m <= 64 && m <= ef_construction <= 4096 && 1 <= ef_search <= 4096 {
                                Ok(IndexOptions::Hnsw { metric, dimensions, m, ef_construction, ef_search })
                            } else {
                                Err(
                                    error(
                                        "22023"@,
                                        "HNSW options require m 2..64, ef_construction m..4096, and ef_search 1..4096"@,
                                    ),
                                )
                            },
                        },
                    },
                },
            },
        },
    }
}

fn bind_hnsw_options(table: &TableDefinition, column: &ParsedIdentifier, l: &Vec<ParsedIndexOption>) -> (r: Result<IndexOptions>)
    ensures
        (match r {
            Ok(o) => Ok(o),
            Err(e) => Err(e@),
        }) == hnsw_options(table@, column@, ParsedIndexOption::views(l@)),
{
    reveal(hnsw_options);
    let dimensions = find_dimensions(column, table)?;
    let metric = find_metric(l)?;
    let m = take_integer_index_option(l, "m", 16)?;
    let ef_construction = take_integer_index_option(l, "ef_construction", 64)?;
    let ef_search = take_integer_index_option(l, "ef_search", 40)?;
    reject_remaining_index_options(l, IndexMethod::Hnsw, "HNSW")?;
    if m < 2 || m > 64 || ef_construction < m || ef_construction > 4096 || ef_search < 1 || ef_search > 4096 {
        return Err(
            DbError::new("22023", text("HNSW options require m 2..64, ef_construction m..4096, and ef_search 1..4096")),
        );
    }
    Ok(IndexOptions::Hnsw { metric, dimensions, m, ef_construction, ef_search })
}

/// The settings of an index.
#[verifier::opaque]
pub open spec fn index_options(
    method: IndexMethod,
    table: TableDefinitionView,
    keys: Seq<ParsedIdentifierView>,
    included: Seq<ParsedIdentifierView>,
    unique: bool,
    l: Seq<ParsedIndexOptionView>,
) -> Checked<IndexOptions> {
    match options_distinct(l, 0) {
        Err(x) => Err(x),
        Ok(_) => match method {
            IndexMethod::BTree => match options_known(l, method, "B-Tree"@) {
                Err(x) => Err(x),
                Ok(_) => match keys_suit(keys, table, true, 0) {
                    Err(x) => Err(x),
                    Ok(_) => Ok(IndexOptions::BTree),
                },
            },
            IndexMethod::FullText => if unique || included.len() > 0 {
                Err(unsupported_error("full-text indexes do not support UNIQUE or INCLUDE"@, None))
            } else {
                match keys_suit(keys, table, false, 0) {
                    Err(x) => Err(x),
                    Ok(_) => match analyzer_of(l) {
                        Err(x) => Err(x),
                        Ok(analyzer) => match options_known(l, method, "full-text"@) {
                            Err(x) => Err(x),
                            Ok(_) => Ok(IndexOptions::FullText { analyzer }),
                        },
                    },
                }
            },
            IndexMethod::Hnsw => if unique || included.len() > 0 || keys.len() != 1 {
                Err(unsupported_error("HNSW indexes require one VECTOR column and do not support UNIQUE or INCLUDE"@, None))
            } else {
                hnsw_options(table, keys[0], l)
            },
        },
    }
}

/// Binds the settings of an index.
pub fn bind_index_options(
    method: IndexMethod,
    table: &TableDefinition,
    key_columns: &Vec<ParsedIdentifier>,
    include_columns: &Vec<ParsedIdentifier>,
    unique: bool,
    options: &Vec<ParsedIndexOption>,
) -> (r: Result<IndexOptions>)
    ensures
        (match r {
            Ok(o) => Ok(o),
            Err(e) => Err(e@),
        }) == index_options(
            method,
            table@,
            ParsedIdentifier::views(key_columns@),
            ParsedIdentifier::views(include_columns@),
            unique,
            ParsedIndexOption::views(options@),
        ),
{
    reveal(index_options);
    collect_index_options(options)?;
    match method {
        IndexMethod::BTree => {
            reject_remaining_index_options(options, method, "B-Tree")?;
            check_keys(key_columns, table, true)?;
            Ok(IndexOptions::BTree)
        },
        IndexMethod::FullText => {
            if unique || include_columns.len() > 0 {
                return Err(unsupported("full-text indexes do not support UNIQUE or INCLUDE"));
            }
            check_keys(key_columns, table, false)?;
            let analyzer = find_analyzer(options)?;
            reject_remaining_index_options(options, method, "full-text")?;
            Ok(IndexOptions::FullText { analyzer })
        },
        IndexMethod::Hnsw => {
            if unique || include_columns.len() > 0 || key_columns.len() != 1 {
                return Err(unsupported("HNSW indexes require one VECTOR column and do not support UNIQUE or INCLUDE"));
            }
            assert(ParsedIdentifier::views(key_columns@)[0] == key_columns@[0]@);
            bind_hnsw_options(table, &key_columns[0], options)
        },
    }
}

/// The table that an index is created on: a table, or the one behind a
/// materialized view.
#[verifier::opaque]
pub open spec fn index_relation(name: ParsedObjectNameView, catalog: CatalogView) -> Checked<TableDefinitionView> {
    match split_name(name) {
        Err(x) => Err(x),
        Ok(s) => if catalog.schema(s.schema) is None {
            Err(no_schema(s.schema, s.position))
        } else {
            match (catalog.table(s.schema, s.name), catalog.view_of(s.schema, s.name)) {
                (Some(t), _) => Ok(t),
                (None, Some(v)) => if v.kind != ViewKind::Materialized {
                    Err(error_at("42809"@, "cannot create an index on regular view "@ + s.schema + "."@ + s.name, s.position))
                } else {
                    match v.materialized_table_id {
                        None => Err(internal_error("materialized view is missing its backing table"@)),
                        Some(id) => match catalog.table_by_id(id) {
                            None => Err(internal_error("materialized view backing table is absent from the catalog"@)),
                            Some(t) => Ok(t),
                        },
                    }
                },
                (None, None) => Err(no_object(UNDEFINED_TABLE@, "relation "@, s.schema, s.name, s.position)),
            }
        },
    }
}

/// Finds the table that an index is created on.
pub fn resolve_index_relation<'a>(name: &ParsedObjectName, catalog: &'a Catalog) -> (r: Result<&'a TableDefinition>)
    ensures
        (match r {
            Ok(t) => Ok(t@),
            Err(e) => Err(e@),
        }) == index_relation(name@, catalog@),
{
    reveal(index_relation);
    let (schema, relation, position) = split_table_name(name)?;
    if catalog.schema(&schema).is_none() {
        return Err(no_such_schema(&schema, position));
    }
    if let Some(t) = catalog.table(&schema, &relation) {
        return Ok(t);
    }
    if let Some(v) = catalog.view_named(&schema, &relation) {
        if v.kind != ViewKind::Materialized {
            let m = text4("cannot create an index on regular view ", schema.as_str(), ".", relation.as_str());
            return Err(DbError::at("42809", m, position));
        }
        return match v.materialized_table_id {
            None => Err(DbError::internal("materialized view is missing its backing table")),
            Some(id) => match catalog.table_by_id(id) {
                None => Err(DbError::internal("materialized view backing table is absent from the catalog")),
                Some(t) => Ok(t),
            },
        };
    }
    Err(no_such_object(UNDEFINED_TABLE, "relation ", &schema, &relation, position))
}

/// The names of identifiers.
pub open spec fn names_of(l: Seq<ParsedIdentifierView>) -> Seq<Seq<char>> {
    Seq::new(l.len(), |i: int| l[i].name)
}

/// Copies the names of identifiers.
pub fn copy_names(l: &Vec<ParsedIdentifier>) -> (r: Vec<Identifier>)
    ensures
        Identifier::views(r@) == names_of(ParsedIdentifier::views(l@)),
{
    let mut out: Vec<Identifier> = Vec::new();
    for i in 0..l.len()
        invariant
            out.len() == i,
            forall|k: int| 0 <= k < i ==> out@[k]@ == l@[k]@.name,
    {
        out.push(l[i].name.clone());
    }
    assert(Identifier::views(out@) =~= names_of(ParsedIdentifier::views(l@)));
    out
}

/// Whether the columns of an index exist and are named once: first the key columns,
/// then the included ones.
pub open spec fn columns_of_index(
    keys: Seq<ParsedIdentifierView>,
    included: Seq<ParsedIdentifierView>,
    table: TableDefinitionView,
) -> Checked<
    Seq<ColumnId>,
> {
    match conflict_ids(keys, table, 0, Seq::empty()) {
        Err(x) => Err(x),
        Ok(ids) => conflict_ids(included, table, 0, ids),
    }
}

fn check_index_columns(
    keys: &Vec<ParsedIdentifier>,
    included: &Vec<ParsedIdentifier>,
    table: &TableDefinition,
) -> (r: Result<Vec<ColumnId>>)
    ensures
        (match r {
            Ok(x) => Ok(x@),
            Err(x) => Err(x@),
        }) == columns_of_index(ParsedIdentifier::views(keys@), ParsedIdentifier::views(included@), table@),
{
    let mut ids: Vec<ColumnId> = find_column_ids(keys, table)?;
    let ghost v = ParsedIdentifier::views(included@);
    let ghost k = ParsedIdentifier::views(keys@);
    for i in 0..included.len()
        invariant
            v == ParsedIdentifier::views(included@),
            k == ParsedIdentifier::views(keys@),
            columns_of_index(k, v, table@) == conflict_ids(v, table@, i as int, ids@),
    {
        assert(v[i as int] == included@[i as int]@);
        let part = &included[i];
        match table.column(&part.name) {
            None => {
                return Err(no_such_column(&part.name, part.position));
            },
            Some(c) => {
                if contains_id(&ids, c.id) {
                    return Err(DbError::at("42701", text3("column ", part.name.as_str(), " specified more than once"), part.position));
                }
                ids.push(c.id);
            },
        }
    }
    Ok(ids)
}

/// The bound form of CREATE INDEX.
#[verifier::opaque]
pub open spec fn create_index_of(index: ParsedCreateIndexView, catalog: CatalogView) -> Checked<BoundStatementView> {
    match index_relation(index.table, catalog) {
        Err(x) => Err(x),
        Ok(table) => match catalog.schema_by_id(table.schema_id) {
            None => Err(internal_error("index owner schema disappeared"@)),
            Some(schema) => if find_index_in(schema.tables, index.name.name, 0) is Some {
                if index.if_not_exists {
                    Ok(BoundStatementView::NoOp { tag: "CREATE INDEX"@ })
                } else {
                    Err(error_at("42P07"@, "relation "@ + index.name.name + " already exists"@, index.name.position))
                }
            } else if index.key_columns.len() == 0 {
                Err(error(SYNTAX_ERROR@, "CREATE INDEX requires at least one key column"@))
            } else {
                match columns_of_index(index.key_columns, index.include_columns, table) {
                    Err(x) => Err(x),
                    Ok(_) => match index_options(
                        index.method,
                        table,
                        index.key_columns,
                        index.include_columns,
                        index.unique,
                        index.options,
                    ) {
                        Err(x) => Err(x),
                        Ok(options) => Ok(
                            BoundStatementView::CreateIndex {
                                table_id: table.id,
                                index: NewIndexView {
                                    name: index.name.name,
                                    key_columns: names_of(index.key_columns),
                                    include_columns: names_of(index.include_columns),
                                    unique: index.unique,
                                    method: index.method,
                                    options,
                                },
                                if_not_exists: index.if_not_exists,
                            },
                        ),
                    },
                }
            },
        },
    }
}

/// The contents of a bound statement or of an error.
pub open spec fn bound_result(r: Result<BoundStatement>) -> Checked<BoundStatementView> {
    match r {
        Ok(s) => Ok(s@),
        Err(e) => Err(e@),
    }
}

/// Builds a bound statement.
pub fn make_bound_statement(s: BoundStatement) -> (r: BoundStatement)
    ensures
        r == s,
        r@ == s.shape(),
{
    proof {
        s.unfold();
    }
    s
}

/// Binds CREATE INDEX.
pub fn bind_create_index(index: &ParsedCreateIndex, catalog: &Catalog) -> (r: Result<BoundStatement>)
    ensures
        bound_result(r) == create_index_of(index@, catalog@),
{
    reveal(create_index_of);
    let table = resolve_index_relation(&index.table, catalog)?;
    let schema = match catalog.schema_by_id(table.schema_id) {
        Some(s) => s,
        None => {
            return Err(DbError::internal("index owner schema disappeared"));
        },
    };
    if schema.index(&index.name.name).is_some() {
        if index.if_not_exists {
            return Ok(make_bound_statement(BoundStatement::NoOp { tag: text("CREATE INDEX") }));
        }
        return Err(
            DbError::at("42P07", text3("relation ", index.name.name.as_str(), " already exists"), index.name.position),
        );
    }
    if index.key_columns.len() == 0 {
        return Err(DbError::new(SYNTAX_ERROR, text("CREATE INDEX requires at least one key column")));
    }
    check_index_columns(&index.key_columns, &index.include_columns, table)?;
    let options = bind_index_options(
        index.method,
        table,
        &index.key_columns,
        &index.include_columns,
        index.unique,
        &index.options,
    )?;
    Ok(
        make_bound_statement(
            BoundStatement::CreateIndex {
                table_id: table.id,
                index: NewIndex {
                    name: index.name.name.clone(),
                    key_columns: copy_names(&index.key_columns),
                    include_columns: copy_names(&index.include_columns),
                    unique: index.unique,
                    method: index.method,
                    options,
                },
                if_not_exists: index.if_not_exists,
            },
        ),
    )
}

} // verus!
