//! Where column and parameter references are looked up.

use std::collections::BTreeMap;

use vstd::prelude::*;

use crate::bound::{BoundExpr, BoundExprKind, BoundExprKindView, BoundExprView};
use crate::catalog::{find_column_index, ColumnDefinition, TableDefinition, TableDefinitionView};
use crate::syntax::{ParsedIdentifier, ParsedIdentifierView, ParsedObjectName, ParsedObjectNameView};
use crate::text::{text, text2, text3};
use crate::types::{
    error_at, unsupported_at, unsupported_error, DbError, DbErrorView, Identifier, Result, ScalarType, ScalarTypeView, UNDEFINED_COLUMN,
    UNDEFINED_TABLE,
};

verus! {

/// The outcome of a fallible rule.
pub type Checked<T> = std::result::Result<T, DbErrorView>;

/// A column that expressions of a query can name.
#[derive(Debug)]
pub struct InputColumn {
    pub binding: Identifier,
    pub name: Identifier,
    pub index: usize,
    pub data_type: ScalarType,
    pub nullable: bool,
    pub outer_depth: usize,
}

/// Mathematical contents of an [`InputColumn`].
pub struct InputColumnView {
    pub binding: Seq<char>,
    pub name: Seq<char>,
    pub index: usize,
    pub data_type: ScalarTypeView,
    pub nullable: bool,
    pub outer_depth: usize,
}

impl InputColumn {
    /// The value as mathematical data.
    pub open spec fn view(&self) -> InputColumnView {
        InputColumnView {
            binding: self.binding@,
            name: self.name@,
            index: self.index,
            data_type: self.data_type@,
            nullable: self.nullable,
            outer_depth: self.outer_depth,
        }
    }

    /// The contents of each value of a sequence.
    pub open spec fn views(l: Seq<InputColumn>) -> Seq<InputColumnView> {
        Seq::new(l.len(), |i: int| l[i]@)
    }
}

impl Clone for InputColumn {
    fn clone(&self) -> (r: Self)
        ensures
            r@ == self@,
    {
        InputColumn {
            binding: self.binding.clone(),
            name: self.name.clone(),
            index: self.index,
            data_type: self.data_type.clone(),
            nullable: self.nullable,
            outer_depth: self.outer_depth,
        }
    }
}

/// The names that an expression can use: the columns of one table together with
/// declared parameters, or the columns of a whole FROM clause.
#[derive(Debug, Clone, Copy)]
pub enum Scope<'a> {
    Table { table: Option<&'a TableDefinition>, parameters: &'a BTreeMap<usize, ScalarType> },
    Inputs { inputs: &'a Vec<InputColumn>, aggregates: bool },
}

/// Mathematical contents of a [`Scope`].
pub enum ScopeView {
    Table { table: Option<TableDefinitionView>, parameters: Map<usize, ScalarTypeView> },
    Inputs { inputs: Seq<InputColumnView>, aggregates: bool },
}

/// The contents of declared parameter types.
pub open spec fn parameter_views(m: Map<usize, ScalarType>) -> Map<usize, ScalarTypeView> {
    m.map_values(|t: ScalarType| t@)
}

/// The contents of an optional table.
pub open spec fn table_view(t: Option<&TableDefinition>) -> Option<TableDefinitionView> {
    match t {
        Some(t) => Some(t@),
        None => None,
    }
}

impl<'a> Scope<'a> {
    /// The value as mathematical data.
    pub open spec fn view(&self) -> ScopeView {
        match *self {
            Scope::Table { table, parameters } => ScopeView::Table { table: table_view(table), parameters: parameter_views(parameters@) },
            Scope::Inputs { inputs, aggregates } => ScopeView::Inputs { inputs: InputColumn::views(inputs@), aggregates },
        }
    }
}

impl ScopeView {
    /// The declared type of a parameter.
    pub open spec fn parameter(self, index: usize) -> Option<ScalarTypeView> {
        match self {
            ScopeView::Table { parameters, .. } => if parameters.dom().contains(index) {
                Some(parameters[index])
            } else {
                None
            },
            ScopeView::Inputs { .. } => None,
        }
    }

    /// The same names with aggregates forbidden.
    pub open spec fn without_aggregates(self) -> ScopeView {
        match self {
            ScopeView::Table { .. } => self,
            ScopeView::Inputs { inputs, .. } => ScopeView::Inputs { inputs, aggregates: false },
        }
    }
}

/// Where a name starts in the statement.
pub open spec fn name_position(name: ParsedObjectNameView) -> Option<usize> {
    if name.parts.len() > 0 {
        name.parts[0].position
    } else {
        None
    }
}

/// Where a name starts in the statement.
pub fn position_of_name(name: &ParsedObjectName) -> (r: Option<usize>)
    ensures
        r == name_position(name@),
{
    if name.parts.len() > 0 {
        assert(name@.parts[0] == name.parts@[0]@);
        name.parts[0].position
    } else {
        None
    }
}

/// The error of a column that does not exist.
pub open spec fn no_column(name: Seq<char>, position: Option<usize>) -> DbErrorView {
    error_at(UNDEFINED_COLUMN@, "column "@ + name + " does not exist"@, position)
}

/// The error of a column that does not exist.
pub fn no_such_column(name: &Identifier, position: Option<usize>) -> (r: DbError)
    ensures
        r@ == no_column(name@, position),
{
    DbError::at(UNDEFINED_COLUMN, text3("column ", name.as_str(), " does not exist"), position)
}

/// The position of the column that a reference names in a table.
pub open spec fn column_in_table(name: ParsedObjectNameView, table: TableDefinitionView) -> Checked<usize> {
    if name.parts.len() == 1 || (name.parts.len() == 2 && name.parts[0].name == table.name) {
        let column = name.parts.last();
        match find_column_index(table.columns, column.name, 0) {
            Some(i) => Ok(i),
            None => Err(no_column(column.name, column.position)),
        }
    } else if name.parts.len() == 2 {
        Err(error_at(UNDEFINED_TABLE@, "invalid reference to table "@ + name.parts[0].name, name.parts[0].position))
    } else {
        Err(unsupported_error("column references may contain at most a table qualifier"@, name_position(name)))
    }
}

/// Finds the column that a reference names in a table.
pub fn resolve_column(name: &ParsedObjectName, table: &TableDefinition) -> (r: Result<usize>)
    ensures
        match r {
            Ok(i) => column_in_table(name@, table@) == Ok::<usize, DbErrorView>(i) && i < table.columns.len(),
            Err(e) => column_in_table(name@, table@) == Err::<usize, DbErrorView>(e@),
        },
{
    let n: usize = name.parts.len();
    if n == 1 || n == 2 {
        assert(name@.parts[0] == name.parts@[0]@);
        assert(name@.parts.last() == name.parts@[n - 1]@);
        if n == 2 && !name.parts[0].name.same(&table.name) {
            return Err(
                DbError::at(UNDEFINED_TABLE, text2("invalid reference to table ", name.parts[0].name.as_str()), name.parts[0].position),
            );
        }
        let column: &ParsedIdentifier = &name.parts[n - 1];
        match table.column_index(&column.name) {
            Some(i) => Ok(i),
            None => Err(no_such_column(&column.name, column.position)),
        }
    } else {
        Err(unsupported_at("column references may contain at most a table qualifier", position_of_name(name)))
    }
}

/// Whether a column answers to a name with an optional qualifier.
pub open spec fn answers(c: InputColumnView, qualifier: Option<Seq<char>>, name: Seq<char>, local: bool) -> bool {
    &&& c.name == name
    &&& qualifier matches Some(q) ==> c.binding == q
    &&& local ==> c.outer_depth == 0
}

/// The first column from a position on that answers to a name.
pub open spec fn first_answer(
    inputs: Seq<InputColumnView>,
    qualifier: Option<Seq<char>>,
    name: Seq<char>,
    local: bool,
    i: int,
) -> Option<int>
    decreases inputs.len() - i,
{
    if i < 0 || i >= inputs.len() {
        None
    } else if answers(inputs[i], qualifier, name, local) {
        Some(i)
    } else {
        first_answer(inputs, qualifier, name, local, i + 1)
    }
}

/// A found column lies in the list and answers to the name.
pub proof fn lemma_first_answer(inputs: Seq<InputColumnView>, qualifier: Option<Seq<char>>, name: Seq<char>, local: bool, i: int)
    requires
        0 <= i,
    ensures
        first_answer(inputs, qualifier, name, local, i) matches Some(k) ==> i <= k < inputs.len() && answers(
            inputs[k],
            qualifier,
            name,
            local,
        ),
    decreases inputs.len() - i,
{
    if i < inputs.len() && !answers(inputs[i], qualifier, name, local) {
        lemma_first_answer(inputs, qualifier, name, local, i + 1);
    }
}

/// The only column that answers to a name: local columns hide outer ones.
pub open spec fn only_answer(inputs: Seq<InputColumnView>, qualifier: Option<Seq<char>>, column: ParsedIdentifierView) -> Checked<int> {
    let local = first_answer(inputs, qualifier, column.name, true, 0) is Some;
    match first_answer(inputs, qualifier, column.name, local, 0) {
        None => Err(no_column(column.name, column.position)),
        Some(k) => if first_answer(inputs, qualifier, column.name, local, k + 1) is Some {
            Err(error_at("42702"@, "column reference "@ + column.name + " is ambiguous"@, column.position))
        } else {
            Ok(k)
        },
    }
}

/// The column that a reference names in a FROM clause.
pub open spec fn column_in_inputs(name: ParsedObjectNameView, inputs: Seq<InputColumnView>) -> Checked<int> {
    if name.parts.len() == 1 {
        only_answer(inputs, None, name.parts[0])
    } else if name.parts.len() == 2 {
        only_answer(inputs, Some(name.parts[0].name), name.parts[1])
    } else {
        Err(unsupported_error("column references may contain at most a table qualifier"@, name_position(name)))
    }
}

fn find_answer(inputs: &Vec<InputColumn>, qualifier: Option<&Identifier>, name: &Identifier, local: bool, from: usize) -> (r: Option<usize>)
    requires
        from <= inputs.len(),
    ensures
        match r {
            Some(k) => k < inputs.len() && first_answer(InputColumn::views(inputs@), identifier_view(qualifier), name@, local, from as int)
                == Some(k as int),
            None => first_answer(InputColumn::views(inputs@), identifier_view(qualifier), name@, local, from as int) is None,
        },
{
    let ghost v = InputColumn::views(inputs@);
    for i in from..inputs.len()
        invariant
            v == InputColumn::views(inputs@),
            from <= i <= inputs.len(),
            first_answer(v, identifier_view(qualifier), name@, local, from as int) == first_answer(
                v,
                identifier_view(qualifier),
                name@,
                local,
                i as int,
            ),
    {
        assert(v[i as int] == inputs@[i as int]@);
        let qualified = match qualifier {
            Some(q) => inputs[i].binding.same(q),
            None => true,
        };
        if inputs[i].name.same(name) && qualified && (!local || inputs[i].outer_depth == 0) {
            return Some(i);
        }
    }
    None
}

/// The contents of an optional name.
pub open spec fn identifier_view(q: Option<&Identifier>) -> Option<Seq<char>> {
    match q {
        Some(q) => Some(q@),
        None => None,
    }
}

/// Finds the column that a reference names in a FROM clause.
pub fn resolve_input_column(name: &ParsedObjectName, inputs: &Vec<InputColumn>) -> (r: Result<usize>)
    ensures
        match r {
            Ok(i) => column_in_inputs(name@, InputColumn::views(inputs@)) == Ok::<int, DbErrorView>(i as int) && i < inputs.len(),
            Err(e) => column_in_inputs(name@, InputColumn::views(inputs@)) == Err::<int, DbErrorView>(e@),
        },
{
    let n: usize = name.parts.len();
    if n != 1 && n != 2 {
        return Err(unsupported_at("column references may contain at most a table qualifier", position_of_name(name)));
    }
    assert(name@.parts[0] == name.parts@[0]@);
    assert(name@.parts[n - 1] == name.parts@[n - 1]@);
    let column: &ParsedIdentifier = &name.parts[n - 1];
    let qualifier: Option<&Identifier> = if n == 2 {
        Some(&name.parts[0].name)
    } else {
        None
    };
    let local = find_answer(inputs, qualifier, &column.name, true, 0).is_some();
    match find_answer(inputs, qualifier, &column.name, local, 0) {
        None => Err(no_such_column(&column.name, column.position)),
        Some(k) => {
            if find_answer(inputs, qualifier, &column.name, local, k + 1).is_some() {
                return Err(DbError::at("42702", text3("column reference ", column.name.as_str(), " is ambiguous"), column.position));
            }
            Ok(k)
        },
    }
}

/// The bound form of a column reference.
pub open spec fn column_of(name: ParsedObjectNameView, scope: ScopeView, position: Option<usize>) -> Checked<BoundExprView> {
    match scope {
        ScopeView::Table { table: None, .. } => Err(error_at(UNDEFINED_COLUMN@, "column reference is not valid here"@, position)),
        ScopeView::Table { table: Some(table), .. } => match column_in_table(name, table) {
            Err(e) => Err(e),
            Ok(index) => Ok(
                BoundExprView {
                    kind: BoundExprKindView::Column { index },
                    data_type: table.columns[index as int].data_type,
                    nullable: table.columns[index as int].nullable,
                },
            ),
        },
        ScopeView::Inputs { inputs, .. } => match column_in_inputs(name, inputs) {
            Err(e) => Err(e),
            Ok(k) => Ok(
                BoundExprView {
                    kind: if inputs[k].outer_depth > 0 {
                        BoundExprKindView::Correlation { depth: inputs[k].outer_depth, index: inputs[k].index }
                    } else {
                        BoundExprKindView::Column { index: inputs[k].index }
                    },
                    data_type: inputs[k].data_type,
                    nullable: inputs[k].nullable,
                },
            ),
        },
    }
}

/// The contents of a bound expression or error.
pub open spec fn expr_result(r: Result<BoundExpr>) -> Checked<BoundExprView> {
    match r {
        Ok(b) => Ok(b@),
        Err(e) => Err(e@),
    }
}

/// Binds a column reference.
pub fn bind_column(name: &ParsedObjectName, scope: &Scope, position: Option<usize>) -> (r: Result<BoundExpr>)
    ensures
        expr_result(r) == column_of(name@, scope@, position),
{
    match scope {
        Scope::Table { table, .. } => match table {
            None => Err(DbError::at(UNDEFINED_COLUMN, text("column reference is not valid here"), position)),
            Some(table) => {
                let index: usize = resolve_column(name, table)?;
                assert(table@.columns[index as int] == table.columns@[index as int]@);
                let column: &ColumnDefinition = &table.columns[index];
                let r = BoundExpr {
                    kind: BoundExprKind::Column { index },
                    data_type: column.data_type.clone(),
                    nullable: column.nullable,
                };
                proof {
                    r.unfold();
                }
                Ok(r)
            },
        },
        Scope::Inputs { inputs, .. } => {
            let k: usize = resolve_input_column(name, inputs)?;
            assert(InputColumn::views(inputs@)[k as int] == inputs@[k as int]@);
            let column: &InputColumn = &inputs[k];
            let r = BoundExpr {
                kind: if column.outer_depth > 0 {
                    BoundExprKind::Correlation { depth: column.outer_depth, index: column.index }
                } else {
                    BoundExprKind::Column { index: column.index }
                },
                data_type: column.data_type.clone(),
                nullable: column.nullable,
            };
            proof {
                r.unfold();
            }
            Ok(r)
        },
    }
}

/// The declared type of a parameter.
pub fn declared_parameter(scope: &Scope, index: usize) -> (r: Option<ScalarType>)
    ensures
        ScalarType::opt(r) == scope@.parameter(index),
{
    match scope {
        Scope::Table { parameters, .. } => match parameters.get(&index) {
            Some(t) => Some(t.clone()),
            None => None,
        },
        Scope::Inputs { .. } => None,
    }
}

} // verus!
