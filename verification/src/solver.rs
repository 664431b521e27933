//! Infers the types of parameters from where they stand.

use std::collections::BTreeMap;
use vstd::prelude::*;

use crate::binding::{option_view, some_view};
use crate::catalog::{Catalog, RoutineDefinition, TableDefinition, TriggerEvent};
use crate::dml::{resolve_dml_relation, DmlTarget};
use crate::expr::{meet_types, sum_result_type};
use crate::grouping::check_result;
use crate::inputs::{add_columns, add_derived, inputs_with_outer, with_columns};
use crate::names::{resolve_table, split_table_name};
use crate::references::parsed_query_references_table;
use crate::resolve::type_statement;
use crate::rewrite::{find_replacement, rewrite_cte_references, Replacement};
use crate::scope::{no_such_column, parameter_views, resolve_input_column, Checked, InputColumn, InputColumnView};
use crate::solver_rules::{
    agreed_type, alias_name, constrained, constrained_by, field_types, first_type, grown, one, output_types, parameter_index, places_of,
    relation_inputs, settled, solve_advanced, solve_arguments, solve_assignments, solve_binary, solve_bound, solve_call, solve_clauses,
    solve_conflict, solve_cte, solve_ctes, solve_each, solve_expr, solve_first, solve_frame, solve_function, solve_in, solve_insert,
    solve_items, solve_joins, solve_keys, solve_meet, solve_membership, solve_merge, solve_nested, solve_option, solve_orders, solve_page,
    solve_pair, solve_routine, solve_row, solve_row_query, solve_rows, solve_select, solve_set, solve_shift, solve_some, solve_source,
    solve_spec, solve_statement, solve_texts, solve_types, solve_values, solve_window, solve_with, solved, solver_catalog, solver_namespace,
    solver_relation, solver_terms, target_places, too_nested, total_type, tried_schema, unfold_solve_advanced, unfold_solve_arguments,
    unfold_solve_assignments, unfold_solve_binary, unfold_solve_bound, unfold_solve_call, unfold_solve_clauses, unfold_solve_conflict,
    unfold_solve_cte, unfold_solve_ctes, unfold_solve_each, unfold_solve_expr, unfold_solve_first, unfold_solve_frame,
    unfold_solve_function, unfold_solve_in, unfold_solve_insert, unfold_solve_items, unfold_solve_joins, unfold_solve_keys,
    unfold_solve_meet, unfold_solve_membership, unfold_solve_merge, unfold_solve_nested, unfold_solve_option, unfold_solve_orders,
    unfold_solve_page, unfold_solve_pair, unfold_solve_routine, unfold_solve_row, unfold_solve_row_query, unfold_solve_rows,
    unfold_solve_select, unfold_solve_set, unfold_solve_shift, unfold_solve_some, unfold_solve_source, unfold_solve_spec,
    unfold_solve_statement, unfold_solve_texts, unfold_solve_types, unfold_solve_values, unfold_solve_window, unfold_solve_with,
    with_local_types, SolverView, TermsView, WithTypesView,
};
use crate::statement::{bind_apply_query, bind_with_view_depth, SelectParts};
use crate::subquery::bound_query_schema;
use crate::syntax::{
    assignment_views, expr_rows, AggregateFunction, BinaryOperator, JoinKind, ParsedConflictAction, ParsedCte, ParsedExpr, ParsedExprKind,
    ParsedIdentifier, ParsedJoin, ParsedJoinSource, ParsedMerge, ParsedMergeAction, ParsedMergeClause, ParsedObjectName, ParsedOnConflict,
    ParsedOnConflictView, ParsedOrder, ParsedProjection, ParsedSequenceOperation, ParsedStatement, ParsedTable, ParsedWindowCall,
    ParsedWindowFrame, ParsedWindowFrameBound, ParsedWindowFrameView, ParsedWindowSpec, QuerySetOperator, ScalarFunction, UnaryOperator,
    WindowFrameUnits, WindowFunction,
};
use crate::text::{index_text, same_text, text, text2, text3, text5};
use crate::transient::{apply_cte_column_aliases, create_cte_relation, create_schema, cte_replacement_name};
use crate::type_rules::Resolver;
use crate::types::{
    unsupported, DATATYPE_MISMATCH, DbError, Field, Identifier, Result, ScalarType, ScalarTypeView, Schema, UNDEFINED_COLUMN,
};
use crate::typing::{is_arithmetic_operator, is_numeric};

verus! {

/// What is known about the types of parameters.
pub struct ParameterTypeSolver {
    pub types: BTreeMap<usize, ScalarType>,
    pub changed: bool,
}

/// The contents of possibly unknown types.
pub open spec fn type_views(l: Seq<Option<ScalarType>>) -> Seq<Option<ScalarTypeView>> {
    Seq::new(l.len(), |i: int| ScalarType::opt(l[i]))
}

/// The contents of the types that are expected of output columns.
pub open spec fn expected_view(l: Option<&Vec<Option<ScalarType>>>) -> Option<Seq<Option<ScalarTypeView>>> {
    match l {
        Some(l) => Some(type_views(l@)),
        None => None,
    }
}

/// The contents of an ON CONFLICT clause that may be absent.
pub open spec fn conflict_view(c: Option<ParsedOnConflict>) -> Option<ParsedOnConflictView> {
    match c {
        Some(c) => Some(c@),
        None => None,
    }
}

/// The contents of a window frame that may be absent.
pub open spec fn frame_view(f: Option<ParsedWindowFrame>) -> Option<ParsedWindowFrameView> {
    match f {
        Some(f) => Some(f@),
        None => None,
    }
}

/// The contents of a result with a possibly unknown type.
pub open spec fn type_result(r: Result<Option<ScalarType>>) -> Checked<Option<ScalarTypeView>> {
    match r {
        Ok(t) => Ok(ScalarType::opt(t)),
        Err(e) => Err(e@),
    }
}

/// The contents of a result with output types.
pub open spec fn types_result(r: Result<Vec<Option<ScalarType>>>) -> Checked<Seq<Option<ScalarTypeView>>> {
    match r {
        Ok(l) => Ok(type_views(l@)),
        Err(e) => Err(e@),
    }
}

/// The contents of a result with the output types of two queries.
pub open spec fn pair_result(r: Result<(Vec<Option<ScalarType>>, Vec<Option<ScalarType>>)>) -> Checked<
    (Seq<Option<ScalarTypeView>>, Seq<Option<ScalarTypeView>>),
> {
    match r {
        Ok((a, b)) => Ok((type_views(a@), type_views(b@))),
        Err(e) => Err(e@),
    }
}

/// The contents of a result with columns.
pub open spec fn inputs_result(r: Result<Vec<InputColumn>>) -> Checked<Seq<InputColumnView>> {
    match r {
        Ok(l) => Ok(InputColumn::views(l@)),
        Err(e) => Err(e@),
    }
}

/// The contents of a result with what is known of WITH queries.
pub open spec fn with_result(r: Result<WithTypes>) -> Checked<WithTypesView> {
    match r {
        Ok(w) => Ok(w@),
        Err(e) => Err(e@),
    }
}

fn copy_type(t: Option<&ScalarType>) -> (r: Option<ScalarType>)
    ensures
        ScalarType::opt(r) == ScalarType::opt_ref(t),
{
    match t {
        Some(t) => Some(t.clone()),
        None => None,
    }
}

fn as_reference(t: &Option<ScalarType>) -> (r: Option<&ScalarType>)
    ensures
        ScalarType::opt_ref(r) == ScalarType::opt(*t),
{
    match t {
        Some(t) => Some(t),
        None => None,
    }
}

fn one_type(t: &Option<ScalarType>) -> (r: Option<Vec<Option<ScalarType>>>)
    ensures
        (match r {
            Some(l) => Some(type_views(l@)),
            None => None,
        }) == one(ScalarType::opt(*t)),
{
    match t {
        Some(t) => {
            let mut l: Vec<Option<ScalarType>> = Vec::new();
            let c = t.clone();
            l.push(Some(c));
            assert(type_views(l@) =~= seq![Some(c@)]);
            Some(l)
        },
        None => None,
    }
}

fn as_expected(l: &Option<Vec<Option<ScalarType>>>) -> (r: Option<&Vec<Option<ScalarType>>>)
    ensures
        expected_view(r) == (match *l {
            Some(l) => Some(type_views(l@)),
            None => None,
        }),
{
    match l {
        Some(l) => Some(l),
        None => None,
    }
}

fn first_output(l: &Vec<Option<ScalarType>>) -> (r: Option<ScalarType>)
    ensures
        ScalarType::opt(r) == first_type(type_views(l@)),
{
    if l.len() == 0 {
        return None;
    }
    copy_type(as_reference(&l[0]))
}

fn no_inputs() -> (r: Vec<InputColumn>)
    ensures
        InputColumn::views(r@) == Seq::<InputColumnView>::empty(),
{
    let l: Vec<InputColumn> = Vec::new();
    assert(InputColumn::views(l@) =~= Seq::empty());
    l
}

fn no_types() -> (r: Vec<Option<ScalarType>>)
    ensures
        type_views(r@) == Seq::<Option<ScalarTypeView>>::empty(),
{
    let l: Vec<Option<ScalarType>> = Vec::new();
    assert(type_views(l@) =~= Seq::empty());
    l
}

fn meet_outputs(a: &Vec<Option<ScalarType>>, b: &Vec<Option<ScalarType>>) -> (r: Vec<Option<ScalarType>>)
    ensures
        type_views(r@) == output_types(type_views(a@), type_views(b@)),
{
    let ghost want = output_types(type_views(a@), type_views(b@));
    let mut out: Vec<Option<ScalarType>> = Vec::new();
    for i in 0..a.len()
        invariant
            want == output_types(type_views(a@), type_views(b@)),
            i <= want.len(),
            type_views(out@) =~= want.take(i as int),
    {
        if i >= b.len() {
            return out;
        }
        let t = meet_types(copy_type(as_reference(&a[i])), copy_type(as_reference(&b[i])));
        assert(type_views(a@)[i as int] == ScalarType::opt(a@[i as int]));
        assert(type_views(b@)[i as int] == ScalarType::opt(b@[i as int]));
        let ghost before = type_views(out@);
        out.push(t);
        assert(type_views(out@) =~= before.push(ScalarType::opt(t)));
    }
    out
}

fn add_local_types(inputs: &Vec<InputColumn>, types: Vec<Option<ScalarType>>) -> (r: Vec<Option<ScalarType>>)
    ensures
        type_views(r@) == with_local_types(InputColumn::views(inputs@), 0, type_views(types@)),
{
    let ghost v = InputColumn::views(inputs@);
    let ghost start = type_views(types@);
    let mut out: Vec<Option<ScalarType>> = types;
    for i in 0..inputs.len()
        invariant
            v == InputColumn::views(inputs@),
            with_local_types(v, 0, start) == with_local_types(v, i as int, type_views(out@)),
    {
        assert(v[i as int] == inputs@[i as int]@);
        if inputs[i].outer_depth == 0 {
            let ghost before = type_views(out@);
            let t = inputs[i].data_type.clone();
            out.push(Some(t));
            assert(type_views(out@) =~= before.push(Some(t@)));
        }
    }
    out
}

fn nested_too_deeply() -> (r: DbError)
    ensures
        r@ == too_nested(),
{
    DbError::new("54001", text("parameter type inference exceeded its statement depth limit"))
}

/// The parameter that an expression is.
pub fn parsed_parameter_index(expression: &ParsedExpr) -> (r: Option<usize>)
    ensures
        r == parameter_index(expression@),
{
    proof {
        expression.unfold();
    }
    match &expression.kind {
        ParsedExprKind::Parameter(index) => Some(*index),
        ParsedExprKind::ResolvedParameter { index, .. } => Some(*index),
        _ => None,
    }
}

/// The type of an aggregate over an argument type, as far as it is known.
pub fn parameter_aggregate_type(function: AggregateFunction, argument_type: Option<ScalarType>) -> (r: Option<ScalarType>)
    ensures
        ScalarType::opt(r) == total_type(function, ScalarType::opt(argument_type)),
{
    match function {
        AggregateFunction::Count => Some(ScalarType::Int64),
        AggregateFunction::Avg => match argument_type {
            Some(_) => Some(ScalarType::Float64),
            None => None,
        },
        AggregateFunction::Sum => match argument_type {
            Some(t) => Some(sum_result_type(t)),
            None => None,
        },
        AggregateFunction::Min | AggregateFunction::Max => argument_type,
    }
}

/// The columns of a table under a name.
pub fn table_inputs(binding: &Identifier, table: &TableDefinition) -> (r: Vec<InputColumn>)
    ensures
        InputColumn::views(r@) == with_columns(binding@, table@.columns, false, 0, Seq::empty()),
{
    add_columns(binding, &table.columns, false, no_inputs())
}

/// Columns followed by those of a table or a view.
pub fn parameter_relation_inputs(
    name: &ParsedObjectName,
    alias: &Option<ParsedIdentifier>,
    catalog: &Catalog,
    nullable: bool,
    local: Vec<InputColumn>,
) -> (r: Result<Vec<InputColumn>>)
    ensures
        inputs_result(r) == relation_inputs(
            name@,
            alias_name(
                match *alias {
                    Some(a) => Some(a@),
                    None => None,
                },
            ),
            catalog@,
            nullable,
            InputColumn::views(local@),
        ),
{
    reveal(relation_inputs);
    let (schema, relation, _) = split_table_name(name)?;
    let binding: &Identifier = match alias {
        Some(a) => &a.name,
        None => &relation,
    };
    if let Some(view) = catalog.view_named(&schema, &relation) {
        let none: Vec<ParsedIdentifier> = Vec::new();
        assert(ParsedIdentifier::views(none@) =~= Seq::empty());
        return Ok(add_derived(binding, &view.output.fields, &none, nullable, local));
    }
    let table = resolve_table(name, catalog)?;
    Ok(add_columns(binding, &table.columns, nullable, local))
}

/// The columns that a row fills.
pub fn parameter_target_columns(columns: &Vec<ParsedIdentifier>, table: &TableDefinition) -> (r: Result<Vec<usize>>)
    ensures
        (match r {
            Ok(l) => Ok(l@),
            Err(e) => Err(e@),
        }) == target_places(ParsedIdentifier::views(columns@), table@),
        r matches Ok(l) ==> forall|k: int| 0 <= k < l@.len() ==> (#[trigger] l@[k]) < table.columns@.len(),
{
    let mut out: Vec<usize> = Vec::new();
    if columns.len() == 0 {
        for i in 0..table.columns.len()
            invariant
                out@ =~= Seq::new(i as nat, |k: int| k as usize),
        {
            out.push(i);
        }
        assert(out@ =~= Seq::new(table@.columns.len(), |k: int| k as usize));
        return Ok(out);
    }
    let ghost v = ParsedIdentifier::views(columns@);
    for i in 0..columns.len()
        invariant
            v == ParsedIdentifier::views(columns@),
            places_of(v, table@, 0, Seq::empty()) == places_of(v, table@, i as int, out@),
            forall|k: int| 0 <= k < out@.len() ==> (#[trigger] out@[k]) < table.columns@.len(),
    {
        assert(v[i as int] == columns@[i as int]@);
        match table.column_index(&columns[i].name) {
            None => {
                assert(target_places(v, table@) == places_of(v, table@, 0, Seq::empty()));
                return Err(no_such_column(&columns[i].name, columns[i].position));
            },
            Some(k) => {
                out.push(k);
            },
        }
    }
    Ok(out)
}

fn find_agreed_type(routines: &Vec<RoutineDefinition>, name: &Identifier, count: usize, argument: usize) -> (r: Option<ScalarType>)
    requires
        argument < count,
    ensures
        ScalarType::opt(r) == agreed_type(RoutineDefinition::views(routines@), name@, count as nat, argument as int, 0, None),
{
    let ghost v = RoutineDefinition::views(routines@);
    let mut found: Option<ScalarType> = None;
    for i in 0..routines.len()
        invariant
            argument < count,
            v == RoutineDefinition::views(routines@),
            agreed_type(v, name@, count as nat, argument as int, 0, None) == agreed_type(
                v,
                name@,
                count as nat,
                argument as int,
                i as int,
                ScalarType::opt(found),
            ),
    {
        assert(v[i as int] == routines@[i as int]@);
        if routines[i].name.same(name) && routines[i].arguments.len() == count {
            let t = &routines[i].arguments[argument].data_type;
            assert(v[i as int].arguments[argument as int].data_type == t@);
            match &found {
                None => {
                    found = Some(t.clone());
                },
                Some(known) => {
                    if !known.same(t) {
                        return None;
                    }
                },
            }
        }
    }
    found
}

/// What has been found about WITH queries so far.
pub struct WithTypes {
    pub catalog: Catalog,
    pub replacements: Vec<Replacement>,
    pub early: Option<Vec<Option<ScalarType>>>,
}

impl WithTypes {
    /// The value as mathematical data.
    pub open spec fn view(&self) -> WithTypesView {
        WithTypesView {
            catalog: self.catalog@,
            replacements: Replacement::views(self.replacements@),
            early: match self.early {
                Some(l) => Some(type_views(l@)),
                None => None,
            },
        }
    }
}

struct Terms {
    seed: ParsedStatement,
    term: Option<ParsedStatement>,
}

impl Terms {
    closed spec fn view(&self) -> TermsView {
        TermsView {
            seed: self.seed@,
            term: match self.term {
                Some(t) => Some(t@),
                None => None,
            },
        }
    }
}

fn find_terms(cte: &ParsedCte, recursive: bool, replacements: &Vec<Replacement>) -> (r: Result<Option<Terms>>)
    ensures
        (match r {
            Ok(Some(t)) => Ok(Some(t@)),
            Ok(None) => Ok(None),
            Err(e) => Err(e@),
        }) == solver_terms(cte@, recursive, Replacement::views(replacements@)),
{
    reveal(solver_terms);
    proof {
        cte.unfold();
        cte.query.unfold();
    }
    if find_replacement(replacements, &cte.name.name).is_some() {
        return Err(
            DbError::at("42712", text3("WITH query name ", cte.name.name.as_str(), " specified more than once"), cte.name.position),
        );
    }
    let repeats = if recursive {
        parsed_query_references_table(&cte.query, &cte.name.name, 0)?
    } else {
        false
    };
    if !repeats {
        let seed = rewrite_cte_references(&cte.query, replacements, 0)?;
        return Ok(Some(Terms { seed, term: None }));
    }
    if let ParsedStatement::SetOperation { left, operator, right, .. } = &*cte.query {
        if *operator == QuerySetOperator::Union {
            let seed = rewrite_cte_references(left, replacements, 0)?;
            return Ok(Some(Terms { seed, term: Some((**right).clone()) }));
        }
    }
    Ok(None)
}

fn make_relation(cte: &ParsedCte, schema: Schema, namespace: &Identifier, state: WithTypes) -> (r: Result<(WithTypes, Schema)>)
    ensures
        (match r {
            Ok((w, s)) => Ok((w@, s@)),
            Err(e) => Err(e@),
        }) == solver_relation(cte@, schema@, namespace@, state@),
{
    reveal(solver_relation);
    proof {
        cte.unfold();
    }
    let output = apply_cte_column_aliases(&cte.name, &cte.columns, schema)?;
    let (catalog, _) = create_cte_relation(state.catalog, namespace, &cte.name, &output)?;
    let mut replacements = state.replacements;
    let ghost before = Replacement::views(replacements@);
    let x = Replacement { name: cte.name.name.clone(), target: cte_replacement_name(namespace, &cte.name) };
    replacements.push(x);
    assert(Replacement::views(replacements@) =~= before.push(x@));
    Ok((WithTypes { catalog, replacements, early: None }, output))
}

fn types_of_fields(l: &Vec<Field>) -> (r: Vec<Option<ScalarType>>)
    ensures
        type_views(r@) == field_types(Field::views(l@)),
{
    let ghost want = field_types(Field::views(l@));
    let mut out: Vec<Option<ScalarType>> = Vec::new();
    for i in 0..l.len()
        invariant
            want == field_types(Field::views(l@)),
            type_views(out@) =~= want.take(i as int),
    {
        let ghost before = type_views(out@);
        let t = l[i].data_type.clone();
        assert(Field::views(l@)[i as int] == l@[i as int]@);
        out.push(Some(t));
        assert(type_views(out@) =~= before.push(Some(t@)));
    }
    out
}

fn make_solver_namespace(depth: usize) -> (r: Identifier)
    ensures
        r@ == solver_namespace(depth),
{
    Identifier::new(text2("__ordadb_param_cte_", index_text(depth).as_str()).as_str(), false)
}

fn make_solver_catalog(catalog: &Catalog, namespace: &Identifier, depth: usize) -> (r: Result<Catalog>)
    requires
        namespace@ == solver_namespace(depth),
    ensures
        (match r {
            Ok(c) => Ok(c@),
            Err(e) => Err(e@),
        }) == solver_catalog(catalog@, depth),
{
    reveal(solver_catalog);
    if catalog.schema(namespace).is_none() {
        create_schema(catalog.clone(), namespace.clone())
    } else {
        Ok(catalog.clone())
    }
}

impl ParameterTypeSolver {
    /// The value as mathematical data.
    pub open spec fn view(&self) -> SolverView {
        SolverView { types: parameter_views(self.types@), changed: self.changed }
    }

    /// The types of the parameters of a statement: those that a pass over it adds
    /// nothing to.
    pub fn solve(statement: &ParsedStatement, catalog: &Catalog) -> (r: Result<BTreeMap<usize, ScalarType>>)
        ensures
            (match r {
                Ok(m) => Ok(parameter_views(m@)),
                Err(e) => Err(e@),
            }) == solved(statement@, catalog@, 128, Map::empty()),
            r matches Ok(m) ==> settled(statement@, catalog@, parameter_views(m@)),
    {
        let mut solver = ParameterTypeSolver { types: BTreeMap::new(), changed: false };
        assert(solver@.types =~= Map::empty());
        let outer = no_inputs();
        for pass in 0..128
            invariant
                InputColumn::views(outer@) == Seq::<InputColumnView>::empty(),
                solved(statement@, catalog@, 128, Map::empty()) == solved(statement@, catalog@, (128 - pass) as nat, solver@.types),
        {
            solver.changed = false;
            solver.collect_statement(statement, catalog, &outer, None, 0)?;
            if !solver.changed {
                assert(solver@ == SolverView { types: solver@.types, changed: false });
                return Ok(solver.types);
            }
        }
        Err(DbError::new("54001", text("parameter type inference exceeded its fixed-point pass limit")))
    }

    fn constrain(&mut self, index: usize, data_type: &ScalarType, position: Option<usize>) -> (r: Result<()>)
        ensures
            grown(old(self)@, final(self)@),
            (final(self)@, check_result(r)) == constrained(index, data_type@, position, old(self)@),
    {
        if let Some(known) = self.types.get(&index) {
            if !known.same(data_type) {
                let number = index_text(index);
                return Err(
                    DbError::at(
                        DATATYPE_MISMATCH,
                        text2("inconsistent types deduced for parameter $", number.as_str()),
                        position,
                    ).with_detail(
                        text2(
                            text5("parameter $", number.as_str(), " was constrained as both ", known.describe().as_str(), " and ").as_str(),
                            data_type.describe().as_str(),
                        ),
                    ),
                );
            }
            return Ok(());
        }
        let ghost before = parameter_views(self.types@);
        let t = data_type.clone();
        self.types.insert(index, t);
        assert(parameter_views(self.types@) =~= before.insert(index, t@));
        self.changed = true;
        Ok(())
    }

    fn constrain_some(&mut self, index: Option<usize>, data_type: &Option<ScalarType>, position: Option<usize>) -> (r: Result<()>)
        ensures
            grown(old(self)@, final(self)@),
            (final(self)@, check_result(r)) == constrained_by(index, ScalarType::opt(*data_type), position, old(self)@),
    {
        match (index, data_type) {
            (Some(index), Some(t)) => self.constrain(index, t, position),
            _ => Ok(()),
        }
    }

    fn known_type(&self, index: usize) -> (r: Option<ScalarType>)
        ensures
            ScalarType::opt(r) == self@.type_at(index),
    {
        match self.types.get(&index) {
            Some(t) => Some(t.clone()),
            None => None,
        }
    }

    fn try_statement_schema(
        &self,
        statement: &ParsedStatement,
        catalog: &Catalog,
        outer_inputs: &Vec<InputColumn>,
        depth: usize,
    ) -> (r: Option<
        Schema,
    >)
        requires
            depth < 64,
        ensures
            (match r {
                Some(s) => Some(s@),
                None => None,
            }) == tried_schema(statement@, catalog@, InputColumn::views(outer_inputs@), depth, self@.types),
    {
        reveal(tried_schema);
        let resolver = Resolver { parameters: &self.types, catalog: None, session: None };
        match type_statement(statement, &resolver, depth + 1) {
            Err(_) => None,
            Ok(typed) => {
                let bound = if outer_inputs.len() == 0 {
                    bind_with_view_depth(&typed, catalog, depth + 1)
                } else {
                    bind_apply_query(&typed, catalog, depth + 1, outer_inputs)
                };
                match bound {
                    Err(_) => None,
                    Ok(b) => match bound_query_schema(&b) {
                        Err(_) => None,
                        Ok(s) => Some(s),
                    },
                }
            },
        }
    }

    fn collect_each(
        &mut self,
        l: &Vec<ParsedExpr>,
        expected: Option<&ScalarType>,
        inputs: &Vec<InputColumn>,
        catalog: &Catalog,
        depth: usize,
    ) -> (r: Result<()>)
        ensures
            grown(old(self)@, final(self)@),
            (final(self)@, check_result(r)) == solve_each(
                ParsedExpr::views(l@),
                ScalarType::opt_ref(expected),
                InputColumn::views(inputs@),
                catalog@,
                depth,
                0,
                old(self)@,
            ),
        decreases 64 - depth, 5int, 0int,
    {
        let ghost v = ParsedExpr::views(l@);
        let ghost start = self@;
        for i in 0..l.len()
            invariant
                grown(old(self)@, self@),
                v == ParsedExpr::views(l@),
                solve_each(v, ScalarType::opt_ref(expected), InputColumn::views(inputs@), catalog@, depth, 0, start) == solve_each(
                    v,
                    ScalarType::opt_ref(expected),
                    InputColumn::views(inputs@),
                    catalog@,
                    depth,
                    i as int,
                    self@,
                ),
                start == old(self)@,
        {
            assert(v[i as int] == l@[i as int]@);
            proof {
                unfold_solve_each(v, ScalarType::opt_ref(expected), InputColumn::views(inputs@), catalog@, depth, i as int, self@);
            }
            self.collect_expr(&l[i], expected, inputs, catalog, depth)?;
        }
        proof {
            unfold_solve_each(v, ScalarType::opt_ref(expected), InputColumn::views(inputs@), catalog@, depth, l@.len() as int, self@);
        }
        Ok(())
    }

    fn collect_keys(&mut self, l: &Vec<ParsedOrder>, inputs: &Vec<InputColumn>, catalog: &Catalog, depth: usize) -> (r: Result<()>)
        ensures
            grown(old(self)@, final(self)@),
            (final(self)@, check_result(r)) == solve_keys(
                ParsedOrder::views(l@),
                InputColumn::views(inputs@),
                catalog@,
                depth,
                0,
                old(self)@,
            ),
        decreases 64 - depth, 5int, 0int,
    {
        let ghost v = ParsedOrder::views(l@);
        let ghost start = self@;
        for i in 0..l.len()
            invariant
                grown(old(self)@, self@),
                v == ParsedOrder::views(l@),
                solve_keys(v, InputColumn::views(inputs@), catalog@, depth, 0, start) == solve_keys(
                    v,
                    InputColumn::views(inputs@),
                    catalog@,
                    depth,
                    i as int,
                    self@,
                ),
                start == old(self)@,
        {
            assert(v[i as int] == l@[i as int]@);
            proof {
                unfold_solve_keys(v, InputColumn::views(inputs@), catalog@, depth, i as int, self@);
            }
            proof {
                l@[i as int].unfold();
            }
            self.collect_expr(&l[i].expr, None, inputs, catalog, depth)?;
        }
        proof {
            unfold_solve_keys(v, InputColumn::views(inputs@), catalog@, depth, l@.len() as int, self@);
        }
        Ok(())
    }

    fn collect_orders(&mut self, l: &Vec<ParsedOrder>, inputs: &Vec<InputColumn>, catalog: &Catalog, depth: usize) -> (r: Result<()>)
        ensures
            grown(old(self)@, final(self)@),
            (final(self)@, check_result(r)) == solve_orders(
                ParsedOrder::views(l@),
                InputColumn::views(inputs@),
                catalog@,
                depth,
                0,
                old(self)@,
            ),
        decreases 64 - depth, 6int, 0int,
    {
        let ghost v = ParsedOrder::views(l@);
        let ghost start = self@;
        for i in 0..l.len()
            invariant
                grown(old(self)@, self@),
                v == ParsedOrder::views(l@),
                solve_orders(v, InputColumn::views(inputs@), catalog@, depth, 0, start) == solve_orders(
                    v,
                    InputColumn::views(inputs@),
                    catalog@,
                    depth,
                    i as int,
                    self@,
                ),
                start == old(self)@,
        {
            assert(v[i as int] == l@[i as int]@);
            proof {
                unfold_solve_orders(v, InputColumn::views(inputs@), catalog@, depth, i as int, self@);
            }
            proof {
                l@[i as int].unfold();
            }
            self.collect_order_expr(&l[i].expr, inputs, catalog, depth)?;
        }
        proof {
            unfold_solve_orders(v, InputColumn::views(inputs@), catalog@, depth, l@.len() as int, self@);
        }
        Ok(())
    }

    /// Learns from a sort key of a query, which may name an output column instead.
    fn collect_order_expr(&mut self, expression: &ParsedExpr, inputs: &Vec<InputColumn>, catalog: &Catalog, depth: usize) -> (r: Result<()>)
        ensures
            grown(old(self)@, final(self)@),
            (final(self)@, check_result(r)) == (match solve_expr(
                expression@,
                None,
                InputColumn::views(inputs@),
                catalog@,
                depth,
                old(self)@,
            ) {
                (s, Err(x)) => if x.sql_state == UNDEFINED_COLUMN@ {
                    (s, Ok(()))
                } else {
                    (s, Err(x))
                },
                (s, Ok(_)) => (s, Ok(())),
            }),
        decreases 64 - depth, 5int, 0int,
    {
        match self.collect_expr(expression, None, inputs, catalog, depth) {
            Ok(_) => Ok(()),
            Err(error) => {
                if same_text(error.sql_state.as_str(), UNDEFINED_COLUMN) {
                    Ok(())
                } else {
                    Err(error)
                }
            },
        }
    }

    fn collect_texts(&mut self, l: &Vec<ParsedExpr>, inputs: &Vec<InputColumn>, catalog: &Catalog, depth: usize) -> (r: Result<()>)
        ensures
            grown(old(self)@, final(self)@),
            (final(self)@, check_result(r)) == solve_texts(
                ParsedExpr::views(l@),
                InputColumn::views(inputs@),
                catalog@,
                depth,
                0,
                old(self)@,
            ),
        decreases 64 - depth, 5int, 0int,
    {
        let ghost v = ParsedExpr::views(l@);
        let ghost start = self@;
        for i in 0..l.len()
            invariant
                grown(old(self)@, self@),
                v == ParsedExpr::views(l@),
                solve_texts(v, InputColumn::views(inputs@), catalog@, depth, 0, start) == solve_texts(
                    v,
                    InputColumn::views(inputs@),
                    catalog@,
                    depth,
                    i as int,
                    self@,
                ),
                start == old(self)@,
        {
            assert(v[i as int] == l@[i as int]@);
            proof {
                unfold_solve_texts(v, InputColumn::views(inputs@), catalog@, depth, i as int, self@);
            }
            if self.collect_expr(&l[i], None, inputs, catalog, depth)?.is_none() {
                self.collect_expr(&l[i], Some(&ScalarType::Text), inputs, catalog, depth)?;
            }
        }
        proof {
            unfold_solve_texts(v, InputColumn::views(inputs@), catalog@, depth, l@.len() as int, self@);
        }
        Ok(())
    }

    fn collect_rest(
        &mut self,
        l: &Vec<ParsedExpr>,
        expected: Option<&ScalarType>,
        inputs: &Vec<InputColumn>,
        catalog: &Catalog,
        depth: usize,
    ) -> (r: Result<()>)
        requires
            l@.len() > 0,
        ensures
            grown(old(self)@, final(self)@),
            (final(self)@, check_result(r)) == solve_each(
                ParsedExpr::views(l@),
                ScalarType::opt_ref(expected),
                InputColumn::views(inputs@),
                catalog@,
                depth,
                1,
                old(self)@,
            ),
        decreases 64 - depth, 5int, 0int,
    {
        let ghost v = ParsedExpr::views(l@);
        let ghost start = self@;
        for i in 1..l.len()
            invariant
                grown(old(self)@, self@),
                l@.len() > 0,
                v == ParsedExpr::views(l@),
                start == old(self)@,
                solve_each(v, ScalarType::opt_ref(expected), InputColumn::views(inputs@), catalog@, depth, 1, start) == solve_each(
                    v,
                    ScalarType::opt_ref(expected),
                    InputColumn::views(inputs@),
                    catalog@,
                    depth,
                    i as int,
                    self@,
                ),
        {
            assert(v[i as int] == l@[i as int]@);
            proof {
                unfold_solve_each(v, ScalarType::opt_ref(expected), InputColumn::views(inputs@), catalog@, depth, i as int, self@);
            }
            self.collect_expr(&l[i], expected, inputs, catalog, depth)?;
        }
        proof {
            unfold_solve_each(v, ScalarType::opt_ref(expected), InputColumn::views(inputs@), catalog@, depth, l@.len() as int, self@);
        }
        Ok(())
    }

    fn collect_meet(
        &mut self,
        l: &Vec<ParsedExpr>,
        expected: Option<&ScalarType>,
        inputs: &Vec<InputColumn>,
        catalog: &Catalog,
        depth: usize,
        met: Option<ScalarType>,
    ) -> (r: Result<Option<ScalarType>>)
        ensures
            grown(old(self)@, final(self)@),
            (final(self)@, type_result(r)) == solve_meet(
                ParsedExpr::views(l@),
                ScalarType::opt_ref(expected),
                InputColumn::views(inputs@),
                catalog@,
                depth,
                0,
                ScalarType::opt(met),
                old(self)@,
            ),
        decreases 64 - depth, 5int, 0int,
    {
        let ghost v = ParsedExpr::views(l@);
        let ghost start = self@;
        let mut now: Option<ScalarType> = met;
        for i in 0..l.len()
            invariant
                grown(old(self)@, self@),
                v == ParsedExpr::views(l@),
                start == old(self)@,
                solve_meet(
                    v,
                    ScalarType::opt_ref(expected),
                    InputColumn::views(inputs@),
                    catalog@,
                    depth,
                    0,
                    ScalarType::opt(met),
                    start,
                ) == solve_meet(
                    v,
                    ScalarType::opt_ref(expected),
                    InputColumn::views(inputs@),
                    catalog@,
                    depth,
                    i as int,
                    ScalarType::opt(now),
                    self@,
                ),
        {
            assert(v[i as int] == l@[i as int]@);
            proof {
                unfold_solve_meet(
                    v,
                    ScalarType::opt_ref(expected),
                    InputColumn::views(inputs@),
                    catalog@,
                    depth,
                    i as int,
                    ScalarType::opt(now),
                    self@,
                );
            }
            let t = self.collect_expr(&l[i], expected, inputs, catalog, depth)?;
            now = meet_types(now, t);
        }
        proof {
            unfold_solve_meet(
                v,
                ScalarType::opt_ref(expected),
                InputColumn::views(inputs@),
                catalog@,
                depth,
                l@.len() as int,
                ScalarType::opt(now),
                self@,
            );
        }
        Ok(now)
    }

    fn collect_types(
        &mut self,
        l: &Vec<ParsedExpr>,
        inputs: &Vec<InputColumn>,
        catalog: &Catalog,
        depth: usize,
    ) -> (r: Result<Vec<Option<ScalarType>>>)
        ensures
            grown(old(self)@, final(self)@),
            (final(self)@, types_result(r)) == solve_types(
                ParsedExpr::views(l@),
                InputColumn::views(inputs@),
                catalog@,
                depth,
                0,
                Seq::empty(),
                old(self)@,
            ),
        decreases 64 - depth, 5int, 0int,
    {
        let ghost v = ParsedExpr::views(l@);
        let ghost start = self@;
        let mut out: Vec<Option<ScalarType>> = Vec::new();
        assert(type_views(out@) =~= Seq::empty());
        for i in 0..l.len()
            invariant
                grown(old(self)@, self@),
                v == ParsedExpr::views(l@),
                start == old(self)@,
                solve_types(v, InputColumn::views(inputs@), catalog@, depth, 0, Seq::empty(), start) == solve_types(
                    v,
                    InputColumn::views(inputs@),
                    catalog@,
                    depth,
                    i as int,
                    type_views(out@),
                    self@,
                ),
        {
            assert(v[i as int] == l@[i as int]@);
            let ghost before = type_views(out@);
            proof {
                unfold_solve_types(v, InputColumn::views(inputs@), catalog@, depth, i as int, before, self@);
            }
            let t = self.collect_expr(&l[i], None, inputs, catalog, depth)?;
            out.push(t);
            assert(type_views(out@) =~= before.push(ScalarType::opt(t)));
        }
        proof {
            unfold_solve_types(v, InputColumn::views(inputs@), catalog@, depth, l@.len() as int, type_views(out@), self@);
        }
        Ok(out)
    }

    fn collect_row(
        &mut self,
        l: &Vec<ParsedExpr>,
        types: &Vec<Option<ScalarType>>,
        inputs: &Vec<InputColumn>,
        catalog: &Catalog,
        depth: usize,
    ) -> (r: Result<()>)
        ensures
            grown(old(self)@, final(self)@),
            (final(self)@, check_result(r)) == solve_row(
                ParsedExpr::views(l@),
                type_views(types@),
                InputColumn::views(inputs@),
                catalog@,
                depth,
                0,
                old(self)@,
            ),
        decreases 64 - depth, 5int, 0int,
    {
        let ghost v = ParsedExpr::views(l@);
        let ghost start = self@;
        for i in 0..l.len()
            invariant
                grown(old(self)@, self@),
                v == ParsedExpr::views(l@),
                solve_row(v, type_views(types@), InputColumn::views(inputs@), catalog@, depth, 0, start) == solve_row(
                    v,
                    type_views(types@),
                    InputColumn::views(inputs@),
                    catalog@,
                    depth,
                    i as int,
                    self@,
                ),
                start == old(self)@,
        {
            assert(v[i as int] == l@[i as int]@);
            proof {
                unfold_solve_row(v, type_views(types@), InputColumn::views(inputs@), catalog@, depth, i as int, self@);
            }
            if i >= types.len() {
                return Ok(());
            }
            match &types[i] {
                None => {},
                Some(t) => {
                    self.collect_expr(&l[i], Some(t), inputs, catalog, depth)?;
                },
            }
        }
        proof {
            unfold_solve_row(v, type_views(types@), InputColumn::views(inputs@), catalog@, depth, l@.len() as int, self@);
        }
        Ok(())
    }

    fn collect_some(
        &mut self,
        e: &Option<ParsedExpr>,
        expected: Option<&ScalarType>,
        inputs: &Vec<InputColumn>,
        catalog: &Catalog,
        depth: usize,
    ) -> (r: Result<()>)
        ensures
            grown(old(self)@, final(self)@),
            (final(self)@, check_result(r)) == solve_some(
                some_view(*e),
                ScalarType::opt_ref(expected),
                InputColumn::views(inputs@),
                catalog@,
                depth,
                old(self)@,
            ),
        decreases 64 - depth, 5int, 0int,
    {
        proof {
            unfold_solve_some(some_view(*e), ScalarType::opt_ref(expected), InputColumn::views(inputs@), catalog@, depth, self@);
        }
        if let Some(e) = e {
            self.collect_expr(e, expected, inputs, catalog, depth)?;
        }
        Ok(())
    }

    fn collect_option(
        &mut self,
        e: &Option<Box<ParsedExpr>>,
        expected: Option<&ScalarType>,
        inputs: &Vec<InputColumn>,
        catalog: &Catalog,
        depth: usize,
    ) -> (r: Result<Option<ScalarType>>)
        ensures
            grown(old(self)@, final(self)@),
            (final(self)@, type_result(r)) == solve_option(
                option_view(*e),
                ScalarType::opt_ref(expected),
                InputColumn::views(inputs@),
                catalog@,
                depth,
                old(self)@,
            ),
        decreases 64 - depth, 5int, 0int,
    {
        proof {
            unfold_solve_option(option_view(*e), ScalarType::opt_ref(expected), InputColumn::views(inputs@), catalog@, depth, self@);
        }
        match e {
            None => Ok(None),
            Some(e) => self.collect_expr(e, expected, inputs, catalog, depth),
        }
    }

    /// Learns from a call of a built-in function.
    pub fn collect_scalar_function(
        &mut self,
        function: ScalarFunction,
        arguments: &Vec<ParsedExpr>,
        expected: Option<&ScalarType>,
        inputs: &Vec<InputColumn>,
        catalog: &Catalog,
        depth: usize,
    ) -> (r: Result<Option<ScalarType>>)
        ensures
            grown(old(self)@, final(self)@),
            (final(self)@, type_result(r)) == solve_function(
                function,
                ParsedExpr::views(arguments@),
                ScalarType::opt_ref(expected),
                InputColumn::views(inputs@),
                catalog@,
                depth,
                old(self)@,
            ),
        decreases 64 - depth, 3int, 0int,
    {
        proof {
            unfold_solve_function(
                function,
                ParsedExpr::views(arguments@),
                ScalarType::opt_ref(expected),
                InputColumn::views(inputs@),
                catalog@,
                depth,
                self@,
            );
        }
        if depth >= 64 {
            return Err(nested_too_deeply());
        }
        match function {
            ScalarFunction::Version | ScalarFunction::CurrentDatabase | ScalarFunction::CurrentUser | ScalarFunction::SessionUser
            | ScalarFunction::CurrentSetting => Ok(Some(ScalarType::Text)),
            ScalarFunction::Lower | ScalarFunction::Upper | ScalarFunction::Btrim | ScalarFunction::Ltrim | ScalarFunction::Rtrim
            | ScalarFunction::Replace => {
                self.collect_each(arguments, Some(&ScalarType::Text), inputs, catalog, depth + 1)?;
                Ok(Some(ScalarType::Text))
            },
            ScalarFunction::Strpos => {
                self.collect_each(arguments, Some(&ScalarType::Text), inputs, catalog, depth + 1)?;
                Ok(Some(ScalarType::Int32))
            },
            ScalarFunction::CharacterLength | ScalarFunction::OctetLength => {
                if arguments.len() < 1 {
                    return Err(DbError::internal("scalar function argument is missing"));
                }
                if self.collect_expr(&arguments[0], None, inputs, catalog, depth + 1)?.is_none() {
                    self.collect_expr(&arguments[0], Some(&ScalarType::Text), inputs, catalog, depth + 1)?;
                }
                Ok(Some(ScalarType::Int32))
            },
            ScalarFunction::Abs => {
                if arguments.len() < 1 {
                    return Err(DbError::internal("scalar function argument is missing"));
                }
                let hint: Option<&ScalarType> = match expected {
                    Some(t) => if is_numeric(t) {
                        Some(t)
                    } else {
                        None
                    },
                    None => None,
                };
                self.collect_expr(&arguments[0], hint, inputs, catalog, depth + 1)
            },
            ScalarFunction::Coalesce | ScalarFunction::NullIf | ScalarFunction::Greatest | ScalarFunction::Least => {
                let first: Option<ScalarType> = copy_type(expected);
                let met = self.collect_meet(arguments, None, inputs, catalog, depth + 1, first)?;
                if let Some(t) = &met {
                    self.collect_each(arguments, Some(t), inputs, catalog, depth + 1)?;
                }
                Ok(met)
            },
            ScalarFunction::Concat => {
                self.collect_texts(arguments, inputs, catalog, depth + 1)?;
                Ok(Some(ScalarType::Text))
            },
            ScalarFunction::Substring => {
                if arguments.len() < 1 {
                    return Err(DbError::internal("scalar function argument is missing"));
                }
                self.collect_expr(&arguments[0], Some(&ScalarType::Text), inputs, catalog, depth + 1)?;
                self.collect_rest(arguments, Some(&ScalarType::Int32), inputs, catalog, depth + 1)?;
                Ok(Some(ScalarType::Text))
            },
            ScalarFunction::JsonbTypeof => {
                if arguments.len() < 1 {
                    return Err(DbError::internal("scalar function argument is missing"));
                }
                self.collect_expr(&arguments[0], Some(&ScalarType::Jsonb), inputs, catalog, depth + 1)?;
                Ok(Some(ScalarType::Text))
            },
            ScalarFunction::ArrayLength => {
                if arguments.len() < 2 {
                    return Err(DbError::internal("scalar function argument is missing"));
                }
                self.collect_expr(&arguments[0], None, inputs, catalog, depth + 1)?;
                self.collect_expr(&arguments[1], Some(&ScalarType::Int32), inputs, catalog, depth + 1)?;
                Ok(Some(ScalarType::Int32))
            },
            ScalarFunction::Cardinality => {
                if arguments.len() < 1 {
                    return Err(DbError::internal("scalar function argument is missing"));
                }
                self.collect_expr(&arguments[0], None, inputs, catalog, depth + 1)?;
                Ok(Some(ScalarType::Int32))
            },
        }
    }

    fn collect_bound(
        &mut self,
        b: &ParsedWindowFrameBound,
        t: Option<&ScalarType>,
        inputs: &Vec<InputColumn>,
        catalog: &Catalog,
        depth: usize,
    ) -> (r: Result<()>)
        ensures
            grown(old(self)@, final(self)@),
            (final(self)@, check_result(r)) == solve_bound(
                b@,
                ScalarType::opt_ref(t),
                InputColumn::views(inputs@),
                catalog@,
                depth,
                old(self)@,
            ),
        decreases 64 - depth, 5int, 0int,
    {
        proof {
            unfold_solve_bound(b@, ScalarType::opt_ref(t), InputColumn::views(inputs@), catalog@, depth, self@);
        }
        proof {
            b.unfold();
        }
        match b {
            ParsedWindowFrameBound::Preceding(e) => {
                self.collect_expr(e, t, inputs, catalog, depth)?;
            },
            ParsedWindowFrameBound::Following(e) => {
                self.collect_expr(e, t, inputs, catalog, depth)?;
            },
            _ => {},
        }
        Ok(())
    }

    fn collect_frame(
        &mut self,
        f: &Option<ParsedWindowFrame>,
        order_by: &Vec<ParsedOrder>,
        inputs: &Vec<InputColumn>,
        catalog: &Catalog,
        depth: usize,
    ) -> (r: Result<()>)
        ensures
            grown(old(self)@, final(self)@),
            (final(self)@, check_result(r)) == solve_frame(
                frame_view(*f),
                ParsedOrder::views(order_by@),
                InputColumn::views(inputs@),
                catalog@,
                depth,
                old(self)@,
            ),
        decreases 64 - depth, 6int, 0int,
    {
        proof {
            unfold_solve_frame(frame_view(*f), ParsedOrder::views(order_by@), InputColumn::views(inputs@), catalog@, depth, self@);
        }
        match f {
            None => Ok(()),
            Some(f) => {
                proof {
                    f.unfold();
                }
                let t: Option<ScalarType> = if f.units == WindowFrameUnits::Rows {
                    Some(ScalarType::Int64)
                } else if order_by.len() == 0 {
                    None
                } else {
                    proof {
                        order_by@[0].unfold();
                    }
                    assert(ParsedOrder::views(order_by@)[0] == order_by@[0]@);
                    self.collect_expr(&order_by[0].expr, None, inputs, catalog, depth)?
                };
                let range: Option<&ScalarType> = match &t {
                    Some(t) => Some(t),
                    None => None,
                };
                self.collect_bound(&f.start_bound, range, inputs, catalog, depth)?;
                self.collect_bound(&f.end_bound, range, inputs, catalog, depth)
            },
        }
    }

    fn collect_first(
        &mut self,
        arguments: &Vec<ParsedExpr>,
        inputs: &Vec<InputColumn>,
        catalog: &Catalog,
        depth: usize,
    ) -> (r: Result<Option<ScalarType>>)
        ensures
            grown(old(self)@, final(self)@),
            (final(self)@, type_result(r)) == solve_first(
                ParsedExpr::views(arguments@),
                InputColumn::views(inputs@),
                catalog@,
                depth,
                old(self)@,
            ),
        decreases 64 - depth, 5int, 0int,
    {
        proof {
            unfold_solve_first(ParsedExpr::views(arguments@), InputColumn::views(inputs@), catalog@, depth, self@);
        }
        if arguments.len() == 0 {
            return Ok(None);
        }
        self.collect_expr(&arguments[0], None, inputs, catalog, depth)
    }

    fn collect_shift(
        &mut self,
        arguments: &Vec<ParsedExpr>,
        inputs: &Vec<InputColumn>,
        catalog: &Catalog,
        depth: usize,
    ) -> (r: Result<Option<ScalarType>>)
        ensures
            grown(old(self)@, final(self)@),
            (final(self)@, type_result(r)) == solve_shift(
                ParsedExpr::views(arguments@),
                InputColumn::views(inputs@),
                catalog@,
                depth,
                old(self)@,
            ),
        decreases 64 - depth, 6int, 0int,
    {
        proof {
            unfold_solve_shift(ParsedExpr::views(arguments@), InputColumn::views(inputs@), catalog@, depth, self@);
        }
        let value = self.collect_first(arguments, inputs, catalog, depth)?;
        if arguments.len() < 2 {
            return Ok(value);
        }
        self.collect_expr(&arguments[1], Some(&ScalarType::Int64), inputs, catalog, depth)?;
        if arguments.len() < 3 {
            return Ok(value);
        }
        let hint: Option<&ScalarType> = match &value {
            Some(t) => Some(t),
            None => None,
        };
        let default = self.collect_expr(&arguments[2], hint, inputs, catalog, depth)?;
        let met = meet_types(value, default);
        if let Some(t) = &met {
            self.collect_expr(&arguments[0], Some(t), inputs, catalog, depth)?;
            self.collect_expr(&arguments[2], Some(t), inputs, catalog, depth)?;
        }
        Ok(met)
    }

    fn collect_call(
        &mut self,
        function: WindowFunction,
        arguments: &Vec<ParsedExpr>,
        inputs: &Vec<InputColumn>,
        catalog: &Catalog,
        depth: usize,
    ) -> (r: Result<Option<ScalarType>>)
        ensures
            grown(old(self)@, final(self)@),
            (final(self)@, type_result(r)) == solve_call(
                function,
                ParsedExpr::views(arguments@),
                InputColumn::views(inputs@),
                catalog@,
                depth,
                old(self)@,
            ),
        decreases 64 - depth, 7int, 0int,
    {
        proof {
            unfold_solve_call(function, ParsedExpr::views(arguments@), InputColumn::views(inputs@), catalog@, depth, self@);
        }
        match function {
            WindowFunction::RowNumber | WindowFunction::Rank | WindowFunction::DenseRank => Ok(Some(ScalarType::Int64)),
            WindowFunction::Lag | WindowFunction::Lead => self.collect_shift(arguments, inputs, catalog, depth),
            WindowFunction::FirstValue | WindowFunction::LastValue => self.collect_first(arguments, inputs, catalog, depth),
            WindowFunction::NthValue => {
                let value = self.collect_first(arguments, inputs, catalog, depth)?;
                if arguments.len() >= 2 {
                    self.collect_expr(&arguments[1], Some(&ScalarType::Int64), inputs, catalog, depth)?;
                }
                Ok(value)
            },
            WindowFunction::Aggregate(f) => {
                let t = self.collect_first(arguments, inputs, catalog, depth)?;
                Ok(parameter_aggregate_type(f, t))
            },
        }
    }

    fn collect_spec(&mut self, spec: &ParsedWindowSpec, inputs: &Vec<InputColumn>, catalog: &Catalog, depth: usize) -> (r: Result<()>)
        ensures
            grown(old(self)@, final(self)@),
            (final(self)@, check_result(r)) == solve_spec(spec@, InputColumn::views(inputs@), catalog@, depth, old(self)@),
        decreases 64 - depth, 7int, 0int,
    {
        proof {
            unfold_solve_spec(spec@, InputColumn::views(inputs@), catalog@, depth, self@);
        }
        proof {
            spec.unfold();
        }
        self.collect_each(&spec.partition_by, None, inputs, catalog, depth)?;
        self.collect_keys(&spec.order_by, inputs, catalog, depth)?;
        self.collect_frame(&spec.frame, &spec.order_by, inputs, catalog, depth)
    }

    /// Learns from a window function over a window.
    pub fn collect_window(
        &mut self,
        call: &ParsedWindowCall,
        spec: Option<&ParsedWindowSpec>,
        inputs: &Vec<InputColumn>,
        catalog: &Catalog,
        depth: usize,
    ) -> (r: Result<Option<ScalarType>>)
        ensures
            grown(old(self)@, final(self)@),
            (final(self)@, type_result(r)) == solve_window(call@, (match spec {
                Some(spec) => Some(spec@),
                None => None,
            }), InputColumn::views(inputs@), catalog@, depth, old(self)@),
        decreases 64 - depth, 3int, 0int,
    {
        proof {
            unfold_solve_window(call@, (match spec {
                Some(spec) => Some(spec@),
                None => None,
            }), InputColumn::views(inputs@), catalog@, depth, self@);
        }
        proof {
            call.unfold();
        }
        if depth >= 64 {
            return Err(nested_too_deeply());
        }
        if let Some(spec) = spec {
            self.collect_spec(spec, inputs, catalog, depth + 1)?;
        }
        self.collect_option(&call.filter, Some(&ScalarType::Boolean), inputs, catalog, depth + 1)?;
        self.collect_call(call.function, &call.arguments, inputs, catalog, depth + 1)
    }

    fn collect_nested(
        &mut self,
        statement: &ParsedStatement,
        expected: Option<&Vec<Option<ScalarType>>>,
        inputs: &Vec<InputColumn>,
        catalog: &Catalog,
        depth: usize,
    ) -> (r: Result<Vec<Option<ScalarType>>>)
        ensures
            grown(old(self)@, final(self)@),
            (final(self)@, types_result(r)) == solve_nested(
                statement@,
                expected_view(expected),
                InputColumn::views(inputs@),
                catalog@,
                depth,
                old(self)@,
            ),
            r is Ok ==> depth < 64,
        decreases 64 - depth, 2int, 0int,
    {
        proof {
            unfold_solve_nested(statement@, expected_view(expected), InputColumn::views(inputs@), catalog@, depth, self@);
        }
        if depth >= 64 {
            return Err(nested_too_deeply());
        }
        self.collect_statement(statement, catalog, inputs, expected, depth + 1)
    }

    fn collect_binary(
        &mut self,
        left: &ParsedExpr,
        op: BinaryOperator,
        right: &ParsedExpr,
        expected: Option<&ScalarType>,
        inputs: &Vec<InputColumn>,
        catalog: &Catalog,
        depth: usize,
    ) -> (r: Result<Option<ScalarType>>)
        ensures
            grown(old(self)@, final(self)@),
            (final(self)@, type_result(r)) == solve_binary(
                left@,
                op,
                right@,
                ScalarType::opt_ref(expected),
                InputColumn::views(inputs@),
                catalog@,
                depth,
                old(self)@,
            ),
        decreases 64 - depth, 3int, 0int,
    {
        proof {
            unfold_solve_binary(left@, op, right@, ScalarType::opt_ref(expected), InputColumn::views(inputs@), catalog@, depth, self@);
        }
        proof {
            left.unfold();
            right.unfold();
        }
        if depth >= 64 {
            return Err(nested_too_deeply());
        }
        if op == BinaryOperator::And || op == BinaryOperator::Or {
            self.collect_expr(left, Some(&ScalarType::Boolean), inputs, catalog, depth + 1)?;
            self.collect_expr(right, Some(&ScalarType::Boolean), inputs, catalog, depth + 1)?;
            return Ok(Some(ScalarType::Boolean));
        }
        let left_type = self.collect_expr(left, None, inputs, catalog, depth + 1)?;
        let right_type = self.collect_expr(right, None, inputs, catalog, depth + 1)?;
        self.constrain_some(parsed_parameter_index(left), &right_type, left.position)?;
        self.constrain_some(parsed_parameter_index(right), &left_type, right.position)?;
        let operand: Option<ScalarType> = if left_type.is_none() && right_type.is_none() && is_arithmetic_operator(op) {
            copy_type(expected)
        } else {
            meet_types(left_type, right_type)
        };
        if let Some(t) = &operand {
            self.collect_expr(left, Some(t), inputs, catalog, depth + 1)?;
            self.collect_expr(right, Some(t), inputs, catalog, depth + 1)?;
        }
        if is_arithmetic_operator(op) {
            Ok(operand)
        } else {
            Ok(Some(ScalarType::Boolean))
        }
    }

    fn collect_membership(
        &mut self,
        expr: &ParsedExpr,
        list: &Vec<ParsedExpr>,
        inputs: &Vec<InputColumn>,
        catalog: &Catalog,
        depth: usize,
    ) -> (r: Result<Option<ScalarType>>)
        ensures
            grown(old(self)@, final(self)@),
            (final(self)@, type_result(r)) == solve_membership(
                expr@,
                ParsedExpr::views(list@),
                InputColumn::views(inputs@),
                catalog@,
                depth,
                old(self)@,
            ),
        decreases 64 - depth, 3int, 0int,
    {
        proof {
            unfold_solve_membership(expr@, ParsedExpr::views(list@), InputColumn::views(inputs@), catalog@, depth, self@);
        }
        if depth >= 64 {
            return Err(nested_too_deeply());
        }
        let t = self.collect_expr(expr, None, inputs, catalog, depth + 1)?;
        let met = self.collect_meet(list, None, inputs, catalog, depth + 1, t)?;
        if let Some(t) = &met {
            self.collect_expr(expr, Some(t), inputs, catalog, depth + 1)?;
            self.collect_each(list, Some(t), inputs, catalog, depth + 1)?;
        }
        Ok(Some(ScalarType::Boolean))
    }

    fn collect_in(
        &mut self,
        expr: &ParsedExpr,
        subquery: &ParsedStatement,
        inputs: &Vec<InputColumn>,
        catalog: &Catalog,
        depth: usize,
    ) -> (r: Result<Option<ScalarType>>)
        ensures
            grown(old(self)@, final(self)@),
            (final(self)@, type_result(r)) == solve_in(expr@, subquery@, InputColumn::views(inputs@), catalog@, depth, old(self)@),
        decreases 64 - depth, 3int, 0int,
    {
        proof {
            unfold_solve_in(expr@, subquery@, InputColumn::views(inputs@), catalog@, depth, self@);
        }
        if depth >= 64 {
            return Err(nested_too_deeply());
        }
        let left = self.collect_expr(expr, None, inputs, catalog, depth + 1)?;
        let hint = one_type(&left);
        let output = self.collect_nested(subquery, as_expected(&hint), inputs, catalog, depth)?;
        let met = meet_types(left, first_output(&output));
        if let Some(t) = &met {
            self.collect_expr(expr, Some(t), inputs, catalog, depth + 1)?;
            let hint = one_type(&met);
            self.collect_nested(subquery, as_expected(&hint), inputs, catalog, depth)?;
        }
        Ok(Some(ScalarType::Boolean))
    }

    fn collect_row_query(
        &mut self,
        left: &Vec<ParsedExpr>,
        subquery: &ParsedStatement,
        inputs: &Vec<InputColumn>,
        catalog: &Catalog,
        depth: usize,
    ) -> (r: Result<Option<ScalarType>>)
        ensures
            grown(old(self)@, final(self)@),
            (final(self)@, type_result(r)) == solve_row_query(
                ParsedExpr::views(left@),
                subquery@,
                InputColumn::views(inputs@),
                catalog@,
                depth,
                old(self)@,
            ),
        decreases 64 - depth, 3int, 0int,
    {
        proof {
            unfold_solve_row_query(ParsedExpr::views(left@), subquery@, InputColumn::views(inputs@), catalog@, depth, self@);
        }
        if depth >= 64 {
            return Err(nested_too_deeply());
        }
        let types = self.collect_types(left, inputs, catalog, depth + 1)?;
        let output = self.collect_nested(subquery, Some(&types), inputs, catalog, depth)?;
        self.collect_row(left, &output, inputs, catalog, depth + 1)?;
        Ok(Some(ScalarType::Boolean))
    }

    /// Learns from an expression that may be expected to have a type, and tells its type.
    pub fn collect_expr(
        &mut self,
        expression: &ParsedExpr,
        expected: Option<&ScalarType>,
        inputs: &Vec<InputColumn>,
        catalog: &Catalog,
        depth: usize,
    ) -> (r: Result<Option<ScalarType>>)
        ensures
            grown(old(self)@, final(self)@),
            (final(self)@, type_result(r)) == solve_expr(
                expression@,
                ScalarType::opt_ref(expected),
                InputColumn::views(inputs@),
                catalog@,
                depth,
                old(self)@,
            ),
        decreases 64 - depth, 4int, 0int,
    {
        proof {
            unfold_solve_expr(expression@, ScalarType::opt_ref(expected), InputColumn::views(inputs@), catalog@, depth, self@);
        }
        proof {
            expression.unfold();
        }
        if depth >= 64 {
            return Err(DbError::new("54001", text("parameter type inference exceeded its expression depth limit")));
        }
        let position = expression.position;
        match &expression.kind {
            ParsedExprKind::Column(name) => {
                let k: usize = resolve_input_column(name, inputs)?;
                Ok(Some(inputs[k].data_type.clone()))
            },
            ParsedExprKind::Literal(value) => match value.scalar_type() {
                Some(t) => Ok(Some(t)),
                None => Ok(copy_type(expected)),
            },
            ParsedExprKind::Parameter(index) => {
                if let Some(t) = expected {
                    self.constrain(*index, t, position)?;
                }
                Ok(self.known_type(*index))
            },
            ParsedExprKind::ResolvedParameter { index, data_type } => {
                self.constrain(*index, data_type, position)?;
                if let Some(t) = expected {
                    self.constrain(*index, t, position)?;
                }
                Ok(Some(data_type.clone()))
            },
            ParsedExprKind::ApplyValue { data_type, .. } => Ok(Some(data_type.clone())),
            ParsedExprKind::Unary { op, expr } => match op {
                UnaryOperator::Not => {
                    self.collect_expr(expr, Some(&ScalarType::Boolean), inputs, catalog, depth + 1)?;
                    Ok(Some(ScalarType::Boolean))
                },
                UnaryOperator::Negate => self.collect_expr(expr, expected, inputs, catalog, depth + 1),
            },
            ParsedExprKind::Cast { expr, data_type, .. } => {
                proof {
                    expr.unfold();
                }
                match parsed_parameter_index(expr) {
                    Some(index) => {
                        self.constrain(index, data_type, expr.position)?;
                        self.collect_expr(expr, Some(data_type), inputs, catalog, depth + 1)?;
                    },
                    None => {
                        self.collect_expr(expr, None, inputs, catalog, depth + 1)?;
                    },
                }
                Ok(Some(data_type.clone()))
            },
            ParsedExprKind::Array { elements, .. } => {
                let element: Option<&ScalarType> = match expected {
                    Some(ScalarType::Array { element }) => Some(&**element),
                    _ => None,
                };
                let first: Option<ScalarType> = copy_type(element);
                let met = self.collect_meet(elements, element, inputs, catalog, depth + 1, first)?;
                match met {
                    Some(t) => Ok(Some(ScalarType::Array { element: Box::new(t) })),
                    None => Ok(None),
                }
            },
            ParsedExprKind::Function { function, arguments } => self.collect_scalar_function(
                *function,
                arguments,
                expected,
                inputs,
                catalog,
                depth,
            ),
            ParsedExprKind::Binary { left, op, right } => self.collect_binary(left, *op, right, expected, inputs, catalog, depth),
            ParsedExprKind::InList { expr, list, .. } => self.collect_membership(expr, list, inputs, catalog, depth),
            ParsedExprKind::ScalarSubquery(subquery) => {
                let first: Option<ScalarType> = copy_type(expected);
                let hint = one_type(&first);
                let output = self.collect_nested(subquery, as_expected(&hint), inputs, catalog, depth)?;
                Ok(first_output(&output))
            },
            ParsedExprKind::Exists { subquery, .. } => {
                self.collect_nested(subquery, None, inputs, catalog, depth)?;
                Ok(Some(ScalarType::Boolean))
            },
            ParsedExprKind::InSubquery { expr, subquery, .. } => self.collect_in(expr, subquery, inputs, catalog, depth),
            ParsedExprKind::QuantifiedSubquery { left, subquery, .. } => self.collect_in(left, subquery, inputs, catalog, depth),
            ParsedExprKind::RowSubquery { left, subquery, .. } => self.collect_row_query(left, subquery, inputs, catalog, depth),
            ParsedExprKind::Aggregate { function, argument, filter, .. } => {
                self.collect_option(filter, Some(&ScalarType::Boolean), inputs, catalog, depth + 1)?;
                let t = self.collect_option(argument, None, inputs, catalog, depth + 1)?;
                Ok(parameter_aggregate_type(*function, t))
            },
            ParsedExprKind::Window { call, spec } => self.collect_window(call, Some(&**spec), inputs, catalog, depth),
            ParsedExprKind::NamedWindow { call, .. } => self.collect_window(call, None, inputs, catalog, depth),
            ParsedExprKind::WindowValue { .. } => Ok(None),
        }
    }

    /// Learns from a select list, and tells its output types.
    pub fn collect_projection(
        &mut self,
        projection: &Vec<ParsedProjection>,
        expected: Option<&Vec<Option<ScalarType>>>,
        inputs: &Vec<InputColumn>,
        catalog: &Catalog,
        depth: usize,
    ) -> (r: Result<Vec<Option<ScalarType>>>)
        ensures
            grown(old(self)@, final(self)@),
            (final(self)@, types_result(r)) == solve_items(
                ParsedProjection::views(projection@),
                expected_view(expected),
                InputColumn::views(inputs@),
                catalog@,
                depth,
                0,
                Seq::empty(),
                old(self)@,
            ),
        decreases 64 - depth, 5int, 0int,
    {
        let ghost v = ParsedProjection::views(projection@);
        let ghost start = self@;
        let mut out: Vec<Option<ScalarType>> = Vec::new();
        assert(type_views(out@) =~= Seq::empty());
        for i in 0..projection.len()
            invariant
                grown(old(self)@, self@),
                v == ParsedProjection::views(projection@),
                start == old(self)@,
                solve_items(
                    v,
                    expected_view(expected),
                    InputColumn::views(inputs@),
                    catalog@,
                    depth,
                    0,
                    Seq::empty(),
                    start,
                ) == solve_items(
                    v,
                    expected_view(expected),
                    InputColumn::views(inputs@),
                    catalog@,
                    depth,
                    i as int,
                    type_views(out@),
                    self@,
                ),
        {
            assert(v[i as int] == projection@[i as int]@);
            let ghost before = type_views(out@);
            proof {
                projection@[i as int].unfold();
                unfold_solve_items(v, expected_view(expected), InputColumn::views(inputs@), catalog@, depth, i as int, before, self@);
            }
            match &projection[i] {
                ParsedProjection::Wildcard => {
                    out = add_local_types(inputs, out);
                },
                ParsedProjection::Expression { expr, .. } => {
                    let hint: Option<&ScalarType> = match expected {
                        Some(l) => if out.len() < l.len() {
                            as_reference(&l[out.len()])
                        } else {
                            None
                        },
                        None => None,
                    };
                    let t = self.collect_expr(expr, hint, inputs, catalog, depth)?;
                    out.push(t);
                    assert(type_views(out@) =~= before.push(ScalarType::opt(t)));
                },
            }
        }
        proof {
            unfold_solve_items(
                v,
                expected_view(expected),
                InputColumn::views(inputs@),
                catalog@,
                depth,
                projection@.len() as int,
                type_views(out@),
                self@,
            );
        }
        Ok(out)
    }

    fn collect_assignments(
        &mut self,
        l: &Vec<(ParsedIdentifier, ParsedExpr)>,
        table: &TableDefinition,
        inputs: &Vec<InputColumn>,
        catalog: &Catalog,
        depth: usize,
    ) -> (r: Result<()>)
        ensures
            grown(old(self)@, final(self)@),
            (final(self)@, check_result(r)) == solve_assignments(
                assignment_views(l@),
                table@,
                InputColumn::views(inputs@),
                catalog@,
                depth,
                0,
                old(self)@,
            ),
        decreases 64 - depth, 5int, 0int,
    {
        let ghost v = assignment_views(l@);
        let ghost start = self@;
        for i in 0..l.len()
            invariant
                grown(old(self)@, self@),
                v == assignment_views(l@),
                start == old(self)@,
                solve_assignments(v, table@, InputColumn::views(inputs@), catalog@, depth, 0, start) == solve_assignments(
                    v,
                    table@,
                    InputColumn::views(inputs@),
                    catalog@,
                    depth,
                    i as int,
                    self@,
                ),
        {
            assert(v[i as int] == (l@[i as int].0@, l@[i as int].1@));
            proof {
                unfold_solve_assignments(v, table@, InputColumn::views(inputs@), catalog@, depth, i as int, self@);
            }
            if let Some(k) = table.column_index(&l[i].0.name) {
                self.collect_expr(&l[i].1, Some(&table.columns[k].data_type), inputs, catalog, depth)?;
            }
        }
        proof {
            unfold_solve_assignments(v, table@, InputColumn::views(inputs@), catalog@, depth, l@.len() as int, self@);
        }
        Ok(())
    }

    fn collect_values(
        &mut self,
        l: &Vec<ParsedExpr>,
        indexes: &Vec<usize>,
        table: &TableDefinition,
        inputs: &Vec<InputColumn>,
        catalog: &Catalog,
        depth: usize,
    ) -> (r: Result<()>)
        requires
            forall|k: int| 0 <= k < indexes@.len() ==> (#[trigger] indexes@[k]) < table.columns@.len(),
        ensures
            grown(old(self)@, final(self)@),
            (final(self)@, check_result(r)) == solve_values(
                ParsedExpr::views(l@),
                indexes@,
                table@,
                InputColumn::views(inputs@),
                catalog@,
                depth,
                0,
                old(self)@,
            ),
        decreases 64 - depth, 5int, 0int,
    {
        let ghost v = ParsedExpr::views(l@);
        let ghost start = self@;
        for i in 0..l.len()
            invariant
                grown(old(self)@, self@),
                forall|k: int| 0 <= k < indexes@.len() ==> (#[trigger] indexes@[k]) < table.columns@.len(),
                v == ParsedExpr::views(l@),
                start == old(self)@,
                solve_values(v, indexes@, table@, InputColumn::views(inputs@), catalog@, depth, 0, start) == solve_values(
                    v,
                    indexes@,
                    table@,
                    InputColumn::views(inputs@),
                    catalog@,
                    depth,
                    i as int,
                    self@,
                ),
        {
            assert(v[i as int] == l@[i as int]@);
            proof {
                unfold_solve_values(v, indexes@, table@, InputColumn::views(inputs@), catalog@, depth, i as int, self@);
            }
            if i >= indexes.len() {
                return Ok(());
            }
            let k: usize = indexes[i];
            self.collect_expr(&l[i], Some(&table.columns[k].data_type), inputs, catalog, depth)?;
        }
        proof {
            unfold_solve_values(v, indexes@, table@, InputColumn::views(inputs@), catalog@, depth, l@.len() as int, self@);
        }
        Ok(())
    }

    fn collect_rows(
        &mut self,
        l: &Vec<Vec<ParsedExpr>>,
        indexes: &Vec<usize>,
        table: &TableDefinition,
        inputs: &Vec<InputColumn>,
        catalog: &Catalog,
        depth: usize,
    ) -> (r: Result<()>)
        requires
            forall|k: int| 0 <= k < indexes@.len() ==> (#[trigger] indexes@[k]) < table.columns@.len(),
        ensures
            grown(old(self)@, final(self)@),
            (final(self)@, check_result(r)) == solve_rows(
                expr_rows(l@),
                indexes@,
                table@,
                InputColumn::views(inputs@),
                catalog@,
                depth,
                0,
                old(self)@,
            ),
        decreases 64 - depth, 6int, 0int,
    {
        let ghost v = expr_rows(l@);
        let ghost start = self@;
        for i in 0..l.len()
            invariant
                grown(old(self)@, self@),
                forall|k: int| 0 <= k < indexes@.len() ==> (#[trigger] indexes@[k]) < table.columns@.len(),
                v == expr_rows(l@),
                start == old(self)@,
                solve_rows(v, indexes@, table@, InputColumn::views(inputs@), catalog@, depth, 0, start) == solve_rows(
                    v,
                    indexes@,
                    table@,
                    InputColumn::views(inputs@),
                    catalog@,
                    depth,
                    i as int,
                    self@,
                ),
        {
            assert(v[i as int] == ParsedExpr::views(l@[i as int]@));
            proof {
                unfold_solve_rows(v, indexes@, table@, InputColumn::views(inputs@), catalog@, depth, i as int, self@);
            }
            self.collect_values(&l[i], indexes, table, inputs, catalog, depth)?;
        }
        proof {
            unfold_solve_rows(v, indexes@, table@, InputColumn::views(inputs@), catalog@, depth, l@.len() as int, self@);
        }
        Ok(())
    }

    /// Learns from an ON CONFLICT clause.
    pub fn collect_on_conflict(
        &mut self,
        on_conflict: &ParsedOnConflict,
        table: &TableDefinition,
        catalog: &Catalog,
        depth: usize,
    ) -> (r: Result<()>)
        ensures
            grown(old(self)@, final(self)@),
            (final(self)@, check_result(r)) == solve_conflict(on_conflict@, table@, catalog@, depth, old(self)@),
        decreases 64 - depth, 7int, 0int,
    {
        proof {
            unfold_solve_conflict(on_conflict@, table@, catalog@, depth, self@);
        }
        proof {
            on_conflict.unfold();
            on_conflict.action.unfold();
        }
        match &on_conflict.action {
            ParsedConflictAction::DoNothing => Ok(()),
            ParsedConflictAction::DoUpdate { assignments, filter } => {
                let inputs = table_inputs(&table.name, table);
                let inputs = add_columns(&Identifier::new("excluded", false), &table.columns, false, inputs);
                let inputs = &inputs;
                self.collect_assignments(assignments, table, inputs, catalog, depth)?;
                self.collect_some(filter, Some(&ScalarType::Boolean), inputs, catalog, depth)
            },
        }
    }

    fn collect_clauses(
        &mut self,
        l: &Vec<ParsedMergeClause>,
        table: &TableDefinition,
        inputs: &Vec<InputColumn>,
        catalog: &Catalog,
        depth: usize,
    ) -> (r: Result<()>)
        ensures
            grown(old(self)@, final(self)@),
            (final(self)@, check_result(r)) == solve_clauses(
                ParsedMergeClause::views(l@),
                table@,
                InputColumn::views(inputs@),
                catalog@,
                depth,
                0,
                old(self)@,
            ),
        decreases 64 - depth, 7int, 0int,
    {
        let ghost v = ParsedMergeClause::views(l@);
        let ghost start = self@;
        for i in 0..l.len()
            invariant
                grown(old(self)@, self@),
                v == ParsedMergeClause::views(l@),
                solve_clauses(v, table@, InputColumn::views(inputs@), catalog@, depth, 0, start) == solve_clauses(
                    v,
                    table@,
                    InputColumn::views(inputs@),
                    catalog@,
                    depth,
                    i as int,
                    self@,
                ),
                start == old(self)@,
        {
            assert(v[i as int] == l@[i as int]@);
            proof {
                unfold_solve_clauses(v, table@, InputColumn::views(inputs@), catalog@, depth, i as int, self@);
            }
            proof {
                l@[i as int].unfold();
                l@[i as int].action.unfold();
            }
            self.collect_some(&l[i].predicate, Some(&ScalarType::Boolean), inputs, catalog, depth)?;
            match &l[i].action {
                ParsedMergeAction::Update { assignments } => {
                    self.collect_assignments(assignments, table, inputs, catalog, depth)?;
                },
                ParsedMergeAction::Insert { columns, values } => {
                    let indexes = parameter_target_columns(columns, table)?;
                    self.collect_values(values, &indexes, table, inputs, catalog, depth)?;
                },
                _ => {},
            }
        }
        proof {
            unfold_solve_clauses(v, table@, InputColumn::views(inputs@), catalog@, depth, l@.len() as int, self@);
        }
        Ok(())
    }

    /// Learns from a MERGE, and tells its output types.
    pub fn collect_merge(
        &mut self,
        merge: &ParsedMerge,
        expected: Option<&Vec<Option<ScalarType>>>,
        catalog: &Catalog,
        depth: usize,
    ) -> (r: Result<Vec<Option<ScalarType>>>)
        ensures
            grown(old(self)@, final(self)@),
            (final(self)@, types_result(r)) == solve_merge(merge@, expected_view(expected), catalog@, depth, old(self)@),
        decreases 64 - depth, 8int, 0int,
    {
        proof {
            unfold_solve_merge(merge@, expected_view(expected), catalog@, depth, self@);
        }
        proof {
            merge.unfold();
        }
        let target = resolve_table(&merge.target.name, catalog)?;
        let source = resolve_table(&merge.source.name, catalog)?;
        let inputs = match &merge.target.alias {
            Some(a) => table_inputs(&a.name, target),
            None => table_inputs(&target.name, target),
        };
        let inputs = match &merge.source.alias {
            Some(a) => add_columns(&a.name, &source.columns, false, inputs),
            None => add_columns(&source.name, &source.columns, false, inputs),
        };
        let inputs = &inputs;
        self.collect_expr(&merge.on, Some(&ScalarType::Boolean), inputs, catalog, depth)?;
        self.collect_clauses(&merge.clauses, target, inputs, catalog, depth)?;
        let own = table_inputs(&target.name, target);
        self.collect_projection(&merge.returning, expected, &own, catalog, depth)
    }

    fn collect_arguments(
        &mut self,
        l: &Vec<ParsedExpr>,
        routines: &Vec<RoutineDefinition>,
        name: &Identifier,
        catalog: &Catalog,
        depth: usize,
    ) -> (r: Result<()>)
        ensures
            grown(old(self)@, final(self)@),
            (final(self)@, check_result(r)) == solve_arguments(
                ParsedExpr::views(l@),
                RoutineDefinition::views(routines@),
                name@,
                catalog@,
                depth,
                0,
                old(self)@,
            ),
        decreases 64 - depth, 5int, 0int,
    {
        let ghost v = ParsedExpr::views(l@);
        let ghost w = RoutineDefinition::views(routines@);
        let ghost start = self@;
        let none: Vec<InputColumn> = Vec::new();
        assert(InputColumn::views(none@) =~= Seq::empty());
        for i in 0..l.len()
            invariant
                grown(old(self)@, self@),
                v == ParsedExpr::views(l@),
                w == RoutineDefinition::views(routines@),
                start == old(self)@,
                InputColumn::views(none@) == Seq::<InputColumnView>::empty(),
                solve_arguments(v, w, name@, catalog@, depth, 0, start) == solve_arguments(v, w, name@, catalog@, depth, i as int, self@),
        {
            assert(v[i as int] == l@[i as int]@);
            proof {
                unfold_solve_arguments(v, w, name@, catalog@, depth, i as int, self@);
            }
            let t = find_agreed_type(routines, name, l.len(), i);
            self.collect_expr(&l[i], as_reference(&t), &none, catalog, depth)?;
        }
        proof {
            unfold_solve_arguments(v, w, name@, catalog@, depth, l@.len() as int, self@);
        }
        Ok(())
    }

    /// Learns from the arguments of a routine call.
    pub fn collect_routine_arguments(
        &mut self,
        name: &ParsedObjectName,
        arguments: &Vec<ParsedExpr>,
        catalog: &Catalog,
        depth: usize,
    ) -> (r: Result<Vec<Option<ScalarType>>>)
        ensures
            grown(old(self)@, final(self)@),
            (final(self)@, types_result(r)) == solve_routine(name@, ParsedExpr::views(arguments@), catalog@, depth, old(self)@),
        decreases 64 - depth, 6int, 0int,
    {
        proof {
            unfold_solve_routine(name@, ParsedExpr::views(arguments@), catalog@, depth, self@);
        }
        let (schema, name, _) = split_table_name(name)?;
        let out: Vec<Option<ScalarType>> = Vec::new();
        assert(type_views(out@) =~= Seq::empty());
        match catalog.schema(&schema) {
            None => Ok(out),
            Some(schema) => {
                self.collect_arguments(arguments, &schema.routines, &name, catalog, depth)?;
                Ok(out)
            },
        }
    }

    fn collect_source(
        &mut self,
        source: &ParsedJoinSource,
        nullable: bool,
        outer: &Vec<InputColumn>,
        catalog: &Catalog,
        depth: usize,
        local: Vec<InputColumn>,
    ) -> (r: Result<Vec<InputColumn>>)
        ensures
            grown(old(self)@, final(self)@),
            (final(self)@, inputs_result(r)) == solve_source(
                source@,
                nullable,
                InputColumn::views(outer@),
                catalog@,
                depth,
                InputColumn::views(local@),
                old(self)@,
            ),
        decreases 64 - depth, 6int, 0int,
    {
        proof {
            unfold_solve_source(source@, nullable, InputColumn::views(outer@), catalog@, depth, InputColumn::views(local@), self@);
        }
        proof {
            source.unfold();
        }
        match source {
            ParsedJoinSource::Table(t) => parameter_relation_inputs(&t.name, &t.alias, catalog, nullable, local),
            ParsedJoinSource::Derived { lateral, query, alias, columns } => {
                let visible: Vec<InputColumn> = if *lateral {
                    inputs_with_outer(&local, outer)?
                } else {
                    Vec::new()
                };
                assert(!*lateral ==> InputColumn::views(visible@) =~= Seq::empty());
                self.collect_nested(query, None, &visible, catalog, depth)?;
                match self.try_statement_schema(query, catalog, &visible, depth) {
                    Some(schema) => Ok(add_derived(&alias.name, &schema.fields, columns, nullable, local)),
                    None => Ok(local),
                }
            },
        }
    }

    fn collect_joins(
        &mut self,
        l: &Vec<ParsedJoin>,
        outer: &Vec<InputColumn>,
        catalog: &Catalog,
        depth: usize,
        local: Vec<InputColumn>,
    ) -> (r: Result<Vec<InputColumn>>)
        ensures
            grown(old(self)@, final(self)@),
            (final(self)@, inputs_result(r)) == solve_joins(
                ParsedJoin::views(l@),
                InputColumn::views(outer@),
                catalog@,
                depth,
                0,
                InputColumn::views(local@),
                old(self)@,
            ),
        decreases 64 - depth, 7int, 0int,
    {
        let ghost v = ParsedJoin::views(l@);
        let ghost o = InputColumn::views(outer@);
        let ghost first = InputColumn::views(local@);
        let ghost start = self@;
        let mut now: Vec<InputColumn> = local;
        for i in 0..l.len()
            invariant
                grown(old(self)@, self@),
                v == ParsedJoin::views(l@),
                o == InputColumn::views(outer@),
                start == old(self)@,
                first == InputColumn::views(local@),
                solve_joins(v, o, catalog@, depth, 0, first, start) == solve_joins(
                    v,
                    o,
                    catalog@,
                    depth,
                    i as int,
                    InputColumn::views(now@),
                    self@,
                ),
        {
            assert(v[i as int] == l@[i as int]@);
            proof {
                l@[i as int].unfold();
                unfold_solve_joins(v, o, catalog@, depth, i as int, InputColumn::views(now@), self@);
            }
            now = self.collect_source(&l[i].source, l[i].kind == JoinKind::Left, outer, catalog, depth, now)?;
            let inputs = inputs_with_outer(&now, outer)?;
            self.collect_expr(&l[i].on, Some(&ScalarType::Boolean), &inputs, catalog, depth)?;
        }
        proof {
            unfold_solve_joins(v, o, catalog@, depth, l@.len() as int, InputColumn::views(now@), self@);
        }
        Ok(now)
    }

    fn collect_page(
        &mut self,
        order_by: &Vec<ParsedOrder>,
        offset: &Option<ParsedExpr>,
        limit: &Option<ParsedExpr>,
        inputs: &Vec<InputColumn>,
        catalog: &Catalog,
        depth: usize,
    ) -> (r: Result<()>)
        ensures
            grown(old(self)@, final(self)@),
            (final(self)@, check_result(r)) == solve_page(
                ParsedOrder::views(order_by@),
                some_view(*offset),
                some_view(*limit),
                InputColumn::views(inputs@),
                catalog@,
                depth,
                old(self)@,
            ),
        decreases 64 - depth, 7int, 0int,
    {
        proof {
            unfold_solve_page(
                ParsedOrder::views(order_by@),
                some_view(*offset),
                some_view(*limit),
                InputColumn::views(inputs@),
                catalog@,
                depth,
                self@,
            );
        }
        self.collect_orders(order_by, inputs, catalog, depth)?;
        self.collect_some(offset, Some(&ScalarType::Int64), inputs, catalog, depth)?;
        self.collect_some(limit, Some(&ScalarType::Int64), inputs, catalog, depth)
    }

    fn collect_advanced(
        &mut self,
        parts: &SelectParts,
        outer: &Vec<InputColumn>,
        expected: Option<&Vec<Option<ScalarType>>>,
        catalog: &Catalog,
        depth: usize,
    ) -> (r: Result<Vec<Option<ScalarType>>>)
        ensures
            grown(old(self)@, final(self)@),
            (final(self)@, types_result(r)) == solve_advanced(
                parts@,
                InputColumn::views(outer@),
                expected_view(expected),
                catalog@,
                depth,
                old(self)@,
            ),
        decreases 64 - depth, 8int, 0int,
    {
        proof {
            unfold_solve_advanced(parts@, InputColumn::views(outer@), expected_view(expected), catalog@, depth, self@);
        }
        let own = parameter_relation_inputs(&parts.table.name, &parts.table.alias, catalog, false, no_inputs())?;
        let local = self.collect_joins(parts.joins, outer, catalog, depth, own)?;
        let inputs = inputs_with_outer(&local, outer)?;
        let inputs = &inputs;
        self.collect_some(parts.filter, Some(&ScalarType::Boolean), inputs, catalog, depth)?;
        self.collect_each(parts.group_by, None, inputs, catalog, depth)?;
        self.collect_some(parts.having, Some(&ScalarType::Boolean), inputs, catalog, depth)?;
        self.collect_page(parts.order_by, parts.offset, parts.limit, inputs, catalog, depth)?;
        self.collect_projection(parts.projection, expected, &local, catalog, depth)
    }

    fn collect_select(
        &mut self,
        parts: &SelectParts,
        outer: &Vec<InputColumn>,
        expected: Option<&Vec<Option<ScalarType>>>,
        catalog: &Catalog,
        depth: usize,
    ) -> (r: Result<Vec<Option<ScalarType>>>)
        ensures
            grown(old(self)@, final(self)@),
            (final(self)@, types_result(r)) == solve_select(
                parts@,
                InputColumn::views(outer@),
                expected_view(expected),
                catalog@,
                depth,
                old(self)@,
            ),
        decreases 64 - depth, 8int, 0int,
    {
        proof {
            unfold_solve_select(parts@, InputColumn::views(outer@), expected_view(expected), catalog@, depth, self@);
        }
        let local = parameter_relation_inputs(&parts.table.name, &None, catalog, false, no_inputs())?;
        let inputs = inputs_with_outer(&local, outer)?;
        let inputs = &inputs;
        self.collect_some(parts.filter, Some(&ScalarType::Boolean), inputs, catalog, depth)?;
        self.collect_page(parts.order_by, parts.offset, parts.limit, inputs, catalog, depth)?;
        self.collect_projection(parts.projection, expected, inputs, catalog, depth)
    }

    fn collect_pair(
        &mut self,
        left: &ParsedStatement,
        right: &ParsedStatement,
        expected: Option<&Vec<Option<ScalarType>>>,
        outer: &Vec<InputColumn>,
        catalog: &Catalog,
        depth: usize,
    ) -> (r: Result<(Vec<Option<ScalarType>>, Vec<Option<ScalarType>>)>)
        ensures
            grown(old(self)@, final(self)@),
            (final(self)@, pair_result(r)) == solve_pair(
                left@,
                right@,
                expected_view(expected),
                InputColumn::views(outer@),
                catalog@,
                depth,
                old(self)@,
            ),
        decreases 64 - depth, 7int, 0int,
    {
        proof {
            unfold_solve_pair(left@, right@, expected_view(expected), InputColumn::views(outer@), catalog@, depth, self@);
        }
        let a = self.collect_nested(left, expected, outer, catalog, depth)?;
        let b = self.collect_nested(right, expected, outer, catalog, depth)?;
        Ok((a, b))
    }

    fn collect_set(
        &mut self,
        left: &ParsedStatement,
        right: &ParsedStatement,
        offset: &Option<ParsedExpr>,
        limit: &Option<ParsedExpr>,
        outer: &Vec<InputColumn>,
        expected: Option<&Vec<Option<ScalarType>>>,
        catalog: &Catalog,
        depth: usize,
    ) -> (r: Result<Vec<Option<ScalarType>>>)
        ensures
            grown(old(self)@, final(self)@),
            (final(self)@, types_result(r)) == solve_set(
                left@,
                right@,
                some_view(*offset),
                some_view(*limit),
                InputColumn::views(outer@),
                expected_view(expected),
                catalog@,
                depth,
                old(self)@,
            ),
        decreases 64 - depth, 8int, 0int,
    {
        proof {
            unfold_solve_set(
                left@,
                right@,
                some_view(*offset),
                some_view(*limit),
                InputColumn::views(outer@),
                expected_view(expected),
                catalog@,
                depth,
                self@,
            );
        }
        let (a, b) = self.collect_pair(left, right, expected, outer, catalog, depth)?;
        let (a, b) = if a.len() == b.len() {
            let met = meet_outputs(&a, &b);
            self.collect_pair(left, right, Some(&met), outer, catalog, depth)?
        } else {
            (a, b)
        };
        let none = no_inputs();
        self.collect_some(offset, Some(&ScalarType::Int64), &none, catalog, depth)?;
        self.collect_some(limit, Some(&ScalarType::Int64), &none, catalog, depth)?;
        Ok(meet_outputs(&a, &b))
    }

    fn collect_cte(
        &mut self,
        cte: &ParsedCte,
        recursive: bool,
        schema: &Identifier,
        depth: usize,
        state: WithTypes,
    ) -> (r: Result<WithTypes>)
        ensures
            grown(old(self)@, final(self)@),
            (final(self)@, with_result(r)) == solve_cte(cte@, recursive, schema@, depth, state@, old(self)@),
        decreases 64 - depth, 7int, 0int,
    {
        proof {
            unfold_solve_cte(cte@, recursive, schema@, depth, state@, self@);
        }
        let terms = match find_terms(cte, recursive, &state.replacements)? {
            None => {
                let none: Vec<Option<ScalarType>> = Vec::new();
                assert(type_views(none@) =~= Seq::empty());
                return Ok(WithTypes { early: Some(none), ..state });
            },
            Some(terms) => terms,
        };
        let none = no_inputs();
        let types = self.collect_nested(&terms.seed, None, &none, &state.catalog, depth)?;
        let output = match self.try_statement_schema(&terms.seed, &state.catalog, &none, depth) {
            None => {
                return Ok(WithTypes { early: Some(types), ..state });
            },
            Some(output) => output,
        };
        let (next, output) = make_relation(cte, output, schema, state)?;
        match &terms.term {
            None => Ok(next),
            Some(term) => {
                let term = rewrite_cte_references(term, &next.replacements, 0)?;
                let hint = types_of_fields(&output.fields);
                self.collect_nested(&term, Some(&hint), &none, &next.catalog, depth)?;
                Ok(next)
            },
        }
    }

    fn collect_ctes(
        &mut self,
        l: &Vec<ParsedCte>,
        recursive: bool,
        schema: &Identifier,
        depth: usize,
        state: WithTypes,
    ) -> (r: Result<WithTypes>)
        ensures
            grown(old(self)@, final(self)@),
            (final(self)@, with_result(r)) == solve_ctes(ParsedCte::views(l@), recursive, schema@, depth, 0, state@, old(self)@),
        decreases 64 - depth, 8int, 0int,
    {
        let ghost v = ParsedCte::views(l@);
        let ghost first = state@;
        let ghost start = self@;
        let mut now: WithTypes = state;
        for i in 0..l.len()
            invariant
                grown(old(self)@, self@),
                v == ParsedCte::views(l@),
                start == old(self)@,
                first == state@,
                solve_ctes(v, recursive, schema@, depth, 0, first, start) == solve_ctes(
                    v,
                    recursive,
                    schema@,
                    depth,
                    i as int,
                    now@,
                    self@,
                ),
        {
            assert(v[i as int] == l@[i as int]@);
            proof {
                unfold_solve_ctes(v, recursive, schema@, depth, i as int, now@, self@);
            }
            if now.early.is_some() {
                return Ok(now);
            }
            now = self.collect_cte(&l[i], recursive, schema, depth, now)?;
        }
        proof {
            unfold_solve_ctes(v, recursive, schema@, depth, l@.len() as int, now@, self@);
        }
        Ok(now)
    }

    /// Learns from a statement with WITH queries, and tells its output types.
    pub fn collect_with_statement(
        &mut self,
        recursive: bool,
        ctes: &Vec<ParsedCte>,
        body: &ParsedStatement,
        expected: Option<&Vec<Option<ScalarType>>>,
        catalog: &Catalog,
        depth: usize,
    ) -> (r: Result<Vec<Option<ScalarType>>>)
        ensures
            grown(old(self)@, final(self)@),
            (final(self)@, types_result(r)) == solve_with(
                recursive,
                ParsedCte::views(ctes@),
                body@,
                expected_view(expected),
                catalog@,
                depth,
                old(self)@,
            ),
        decreases 64 - depth, 9int, 0int,
    {
        proof {
            unfold_solve_with(recursive, ParsedCte::views(ctes@), body@, expected_view(expected), catalog@, depth, self@);
        }
        let schema = make_solver_namespace(depth);
        let transient = make_solver_catalog(catalog, &schema, depth)?;
        let replacements: Vec<Replacement> = Vec::new();
        assert(Replacement::views(replacements@) =~= Seq::empty());
        let state = self.collect_ctes(ctes, recursive, &schema, depth, WithTypes { catalog: transient, replacements, early: None })?;
        match state.early {
            Some(types) => Ok(types),
            None => {
                let body = rewrite_cte_references(body, &state.replacements, 0)?;
                self.collect_nested(&body, expected, &no_inputs(), &state.catalog, depth)
            },
        }
    }

    fn collect_insert(
        &mut self,
        table: &ParsedObjectName,
        columns: &Vec<ParsedIdentifier>,
        rows: &Vec<Vec<ParsedExpr>>,
        on_conflict: &Option<ParsedOnConflict>,
        returning: &Vec<ParsedProjection>,
        expected: Option<&Vec<Option<ScalarType>>>,
        catalog: &Catalog,
        depth: usize,
    ) -> (r: Result<Vec<Option<ScalarType>>>)
        ensures
            grown(old(self)@, final(self)@),
            (final(self)@, types_result(r)) == solve_insert(
                table@,
                ParsedIdentifier::views(columns@),
                expr_rows(rows@),
                conflict_view(*on_conflict),
                ParsedProjection::views(returning@),
                expected_view(expected),
                catalog@,
                depth,
                old(self)@,
            ),
        decreases 64 - depth, 8int, 0int,
    {
        proof {
            unfold_solve_insert(
                table@,
                ParsedIdentifier::views(columns@),
                expr_rows(rows@),
                conflict_view(*on_conflict),
                ParsedProjection::views(returning@),
                expected_view(expected),
                catalog@,
                depth,
                self@,
            );
        }
        let relation = resolve_dml_relation(table, TriggerEvent::Insert, catalog)?;
        let table = &relation.scope;
        let indexes = parameter_target_columns(columns, table)?;
        self.collect_rows(rows, &indexes, table, &no_inputs(), catalog, depth)?;
        if let Some(on) = on_conflict {
            if let DmlTarget::View(_) = relation.target {
                return Err(unsupported("ON CONFLICT is not supported for view DML"));
            }
            self.collect_on_conflict(on, table, catalog, depth)?;
        }
        let inputs = table_inputs(&table.name, table);
        self.collect_projection(returning, expected, &inputs, catalog, depth)
    }

    /// Learns from a statement, and tells its output types.
    pub fn collect_statement(
        &mut self,
        statement: &ParsedStatement,
        catalog: &Catalog,
        outer: &Vec<InputColumn>,
        expected: Option<&Vec<Option<ScalarType>>>,
        depth: usize,
    ) -> (r: Result<Vec<Option<ScalarType>>>)
        ensures
            grown(old(self)@, final(self)@),
            (final(self)@, types_result(r)) == solve_statement(
                statement@,
                catalog@,
                InputColumn::views(outer@),
                expected_view(expected),
                depth,
                old(self)@,
            ),
        decreases 64 - depth, 10int, 0int,
    {
        proof {
            unfold_solve_statement(statement@, catalog@, InputColumn::views(outer@), expected_view(expected), depth, self@);
        }
        proof {
            statement.unfold();
        }
        if depth >= 64 {
            return Err(nested_too_deeply());
        }
        match statement {
            ParsedStatement::Select { table, projection, filter, order_by, offset, limit } => {
                let table = ParsedTable { name: table.clone(), alias: None };
                let joins: Vec<ParsedJoin> = Vec::new();
                let group_by: Vec<ParsedExpr> = Vec::new();
                assert(ParsedJoin::views(joins@) =~= Seq::empty());
                assert(ParsedExpr::views(group_by@) =~= Seq::empty());
                let parts = SelectParts {
                    table: &table,
                    joins: &joins,
                    projection,
                    distinct: false,
                    filter,
                    group_by: &group_by,
                    having: &None,
                    order_by,
                    offset,
                    limit,
                };
                self.collect_select(&parts, outer, expected, catalog, depth)
            },
            ParsedStatement::AdvancedSelect { table, joins, projection, distinct, filter, group_by, having, order_by, offset, limit } => {
                let parts = SelectParts {
                    table,
                    joins,
                    projection,
                    distinct: *distinct,
                    filter,
                    group_by,
                    having,
                    order_by,
                    offset,
                    limit,
                };
                self.collect_advanced(&parts, outer, expected, catalog, depth)
            },
            ParsedStatement::SetOperation { left, right, offset, limit, .. } => self.collect_set(
                left,
                right,
                offset,
                limit,
                outer,
                expected,
                catalog,
                depth,
            ),
            ParsedStatement::With { recursive, ctes, body } => self.collect_with_statement(
                *recursive,
                ctes,
                body,
                expected,
                catalog,
                depth,
            ),
            ParsedStatement::Insert { table, columns, rows, on_conflict, returning } => self.collect_insert(
                table,
                columns,
                rows,
                on_conflict,
                returning,
                expected,
                catalog,
                depth,
            ),
            ParsedStatement::Update { table, assignments, filter, returning } => {
                let relation = resolve_dml_relation(table, TriggerEvent::Update, catalog)?;
                let table = &relation.scope;
                let inputs = table_inputs(&table.name, table);
                self.collect_assignments(assignments, table, &inputs, catalog, depth)?;
                self.collect_some(filter, Some(&ScalarType::Boolean), &inputs, catalog, depth)?;
                self.collect_projection(returning, expected, &inputs, catalog, depth)
            },
            ParsedStatement::Delete { table, filter, returning } => {
                let relation = resolve_dml_relation(table, TriggerEvent::Delete, catalog)?;
                let table = &relation.scope;
                let inputs = table_inputs(&table.name, table);
                self.collect_some(filter, Some(&ScalarType::Boolean), &inputs, catalog, depth)?;
                self.collect_projection(returning, expected, &inputs, catalog, depth)
            },
            ParsedStatement::Merge(merge) => self.collect_merge(merge, expected, catalog, depth),
            ParsedStatement::Explain { statement } => self.collect_nested(statement, expected, outer, catalog, depth),
            ParsedStatement::CreateView { query, .. } => self.collect_nested(query, expected, outer, catalog, depth),
            ParsedStatement::Call { name, arguments, .. } => self.collect_routine_arguments(name, arguments, catalog, depth),
            ParsedStatement::RoutineSelect { name, arguments, .. } => self.collect_routine_arguments(name, arguments, catalog, depth),
            ParsedStatement::ScalarSelect { projection } => self.collect_projection(projection, expected, &no_inputs(), catalog, depth),
            ParsedStatement::SequenceValue { operation, .. } => {
                proof {
                    operation.unfold();
                }
                if let ParsedSequenceOperation::SetValue { value, .. } = operation {
                    self.collect_expr(value, Some(&ScalarType::Int64), &no_inputs(), catalog, depth)?;
                }
                Ok(no_types())
            },
            _ => Ok(no_types()),
        }
    }

}

} // verus!
